use minim::search::{SearchIndex, POLL_QUANTUM};
use minim::Track;

fn song(path: &str, title: &str, artist: &str) -> Track {
    Track {
        path: path.to_string(),
        title: Some(title.to_string()),
        artist: Some(artist.to_string()),
        album: None,
        duration: 100,
    }
}

fn index_of(tracks: &[Track]) -> SearchIndex {
    let mut s = SearchIndex::new();
    for t in tracks {
        s.push(t.clone());
    }
    s
}

fn paths(v: &[Track]) -> Vec<String> {
    v.iter().map(|t| t.path.clone()).collect()
}

fn library() -> Vec<Track> {
    vec![
        song("/m/1.mp3", "Learn to Fly", "Foo Fighters"),
        song("/m/2.mp3", "Yellow", "Coldplay"),
        song("/m/3.mp3", "Food Song", "Band"),
        song("/m/4.mp3", "Other", "Nobody"),
    ]
}

fn poll_until_done(s: &mut SearchIndex) {
    while !s.is_done() {
        s.poll();
    }
}

#[test]
fn empty_query_lists_whole_library_in_order() {
    let lib = library();
    let mut s = index_of(&lib);
    s.poll();
    assert!(s.is_done());
    assert_eq!(paths(&s.results()), paths(&lib));
}

#[test]
fn query_matches_any_column() {
    let mut s = index_of(&library());
    s.set_query("foo");
    assert!(s.results().is_empty());
    poll_until_done(&mut s);
    let found = paths(&s.results());
    assert!(found.contains(&"/m/1.mp3".to_string()));
    assert!(found.contains(&"/m/3.mp3".to_string()));
    assert!(!found.contains(&"/m/2.mp3".to_string()));
    assert!(!found.contains(&"/m/4.mp3".to_string()));
    assert_eq!(s.result_count(), found.len());
}

#[test]
fn query_round_trip_restores_empty_query_results() {
    let lib = library();
    let mut s = index_of(&lib);
    poll_until_done(&mut s);
    let before = paths(&s.results());
    s.set_query("foo");
    poll_until_done(&mut s);
    assert_ne!(paths(&s.results()), before);
    s.set_query("");
    poll_until_done(&mut s);
    assert_eq!(paths(&s.results()), before);
}

#[test]
fn polls_after_done_change_nothing() {
    let mut s = index_of(&library());
    s.set_query("o");
    poll_until_done(&mut s);
    let first = paths(&s.results());
    s.poll();
    let second = paths(&s.results());
    assert_eq!(first, second);
}

#[test]
fn poll_scores_a_bounded_number_of_tracks() {
    let lib: Vec<Track> = (0..POLL_QUANTUM + 10)
        .map(|i| song(&format!("/m/{i}.mp3"), "Same", "Artist"))
        .collect();
    let mut s = index_of(&lib);
    s.poll();
    assert!(!s.is_done());
    assert_eq!(s.result_count(), POLL_QUANTUM);
    s.poll();
    assert!(s.is_done());
    assert_eq!(s.result_count(), POLL_QUANTUM + 10);
}

#[test]
fn equal_scores_keep_library_order() {
    let lib = vec![
        song("/m/a.mp3", "abc", "x"),
        song("/m/b.mp3", "abc", "y"),
        song("/m/c.mp3", "abc", "z"),
    ];
    let mut s = index_of(&lib);
    s.set_query("abc");
    poll_until_done(&mut s);
    assert_eq!(paths(&s.results()), paths(&lib));
    assert_eq!(s.result(1).map(|t| t.path), Some("/m/b.mp3".to_string()));
    assert!(s.result(3).is_none());
}

#[test]
fn better_match_ranks_first() {
    let lib = vec![
        song("/m/a.mp3", "a xx b xx c", "x"),
        song("/m/b.mp3", "abc", "y"),
    ];
    let mut s = index_of(&lib);
    s.set_query("abc");
    poll_until_done(&mut s);
    assert_eq!(paths(&s.results()), vec!["/m/b.mp3", "/m/a.mp3"]);
}

#[test]
fn new_query_discards_partial_scan() {
    let lib: Vec<Track> = (0..POLL_QUANTUM + 1)
        .map(|i| song(&format!("/m/{i}.mp3"), "Song", "Artist"))
        .collect();
    let mut s = index_of(&lib);
    s.poll();
    assert_eq!(s.result_count(), POLL_QUANTUM);
    s.set_query("zzzz");
    assert_eq!(s.result_count(), 0);
    poll_until_done(&mut s);
    assert_eq!(s.result_count(), 0);
}
