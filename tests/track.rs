use std::cmp::Ordering;

use minim::track::CachedField;
use minim::Track;

fn tagged(path: &str, title: Option<&str>, artist: Option<&str>, album: Option<&str>, duration: u64) -> Track {
    Track {
        path: path.to_string(),
        title: title.map(|s| s.to_string()),
        artist: artist.map(|s| s.to_string()),
        album: album.map(|s| s.to_string()),
        duration,
    }
}

#[test]
fn format_duration_pads_seconds() {
    assert_eq!(Track::format_duration(0), "0:00");
    assert_eq!(Track::format_duration(9), "0:09");
    assert_eq!(Track::format_duration(61), "1:01");
    assert_eq!(Track::format_duration(599), "9:59");
    assert_eq!(Track::format_duration(3600), "60:00");
    assert_eq!(Track::format_duration(u64::MAX), "307445734561825860:15");
}

#[test]
fn title_falls_back_to_file_name() {
    let t = tagged("/music/x/song.flac", None, None, None, 75);
    assert_eq!(t.cached_field_string(CachedField::Title), "song.flac");
    assert_eq!(t.cached_field_string(CachedField::Artist), "");
    assert_eq!(t.cached_field_string(CachedField::Duration), "1:15");
    let t = tagged("/music/x/song.flac", Some("Name"), Some("Who"), Some("Disc"), 5);
    assert_eq!(t.cached_field_string(CachedField::Title), "Name");
    assert_eq!(t.cached_field_string(CachedField::Artist), "Who");
    assert_eq!(t.cached_field_string(CachedField::Album), "Disc");
    assert_eq!(t.cached_field_string(CachedField::Year), "");
}

#[test]
fn tracks_are_equal_by_path() {
    let a = tagged("/m/a", Some("One"), None, None, 1);
    let b = tagged("/m/a", Some("Two"), None, None, 2);
    let c = tagged("/m/c", Some("One"), None, None, 1);
    assert!(a == b);
    assert!(a != c);
    let d = a.clone();
    assert_eq!(d.title, a.title);
    assert_eq!(d.path, a.path);
}

#[test]
fn compare_by_fields_uses_first_difference() {
    let a = tagged("/m/a", Some("Zed"), Some("Abba"), Some("Gold"), 10);
    let b = tagged("/m/b", Some("Alpha"), Some("Abba"), Some("Hits"), 5);
    let fields = vec![CachedField::Artist, CachedField::Album, CachedField::Title];
    assert_eq!(Track::compare_by_fields(&a, &b, fields.clone()), Ordering::Less);
    assert_eq!(Track::compare_by_fields(&b, &a, fields), Ordering::Greater);
    assert_eq!(Track::compare_by_fields(&a, &b, vec![CachedField::Title]), Ordering::Greater);
    assert_eq!(Track::compare_by_fields(&a, &b, vec![CachedField::Duration]), Ordering::Greater);
    assert_eq!(Track::compare_by_fields(&a, &b, vec![CachedField::Genre]), Ordering::Equal);
    assert_eq!(Track::compare_by_fields(&a, &b, vec![]), Ordering::Equal);
}

#[test]
fn missing_tag_sorts_first() {
    let a = tagged("/m/a", None, None, None, 10);
    let b = tagged("/m/b", Some("A"), None, None, 10);
    assert_eq!(Track::compare_by_fields(&a, &b, vec![CachedField::Title]), Ordering::Less);
    let c = tagged("/m/c", Some("ab"), None, None, 10);
    assert_eq!(Track::compare_by_fields(&b, &c, vec![CachedField::Title]), Ordering::Less);
}
