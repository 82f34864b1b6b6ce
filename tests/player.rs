use minim::player::{Effect, Key, KeyCode, KeyOutcome, MainPanelView, Message, Model, Modifiers, PanelFocus};
use minim::queue::SinkAction;
use minim::Track;

fn song(path: &str, title: &str, artist: &str) -> Track {
    Track {
        path: path.to_string(),
        title: Some(title.to_string()),
        artist: Some(artist.to_string()),
        album: None,
        duration: 30,
    }
}

fn key(code: KeyCode, modifiers: Modifiers) -> Key {
    Key { code, modifiers }
}

fn model() -> Model {
    Model::new(
        vec![song("/m/2", "Two", "Beta"), song("/m/1", "One", "Alpha"), song("/m/3", "Three", "Alpha")],
        true,
    )
}

#[test]
fn library_is_sorted_by_artist_album_title() {
    let m = model();
    let paths: Vec<String> = m.tracks().iter().map(|t| t.path.clone()).collect();
    assert_eq!(paths, vec!["/m/1", "/m/3", "/m/2"]);
    assert_eq!(m.volume_percentage(), 50);
    assert_eq!(m.player_state().focus, PanelFocus::MainPanel);
}

#[test]
fn volume_is_capped() {
    let mut m = model();
    assert!(matches!(m.update(Message::VolumeUp(5)), Effect::SetVolume(55)));
    assert!(matches!(m.update(Message::VolumeUp(usize::MAX)), Effect::SetVolume(100)));
    assert!(matches!(m.update(Message::VolumeDown(30)), Effect::SetVolume(70)));
    assert!(matches!(m.update(Message::VolumeDown(500)), Effect::SetVolume(0)));
    assert_eq!(m.volume_percentage(), 0);
}

#[test]
fn queue_messages_drive_the_sink() {
    let mut m = model();
    let t = m.tracks()[0].clone();
    match m.update(Message::QueueTrack(t)) {
        Effect::Sink(SinkAction::Play { track, .. }) => assert_eq!(track.path, "/m/1"),
        other => panic!("unexpected effect {other:?}"),
    }
    assert_eq!(m.now_playing().map(|t| t.path), Some("/m/1".to_string()));
    assert!(matches!(m.update(Message::RemoveFromQueue(4)), Effect::Nothing));
    assert!(matches!(m.update(Message::NextTrack), Effect::Sink(SinkAction::Stop)));
}

#[test]
fn keys_map_to_messages() {
    let mut m = model();
    assert!(matches!(m.handle_key_event(key(KeyCode::Char('q'), Modifiers::Plain)), KeyOutcome::Send(Message::Quit)));
    assert!(matches!(m.handle_key_event(key(KeyCode::Char('j'), Modifiers::Control)), KeyOutcome::Send(Message::VolumeDown(5))));
    assert!(matches!(m.handle_key_event(key(KeyCode::Down, Modifiers::Plain)), KeyOutcome::Send(Message::SelectLibraryRow(1))));
    assert!(matches!(m.handle_key_event(key(KeyCode::Up, Modifiers::Plain)), KeyOutcome::Send(Message::SelectLibraryRow(2))));
    assert!(matches!(m.handle_key_event(key(KeyCode::End, Modifiers::Plain)), KeyOutcome::Send(Message::SelectLibraryRow(2))));
    match m.handle_key_event(key(KeyCode::Enter, Modifiers::Alt)) {
        KeyOutcome::Send(Message::QueueTrackNext(t)) => assert_eq!(t.path, "/m/1"),
        _ => panic!("alt-enter should queue next"),
    }
    m.update(Message::FocusSearchBar);
    assert_eq!(m.player_state().main_panel_view, MainPanelView::SearchInput);
    assert!(matches!(m.handle_key_event(key(KeyCode::Char('q'), Modifiers::Plain)), KeyOutcome::EditSearch));
    assert!(matches!(m.handle_key_event(key(KeyCode::Esc, Modifiers::Plain)), KeyOutcome::Send(Message::FocusLibrary)));
}

#[test]
fn sidebar_needs_a_queue() {
    let mut m = model();
    assert!(matches!(m.update(Message::FocusSidebar), Effect::Nothing));
    assert_eq!(m.player_state().focus, PanelFocus::MainPanel);
    let t = m.tracks()[1].clone();
    m.update(Message::QueueTrack(t));
    assert!(matches!(m.update(Message::FocusSidebar), Effect::RedrawImage));
    assert_eq!(m.sidebar_row(), Some(0));
    assert!(matches!(m.handle_key_event(key(KeyCode::Char('d'), Modifiers::Plain)), KeyOutcome::Send(Message::RemoveFromQueue(0))));
}

#[test]
fn search_through_messages() {
    let mut m = model();
    m.update(Message::FocusSearchBar);
    m.update(Message::SetSearchQuery("alpha".to_string()));
    while !m.search().is_done() {
        m.update(Message::PollSearch);
    }
    let found: Vec<String> = m.search().results().iter().map(|t| t.path.clone()).collect();
    assert_eq!(found, vec!["/m/1", "/m/3"]);
    m.update(Message::ShowSearchResults);
    match m.handle_key_event(key(KeyCode::Enter, Modifiers::Plain)) {
        KeyOutcome::Send(Message::QueueTrack(t)) => assert_eq!(t.path, "/m/1"),
        _ => panic!("enter should queue the selected result"),
    }
}

#[test]
fn art_request_is_taken_once() {
    let mut m = model();
    assert_eq!(m.take_art_request().map(|t| t.path), Some("/m/1".to_string()));
    assert!(m.take_art_request().is_none());
    m.update(Message::SelectLibraryRow(2));
    assert_eq!(m.take_art_request().map(|t| t.path), Some("/m/2".to_string()));
    m.update(Message::ToggleTrackArt);
    m.update(Message::SelectLibraryRow(1));
    assert!(m.take_art_request().is_none());
}
