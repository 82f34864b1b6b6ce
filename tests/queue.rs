use minim::queue::{PlaybackQueue, QueueCommand, QueueError, RepeatMode, RowMark, SinkAction, Trigger};
use minim::Track;

fn track(path: &str) -> Track {
    Track {
        path: path.to_string(),
        title: Some(path.to_string()),
        artist: None,
        album: None,
        duration: 60,
    }
}

fn played(action: &SinkAction) -> Option<(String, u64)> {
    match action {
        SinkAction::Play { track, ticket } => Some((track.path.clone(), *ticket)),
        _ => None,
    }
}

fn ticket_of(action: &SinkAction) -> u64 {
    played(action).expect("a track should start").1
}

fn queue_of(paths: &[&str]) -> (PlaybackQueue, u64) {
    let mut q = PlaybackQueue::new();
    let mut ticket = 0;
    for (i, p) in paths.iter().enumerate() {
        let a = q.enqueue(track(p));
        if i == 0 {
            ticket = ticket_of(&a);
        } else {
            assert!(matches!(a, SinkAction::Keep));
        }
    }
    (q, ticket)
}

#[test]
fn first_enqueue_starts_playback() {
    let mut q = PlaybackQueue::new();
    assert!(q.now_playing().is_none());
    let a = q.enqueue(track("a"));
    assert_eq!(played(&a).map(|p| p.0), Some("a".to_string()));
    assert_eq!(q.cursor(), 0);
    assert_eq!(q.now_playing().map(|t| t.path), Some("a".to_string()));
}

#[test]
fn queue_mode_wraps_after_three_completions() {
    let (mut q, mut ticket) = queue_of(&["A", "B", "C"]);
    q.set_repeat_mode(RepeatMode::Queue);
    let mut cursors = Vec::new();
    for _ in 0..3 {
        let a = q.advance_to_next(Trigger::Finished(ticket));
        ticket = ticket_of(&a);
        cursors.push(q.cursor());
    }
    assert_eq!(cursors, vec![1, 2, 0]);
    assert_eq!(q.now_playing().map(|t| t.path), Some("A".to_string()));
}

#[test]
fn enqueue_next_then_completion_plays_inserted_track() {
    let (mut q, ticket) = queue_of(&["A", "B"]);
    let a = q.enqueue_next(track("X"));
    assert!(matches!(a, SinkAction::Keep));
    assert_eq!(q.insertion_offset(), 1);
    let a = q.advance_to_next(Trigger::Finished(ticket));
    assert_eq!(played(&a).map(|p| p.0), Some("X".to_string()));
    let paths: Vec<String> = q.entries().into_iter().map(|t| t.path).collect();
    assert_eq!(paths, vec!["A", "X", "B"]);
    assert_eq!(q.cursor(), 1);
    assert_eq!(q.insertion_offset(), 0);
}

#[test]
fn enqueue_next_keeps_insertion_order() {
    let (mut q, _) = queue_of(&["A", "B"]);
    q.enqueue_next(track("X"));
    q.enqueue_next(track("Y"));
    let paths: Vec<String> = q.entries().into_iter().map(|t| t.path).collect();
    assert_eq!(paths, vec!["A", "X", "Y", "B"]);
    assert_eq!(q.row_mark(0), RowMark::Playing);
    assert_eq!(q.row_mark(1), RowMark::PlayNext);
    assert_eq!(q.row_mark(2), RowMark::PlayNext);
    assert_eq!(q.row_mark(3), RowMark::Plain);
}

#[test]
fn enqueue_next_on_empty_queue_starts_it() {
    let mut q = PlaybackQueue::new();
    let a = q.enqueue_next(track("X"));
    assert_eq!(played(&a).map(|p| p.0), Some("X".to_string()));
    assert_eq!(q.cursor(), 0);
    assert_eq!(q.len(), 1);
    assert_eq!(q.insertion_offset(), 0);
}

#[test]
fn single_mode_completion_replays_same_track() {
    let (mut q, mut ticket) = queue_of(&["A", "B", "C"]);
    q.set_repeat_mode(RepeatMode::Single);
    for _ in 0..4 {
        let a = q.advance_to_next(Trigger::Finished(ticket));
        let (path, t) = played(&a).expect("the track should start again");
        assert_eq!(path, "A");
        assert_ne!(t, ticket);
        ticket = t;
        assert_eq!(q.cursor(), 0);
    }
}

#[test]
fn single_mode_skips_move_on_and_stop_at_end() {
    let (mut q, _) = queue_of(&["A", "B", "C"]);
    q.set_repeat_mode(RepeatMode::Single);
    let a = q.advance_to_next(Trigger::Skip);
    assert_eq!(played(&a).map(|p| p.0), Some("B".to_string()));
    let a = q.advance_to_next(Trigger::Skip);
    assert_eq!(played(&a).map(|p| p.0), Some("C".to_string()));
    let a = q.advance_to_next(Trigger::Skip);
    assert!(matches!(a, SinkAction::Stop));
    assert_eq!(q.cursor(), 3);
    let a = q.advance_to_next(Trigger::Skip);
    assert!(matches!(a, SinkAction::Stop));
    assert_eq!(q.cursor(), 3);
}

#[test]
fn off_mode_completion_stops_after_last() {
    let (mut q, ticket) = queue_of(&["A"]);
    let a = q.advance_to_next(Trigger::Finished(ticket));
    assert!(matches!(a, SinkAction::Stop));
    assert_eq!(q.cursor(), 1);
    assert!(q.now_playing().is_none());
    let a = q.enqueue(track("B"));
    assert_eq!(played(&a).map(|p| p.0), Some("B".to_string()));
    assert_eq!(q.cursor(), 1);
}

#[test]
fn stale_completion_is_ignored() {
    let (mut q, old_ticket) = queue_of(&["A", "B", "C"]);
    let a = q.advance_to_previous();
    let new_ticket = ticket_of(&a);
    assert_ne!(new_ticket, old_ticket);
    let a = q.advance_to_next(Trigger::Finished(old_ticket));
    assert!(matches!(a, SinkAction::Keep));
    assert_eq!(q.cursor(), 0);
    let a = q.advance_to_next(Trigger::Finished(new_ticket));
    assert_eq!(played(&a).map(|p| p.0), Some("B".to_string()));
}

#[test]
fn unplayable_track_is_passed_over_without_wrapping() {
    let (mut q, ticket) = queue_of(&["A", "B"]);
    q.set_repeat_mode(RepeatMode::Queue);
    let a = q.advance_to_next(Trigger::Unplayable(ticket));
    let t = ticket_of(&a);
    assert_eq!(q.cursor(), 1);
    let a = q.advance_to_next(Trigger::Unplayable(t));
    assert!(matches!(a, SinkAction::Stop));
    assert_eq!(q.cursor(), 2);
}

#[test]
fn previous_stays_on_first() {
    let (mut q, _) = queue_of(&["A", "B"]);
    let a = q.advance_to_previous();
    assert_eq!(played(&a).map(|p| p.0), Some("A".to_string()));
    assert_eq!(q.cursor(), 0);
    q.advance_to_next(Trigger::Skip);
    let a = q.advance_to_previous();
    assert_eq!(played(&a).map(|p| p.0), Some("A".to_string()));
}

#[test]
fn removing_playing_entry_plays_the_next() {
    let (mut q, _) = queue_of(&["A", "B", "C"]);
    let a = q.remove(0).unwrap();
    assert_eq!(played(&a).map(|p| p.0), Some("B".to_string()));
    assert_eq!(q.cursor(), 0);
    assert_eq!(q.now_playing().map(|t| t.path), Some("B".to_string()));
}

#[test]
fn removing_last_playing_entry_stops() {
    let (mut q, _) = queue_of(&["A"]);
    q.set_repeat_mode(RepeatMode::Queue);
    let a = q.remove(0).unwrap();
    assert!(matches!(a, SinkAction::Stop));
    assert_eq!(q.len(), 0);
    assert_eq!(q.cursor(), 0);
    assert!(q.now_playing().is_none());
}

#[test]
fn removing_playing_tail_in_queue_mode_wraps() {
    let (mut q, _) = queue_of(&["A", "B", "C"]);
    q.set_repeat_mode(RepeatMode::Queue);
    q.advance_to_next(Trigger::Skip);
    q.advance_to_next(Trigger::Skip);
    assert_eq!(q.cursor(), 2);
    let a = q.remove(2).unwrap();
    assert_eq!(played(&a).map(|p| p.0), Some("A".to_string()));
    assert_eq!(q.cursor(), 0);
}

#[test]
fn removing_earlier_entry_keeps_playing_track() {
    let (mut q, _) = queue_of(&["A", "B", "C"]);
    q.advance_to_next(Trigger::Skip);
    let a = q.remove(0).unwrap();
    assert!(matches!(a, SinkAction::Keep));
    assert_eq!(q.cursor(), 0);
    assert_eq!(q.now_playing().map(|t| t.path), Some("B".to_string()));
}

#[test]
fn removing_out_of_range_is_refused() {
    let (mut q, _) = queue_of(&["A"]);
    assert!(matches!(q.remove(1), Err(QueueError::IndexOutOfRange)));
    assert_eq!(q.len(), 1);
    let mut empty = PlaybackQueue::new();
    assert!(matches!(empty.remove(0), Err(QueueError::IndexOutOfRange)));
}

#[test]
fn cycle_repeat_mode_goes_round() {
    let mut q = PlaybackQueue::new();
    assert_eq!(q.repeat_mode(), RepeatMode::Off);
    q.cycle_repeat_mode();
    assert_eq!(q.repeat_mode(), RepeatMode::Queue);
    q.cycle_repeat_mode();
    assert_eq!(q.repeat_mode(), RepeatMode::Single);
    q.cycle_repeat_mode();
    assert_eq!(q.repeat_mode(), RepeatMode::Off);
}

#[test]
fn commands_keep_cursor_in_range() {
    let mut q = PlaybackQueue::new();
    let cmds = vec![
        QueueCommand::Enqueue(track("A")),
        QueueCommand::Advance(Trigger::Skip),
        QueueCommand::Remove(0),
        QueueCommand::Enqueue(track("B")),
        QueueCommand::EnqueueNext(track("C")),
        QueueCommand::SetRepeatMode(RepeatMode::Queue),
        QueueCommand::Advance(Trigger::Skip),
        QueueCommand::Remove(1),
        QueueCommand::Previous,
        QueueCommand::CycleRepeatMode,
        QueueCommand::Remove(5),
        QueueCommand::Remove(0),
        QueueCommand::Advance(Trigger::Skip),
    ];
    for c in cmds {
        let _ = q.apply(c);
        assert!(q.cursor() <= q.len());
    }
    assert_eq!(q.len(), 0);
}
