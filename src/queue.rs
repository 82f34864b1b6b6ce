//! The playback queue: an ordered list of tracks, a cursor on the one that
//! plays, a repeat policy, and the "play next" window right after the cursor.
//!
//! Every change goes through one method of [`PlaybackQueue`], which returns
//! the [`SinkAction`] that the audio output must perform. Each started track
//! carries a ticket; the end of a track is reported with its ticket, so a
//! report about a track that was already abandoned changes nothing.

use vstd::prelude::*;

use crate::track::Track;

verus! {

/// What happens when the playing track ends.
#[derive(Clone, Copy, Debug, PartialEq, Eq, Structural)]
pub enum RepeatMode {
    /// Go on with the next entry; stop after the last one.
    Off,
    /// Go on with the next entry; after the last one, start again at the first.
    Queue,
    /// Play the same entry again.
    Single,
}

/// What moves the cursor forward.
#[derive(Clone, Copy, Debug, PartialEq, Eq, Structural)]
pub enum Trigger {
    /// The user asked for the next track.
    Skip,
    /// The track started under this ticket played to its end.
    Finished(u64),
    /// The track started under this ticket could not be played.
    Unplayable(u64),
}

/// What the audio output has to do after a change of the queue.
#[derive(Clone, Debug)]
pub enum SinkAction {
    /// Leave the output as it is.
    Keep,
    /// Stop the output: nothing plays afterwards.
    Stop,
    /// Stop whatever plays and start `track`; its end is reported with `ticket`.
    Play { track: Track, ticket: u64 },
}

/// A command refused by the queue.
#[derive(Clone, Copy, Debug, PartialEq, Eq, Structural)]
pub enum QueueError {
    /// The index names no entry.
    IndexOutOfRange,
}

/// The mathematical value of a [`PlaybackQueue`].
pub struct QueueState {
    pub entries: Seq<Track>,
    /// Index of the playing entry; equal to the length when nothing plays.
    pub cursor: nat,
    pub mode: RepeatMode,
    /// How many entries right after the cursor were added with "play next"
    /// since the playing track started.
    pub offset: nat,
    /// The ticket of the most recently started track.
    pub ticket: u64,
}

impl QueueState {
    pub open spec fn is_playing(self) -> bool {
        self.cursor < self.entries.len()
    }

    /// The cursor stays within the entries, the "play next" window lies
    /// within the entries after it, and the window is empty while nothing plays.
    pub open spec fn wf(self) -> bool {
        &&& self.cursor <= self.entries.len()
        &&& self.is_playing() ==> self.cursor + self.offset < self.entries.len()
        &&& !self.is_playing() ==> self.offset == 0
    }

    /// The track that plays, if any.
    pub open spec fn now_playing(self) -> Option<Track> {
        if self.is_playing() {
            Some(self.entries[self.cursor as int])
        } else {
            None
        }
    }
}

/// The ticket that follows `t`; tickets wrap around.
pub open spec fn next_ticket(t: u64) -> u64 {
    if t == u64::MAX {
        0
    } else {
        (t + 1) as u64
    }
}

/// Playback moves to `cursor`: the entry there starts under a fresh ticket,
/// or, past the last entry, playback stops. Either way the "play next"
/// window is used up.
pub open spec fn start_at(q: QueueState, cursor: nat) -> (QueueState, SinkAction) {
    if cursor < q.entries.len() {
        let t = next_ticket(q.ticket);
        (
            QueueState { entries: q.entries, cursor, mode: q.mode, offset: 0, ticket: t },
            SinkAction::Play { track: q.entries[cursor as int], ticket: t },
        )
    } else {
        (
            QueueState {
                entries: q.entries,
                cursor: q.entries.len(),
                mode: q.mode,
                offset: 0,
                ticket: q.ticket,
            },
            SinkAction::Stop,
        )
    }
}

/// `track` is appended; if nothing played, it starts.
pub open spec fn after_enqueue(q: QueueState, track: Track) -> (QueueState, SinkAction) {
    let q2 = QueueState { entries: q.entries.push(track), ..q };
    if q.is_playing() {
        (q2, SinkAction::Keep)
    } else {
        start_at(q2, q.cursor)
    }
}

/// `track` goes to the end of the "play next" window; if nothing played, it
/// is appended and starts.
pub open spec fn after_enqueue_next(q: QueueState, track: Track) -> (QueueState, SinkAction) {
    if q.is_playing() {
        (
            QueueState {
                entries: q.entries.insert((q.cursor + q.offset + 1) as int, track),
                offset: q.offset + 1,
                ..q
            },
            SinkAction::Keep,
        )
    } else {
        start_at(QueueState { entries: q.entries.push(track), ..q }, q.cursor)
    }
}

/// Where the cursor goes on `trigger`, before the check against the length.
///
/// A skip always leaves the current entry, also under `Single`, and never
/// goes past the length. An end of track follows the repeat mode. A track
/// that cannot be played is passed over without wrapping around, so that a
/// queue of unplayable entries comes to an end.
pub open spec fn advance_target(q: QueueState, trigger: Trigger) -> nat {
    match trigger {
        Trigger::Skip => match q.mode {
            RepeatMode::Queue => if q.cursor + 1 >= q.entries.len() {
                0
            } else {
                q.cursor + 1
            },
            _ => if q.cursor + 1 > q.entries.len() {
                q.entries.len()
            } else {
                q.cursor + 1
            },
        },
        Trigger::Finished(_) => match q.mode {
            RepeatMode::Off => q.cursor + 1,
            RepeatMode::Queue => if q.cursor + 1 >= q.entries.len() {
                0
            } else {
                q.cursor + 1
            },
            RepeatMode::Single => q.cursor,
        },
        Trigger::Unplayable(_) => q.cursor + 1,
    }
}

/// Whether `trigger` is about the track that plays now. A skip always is;
/// a report about any other ticket is stale.
pub open spec fn is_current(q: QueueState, trigger: Trigger) -> bool {
    match trigger {
        Trigger::Skip => true,
        Trigger::Finished(t) => q.is_playing() && t == q.ticket,
        Trigger::Unplayable(t) => q.is_playing() && t == q.ticket,
    }
}

pub open spec fn after_advance(q: QueueState, trigger: Trigger) -> (QueueState, SinkAction) {
    if is_current(q, trigger) {
        start_at(q, advance_target(q, trigger))
    } else {
        (q, SinkAction::Keep)
    }
}

/// One entry back (none before the first), always from the beginning of it.
pub open spec fn after_previous(q: QueueState) -> (QueueState, SinkAction) {
    start_at(
        q,
        if q.cursor > 0 {
            (q.cursor - 1) as nat
        } else {
            0
        },
    )
}

/// The entry at `index` leaves. If it was the playing one, playback goes on
/// with the entry that took its place (under `Queue`, with the first one when
/// the last was removed), or stops. Otherwise the cursor keeps pointing at
/// the same track.
pub open spec fn after_remove(q: QueueState, index: nat) -> (QueueState, SinkAction) {
    let e = q.entries.remove(index as int);
    if index == q.cursor {
        let c = if q.cursor < e.len() {
            q.cursor
        } else if q.mode == RepeatMode::Queue {
            0
        } else {
            e.len()
        };
        start_at(QueueState { entries: e, ..q }, c)
    } else if index < q.cursor {
        (QueueState { entries: e, cursor: (q.cursor - 1) as nat, ..q }, SinkAction::Keep)
    } else {
        (
            QueueState {
                entries: e,
                offset: if index <= q.cursor + q.offset {
                    (q.offset - 1) as nat
                } else {
                    q.offset
                },
                ..q
            },
            SinkAction::Keep,
        )
    }
}

/// The repeat mode that follows `m` when the user cycles through them.
pub open spec fn next_mode(m: RepeatMode) -> RepeatMode {
    match m {
        RepeatMode::Off => RepeatMode::Queue,
        RepeatMode::Queue => RepeatMode::Single,
        RepeatMode::Single => RepeatMode::Off,
    }
}

/// One command to the queue, from the user or from the audio output.
#[derive(Clone, Debug)]
pub enum QueueCommand {
    Enqueue(Track),
    EnqueueNext(Track),
    Remove(usize),
    Advance(Trigger),
    Previous,
    SetRepeatMode(RepeatMode),
    CycleRepeatMode,
}

pub open spec fn after_command(q: QueueState, c: QueueCommand) -> (
    QueueState,
    Result<SinkAction, QueueError>,
) {
    match c {
        QueueCommand::Enqueue(t) => {
            let (q2, a) = after_enqueue(q, t);
            (q2, Ok(a))
        },
        QueueCommand::EnqueueNext(t) => {
            let (q2, a) = after_enqueue_next(q, t);
            (q2, Ok(a))
        },
        QueueCommand::Remove(i) => if i < q.entries.len() {
            let (q2, a) = after_remove(q, i as nat);
            (q2, Ok(a))
        } else {
            (q, Err(QueueError::IndexOutOfRange))
        },
        QueueCommand::Advance(trigger) => {
            let (q2, a) = after_advance(q, trigger);
            (q2, Ok(a))
        },
        QueueCommand::Previous => {
            let (q2, a) = after_previous(q);
            (q2, Ok(a))
        },
        QueueCommand::SetRepeatMode(m) => (QueueState { mode: m, ..q }, Ok(SinkAction::Keep)),
        QueueCommand::CycleRepeatMode => (
            QueueState { mode: next_mode(q.mode), ..q },
            Ok(SinkAction::Keep),
        ),
    }
}

/// The state after the commands `cmds`, one after the other.
pub open spec fn run(q: QueueState, cmds: Seq<QueueCommand>) -> QueueState
    decreases cmds.len(),
{
    if cmds.len() == 0 {
        q
    } else {
        run(after_command(q, cmds[0]).0, cmds.drop_first())
    }
}

/// The state after `n` reports that the playing track ended.
pub open spec fn finish_times(q: QueueState, n: nat) -> QueueState
    decreases n,
{
    if n == 0 {
        q
    } else {
        finish_times(after_advance(q, Trigger::Finished(q.ticket)).0, (n - 1) as nat)
    }
}

/// The state after `n` skips.
pub open spec fn skip_times(q: QueueState, n: nat) -> QueueState
    decreases n,
{
    if n == 0 {
        q
    } else {
        skip_times(after_advance(q, Trigger::Skip).0, (n - 1) as nat)
    }
}

/// The cursor stays in range: every command keeps the queue well formed.
pub proof fn lemma_command_keeps_wf(q: QueueState, c: QueueCommand)
    requires
        q.wf(),
    ensures
        after_command(q, c).0.wf(),
{
}

/// After any sequence of commands the cursor lies between 0 and the number
/// of entries, both included.
pub proof fn lemma_run_keeps_cursor_in_range(q: QueueState, cmds: Seq<QueueCommand>)
    requires
        q.wf(),
    ensures
        run(q, cmds).wf(),
        run(q, cmds).cursor <= run(q, cmds).entries.len(),
    decreases cmds.len(),
{
    if cmds.len() > 0 {
        lemma_command_keeps_wf(q, cmds[0]);
        lemma_run_keeps_cursor_in_range(after_command(q, cmds[0]).0, cmds.drop_first());
    }
}

/// Under `Single`, each end of the playing track starts that same entry
/// again: after any number of them the entries and the cursor are as before,
/// and the next one plays the same track once more.
pub proof fn lemma_single_replays(q: QueueState, n: nat)
    requires
        q.wf(),
        q.is_playing(),
        q.mode == RepeatMode::Single,
    ensures
        finish_times(q, n).entries == q.entries,
        finish_times(q, n).cursor == q.cursor,
        finish_times(q, n).mode == RepeatMode::Single,
        after_advance(finish_times(q, n), Trigger::Finished(finish_times(q, n).ticket)).1
            == (SinkAction::Play {
            track: q.entries[q.cursor as int],
            ticket: next_ticket(finish_times(q, n).ticket),
        }),
    decreases n,
{
    if n > 0 {
        let q1 = after_advance(q, Trigger::Finished(q.ticket)).0;
        lemma_single_replays(q1, (n - 1) as nat);
    }
}

/// Under `Single`, skips still move on: after `n` of them the cursor has
/// gone `n` entries forward, up to the end of the queue.
pub proof fn lemma_single_skips_move_on(q: QueueState, n: nat)
    requires
        q.wf(),
        q.mode == RepeatMode::Single,
    ensures
        skip_times(q, n).entries == q.entries,
        skip_times(q, n).cursor == if q.cursor + n > q.entries.len() {
            q.entries.len()
        } else {
            q.cursor + n
        },
    decreases n,
{
    if n > 0 {
        let q1 = after_advance(q, Trigger::Skip).0;
        lemma_command_keeps_wf(q, QueueCommand::Advance(Trigger::Skip));
        lemma_single_skips_move_on(q1, (n - 1) as nat);
    }
}

/// Under `Queue`, each end of a track moves the cursor one entry on, from
/// the last back to the first: after `n` of them it stands `n` entries
/// further, modulo the length.
pub proof fn lemma_queue_mode_wraps(q: QueueState, n: nat)
    requires
        q.wf(),
        q.is_playing(),
        q.mode == RepeatMode::Queue,
    ensures
        finish_times(q, n).entries == q.entries,
        finish_times(q, n).mode == RepeatMode::Queue,
        finish_times(q, n).cursor as int == (q.cursor as int + n as int) % (
        q.entries.len() as int),
    decreases n,
{
    let len = q.entries.len() as int;
    let c = q.cursor as int;
    if n == 0 {
        vstd::arithmetic::div_mod::lemma_small_mod(q.cursor, q.entries.len());
    } else {
        let q1 = after_advance(q, Trigger::Finished(q.ticket)).0;
        if c + 1 >= len {
            vstd::arithmetic::div_mod::lemma_mod_self_0(len);
            assert(q1.cursor as int == (c + 1) % len);
        } else {
            vstd::arithmetic::div_mod::lemma_small_mod((q.cursor + 1) as nat, q.entries.len());
        }
        lemma_command_keeps_wf(q, QueueCommand::Advance(Trigger::Finished(q.ticket)));
        lemma_queue_mode_wraps(q1, (n - 1) as nat);
        let m = n as int - 1;
        vstd::arithmetic::div_mod::lemma_add_mod_noop(c + 1, m, len);
        vstd::arithmetic::div_mod::lemma_add_mod_noop(q1.cursor as int, m, len);
        assert(c + 1 + m == c + n as int);
    }
}

/// A track added with "play next" while another plays, with no other such
/// track pending and repeat not on `Single`, is the one that plays when the
/// current track ends; it stands right after the track that was playing.
pub proof fn lemma_enqueue_next_plays_next(q: QueueState, track: Track)
    requires
        q.wf(),
        q.is_playing(),
        q.offset == 0,
        q.mode != RepeatMode::Single,
    ensures
        ({
            let q1 = after_enqueue_next(q, track).0;
            let (q2, a) = after_advance(q1, Trigger::Finished(q1.ticket));
            &&& q2.entries == q.entries.insert(q.cursor + 1 as int, track)
            &&& q2.cursor == q.cursor + 1
            &&& a == SinkAction::Play { track, ticket: next_ticket(q.ticket) }
        }),
{
}

/// Removing the playing entry never leaves a removed track playing: either
/// the entry now under the cursor starts, or playback stops with the cursor
/// past the end.
pub proof fn lemma_remove_playing_moves_on(q: QueueState)
    requires
        q.wf(),
        q.is_playing(),
    ensures
        ({
            let (q2, a) = after_remove(q, q.cursor);
            &&& q2.wf()
            &&& q2.entries == q.entries.remove(q.cursor as int)
            &&& q2.is_playing() ==> a == SinkAction::Play {
                track: q2.entries[q2.cursor as int],
                ticket: q2.ticket,
            }
            &&& !q2.is_playing() ==> a == SinkAction::Stop
        }),
{
}

/// The playback queue, shared by the user's commands and the reports of the
/// audio output.
pub struct PlaybackQueue {
    entries: Vec<Track>,
    cursor: usize,
    repeat_mode: RepeatMode,
    insertion_offset: usize,
    ticket: u64,
}

impl View for PlaybackQueue {
    type V = QueueState;

    closed spec fn view(&self) -> QueueState {
        QueueState {
            entries: self.entries@,
            cursor: self.cursor as nat,
            mode: self.repeat_mode,
            offset: self.insertion_offset as nat,
            ticket: self.ticket,
        }
    }
}

impl PlaybackQueue {
    /// An empty queue: nothing plays, repeat is off.
    pub fn new() -> (r: PlaybackQueue)
        ensures
            r@.wf(),
            r@.entries.len() == 0,
            r@.cursor == 0,
            r@.mode == RepeatMode::Off,
            r@.offset == 0,
    {
        PlaybackQueue {
            entries: Vec::new(),
            cursor: 0,
            repeat_mode: RepeatMode::Off,
            insertion_offset: 0,
            ticket: 0,
        }
    }

    fn start_at(&mut self, cursor: usize) -> (r: SinkAction)
        ensures
            (final(self)@, r) == start_at(old(self)@, cursor as nat),
    {
        if cursor < self.entries.len() {
            self.ticket = if self.ticket == u64::MAX {
                0
            } else {
                self.ticket + 1
            };
            self.cursor = cursor;
            self.insertion_offset = 0;
            SinkAction::Play { track: self.entries[cursor].clone(), ticket: self.ticket }
        } else {
            self.cursor = self.entries.len();
            self.insertion_offset = 0;
            SinkAction::Stop
        }
    }

    /// Appends `track`; starts it if nothing played.
    pub fn enqueue(&mut self, track: Track) -> (r: SinkAction)
        requires
            old(self)@.wf(),
        ensures
            final(self)@.wf(),
            (final(self)@, r) == after_enqueue(old(self)@, track),
    {
        let playing = self.cursor < self.entries.len();
        let at = self.cursor;
        self.entries.push(track);
        if playing {
            SinkAction::Keep
        } else {
            self.start_at(at)
        }
    }

    /// Inserts `track` at the end of the "play next" window; starts it if
    /// nothing played.
    pub fn enqueue_next(&mut self, track: Track) -> (r: SinkAction)
        requires
            old(self)@.wf(),
        ensures
            final(self)@.wf(),
            (final(self)@, r) == after_enqueue_next(old(self)@, track),
    {
        if self.cursor < self.entries.len() {
            let at = self.cursor + self.insertion_offset + 1;
            self.entries.insert(at, track);
            self.insertion_offset = self.insertion_offset + 1;
            SinkAction::Keep
        } else {
            let at = self.cursor;
            self.entries.push(track);
            self.start_at(at)
        }
    }

    /// Moves forward on a skip, an end of track or a failed start; a report
    /// about a track other than the playing one changes nothing.
    pub fn advance_to_next(&mut self, trigger: Trigger) -> (r: SinkAction)
        requires
            old(self)@.wf(),
        ensures
            final(self)@.wf(),
            (final(self)@, r) == after_advance(old(self)@, trigger),
    {
        let len = self.entries.len();
        let playing = self.cursor < len;
        let target: usize = match trigger {
            Trigger::Skip => match self.repeat_mode {
                RepeatMode::Queue => if !playing || self.cursor + 1 >= len {
                    0
                } else {
                    self.cursor + 1
                },
                _ => if playing {
                    self.cursor + 1
                } else {
                    len
                },
            },
            Trigger::Finished(t) => {
                if !playing || t != self.ticket {
                    return SinkAction::Keep;
                }
                match self.repeat_mode {
                    RepeatMode::Off => self.cursor + 1,
                    RepeatMode::Queue => if self.cursor + 1 >= len {
                        0
                    } else {
                        self.cursor + 1
                    },
                    RepeatMode::Single => self.cursor,
                }
            },
            Trigger::Unplayable(t) => {
                if !playing || t != self.ticket {
                    return SinkAction::Keep;
                }
                self.cursor + 1
            },
        };
        self.start_at(target)
    }

    /// Moves one entry back (staying on the first) and plays it from its start.
    pub fn advance_to_previous(&mut self) -> (r: SinkAction)
        requires
            old(self)@.wf(),
        ensures
            final(self)@.wf(),
            (final(self)@, r) == after_previous(old(self)@),
    {
        let target = if self.cursor > 0 {
            self.cursor - 1
        } else {
            0
        };
        self.start_at(target)
    }

    /// Removes the entry at `index`; fails, changing nothing, where there is none.
    pub fn remove(&mut self, index: usize) -> (r: Result<SinkAction, QueueError>)
        requires
            old(self)@.wf(),
        ensures
            final(self)@.wf(),
            index < old(self)@.entries.len() ==> r is Ok && (final(self)@, r->Ok_0) == after_remove(
                old(self)@,
                index as nat,
            ),
            index >= old(self)@.entries.len() ==> r == Err::<SinkAction, QueueError>(
                QueueError::IndexOutOfRange,
            ) && final(self)@ == old(self)@,
    {
        if index >= self.entries.len() {
            return Err(QueueError::IndexOutOfRange);
        }
        self.entries.remove(index);
        if index == self.cursor {
            let target = if self.cursor < self.entries.len() {
                self.cursor
            } else if self.repeat_mode == RepeatMode::Queue {
                0
            } else {
                self.entries.len()
            };
            Ok(self.start_at(target))
        } else if index < self.cursor {
            self.cursor = self.cursor - 1;
            Ok(SinkAction::Keep)
        } else {
            if index <= self.cursor + self.insertion_offset {
                self.insertion_offset = self.insertion_offset - 1;
            }
            Ok(SinkAction::Keep)
        }
    }

    /// Sets the repeat mode; playback is not touched.
    pub fn set_repeat_mode(&mut self, mode: RepeatMode)
        requires
            old(self)@.wf(),
        ensures
            final(self)@.wf(),
            final(self)@ == (QueueState { mode, ..old(self)@ }),
    {
        self.repeat_mode = mode;
    }

    /// Off, then Queue, then Single, then Off again.
    pub fn cycle_repeat_mode(&mut self)
        requires
            old(self)@.wf(),
        ensures
            final(self)@.wf(),
            final(self)@ == (QueueState { mode: next_mode(old(self)@.mode), ..old(self)@ }),
    {
        self.repeat_mode = match self.repeat_mode {
            RepeatMode::Off => RepeatMode::Queue,
            RepeatMode::Queue => RepeatMode::Single,
            RepeatMode::Single => RepeatMode::Off,
        };
    }

    /// Carries out one command.
    pub fn apply(&mut self, cmd: QueueCommand) -> (r: Result<SinkAction, QueueError>)
        requires
            old(self)@.wf(),
        ensures
            final(self)@.wf(),
            (final(self)@, r) == after_command(old(self)@, cmd),
    {
        match cmd {
            QueueCommand::Enqueue(t) => Ok(self.enqueue(t)),
            QueueCommand::EnqueueNext(t) => Ok(self.enqueue_next(t)),
            QueueCommand::Remove(i) => self.remove(i),
            QueueCommand::Advance(trigger) => Ok(self.advance_to_next(trigger)),
            QueueCommand::Previous => Ok(self.advance_to_previous()),
            QueueCommand::SetRepeatMode(m) => {
                self.set_repeat_mode(m);
                Ok(SinkAction::Keep)
            },
            QueueCommand::CycleRepeatMode => {
                self.cycle_repeat_mode();
                Ok(SinkAction::Keep)
            },
        }
    }

    /// The track that plays, if any.
    pub fn now_playing(&self) -> (r: Option<Track>)
        requires
            self@.wf(),
        ensures
            r == self@.now_playing(),
    {
        if self.cursor < self.entries.len() {
            Some(self.entries[self.cursor].clone())
        } else {
            None
        }
    }

    /// How many entries the queue holds.
    pub fn len(&self) -> (r: usize)
        ensures
            r == self@.entries.len(),
    {
        self.entries.len()
    }

    /// The index of the playing entry; the length when nothing plays.
    pub fn cursor(&self) -> (r: usize)
        ensures
            r == self@.cursor,
    {
        self.cursor
    }

    /// How many entries after the cursor were added with "play next".
    pub fn insertion_offset(&self) -> (r: usize)
        ensures
            r == self@.offset,
    {
        self.insertion_offset
    }

    pub fn repeat_mode(&self) -> (r: RepeatMode)
        ensures
            r == self@.mode,
    {
        self.repeat_mode
    }

    /// The entry at `index`, if there is one.
    pub fn get(&self, index: usize) -> (r: Option<Track>)
        ensures
            index < self@.entries.len() ==> r == Some(self@.entries[index as int]),
            index >= self@.entries.len() ==> r is None,
    {
        if index < self.entries.len() {
            Some(self.entries[index].clone())
        } else {
            None
        }
    }

    /// A copy of the entries, in queue order.
    pub fn entries(&self) -> (r: Vec<Track>)
        ensures
            r@ == self@.entries,
    {
        let mut r: Vec<Track> = Vec::new();
        let mut i: usize = 0;
        while i < self.entries.len()
            invariant
                i <= self.entries.len(),
                r@ == self@.entries.take(i as int),
            decreases self.entries.len() - i,
        {
            r.push(self.entries[i].clone());
            assert(self@.entries.take(i + 1 as int) =~= self@.entries.take(i as int).push(
                self@.entries[i as int],
            ));
            i = i + 1;
        }
        assert(r@ =~= self@.entries);
        r
    }

    /// How the entry at `index` stands in the queue.
    pub fn row_mark(&self, index: usize) -> (r: RowMark)
        ensures
            r == row_mark(self@, index as nat),
    {
        if index == self.cursor {
            RowMark::Playing
        } else if index > self.cursor && index - self.cursor <= self.insertion_offset {
            RowMark::PlayNext
        } else {
            RowMark::Plain
        }
    }
}

/// How an entry stands in the queue, for showing it.
#[derive(Clone, Copy, Debug, PartialEq, Eq, Structural)]
pub enum RowMark {
    /// The entry that plays.
    Playing,
    /// An entry of the "play next" window.
    PlayNext,
    Plain,
}

pub open spec fn row_mark(q: QueueState, index: nat) -> RowMark {
    if index == q.cursor {
        RowMark::Playing
    } else if q.cursor < index <= q.cursor + q.offset {
        RowMark::PlayNext
    } else {
        RowMark::Plain
    }
}

} // verus!
