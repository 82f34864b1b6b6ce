//! The player's state and how each user command or playback report changes it.
//!
//! [`Model::update`] is the one way the state changes. It returns the
//! [`Effect`] that the caller has to carry out on the audio output or the
//! screen; the model itself does no input or output.

use std::cmp::Ordering;

use vstd::prelude::*;

use crate::queue::{
    after_advance, after_enqueue, after_enqueue_next, after_previous, after_remove, next_mode,
    PlaybackQueue, QueueState, RepeatMode, SinkAction, Trigger,
};
use crate::search::{after_poll, after_set_query, SearchIndex, SearchState};
use crate::track::{fields_order, CachedField, Track};

verus! {

/// Options given on the command line.
#[derive(Clone, Debug, Default)]
pub struct Args {
    /// Where the player should look for files.
    pub dir: Option<String>,
    /// Whether the library cache is to be rebuilt.
    pub reset_cache: bool,
}

/// The panel that receives the keys.
#[derive(Clone, Copy, Debug, PartialEq, Eq, Structural)]
pub enum PanelFocus {
    MainPanel,
    Sidebar,
}

/// What the main panel shows.
#[derive(Clone, Copy, Debug, PartialEq, Eq, Structural)]
pub enum MainPanelView {
    Library,
    SearchInput,
    SearchResults,
}

#[derive(Clone, Copy, Debug, PartialEq, Eq, Structural)]
pub struct PlayerState {
    pub quit: bool,
    pub show_help: bool,
    pub focus: PanelFocus,
    pub main_panel_view: MainPanelView,
}

impl Default for PlayerState {
    fn default() -> (r: PlayerState)
        ensures
            r == (PlayerState {
                quit: false,
                show_help: false,
                focus: PanelFocus::MainPanel,
                main_panel_view: MainPanelView::Library,
            }),
    {
        PlayerState {
            quit: false,
            show_help: false,
            focus: PanelFocus::MainPanel,
            main_panel_view: MainPanelView::Library,
        }
    }
}

/// A command from the user, or a report from the audio output or the clock.
#[derive(Clone, Debug)]
pub enum Message {
    Quit,
    ToggleHelp,
    FocusMainPanel,
    FocusSidebar,
    FocusLibrary,
    FocusSearchBar,
    ShowSearchResults,
    PlayPause,
    NextTrack,
    PrevTrack,
    QueueTrack(Track),
    QueueTrackNext(Track),
    RemoveFromQueue(usize),
    VolumeUp(usize),
    VolumeDown(usize),
    CycleRepeatMode,
    SetRepeatMode(RepeatMode),
    ToggleTrackArt,
    SelectLibraryRow(usize),
    SelectSearchResultRow(usize),
    SelectSidebarQueueRow(usize),
    /// The track started under this ticket played to its end.
    TrackFinished(u64),
    /// The track started under this ticket could not be played.
    TrackUnplayable(u64),
    SetSearchQuery(String),
    PollSearch,
}

/// What the caller of [`Model::update`] has to do.
#[derive(Clone, Debug)]
pub enum Effect {
    Nothing,
    /// Drive the audio output.
    Sink(SinkAction),
    /// Pause the output if it plays, resume it if it is paused.
    TogglePause,
    /// Set the output volume, in percent.
    SetVolume(usize),
    /// The selected track changed: its art is to be shown again.
    RedrawImage,
    /// Empty the search bar.
    ClearSearchBar,
}

/// The mathematical value of a [`Model`].
pub struct ModelState {
    pub player: PlayerState,
    pub tracks: Seq<Track>,
    pub queue: QueueState,
    pub search: SearchState,
    pub volume: nat,
    pub show_track_art: bool,
    pub library_row: Option<usize>,
    pub search_row: Option<usize>,
    pub sidebar_row: Option<usize>,
    pub needs_image_redraw: bool,
}

/// The order of the library: by artist, then album, then title.
pub open spec fn library_fields() -> Seq<CachedField> {
    seq![CachedField::Artist, CachedField::Album, CachedField::Title]
}

pub open spec fn is_library_order(tracks: Seq<Track>) -> bool {
    forall|i: int, j: int|
        0 <= i < j < tracks.len() ==> fields_order(tracks[i], tracks[j], library_fields())
            != Ordering::Greater
}

pub open spec fn with_queue(m: ModelState, step: (QueueState, SinkAction)) -> (ModelState, Effect) {
    (ModelState { queue: step.0, ..m }, Effect::Sink(step.1))
}

pub open spec fn redraw(m: ModelState) -> (ModelState, Effect) {
    (ModelState { needs_image_redraw: true, ..m }, Effect::RedrawImage)
}

pub open spec fn with_player(m: ModelState, p: PlayerState) -> ModelState {
    ModelState { player: p, ..m }
}

/// The volume after raising `v` by `p` percent, at most 100.
pub open spec fn volume_up(v: nat, p: nat) -> nat {
    if v + p >= 100 {
        100
    } else {
        v + p
    }
}

/// The volume after lowering `v` by `p` percent, at least 0.
pub open spec fn volume_down(v: nat, p: nat) -> nat {
    if p >= v {
        0
    } else {
        (v - p) as nat
    }
}

/// The state after `msg`, and what the caller has to do.
pub open spec fn model_step(m: ModelState, msg: Message) -> (ModelState, Effect) {
    match msg {
        Message::Quit => (with_player(m, PlayerState { quit: true, ..m.player }), Effect::Nothing),
        Message::ToggleHelp => (
            with_player(m, PlayerState { show_help: !m.player.show_help, ..m.player }),
            Effect::Nothing,
        ),
        Message::FocusMainPanel => (
            with_player(m, PlayerState { focus: PanelFocus::MainPanel, ..m.player }),
            Effect::Nothing,
        ),
        Message::FocusSidebar => if m.queue.entries.len() == 0 {
            (m, Effect::Nothing)
        } else {
            redraw(
                ModelState {
                    player: PlayerState { focus: PanelFocus::Sidebar, ..m.player },
                    sidebar_row: if m.sidebar_row is None {
                        Some(m.queue.cursor as usize)
                    } else {
                        m.sidebar_row
                    },
                    ..m
                },
            )
        },
        Message::FocusLibrary => redraw(
            with_player(m, PlayerState { main_panel_view: MainPanelView::Library, ..m.player }),
        ),
        Message::FocusSearchBar => (
            ModelState {
                player: PlayerState { main_panel_view: MainPanelView::SearchInput, ..m.player },
                search: after_set_query(m.search, Seq::empty()),
                search_row: Some(0),
                ..m
            },
            Effect::ClearSearchBar,
        ),
        Message::ShowSearchResults => redraw(
            ModelState {
                player: PlayerState { main_panel_view: MainPanelView::SearchResults, ..m.player },
                search_row: Some(0),
                ..m
            },
        ),
        Message::PlayPause => (m, Effect::TogglePause),
        Message::NextTrack => with_queue(m, after_advance(m.queue, Trigger::Skip)),
        Message::PrevTrack => with_queue(m, after_previous(m.queue)),
        Message::QueueTrack(t) => with_queue(m, after_enqueue(m.queue, t)),
        Message::QueueTrackNext(t) => with_queue(m, after_enqueue_next(m.queue, t)),
        Message::RemoveFromQueue(i) => if i < m.queue.entries.len() {
            with_queue(m, after_remove(m.queue, i as nat))
        } else {
            (m, Effect::Nothing)
        },
        Message::VolumeUp(p) => {
            let v = volume_up(m.volume, p as nat);
            (ModelState { volume: v, ..m }, Effect::SetVolume(v as usize))
        },
        Message::VolumeDown(p) => {
            let v = volume_down(m.volume, p as nat);
            (ModelState { volume: v, ..m }, Effect::SetVolume(v as usize))
        },
        Message::CycleRepeatMode => (
            ModelState { queue: QueueState { mode: next_mode(m.queue.mode), ..m.queue }, ..m },
            Effect::Nothing,
        ),
        Message::SetRepeatMode(mode) => (
            ModelState { queue: QueueState { mode, ..m.queue }, ..m },
            Effect::Nothing,
        ),
        Message::ToggleTrackArt => (
            ModelState { show_track_art: !m.show_track_art, ..m },
            Effect::Nothing,
        ),
        Message::SelectLibraryRow(r) => redraw(ModelState { library_row: Some(r), ..m }),
        Message::SelectSearchResultRow(r) => redraw(ModelState { search_row: Some(r), ..m }),
        Message::SelectSidebarQueueRow(r) => redraw(ModelState { sidebar_row: Some(r), ..m }),
        Message::TrackFinished(t) => with_queue(m, after_advance(m.queue, Trigger::Finished(t))),
        Message::TrackUnplayable(t) => with_queue(
            m,
            after_advance(m.queue, Trigger::Unplayable(t)),
        ),
        Message::SetSearchQuery(text) => (
            ModelState { search: after_set_query(m.search, text@), ..m },
            Effect::Nothing,
        ),
        Message::PollSearch => (ModelState { search: after_poll(m.search), ..m }, Effect::Nothing),
    }
}

/// A key, as the player tells keys apart.
#[derive(Clone, Copy, Debug, PartialEq, Eq, Structural)]
pub enum KeyCode {
    Char(char),
    Up,
    Down,
    Left,
    Right,
    Home,
    End,
    Enter,
    Esc,
    MediaPlayPause,
    MediaTrackNext,
    MediaTrackPrevious,
    MediaRaiseVolume,
    MediaLowerVolume,
    Other,
}

/// The modifier keys held with a key: none, exactly one of control and
/// alt, or any other combination.
#[derive(Clone, Copy, Debug, PartialEq, Eq, Structural)]
pub enum Modifiers {
    Plain,
    Control,
    Alt,
    Other,
}

/// A key press.
#[derive(Clone, Copy, Debug, PartialEq, Eq, Structural)]
pub struct Key {
    pub code: KeyCode,
    pub modifiers: Modifiers,
}

/// What a key press asks for.
#[derive(Clone, Debug)]
pub enum KeyOutcome {
    Ignore,
    Send(Message),
    /// The key edits the search text; the new text is then sent as a query.
    EditSearch,
}

/// The row after `sel` in a table of `len` rows, back to the first after the last.
pub open spec fn row_below(sel: Option<usize>, len: nat) -> usize {
    match sel {
        Some(i) => if i + 1 >= len {
            0
        } else {
            (i + 1) as usize
        },
        None => 0,
    }
}

/// The row before `sel` in a table of `len` rows, on to the last before the first.
pub open spec fn row_above(sel: Option<usize>, len: nat) -> usize {
    match sel {
        Some(i) => if i == 0 {
            last_row(len)
        } else {
            (i - 1) as usize
        },
        None => 0,
    }
}

pub open spec fn last_row(len: nat) -> usize {
    if len == 0 {
        0
    } else {
        (len - 1) as usize
    }
}

pub open spec fn is_key(key: Key, modifiers: Modifiers, code: KeyCode) -> bool {
    key.modifiers == modifiers && key.code == code
}

pub open spec fn is_down(key: Key) -> bool {
    is_key(key, Modifiers::Plain, KeyCode::Char('j')) || is_key(key, Modifiers::Plain, KeyCode::Down)
}

pub open spec fn is_up(key: Key) -> bool {
    is_key(key, Modifiers::Plain, KeyCode::Char('k')) || is_key(key, Modifiers::Plain, KeyCode::Up)
}

/// Enter adds the track to the queue; with alt, to the "play next" window.
pub open spec fn enqueue_outcome(key: Key, track: Option<Track>) -> KeyOutcome {
    match track {
        Some(t) => if key.modifiers == Modifiers::Alt {
            KeyOutcome::Send(Message::QueueTrackNext(t))
        } else {
            KeyOutcome::Send(Message::QueueTrack(t))
        },
        None => KeyOutcome::Ignore,
    }
}

/// The item at `row` of `items`, where both exist.
pub open spec fn item_at(items: Seq<Track>, row: Option<usize>) -> Option<Track> {
    match row {
        Some(i) => if i < items.len() {
            Some(items[i as int])
        } else {
            None
        },
        None => None,
    }
}

pub open spec fn search_input_outcome(key: Key) -> KeyOutcome {
    match key.code {
        KeyCode::Esc => KeyOutcome::Send(Message::FocusLibrary),
        KeyCode::Enter => KeyOutcome::Send(Message::ShowSearchResults),
        _ => KeyOutcome::EditSearch,
    }
}

pub open spec fn sidebar_outcome(m: ModelState, key: Key) -> KeyOutcome {
    let len = m.queue.entries.len();
    if is_key(key, Modifiers::Control, KeyCode::Char('h')) || is_key(
        key,
        Modifiers::Control,
        KeyCode::Left,
    ) {
        KeyOutcome::Send(Message::FocusMainPanel)
    } else if is_down(key) {
        KeyOutcome::Send(Message::SelectSidebarQueueRow(row_below(m.sidebar_row, len)))
    } else if is_up(key) {
        KeyOutcome::Send(Message::SelectSidebarQueueRow(row_above(m.sidebar_row, len)))
    } else if key.code == KeyCode::Home {
        KeyOutcome::Send(Message::SelectSidebarQueueRow(0))
    } else if key.code == KeyCode::End {
        KeyOutcome::Send(Message::SelectSidebarQueueRow(last_row(len)))
    } else if is_key(key, Modifiers::Plain, KeyCode::Char('d')) {
        match m.sidebar_row {
            Some(i) => KeyOutcome::Send(Message::RemoveFromQueue(i)),
            None => KeyOutcome::Ignore,
        }
    } else {
        KeyOutcome::Ignore
    }
}

pub open spec fn library_outcome(m: ModelState, key: Key) -> KeyOutcome {
    let len = m.tracks.len();
    if is_key(key, Modifiers::Control, KeyCode::Char('l')) || is_key(
        key,
        Modifiers::Control,
        KeyCode::Right,
    ) {
        KeyOutcome::Send(Message::FocusSidebar)
    } else if is_key(key, Modifiers::Plain, KeyCode::Char('/')) {
        KeyOutcome::Send(Message::FocusSearchBar)
    } else if is_key(key, Modifiers::Control, KeyCode::Char('s')) {
        KeyOutcome::Send(Message::ShowSearchResults)
    } else if is_down(key) {
        KeyOutcome::Send(Message::SelectLibraryRow(row_below(m.library_row, len)))
    } else if is_up(key) {
        KeyOutcome::Send(Message::SelectLibraryRow(row_above(m.library_row, len)))
    } else if key.code == KeyCode::Home {
        KeyOutcome::Send(Message::SelectLibraryRow(0))
    } else if key.code == KeyCode::End {
        KeyOutcome::Send(Message::SelectLibraryRow(last_row(len)))
    } else if key.code == KeyCode::Enter {
        enqueue_outcome(key, item_at(m.tracks, m.library_row))
    } else {
        KeyOutcome::Ignore
    }
}

pub open spec fn search_results_outcome(m: ModelState, key: Key) -> KeyOutcome {
    let results = m.search.results();
    let len = results.len();
    if key.code == KeyCode::Esc {
        KeyOutcome::Send(Message::FocusLibrary)
    } else if is_key(key, Modifiers::Control, KeyCode::Char('l')) || is_key(
        key,
        Modifiers::Control,
        KeyCode::Right,
    ) {
        KeyOutcome::Send(Message::FocusSidebar)
    } else if is_down(key) {
        KeyOutcome::Send(Message::SelectSearchResultRow(row_below(m.search_row, len)))
    } else if is_up(key) {
        KeyOutcome::Send(Message::SelectSearchResultRow(row_above(m.search_row, len)))
    } else if key.code == KeyCode::Home {
        KeyOutcome::Send(Message::SelectSearchResultRow(0))
    } else if key.code == KeyCode::End {
        KeyOutcome::Send(Message::SelectSearchResultRow(last_row(len)))
    } else if is_key(key, Modifiers::Plain, KeyCode::Char('/')) {
        KeyOutcome::Send(Message::FocusSearchBar)
    } else if key.code == KeyCode::Enter {
        enqueue_outcome(key, item_at(results, m.search_row))
    } else {
        KeyOutcome::Ignore
    }
}

/// The keys that work everywhere but in the search bar, if `key` is one.
pub open spec fn global_message(key: Key) -> Option<Message> {
    if is_key(key, Modifiers::Plain, KeyCode::Char('q')) {
        Some(Message::Quit)
    } else if key.code == KeyCode::Char('?') {
        Some(Message::ToggleHelp)
    } else if key.code == KeyCode::MediaLowerVolume || is_key(
        key,
        Modifiers::Control,
        KeyCode::Char('j'),
    ) || is_key(key, Modifiers::Control, KeyCode::Down) {
        Some(Message::VolumeDown(5))
    } else if key.code == KeyCode::MediaRaiseVolume || is_key(
        key,
        Modifiers::Control,
        KeyCode::Char('k'),
    ) || is_key(key, Modifiers::Control, KeyCode::Up) {
        Some(Message::VolumeUp(5))
    } else if is_key(key, Modifiers::Plain, KeyCode::Char('i')) {
        Some(Message::ToggleTrackArt)
    } else if key.code == KeyCode::MediaPlayPause || is_key(key, Modifiers::Plain, KeyCode::Char('p')) {
        Some(Message::PlayPause)
    } else if key.code == KeyCode::MediaTrackPrevious || is_key(
        key,
        Modifiers::Plain,
        KeyCode::Char('b'),
    ) {
        Some(Message::PrevTrack)
    } else if key.code == KeyCode::MediaTrackNext || is_key(key, Modifiers::Plain, KeyCode::Char('n')) {
        Some(Message::NextTrack)
    } else if is_key(key, Modifiers::Plain, KeyCode::Char('r')) {
        Some(Message::CycleRepeatMode)
    } else {
        None
    }
}

/// What `key` asks for in state `m`: the search bar takes every key while
/// it has the focus; while help is shown, any key closes it; then come the
/// keys that work everywhere, then those of the panel with the focus.
pub open spec fn key_outcome(m: ModelState, key: Key) -> KeyOutcome {
    if m.player.main_panel_view == MainPanelView::SearchInput {
        search_input_outcome(key)
    } else if m.player.show_help {
        KeyOutcome::Send(Message::ToggleHelp)
    } else if global_message(key) is Some {
        KeyOutcome::Send(global_message(key)->Some_0)
    } else if m.player.focus == PanelFocus::Sidebar {
        sidebar_outcome(m, key)
    } else if m.player.main_panel_view == MainPanelView::Library {
        library_outcome(m, key)
    } else {
        search_results_outcome(m, key)
    }
}

/// The track whose art is to be shown, where showing it was asked for: the
/// selected row of the panel that has the focus.
pub open spec fn art_track(m: ModelState) -> Option<Track> {
    if !m.show_track_art || !m.needs_image_redraw {
        None
    } else if m.player.focus == PanelFocus::Sidebar {
        item_at(m.queue.entries, m.sidebar_row)
    } else if m.player.main_panel_view == MainPanelView::Library {
        item_at(m.tracks, m.library_row)
    } else if m.player.main_panel_view == MainPanelView::SearchResults {
        item_at(m.search.results(), m.search_row)
    } else {
        None
    }
}

/// Relies on `slice::sort_by`, which sorts stably by the comparison given.
/// `Track::compare_by_fields` computes `fields_order`, a total preorder
/// (`lemma_fields_order_total`), so the result holds the same tracks in that
/// order.
#[verifier::external_body]
fn sort_by_fields(tracks: &mut Vec<Track>, fields: &Vec<CachedField>)
    ensures
        final(tracks)@.to_multiset() == old(tracks)@.to_multiset(),
        forall|i: int, j: int|
            0 <= i < j < final(tracks)@.len() ==> fields_order(
                final(tracks)@[i],
                final(tracks)@[j],
                fields@,
            ) != Ordering::Greater,
{
    tracks.sort_by(|a, b| Track::compare_by_fields(a, b, fields.clone()));
}

fn next_row(sel: Option<usize>, len: usize) -> (r: usize)
    ensures
        r == row_below(sel, len as nat),
{
    match sel {
        Some(i) => if len == 0 || i >= len - 1 {
            0
        } else {
            i + 1
        },
        None => 0,
    }
}

fn end_row(len: usize) -> (r: usize)
    ensures
        r == last_row(len as nat),
{
    if len == 0 {
        0
    } else {
        len - 1
    }
}

fn previous_row(sel: Option<usize>, len: usize) -> (r: usize)
    ensures
        r == row_above(sel, len as nat),
{
    match sel {
        Some(i) => if i == 0 {
            end_row(len)
        } else {
            i - 1
        },
        None => 0,
    }
}

fn key_is(key: Key, modifiers: Modifiers, code: KeyCode) -> (r: bool)
    ensures
        r == is_key(key, modifiers, code),
{
    key.modifiers == modifiers && key.code == code
}

fn enqueue_key(key: Key, track: Option<Track>) -> (r: KeyOutcome)
    ensures
        r == enqueue_outcome(key, track),
{
    match track {
        Some(t) => if key.modifiers == Modifiers::Alt {
            KeyOutcome::Send(Message::QueueTrackNext(t))
        } else {
            KeyOutcome::Send(Message::QueueTrack(t))
        },
        None => KeyOutcome::Ignore,
    }
}

fn global_key(key: Key) -> (r: Option<Message>)
    ensures
        r == global_message(key),
{
    if key_is(key, Modifiers::Plain, KeyCode::Char('q')) {
        Some(Message::Quit)
    } else if key.code == KeyCode::Char('?') {
        Some(Message::ToggleHelp)
    } else if key.code == KeyCode::MediaLowerVolume || key_is(
        key,
        Modifiers::Control,
        KeyCode::Char('j'),
    ) || key_is(key, Modifiers::Control, KeyCode::Down) {
        Some(Message::VolumeDown(5))
    } else if key.code == KeyCode::MediaRaiseVolume || key_is(
        key,
        Modifiers::Control,
        KeyCode::Char('k'),
    ) || key_is(key, Modifiers::Control, KeyCode::Up) {
        Some(Message::VolumeUp(5))
    } else if key_is(key, Modifiers::Plain, KeyCode::Char('i')) {
        Some(Message::ToggleTrackArt)
    } else if key.code == KeyCode::MediaPlayPause || key_is(key, Modifiers::Plain, KeyCode::Char('p')) {
        Some(Message::PlayPause)
    } else if key.code == KeyCode::MediaTrackPrevious || key_is(
        key,
        Modifiers::Plain,
        KeyCode::Char('b'),
    ) {
        Some(Message::PrevTrack)
    } else if key.code == KeyCode::MediaTrackNext || key_is(key, Modifiers::Plain, KeyCode::Char('n')) {
        Some(Message::NextTrack)
    } else if key_is(key, Modifiers::Plain, KeyCode::Char('r')) {
        Some(Message::CycleRepeatMode)
    } else {
        None
    }
}

/// The player: its library, queue, search and what the screen shows.
pub struct Model {
    player_state: PlayerState,
    tracks: Vec<Track>,
    queue: PlaybackQueue,
    search: SearchIndex,
    volume_percentage: usize,
    show_track_art: bool,
    library_row: Option<usize>,
    search_row: Option<usize>,
    sidebar_row: Option<usize>,
    needs_image_redraw: bool,
}

impl View for Model {
    type V = ModelState;

    closed spec fn view(&self) -> ModelState {
        ModelState {
            player: self.player_state,
            tracks: self.tracks@,
            queue: self.queue@,
            search: self.search@,
            volume: self.volume_percentage as nat,
            show_track_art: self.show_track_art,
            library_row: self.library_row,
            search_row: self.search_row,
            sidebar_row: self.sidebar_row,
            needs_image_redraw: self.needs_image_redraw,
        }
    }
}

impl Model {
    /// The queue and the search are well formed, and the volume is at most 100.
    pub closed spec fn wf(&self) -> bool {
        &&& self.queue@.wf()
        &&& self.search.wf()
        &&& self.volume_percentage <= 100
    }

    /// A player over the library `tracks`, sorted by artist, album and
    /// title; nothing is queued, nothing searched, and the volume is at 50.
    pub fn new(tracks: Vec<Track>, show_track_art: bool) -> (r: Model)
        ensures
            r.wf(),
            r@.tracks.to_multiset() == tracks@.to_multiset(),
            is_library_order(r@.tracks),
            r@.search == (SearchState { items: r@.tracks, query: Seq::empty(), scanned: 0 }),
            r@.queue.entries.len() == 0,
            r@.queue.cursor == 0,
            r@.queue.mode == RepeatMode::Off,
            r@.queue.offset == 0,
            r@.player == (PlayerState {
                quit: false,
                show_help: false,
                focus: PanelFocus::MainPanel,
                main_panel_view: MainPanelView::Library,
            }),
            r@.volume == 50,
            r@.show_track_art == show_track_art,
            r@.library_row == Some(0usize),
            r@.search_row == Some(0usize),
            r@.sidebar_row is None,
            r@.needs_image_redraw,
    {
        let mut tracks = tracks;
        let fields = vec![CachedField::Artist, CachedField::Album, CachedField::Title];
        assert(fields@ =~= library_fields());
        sort_by_fields(&mut tracks, &fields);
        let mut search = SearchIndex::new();
        let mut i: usize = 0;
        assert(search@.items =~= tracks@.take(0));
        assert(search@.query =~= Seq::<char>::empty());
        while i < tracks.len()
            invariant
                i <= tracks.len(),
                search.wf(),
                search@ == (SearchState {
                    items: tracks@.take(i as int),
                    query: Seq::empty(),
                    scanned: 0,
                }),
            decreases tracks.len() - i,
        {
            search.push(tracks[i].clone());
            assert(tracks@.take(i + 1 as int) =~= tracks@.take(i as int).push(tracks@[i as int]));
            i = i + 1;
        }
        assert(tracks@.take(tracks.len() as int) =~= tracks@);
        Model {
            player_state: PlayerState::default(),
            tracks,
            queue: PlaybackQueue::new(),
            search,
            volume_percentage: 50,
            show_track_art,
            library_row: Some(0),
            search_row: Some(0),
            sidebar_row: None,
            needs_image_redraw: true,
        }
    }

    pub fn player_state(&self) -> (r: PlayerState)
        ensures
            r == self@.player,
    {
        self.player_state
    }

    /// The library, in its order.
    pub fn tracks(&self) -> (r: &Vec<Track>)
        ensures
            r@ == self@.tracks,
    {
        &self.tracks
    }

    pub fn queue(&self) -> (r: &PlaybackQueue)
        ensures
            r@ == self@.queue,
    {
        &self.queue
    }

    pub fn search(&self) -> (r: &SearchIndex)
        ensures
            r@ == self@.search,
            self.wf() ==> r.wf(),
    {
        &self.search
    }

    pub fn volume_percentage(&self) -> (r: usize)
        ensures
            r == self@.volume,
    {
        self.volume_percentage
    }

    pub fn show_track_art(&self) -> (r: bool)
        ensures
            r == self@.show_track_art,
    {
        self.show_track_art
    }

    pub fn library_row(&self) -> (r: Option<usize>)
        ensures
            r == self@.library_row,
    {
        self.library_row
    }

    pub fn search_row(&self) -> (r: Option<usize>)
        ensures
            r == self@.search_row,
    {
        self.search_row
    }

    pub fn sidebar_row(&self) -> (r: Option<usize>)
        ensures
            r == self@.sidebar_row,
    {
        self.sidebar_row
    }

    /// The track that plays, if any.
    pub fn now_playing(&self) -> (r: Option<Track>)
        requires
            self.wf(),
        ensures
            r == self@.queue.now_playing(),
    {
        self.queue.now_playing()
    }

    /// The track whose art is to be shown now, if showing it was asked for;
    /// handing it out settles the request.
    pub fn take_art_request(&mut self) -> (r: Option<Track>)
        requires
            old(self).wf(),
        ensures
            final(self).wf(),
            r == art_track(old(self)@),
            r is Some ==> final(self)@ == (ModelState { needs_image_redraw: false, ..old(self)@ }),
            r is None ==> final(self)@ == old(self)@,
    {
        if !self.show_track_art || !self.needs_image_redraw {
            return None;
        }
        let track = if self.player_state.focus == PanelFocus::Sidebar {
            match self.sidebar_row {
                Some(i) => self.queue.get(i),
                None => None,
            }
        } else if self.player_state.main_panel_view == MainPanelView::Library {
            match self.library_row {
                Some(i) => if i < self.tracks.len() {
                    Some(self.tracks[i].clone())
                } else {
                    None
                },
                None => None,
            }
        } else if self.player_state.main_panel_view == MainPanelView::SearchResults {
            match self.search_row {
                Some(i) => self.search.result(i),
                None => None,
            }
        } else {
            None
        };
        if track.is_some() {
            self.needs_image_redraw = false;
        }
        track
    }

    /// What a key asks for.
    pub fn handle_key_event(&self, key: Key) -> (r: KeyOutcome)
        requires
            self.wf(),
        ensures
            r == key_outcome(self@, key),
    {
        if self.player_state.main_panel_view == MainPanelView::SearchInput {
            return Model::handle_search_input_event(key);
        }
        if self.player_state.show_help {
            return KeyOutcome::Send(Message::ToggleHelp);
        }
        match global_key(key) {
            Some(m) => KeyOutcome::Send(m),
            None => if self.player_state.focus == PanelFocus::Sidebar {
                self.handle_sidebar_event(key)
            } else if self.player_state.main_panel_view == MainPanelView::Library {
                self.handle_library_event(key)
            } else {
                self.handle_search_results_event(key)
            },
        }
    }

    fn handle_search_input_event(key: Key) -> (r: KeyOutcome)
        ensures
            r == search_input_outcome(key),
    {
        match key.code {
            KeyCode::Esc => KeyOutcome::Send(Message::FocusLibrary),
            KeyCode::Enter => KeyOutcome::Send(Message::ShowSearchResults),
            _ => KeyOutcome::EditSearch,
        }
    }

    fn handle_sidebar_event(&self, key: Key) -> (r: KeyOutcome)
        requires
            self.wf(),
        ensures
            r == sidebar_outcome(self@, key),
    {
        let len = self.queue.len();
        if key_is(key, Modifiers::Control, KeyCode::Char('h')) || key_is(
            key,
            Modifiers::Control,
            KeyCode::Left,
        ) {
            KeyOutcome::Send(Message::FocusMainPanel)
        } else if key_is(key, Modifiers::Plain, KeyCode::Char('j')) || key_is(
            key,
            Modifiers::Plain,
            KeyCode::Down,
        ) {
            KeyOutcome::Send(Message::SelectSidebarQueueRow(next_row(self.sidebar_row, len)))
        } else if key_is(key, Modifiers::Plain, KeyCode::Char('k')) || key_is(
            key,
            Modifiers::Plain,
            KeyCode::Up,
        ) {
            KeyOutcome::Send(Message::SelectSidebarQueueRow(previous_row(self.sidebar_row, len)))
        } else if key.code == KeyCode::Home {
            KeyOutcome::Send(Message::SelectSidebarQueueRow(0))
        } else if key.code == KeyCode::End {
            KeyOutcome::Send(Message::SelectSidebarQueueRow(end_row(len)))
        } else if key_is(key, Modifiers::Plain, KeyCode::Char('d')) {
            match self.sidebar_row {
                Some(i) => KeyOutcome::Send(Message::RemoveFromQueue(i)),
                None => KeyOutcome::Ignore,
            }
        } else {
            KeyOutcome::Ignore
        }
    }

    fn handle_library_event(&self, key: Key) -> (r: KeyOutcome)
        requires
            self.wf(),
        ensures
            r == library_outcome(self@, key),
    {
        let len = self.tracks.len();
        if key_is(key, Modifiers::Control, KeyCode::Char('l')) || key_is(
            key,
            Modifiers::Control,
            KeyCode::Right,
        ) {
            KeyOutcome::Send(Message::FocusSidebar)
        } else if key_is(key, Modifiers::Plain, KeyCode::Char('/')) {
            KeyOutcome::Send(Message::FocusSearchBar)
        } else if key_is(key, Modifiers::Control, KeyCode::Char('s')) {
            KeyOutcome::Send(Message::ShowSearchResults)
        } else if key_is(key, Modifiers::Plain, KeyCode::Char('j')) || key_is(
            key,
            Modifiers::Plain,
            KeyCode::Down,
        ) {
            KeyOutcome::Send(Message::SelectLibraryRow(next_row(self.library_row, len)))
        } else if key_is(key, Modifiers::Plain, KeyCode::Char('k')) || key_is(
            key,
            Modifiers::Plain,
            KeyCode::Up,
        ) {
            KeyOutcome::Send(Message::SelectLibraryRow(previous_row(self.library_row, len)))
        } else if key.code == KeyCode::Home {
            KeyOutcome::Send(Message::SelectLibraryRow(0))
        } else if key.code == KeyCode::End {
            KeyOutcome::Send(Message::SelectLibraryRow(end_row(len)))
        } else if key.code == KeyCode::Enter {
            let track = match self.library_row {
                Some(i) => if i < len {
                    Some(self.tracks[i].clone())
                } else {
                    None
                },
                None => None,
            };
            enqueue_key(key, track)
        } else {
            KeyOutcome::Ignore
        }
    }

    fn handle_search_results_event(&self, key: Key) -> (r: KeyOutcome)
        requires
            self.wf(),
        ensures
            r == search_results_outcome(self@, key),
    {
        let len = self.search.result_count();
        if key.code == KeyCode::Esc {
            KeyOutcome::Send(Message::FocusLibrary)
        } else if key_is(key, Modifiers::Control, KeyCode::Char('l')) || key_is(
            key,
            Modifiers::Control,
            KeyCode::Right,
        ) {
            KeyOutcome::Send(Message::FocusSidebar)
        } else if key_is(key, Modifiers::Plain, KeyCode::Char('j')) || key_is(
            key,
            Modifiers::Plain,
            KeyCode::Down,
        ) {
            KeyOutcome::Send(Message::SelectSearchResultRow(next_row(self.search_row, len)))
        } else if key_is(key, Modifiers::Plain, KeyCode::Char('k')) || key_is(
            key,
            Modifiers::Plain,
            KeyCode::Up,
        ) {
            KeyOutcome::Send(Message::SelectSearchResultRow(previous_row(self.search_row, len)))
        } else if key.code == KeyCode::Home {
            KeyOutcome::Send(Message::SelectSearchResultRow(0))
        } else if key.code == KeyCode::End {
            KeyOutcome::Send(Message::SelectSearchResultRow(end_row(len)))
        } else if key_is(key, Modifiers::Plain, KeyCode::Char('/')) {
            KeyOutcome::Send(Message::FocusSearchBar)
        } else if key.code == KeyCode::Enter {
            let track = match self.search_row {
                Some(i) => self.search.result(i),
                None => None,
            };
            enqueue_key(key, track)
        } else {
            KeyOutcome::Ignore
        }
    }

    /// Raises the volume by `percentage`, up to 100.
    fn increment_volume(&mut self, percentage: usize)
        requires
            old(self).volume_percentage <= 100,
        ensures
            final(self).volume_percentage as nat == volume_up(
                old(self).volume_percentage as nat,
                percentage as nat,
            ),
            final(self)@ == (ModelState { volume: final(self)@.volume, ..old(self)@ }),
            final(self).search == old(self).search,
    {
        if percentage >= 100 - self.volume_percentage {
            self.volume_percentage = 100;
        } else {
            self.volume_percentage = self.volume_percentage + percentage;
        }
    }

    /// Lowers the volume by `percentage`, down to 0.
    fn decrement_volume(&mut self, percentage: usize)
        ensures
            final(self).volume_percentage as nat == volume_down(
                old(self).volume_percentage as nat,
                percentage as nat,
            ),
            final(self)@ == (ModelState { volume: final(self)@.volume, ..old(self)@ }),
            final(self).search == old(self).search,
    {
        self.volume_percentage = self.volume_percentage.saturating_sub(percentage);
    }

    fn request_image_redraw(&mut self) -> (r: Effect)
        ensures
            (final(self)@, r) == redraw(old(self)@),
            final(self).search == old(self).search,
            final(self).volume_percentage == old(self).volume_percentage,
    {
        self.needs_image_redraw = true;
        Effect::RedrawImage
    }

    /// Applies one command or report.
    pub fn update(&mut self, message: Message) -> (r: Effect)
        requires
            old(self).wf(),
        ensures
            final(self).wf(),
            (final(self)@, r) == model_step(old(self)@, message),
    {
        match message {
            Message::Quit => {
                self.player_state.quit = true;
                Effect::Nothing
            },
            Message::ToggleHelp => {
                self.player_state.show_help = !self.player_state.show_help;
                Effect::Nothing
            },
            Message::FocusMainPanel => {
                self.player_state.focus = PanelFocus::MainPanel;
                Effect::Nothing
            },
            Message::FocusSidebar => {
                if self.queue.len() == 0 {
                    return Effect::Nothing;
                }
                if self.sidebar_row.is_none() {
                    self.sidebar_row = Some(self.queue.cursor());
                }
                self.player_state.focus = PanelFocus::Sidebar;
                self.request_image_redraw()
            },
            Message::FocusLibrary => {
                self.player_state.main_panel_view = MainPanelView::Library;
                self.request_image_redraw()
            },
            Message::FocusSearchBar => {
                self.player_state.main_panel_view = MainPanelView::SearchInput;
                proof {
                    reveal_strlit("");
                }
                self.search.set_query("");
                assert(""@ =~= Seq::<char>::empty());
                self.search_row = Some(0);
                Effect::ClearSearchBar
            },
            Message::ShowSearchResults => {
                self.player_state.main_panel_view = MainPanelView::SearchResults;
                self.search_row = Some(0);
                self.request_image_redraw()
            },
            Message::PlayPause => Effect::TogglePause,
            Message::NextTrack => Effect::Sink(self.queue.advance_to_next(Trigger::Skip)),
            Message::PrevTrack => Effect::Sink(self.queue.advance_to_previous()),
            Message::QueueTrack(t) => Effect::Sink(self.queue.enqueue(t)),
            Message::QueueTrackNext(t) => Effect::Sink(self.queue.enqueue_next(t)),
            Message::RemoveFromQueue(i) => match self.queue.remove(i) {
                Ok(a) => Effect::Sink(a),
                Err(_) => Effect::Nothing,
            },
            Message::VolumeUp(p) => {
                self.increment_volume(p);
                Effect::SetVolume(self.volume_percentage)
            },
            Message::VolumeDown(p) => {
                self.decrement_volume(p);
                Effect::SetVolume(self.volume_percentage)
            },
            Message::CycleRepeatMode => {
                self.queue.cycle_repeat_mode();
                Effect::Nothing
            },
            Message::SetRepeatMode(mode) => {
                self.queue.set_repeat_mode(mode);
                Effect::Nothing
            },
            Message::ToggleTrackArt => {
                self.show_track_art = !self.show_track_art;
                Effect::Nothing
            },
            Message::SelectLibraryRow(row) => {
                self.library_row = Some(row);
                self.request_image_redraw()
            },
            Message::SelectSearchResultRow(row) => {
                self.search_row = Some(row);
                self.request_image_redraw()
            },
            Message::SelectSidebarQueueRow(row) => {
                self.sidebar_row = Some(row);
                self.request_image_redraw()
            },
            Message::TrackFinished(t) => Effect::Sink(
                self.queue.advance_to_next(Trigger::Finished(t)),
            ),
            Message::TrackUnplayable(t) => Effect::Sink(
                self.queue.advance_to_next(Trigger::Unplayable(t)),
            ),
            Message::SetSearchQuery(text) => {
                self.search.set_query(text.as_str());
                Effect::Nothing
            },
            Message::PollSearch => {
                self.search.poll();
                Effect::Nothing
            },
        }
    }
}

} // verus!
