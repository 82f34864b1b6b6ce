//! Incremental fuzzy search over the library.
//!
//! A query is matched against the title, artist and album of each track; a
//! match in any of them counts, and the best of their scores ranks the track.
//! Results come highest score first; equal scores keep library order. An
//! empty query matches every track with score 0, so it lists the whole
//! library in order.
//!
//! Matching is spread over [`SearchIndex::poll`] calls, each of which scores
//! at most [`POLL_QUANTUM`] tracks. A new query throws away the work done for
//! the old one, so results never mix two queries.

use vstd::prelude::*;

use nucleo::pattern::{CaseMatching, Normalization, Pattern};

use crate::track::{field_text, CachedField, Track};

verus! {

/// The most tracks that one poll scores.
pub const POLL_QUANTUM: usize = 256;

/// The score that nucleo gives `haystack` for `pattern`, if it matches.
pub uninterp spec fn fuzzy_score_of(pattern: Seq<char>, haystack: Seq<char>) -> Option<u32>;

#[verifier::external_type_specification]
#[verifier::external_body]
pub struct ExMatcher(nucleo::Matcher);

/// Relies on `nucleo::Matcher::new`: a matcher with nucleo's default settings.
#[verifier::external_body]
fn new_matcher() -> nucleo::Matcher {
    nucleo::Matcher::new(nucleo::Config::DEFAULT)
}

/// Relies on nucleo's `Pattern::score`, for the pattern that `Pattern::parse`
/// makes of `pattern` with case ignored and smart normalization: the score
/// depends on the two strings alone, since scoring sets the matcher's case
/// and normalization itself and leaves its other settings at their defaults.
#[verifier::external_body]
fn fuzzy_score(matcher: &mut nucleo::Matcher, pattern: &str, haystack: &str) -> (r: Option<u32>)
    ensures
        r == fuzzy_score_of(pattern@, haystack@),
{
    let parsed = Pattern::parse(pattern, CaseMatching::Ignore, Normalization::Smart);
    let mut buf = Vec::new();
    parsed.score(nucleo::Utf32Str::new(haystack, &mut buf), matcher)
}

/// The better of two optional scores.
pub open spec fn best(a: Option<u32>, b: Option<u32>) -> Option<u32> {
    match (a, b) {
        (Some(x), Some(y)) => Some(
            if x >= y {
                x
            } else {
                y
            },
        ),
        (Some(x), None) => Some(x),
        (None, y) => y,
    }
}

/// The score of `track` for `query`: 0 for the empty query, else the best
/// score of its title, artist and album; none where no column matches.
pub open spec fn track_score(query: Seq<char>, track: Track) -> Option<u32> {
    if query.len() == 0 {
        Some(0)
    } else {
        best(
            best(
                fuzzy_score_of(query, field_text(track, CachedField::Title)),
                fuzzy_score_of(query, field_text(track, CachedField::Artist)),
            ),
            fuzzy_score_of(query, field_text(track, CachedField::Album)),
        )
    }
}

/// Whether match `a` (a score and an item index) ranks before match `b`:
/// higher score first, then the earlier item.
pub open spec fn ranks_before(a: (u32, usize), b: (u32, usize)) -> bool {
    a.0 > b.0 || (a.0 == b.0 && a.1 < b.1)
}

/// `m` with `e` put just before the first match that `e` ranks before.
pub open spec fn insert_ranked(m: Seq<(u32, usize)>, e: (u32, usize)) -> Seq<(u32, usize)>
    decreases m.len(),
{
    if m.len() == 0 {
        seq![e]
    } else if ranks_before(e, m[0]) {
        seq![e] + m
    } else {
        seq![m[0]] + insert_ranked(m.drop_first(), e)
    }
}

/// The matches among the first `n` items, in rank order.
pub open spec fn ranking(items: Seq<Track>, query: Seq<char>, n: nat) -> Seq<(u32, usize)>
    decreases n,
{
    if n == 0 {
        Seq::empty()
    } else {
        let prev = ranking(items, query, (n - 1) as nat);
        match track_score(query, items[n - 1]) {
            Some(s) => insert_ranked(prev, (s, (n - 1) as usize)),
            None => prev,
        }
    }
}

/// The tracks that match among the first `n` items, in rank order.
pub open spec fn ranked_tracks(items: Seq<Track>, query: Seq<char>, n: nat) -> Seq<Track> {
    ranking(items, query, n).map_values(|e: (u32, usize)| items[e.1 as int])
}

/// All tracks of `items` that match `query`, in rank order.
pub open spec fn search_results(items: Seq<Track>, query: Seq<char>) -> Seq<Track> {
    ranked_tracks(items, query, items.len())
}

/// The mathematical value of a [`SearchIndex`].
pub struct SearchState {
    pub items: Seq<Track>,
    pub query: Seq<char>,
    /// How many items, from the first on, have been matched against the query.
    pub scanned: nat,
}

impl SearchState {
    /// What the search shows: the matches among the items scanned so far.
    pub open spec fn results(self) -> Seq<Track> {
        ranked_tracks(self.items, self.query, self.scanned)
    }

    pub open spec fn is_done(self) -> bool {
        self.scanned == self.items.len()
    }
}

pub open spec fn after_push(s: SearchState, track: Track) -> SearchState {
    SearchState { items: s.items.push(track), ..s }
}

pub open spec fn after_set_query(s: SearchState, query: Seq<char>) -> SearchState {
    SearchState { query, scanned: 0, ..s }
}

pub open spec fn after_poll(s: SearchState) -> SearchState {
    SearchState {
        scanned: if s.scanned + POLL_QUANTUM >= s.items.len() {
            s.items.len()
        } else {
            (s.scanned + POLL_QUANTUM) as nat
        },
        ..s
    }
}

pub open spec fn poll_times(s: SearchState, n: nat) -> SearchState
    decreases n,
{
    if n == 0 {
        s
    } else {
        poll_times(after_poll(s), (n - 1) as nat)
    }
}

proof fn lemma_insert_ranked_at(m: Seq<(u32, usize)>, e: (u32, usize), p: nat)
    requires
        p <= m.len(),
        forall|k: int| 0 <= k < p ==> !ranks_before(e, #[trigger] m[k]),
        p < m.len() ==> ranks_before(e, m[p as int]),
    ensures
        insert_ranked(m, e) == m.insert(p as int, e),
    decreases m.len(),
{
    if m.len() == 0 {
        assert(seq![e] =~= m.insert(0, e));
    } else if p == 0 {
        assert(seq![e] + m =~= m.insert(0, e));
    } else {
        let rest = m.drop_first();
        assert forall|k: int| 0 <= k < p - 1 implies !ranks_before(e, #[trigger] rest[k]) by {
            assert(rest[k] == m[k + 1]);
        }
        lemma_insert_ranked_at(rest, e, (p - 1) as nat);
        assert(seq![m[0]] + rest.insert(p - 1, e) =~= m.insert(p as int, e));
    }
}

/// The ranking of the first `n` items does not look at the items after them.
proof fn lemma_ranking_prefix(items: Seq<Track>, more: Seq<Track>, query: Seq<char>, n: nat)
    requires
        n <= items.len(),
        n <= more.len(),
        forall|i: int| 0 <= i < n ==> items[i] == more[i],
    ensures
        ranking(items, query, n) == ranking(more, query, n),
        ranked_tracks(items, query, n) == ranked_tracks(more, query, n),
    decreases n,
{
    if n > 0 {
        lemma_ranking_prefix(items, more, query, (n - 1) as nat);
    }
    lemma_ranking_indices(items, query, n);
    assert(ranked_tracks(items, query, n) =~= ranked_tracks(more, query, n));
}

/// Every match in the ranking of the first `n` items names one of them.
proof fn lemma_ranking_indices(items: Seq<Track>, query: Seq<char>, n: nat)
    requires
        n <= items.len(),
    ensures
        forall|k: int|
            0 <= k < ranking(items, query, n).len() ==> (#[trigger] ranking(items, query, n)[k]).1
                < n,
    decreases n,
{
    if n > 0 {
        lemma_ranking_indices(items, query, (n - 1) as nat);
        let prev = ranking(items, query, (n - 1) as nat);
        match track_score(query, items[n - 1]) {
            Some(s) => lemma_insert_ranked_members(prev, (s, (n - 1) as usize)),
            None => {},
        }
    }
}

proof fn lemma_insert_ranked_members(m: Seq<(u32, usize)>, e: (u32, usize))
    ensures
        insert_ranked(m, e).len() == m.len() + 1,
        forall|k: int|
            0 <= k < insert_ranked(m, e).len() ==> #[trigger] insert_ranked(m, e)[k] == e
                || m.contains(insert_ranked(m, e)[k]),
    decreases m.len(),
{
    if m.len() > 0 && !ranks_before(e, m[0]) {
        let rest = m.drop_first();
        lemma_insert_ranked_members(rest, e);
        let r = insert_ranked(m, e);
        assert forall|k: int| 0 <= k < r.len() implies #[trigger] r[k] == e || m.contains(r[k]) by {
            if k == 0 {
                assert(m[0] == r[0]);
            } else {
                assert(r[k] == insert_ranked(rest, e)[k - 1]);
                if r[k] != e {
                    let j = choose|j: int| 0 <= j < rest.len() && rest[j] == r[k];
                    assert(m[j + 1] == r[k]);
                }
            }
        }
    } else if m.len() > 0 {
        let r = insert_ranked(m, e);
        assert forall|k: int| 0 <= k < r.len() implies #[trigger] r[k] == e || m.contains(r[k]) by {
            if k > 0 {
                assert(r[k] == m[k - 1]);
            }
        }
    }
}

pub open spec fn is_ranked(m: Seq<(u32, usize)>) -> bool {
    forall|i: int, j: int| 0 <= i < j < m.len() ==> ranks_before(#[trigger] m[i], #[trigger] m[j])
}

proof fn lemma_insert_ranked_sorted(m: Seq<(u32, usize)>, e: (u32, usize))
    requires
        is_ranked(m),
        forall|k: int| 0 <= k < m.len() ==> (#[trigger] m[k]).1 < e.1,
    ensures
        is_ranked(insert_ranked(m, e)),
    decreases m.len(),
{
    lemma_insert_ranked_members(m, e);
    if m.len() == 0 {
    } else if ranks_before(e, m[0]) {
        let r = insert_ranked(m, e);
        assert forall|i: int, j: int| 0 <= i < j < r.len() implies ranks_before(
            #[trigger] r[i],
            #[trigger] r[j],
        ) by {
            if i == 0 {
                assert(r[j] == m[j - 1]);
                if j > 1 {
                    assert(ranks_before(m[0], m[j - 1]));
                }
            } else {
                assert(r[i] == m[i - 1] && r[j] == m[j - 1]);
            }
        }
    } else {
        let rest = m.drop_first();
        assert forall|i: int, j: int| 0 <= i < j < rest.len() implies ranks_before(
            #[trigger] rest[i],
            #[trigger] rest[j],
        ) by {
            assert(rest[i] == m[i + 1] && rest[j] == m[j + 1]);
        }
        assert forall|k: int| 0 <= k < rest.len() implies (#[trigger] rest[k]).1 < e.1 by {
            assert(rest[k] == m[k + 1]);
        }
        lemma_insert_ranked_sorted(rest, e);
        lemma_insert_ranked_members(rest, e);
        let tail = insert_ranked(rest, e);
        let r = insert_ranked(m, e);
        assert(r == seq![m[0]] + tail);
        assert forall|i: int, j: int| 0 <= i < j < r.len() implies ranks_before(
            #[trigger] r[i],
            #[trigger] r[j],
        ) by {
            if i == 0 {
                let x = tail[j - 1];
                assert(r[j] == x);
                if x != e {
                    let k = choose|k: int| 0 <= k < rest.len() && rest[k] == x;
                    assert(m[k + 1] == x);
                    assert(ranks_before(m[0], m[k + 1]));
                }
            } else {
                assert(r[i] == tail[i - 1] && r[j] == tail[j - 1]);
            }
        }
    }
}

/// What the ranking of the first `n` items is: matches in strict rank order
/// (higher score first, then the earlier item), each naming one of those
/// items together with its score.
pub proof fn lemma_ranking_is_ranked(items: Seq<Track>, query: Seq<char>, n: nat)
    requires
        n <= items.len(),
        items.len() <= usize::MAX,
    ensures
        is_ranked(ranking(items, query, n)),
        forall|k: int|
            0 <= k < ranking(items, query, n).len() ==> {
                let e = #[trigger] ranking(items, query, n)[k];
                &&& e.1 < n
                &&& track_score(query, items[e.1 as int]) == Some(e.0)
            },
    decreases n,
{
    if n > 0 {
        lemma_ranking_is_ranked(items, query, (n - 1) as nat);
        let prev = ranking(items, query, (n - 1) as nat);
        match track_score(query, items[n - 1]) {
            Some(s) => {
                let e = (s, (n - 1) as usize);
                lemma_insert_ranked_sorted(prev, e);
                lemma_insert_ranked_members(prev, e);
                let r = insert_ranked(prev, e);
                assert forall|k: int| 0 <= k < r.len() implies {
                    let x = #[trigger] r[k];
                    &&& x.1 < n
                    &&& track_score(query, items[x.1 as int]) == Some(x.0)
                } by {
                    if r[k] != e {
                        let j = choose|j: int| 0 <= j < prev.len() && prev[j] == r[k];
                        assert(prev[j].1 < n - 1);
                    }
                }
            },
            None => {},
        }
    }
}

proof fn lemma_insert_ranked_keeps(m: Seq<(u32, usize)>, e: (u32, usize))
    ensures
        insert_ranked(m, e).contains(e),
        forall|k: int| 0 <= k < m.len() ==> insert_ranked(m, e).contains(#[trigger] m[k]),
    decreases m.len(),
{
    let r = insert_ranked(m, e);
    if m.len() == 0 {
        assert(r[0] == e);
    } else if ranks_before(e, m[0]) {
        assert(r[0] == e);
        assert forall|k: int| 0 <= k < m.len() implies r.contains(#[trigger] m[k]) by {
            assert(r[k + 1] == m[k]);
        }
    } else {
        let rest = m.drop_first();
        lemma_insert_ranked_keeps(rest, e);
        let tail = insert_ranked(rest, e);
        assert(r == seq![m[0]] + tail);
        let j = choose|j: int| 0 <= j < tail.len() && tail[j] == e;
        assert(r[j + 1] == e);
        assert forall|k: int| 0 <= k < m.len() implies r.contains(#[trigger] m[k]) by {
            if k == 0 {
                assert(r[0] == m[0]);
            } else {
                assert(rest[k - 1] == m[k]);
                let i = choose|i: int| 0 <= i < tail.len() && tail[i] == rest[k - 1];
                assert(r[i + 1] == m[k]);
            }
        }
    }
}

/// Every track among the first `n` items that matches the query is in
/// their ranking, with its score.
pub proof fn lemma_ranking_is_complete(items: Seq<Track>, query: Seq<char>, n: nat, i: nat)
    requires
        i < n <= items.len(),
        items.len() <= usize::MAX,
        track_score(query, items[i as int]) is Some,
    ensures
        ranking(items, query, n).contains(
            (track_score(query, items[i as int])->Some_0, i as usize),
        ),
    decreases n,
{
    let prev = ranking(items, query, (n - 1) as nat);
    let e = (track_score(query, items[i as int])->Some_0, i as usize);
    match track_score(query, items[n - 1]) {
        Some(s) => {
            let x = (s, (n - 1) as usize);
            lemma_insert_ranked_keeps(prev, x);
            if i < n - 1 {
                lemma_ranking_is_complete(items, query, (n - 1) as nat, i);
                let k = choose|k: int| 0 <= k < prev.len() && prev[k] == e;
                assert(insert_ranked(prev, x).contains(prev[k]));
            }
        },
        None => {
            lemma_ranking_is_complete(items, query, (n - 1) as nat, i);
        },
    }
}

/// The better of two optional scores: a score beats none.
pub fn best_score(a: Option<u32>, b: Option<u32>) -> (r: Option<u32>)
    ensures
        r == best(a, b),
{
    match (a, b) {
        (Some(x), Some(y)) => Some(
            if x >= y {
                x
            } else {
                y
            },
        ),
        (Some(x), None) => Some(x),
        (None, y) => y,
    }
}

/// Puts `e` into the ranked matches `m` at its place.
pub fn insert_match(m: &mut Vec<(u32, usize)>, e: (u32, usize))
    ensures
        final(m)@ == insert_ranked(old(m)@, e),
{
    let mut p: usize = 0;
    while p < m.len()
        invariant
            p <= m.len(),
            m@ == old(m)@,
            forall|k: int| 0 <= k < p ==> !ranks_before(e, #[trigger] m@[k]),
        ensures
            p <= m.len(),
            m@ == old(m)@,
            forall|k: int| 0 <= k < p ==> !ranks_before(e, #[trigger] m@[k]),
            p < m.len() ==> ranks_before(e, m@[p as int]),
        decreases m.len() - p,
    {
        let (s, i) = m[p];
        if e.0 > s || (e.0 == s && e.1 < i) {
            break;
        }
        p = p + 1;
    }
    proof {
        lemma_insert_ranked_at(m@, e, p as nat);
    }
    m.insert(p, e);
}

/// The search over the library's tracks.
pub struct SearchIndex {
    items: Vec<Track>,
    query: String,
    scanned: usize,
    matches: Vec<(u32, usize)>,
    matcher: nucleo::Matcher,
}

impl View for SearchIndex {
    type V = SearchState;

    closed spec fn view(&self) -> SearchState {
        SearchState { items: self.items@, query: self.query@, scanned: self.scanned as nat }
    }
}

impl SearchIndex {
    /// The scan stays within the items, and the matches found so far are
    /// kept in rank order.
    pub closed spec fn wf(&self) -> bool {
        &&& self.scanned <= self.items.len()
        &&& self.matches@ == ranking(self.items@, self.query@, self.scanned as nat)
    }

    /// A search with no tracks and the empty query.
    pub fn new() -> (r: SearchIndex)
        ensures
            r.wf(),
            r@.items.len() == 0,
            r@.query.len() == 0,
            r@.scanned == 0,
    {
        SearchIndex {
            items: Vec::new(),
            query: String::new(),
            scanned: 0,
            matches: Vec::new(),
            matcher: new_matcher(),
        }
    }

    /// Adds a track to the library being searched; it is matched by later polls.
    pub fn push(&mut self, track: Track)
        requires
            old(self).wf(),
        ensures
            final(self).wf(),
            final(self)@ == after_push(old(self)@, track),
    {
        let ghost before = self.items@;
        self.items.push(track);
        proof {
            lemma_ranking_prefix(before, self.items@, self.query@, self.scanned as nat);
        }
    }

    /// Replaces the query; the matching starts over.
    pub fn set_query(&mut self, text: &str)
        requires
            old(self).wf(),
        ensures
            final(self).wf(),
            final(self)@ == after_set_query(old(self)@, text@),
    {
        self.query = text.to_owned();
        self.scanned = 0;
        self.matches = Vec::new();
    }

    /// The score of the item at `index` for the current query.
    fn score_of(&mut self, index: usize) -> (r: Option<u32>)
        requires
            index < old(self).items.len(),
        ensures
            final(self).items == old(self).items,
            final(self).query == old(self).query,
            final(self).scanned == old(self).scanned,
            final(self).matches == old(self).matches,
            r == track_score(old(self).query@, old(self).items@[index as int]),
    {
        if self.query.as_str().unicode_len() == 0 {
            return Some(0);
        }
        let title = self.items[index].cached_field_string(CachedField::Title);
        let artist = self.items[index].cached_field_string(CachedField::Artist);
        let album = self.items[index].cached_field_string(CachedField::Album);
        let a = fuzzy_score(&mut self.matcher, self.query.as_str(), title.as_str());
        let b = fuzzy_score(&mut self.matcher, self.query.as_str(), artist.as_str());
        let c = fuzzy_score(&mut self.matcher, self.query.as_str(), album.as_str());
        best_score(best_score(a, b), c)
    }

    /// Matches up to [`POLL_QUANTUM`] more tracks against the query.
    pub fn poll(&mut self)
        requires
            old(self).wf(),
        ensures
            final(self).wf(),
            final(self)@ == after_poll(old(self)@),
    {
        let len = self.items.len();
        let end = if len - self.scanned <= POLL_QUANTUM {
            len
        } else {
            self.scanned + POLL_QUANTUM
        };
        while self.scanned < end
            invariant
                self.wf(),
                self.items@ == old(self).items@,
                self.query@ == old(self).query@,
                old(self).scanned <= self.scanned <= end <= len,
                len == self.items.len(),
                end == after_poll(old(self)@).scanned,
            decreases end - self.scanned,
        {
            let i = self.scanned;
            let s = self.score_of(i);
            match s {
                Some(v) => insert_match(&mut self.matches, (v, i)),
                None => {},
            }
            self.scanned = i + 1;
        }
    }

    /// Whether every track has been matched against the current query.
    pub fn is_done(&self) -> (r: bool)
        requires
            self.wf(),
        ensures
            r == self@.is_done(),
    {
        self.scanned == self.items.len()
    }

    /// How many tracks have been found so far.
    pub fn result_count(&self) -> (r: usize)
        requires
            self.wf(),
        ensures
            r == self@.results().len(),
    {
        self.matches.len()
    }

    /// The found track at `index`, best first, if there is one.
    pub fn result(&self, index: usize) -> (r: Option<Track>)
        requires
            self.wf(),
        ensures
            index < self@.results().len() ==> r == Some(self@.results()[index as int]),
            index >= self@.results().len() ==> r is None,
    {
        proof {
            lemma_ranking_indices(self.items@, self.query@, self.scanned as nat);
        }
        if index < self.matches.len() {
            let (_, i) = self.matches[index];
            assert(self.matches@[index as int].1 < self.scanned);
            Some(self.items[i].clone())
        } else {
            None
        }
    }

    /// The tracks found so far, best first.
    pub fn results(&self) -> (r: Vec<Track>)
        requires
            self.wf(),
        ensures
            r@ == self@.results(),
    {
        proof {
            lemma_ranking_indices(self.items@, self.query@, self.scanned as nat);
        }
        let mut r: Vec<Track> = Vec::new();
        let mut k: usize = 0;
        while k < self.matches.len()
            invariant
                self.wf(),
                k <= self.matches.len(),
                r@ == self@.results().take(k as int),
                forall|j: int|
                    0 <= j < self.matches@.len() ==> (#[trigger] self.matches@[j]).1
                        < self.scanned,
            decreases self.matches.len() - k,
        {
            let (_, i) = self.matches[k];
            r.push(self.items[i].clone());
            assert(self@.results().take(k + 1 as int) =~= self@.results().take(k as int).push(
                self.items@[i as int],
            ));
            k = k + 1;
        }
        assert(r@ =~= self@.results());
        r
    }
}

/// A new query does not depend on what was searched before: after a search
/// for any query and then the empty one, every number of polls shows what it
/// shows after the empty query alone.
pub proof fn lemma_query_round_trip(s: SearchState, query: Seq<char>, n: nat)
    ensures
        poll_times(after_set_query(after_set_query(s, query), Seq::empty()), n) == poll_times(
            after_set_query(s, Seq::empty()),
            n,
        ),
{
}

/// Once every track has been matched, a poll changes nothing, so two polls
/// in a row show the same results.
pub proof fn lemma_poll_when_done(s: SearchState)
    requires
        s.is_done(),
    ensures
        after_poll(s) == s,
        after_poll(s).results() == s.results(),
{
}

/// Enough polls match every track, and then the results are the ranked
/// matches of the whole library.
pub proof fn lemma_polls_finish(s: SearchState, n: nat)
    requires
        s.scanned <= s.items.len(),
        s.scanned + n * POLL_QUANTUM >= s.items.len(),
    ensures
        poll_times(s, n).is_done(),
        poll_times(s, n).results() == search_results(s.items, s.query),
    decreases n,
{
    if n > 0 && s.scanned < s.items.len() {
        assert(after_poll(s).scanned + (n - 1) * POLL_QUANTUM >= s.items.len()) by (nonlinear_arith)
            requires
                s.scanned + n * POLL_QUANTUM >= s.items.len(),
                after_poll(s).scanned == s.items.len() || after_poll(s).scanned == s.scanned
                    + POLL_QUANTUM,
                n > 0,
        ;
        lemma_polls_finish(after_poll(s), (n - 1) as nat);
    } else if n > 0 {
        lemma_poll_when_done(s);
        lemma_polls_finish(after_poll(s), (n - 1) as nat);
    }
}

/// The empty query lists every track, in library order.
pub proof fn lemma_empty_query_lists_all(items: Seq<Track>)
    requires
        items.len() <= usize::MAX,
    ensures
        search_results(items, Seq::empty()) == items,
{
    lemma_empty_ranking(items, items.len());
    let r = search_results(items, Seq::empty());
    assert forall|i: int| 0 <= i < items.len() implies #[trigger] r[i] == items[i] by {
        assert(ranking(items, Seq::empty(), items.len())[i] == (0u32, i as usize));
    }
    assert(search_results(items, Seq::empty()) =~= items);
}

proof fn lemma_empty_ranking(items: Seq<Track>, n: nat)
    requires
        n <= items.len(),
        items.len() <= usize::MAX,
    ensures
        ranking(items, Seq::empty(), n) == Seq::new(n, |i: int| (0u32, i as usize)),
    decreases n,
{
    if n > 0 {
        lemma_empty_ranking(items, (n - 1) as nat);
        let prev = ranking(items, Seq::empty(), (n - 1) as nat);
        let e = (0u32, (n - 1) as usize);
        assert forall|k: int| 0 <= k < prev.len() implies !ranks_before(e, #[trigger] prev[k]) by {
            assert(prev[k] == (0u32, k as usize));
        }
        lemma_insert_ranked_at(prev, e, prev.len());
        assert(prev.insert(prev.len() as int, e) =~= Seq::new(n, |i: int| (0u32, i as usize)));
    }
}

} // verus!
