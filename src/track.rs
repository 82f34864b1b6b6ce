//! Library entries and the display strings derived from them.

use std::cmp::Ordering;
use std::path::Path;

use vstd::prelude::*;

verus! {

/// The fields of a track that can be shown, searched or sorted on.
#[derive(Clone, Copy, Debug, PartialEq, Eq, Hash, Structural)]
#[non_exhaustive]
pub enum CachedField {
    Title,
    Artist,
    Album,
    Year,
    Genre,
    Duration,
}

/// One entry of the library: a file path and the tags cached for it.
///
/// Two tracks are the same track exactly when their paths are equal.
#[derive(Debug, Default)]
pub struct Track {
    pub path: String,
    pub title: Option<String>,
    pub artist: Option<String>,
    pub album: Option<String>,
    pub duration: u64,
}

impl PartialEq for Track {
    fn eq(&self, other: &Track) -> (r: bool)
        ensures
            r == (self.path@ == other.path@),
    {
        self.path == other.path
    }
}

impl vstd::std_specs::cmp::PartialEqSpecImpl for Track {
    open spec fn obeys_eq_spec() -> bool {
        true
    }

    open spec fn eq_spec(&self, other: &Track) -> bool {
        self.path@ == other.path@
    }
}

impl Eq for Track {}

/// A copy of an optional string that is equal to it.
fn copy_opt(s: &Option<String>) -> (r: Option<String>)
    ensures
        r == *s,
{
    match s {
        Some(v) => Some(v.clone()),
        None => None,
    }
}

impl Clone for Track {
    fn clone(&self) -> (r: Track)
        ensures
            r == *self,
    {
        Track {
            path: self.path.clone(),
            title: copy_opt(&self.title),
            artist: copy_opt(&self.artist),
            album: copy_opt(&self.album),
            duration: self.duration,
        }
    }
}

/// The last component of a path, as `Path::file_name` gives it.
pub uninterp spec fn file_name_of(path: Seq<char>) -> Option<Seq<char>>;

/// Relies on `Path::file_name`: the final component of the path, if any;
/// the component is converted to a string, replacing invalid sequences.
#[verifier::external_body]
fn file_name(path: &str) -> (r: Option<String>)
    ensures
        r matches Some(n) ==> file_name_of(path@) == Some(n@),
        r is None ==> file_name_of(path@) is None,
{
    match Path::new(path).file_name() {
        Some(n) => Some(n.to_string_lossy().into_owned()),
        None => None,
    }
}

/// Lexicographic order on characters, as `Ord for str` orders strings.
pub open spec fn text_order(a: Seq<char>, b: Seq<char>) -> Ordering
    decreases a.len(),
{
    if a.len() == 0 {
        if b.len() == 0 {
            Ordering::Equal
        } else {
            Ordering::Less
        }
    } else if b.len() == 0 {
        Ordering::Greater
    } else if (a[0] as u32) < (b[0] as u32) {
        Ordering::Less
    } else if (a[0] as u32) > (b[0] as u32) {
        Ordering::Greater
    } else {
        text_order(a.drop_first(), b.drop_first())
    }
}

/// Relies on `Ord for str`: strings are ordered lexicographically by their
/// bytes, which is the order of their code points.
#[verifier::external_body]
fn compare_text(a: &str, b: &str) -> (r: Ordering)
    ensures
        r == text_order(a@, b@),
{
    a.cmp(b)
}

/// The order of two optional tags: a missing tag comes first.
pub open spec fn tag_order(a: Option<String>, b: Option<String>) -> Ordering {
    match (a, b) {
        (None, None) => Ordering::Equal,
        (None, Some(_)) => Ordering::Less,
        (Some(_), None) => Ordering::Greater,
        (Some(x), Some(y)) => text_order(x@, y@),
    }
}

fn compare_tags(a: &Option<String>, b: &Option<String>) -> (r: Ordering)
    ensures
        r == tag_order(*a, *b),
{
    match (a, b) {
        (None, None) => Ordering::Equal,
        (None, Some(_)) => Ordering::Less,
        (Some(_), None) => Ordering::Greater,
        (Some(x), Some(y)) => compare_text(x.as_str(), y.as_str()),
    }
}

pub open spec fn number_order(a: u64, b: u64) -> Ordering {
    if a < b {
        Ordering::Less
    } else if a > b {
        Ordering::Greater
    } else {
        Ordering::Equal
    }
}

/// The order of two tracks on one field; fields without an order tie.
pub open spec fn field_order(a: Track, b: Track, field: CachedField) -> Ordering {
    match field {
        CachedField::Title => tag_order(a.title, b.title),
        CachedField::Artist => tag_order(a.artist, b.artist),
        CachedField::Album => tag_order(a.album, b.album),
        CachedField::Duration => number_order(a.duration, b.duration),
        _ => Ordering::Equal,
    }
}

/// The order of two tracks on the first of `fields` on which they differ.
pub open spec fn fields_order(a: Track, b: Track, fields: Seq<CachedField>) -> Ordering
    decreases fields.len(),
{
    if fields.len() == 0 {
        Ordering::Equal
    } else if field_order(a, b, fields[0]) != Ordering::Equal {
        field_order(a, b, fields[0])
    } else {
        fields_order(a, b, fields.drop_first())
    }
}

/// `o` seen from the other side.
pub open spec fn flipped(o: Ordering) -> Ordering {
    match o {
        Ordering::Less => Ordering::Greater,
        Ordering::Equal => Ordering::Equal,
        Ordering::Greater => Ordering::Less,
    }
}

proof fn lemma_text_order_flip(a: Seq<char>, b: Seq<char>)
    ensures
        text_order(b, a) == flipped(text_order(a, b)),
    decreases a.len(),
{
    if a.len() > 0 && b.len() > 0 && (a[0] as u32) == (b[0] as u32) {
        lemma_text_order_flip(a.drop_first(), b.drop_first());
    }
}

proof fn lemma_text_order_trans(a: Seq<char>, b: Seq<char>, c: Seq<char>)
    requires
        text_order(a, b) != Ordering::Greater,
        text_order(b, c) != Ordering::Greater,
    ensures
        text_order(a, c) != Ordering::Greater,
    decreases a.len(),
{
    if a.len() > 0 && b.len() > 0 && c.len() > 0 && (a[0] as u32) == (b[0] as u32) && (b[0]
        as u32) == (c[0] as u32) {
        lemma_text_order_trans(a.drop_first(), b.drop_first(), c.drop_first());
    }
}

proof fn lemma_field_order_total(a: Track, b: Track, c: Track, field: CachedField)
    ensures
        field_order(b, a, field) == flipped(field_order(a, b, field)),
        field_order(a, b, field) != Ordering::Greater && field_order(b, c, field)
            != Ordering::Greater ==> field_order(a, c, field) != Ordering::Greater,
{
    match field {
        CachedField::Title => lemma_tag_order_total(a.title, b.title, c.title),
        CachedField::Artist => lemma_tag_order_total(a.artist, b.artist, c.artist),
        CachedField::Album => lemma_tag_order_total(a.album, b.album, c.album),
        _ => {},
    }
}

proof fn lemma_tag_order_total(a: Option<String>, b: Option<String>, c: Option<String>)
    ensures
        tag_order(b, a) == flipped(tag_order(a, b)),
        tag_order(a, b) != Ordering::Greater && tag_order(b, c) != Ordering::Greater ==> tag_order(
            a,
            c,
        ) != Ordering::Greater,
{
    if let (Some(x), Some(y)) = (a, b) {
        lemma_text_order_flip(x@, y@);
    }
    if let (Some(x), Some(y), Some(z)) = (a, b, c) {
        if text_order(x@, y@) != Ordering::Greater && text_order(y@, z@) != Ordering::Greater {
            lemma_text_order_trans(x@, y@, z@);
        }
    }
}

/// The order of tracks on a list of fields is a total preorder: swapping
/// the tracks flips it, and "not after" is transitive. This is what a sort
/// by `Track::compare_by_fields` relies on.
pub proof fn lemma_fields_order_total(a: Track, b: Track, c: Track, fields: Seq<CachedField>)
    ensures
        fields_order(b, a, fields) == flipped(fields_order(a, b, fields)),
        fields_order(a, b, fields) != Ordering::Greater && fields_order(b, c, fields)
            != Ordering::Greater ==> fields_order(a, c, fields) != Ordering::Greater,
    decreases fields.len(),
{
    if fields.len() > 0 {
        let f = fields[0];
        lemma_field_order_total(a, b, c, f);
        lemma_field_order_total(b, c, a, f);
        lemma_field_order_total(c, a, b, f);
        lemma_field_order_total(a, c, b, f);
        lemma_field_order_total(b, a, c, f);
        lemma_field_order_total(c, b, a, f);
        lemma_fields_order_total(a, b, c, fields.drop_first());
    }
}

/// The decimal digit `d`.
pub open spec fn digit_char(d: nat) -> char {
    if d == 0 {
        '0'
    } else if d == 1 {
        '1'
    } else if d == 2 {
        '2'
    } else if d == 3 {
        '3'
    } else if d == 4 {
        '4'
    } else if d == 5 {
        '5'
    } else if d == 6 {
        '6'
    } else if d == 7 {
        '7'
    } else if d == 8 {
        '8'
    } else {
        '9'
    }
}

/// `n` in decimal, without leading zeros.
pub open spec fn decimal(n: nat) -> Seq<char>
    decreases n,
{
    if n < 10 {
        seq![digit_char(n)]
    } else {
        decimal(n / 10).push(digit_char(n % 10))
    }
}

/// A number of seconds as minutes, a colon and two digits of seconds.
pub open spec fn duration_text(secs: nat) -> Seq<char> {
    let s = secs % 60;
    decimal(secs / 60) + seq![':'] + if s < 10 {
        seq!['0', digit_char(s)]
    } else {
        decimal(s)
    }
}

/// The text of `field` for `track`: a missing title falls back to the file
/// name, other missing tags are empty, and fields that are not cached read
/// as empty.
pub open spec fn field_text(track: Track, field: CachedField) -> Seq<char> {
    match field {
        CachedField::Title => match track.title {
            Some(t) => t@,
            None => match file_name_of(track.path@) {
                Some(n) => n,
                None => Seq::empty(),
            },
        },
        CachedField::Artist => match track.artist {
            Some(t) => t@,
            None => Seq::empty(),
        },
        CachedField::Album => match track.album {
            Some(t) => t@,
            None => Seq::empty(),
        },
        CachedField::Duration => duration_text(track.duration as nat),
        _ => Seq::empty(),
    }
}

fn digit_str(d: u64) -> (r: &'static str)
    requires
        d < 10,
    ensures
        r@ == seq![digit_char(d as nat)],
{
    proof {
        reveal_strlit("0");
        reveal_strlit("1");
        reveal_strlit("2");
        reveal_strlit("3");
        reveal_strlit("4");
        reveal_strlit("5");
        reveal_strlit("6");
        reveal_strlit("7");
        reveal_strlit("8");
        reveal_strlit("9");
    }
    if d == 0 {
        "0"
    } else if d == 1 {
        "1"
    } else if d == 2 {
        "2"
    } else if d == 3 {
        "3"
    } else if d == 4 {
        "4"
    } else if d == 5 {
        "5"
    } else if d == 6 {
        "6"
    } else if d == 7 {
        "7"
    } else if d == 8 {
        "8"
    } else {
        "9"
    }
}

fn push_decimal(s: &mut String, n: u64)
    ensures
        final(s)@ == old(s)@ + decimal(n as nat),
    decreases n,
{
    if n >= 10 {
        push_decimal(s, n / 10);
    }
    s.append(digit_str(n % 10));
    assert(final(s)@ == old(s)@ + decimal(n as nat));
}

fn text_of(tag: &Option<String>) -> (r: String)
    ensures
        tag matches Some(t) ==> r@ == t@,
        tag is None ==> r@ == Seq::<char>::empty(),
{
    match tag {
        Some(t) => t.clone(),
        None => String::new(),
    }
}

impl Track {
    /// `secs` seconds as `m:ss`.
    pub fn format_duration(secs: u64) -> (r: String)
        ensures
            r@ == duration_text(secs as nat),
    {
        let mut s = String::new();
        push_decimal(&mut s, secs / 60);
        s.append(":");
        let rest = secs % 60;
        if rest < 10 {
            s.append("0");
        }
        push_decimal(&mut s, rest);
        proof {
            reveal_strlit(":");
            reveal_strlit("0");
        }
        assert(s@ == duration_text(secs as nat));
        s
    }

    /// The text of `field` for this track.
    pub fn cached_field_string(&self, field: CachedField) -> (r: String)
        ensures
            r@ == field_text(*self, field),
    {
        match field {
            CachedField::Title => match &self.title {
                Some(t) => t.clone(),
                None => match file_name(self.path.as_str()) {
                    Some(n) => n,
                    None => String::new(),
                },
            },
            CachedField::Artist => text_of(&self.artist),
            CachedField::Album => text_of(&self.album),
            CachedField::Duration => Track::format_duration(self.duration),
            _ => String::new(),
        }
    }

    /// Orders two tracks on the first of `fields` on which they differ; a
    /// missing tag comes before any present one.
    pub fn compare_by_fields(a: &Track, b: &Track, fields: Vec<CachedField>) -> (r: Ordering)
        ensures
            r == fields_order(*a, *b, fields@),
    {
        let mut i: usize = 0;
        assert(fields@.skip(0) =~= fields@);
        while i < fields.len()
            invariant
                i <= fields.len(),
                fields_order(*a, *b, fields@) == fields_order(*a, *b, fields@.skip(i as int)),
            decreases fields.len() - i,
        {
            let o = match fields[i] {
                CachedField::Title => compare_tags(&a.title, &b.title),
                CachedField::Artist => compare_tags(&a.artist, &b.artist),
                CachedField::Album => compare_tags(&a.album, &b.album),
                CachedField::Duration => if a.duration < b.duration {
                    Ordering::Less
                } else if a.duration > b.duration {
                    Ordering::Greater
                } else {
                    Ordering::Equal
                },
                _ => Ordering::Equal,
            };
            assert(o == field_order(*a, *b, fields@[i as int]));
            assert(fields@.skip(i as int)[0] == fields@[i as int]);
            assert(fields@.skip(i as int).drop_first() =~= fields@.skip(i + 1 as int));
            match o {
                Ordering::Equal => {},
                _ => {
                    return o;
                },
            }
            i = i + 1;
        }
        Ordering::Equal
    }
}

} // verus!
