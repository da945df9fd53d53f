//! URL query strings: a query is a list of key/value pairs, each written
//! `key=value` (or a bare `key` when it has no value), joined with `&`.
use vstd::prelude::*;
use vstd::utf8::encode_utf8;

use crate::percent::{
    decode_component, encode_component, has_no_escape, lemma_query_decode_encode,
    lemma_query_encode_excludes, lemma_query_encode_nonempty, query_decode, query_encode,
    };
use crate::codec::{fields_from, fields_pairs, FieldValueView};
use crate::request::SubsonicRequest;
use crate::text::{
    push_text, to_owned_string, chars_of, find_char, first_index_of, lemma_first_index_of, lemma_first_index_of_after,
    lemma_split_on_none, lemma_split_on_sep, slice_chars, split_chars, split_on, string_of,
};

verus! {

/// An error on the value given for one key.
#[derive(Debug, Clone, PartialEq, Eq)]
pub struct QueryValueParseError(String);

impl View for QueryValueParseError {
    type V = Seq<char>;

    closed spec fn view(&self) -> Seq<char> {
        self.0@
    }
}

impl QueryValueParseError {
    /// An error with the given message.
    pub fn message(msg: &str) -> (res: Self)
        ensures
            res@ == msg@,
    {
        Self(to_owned_string(msg))
    }

    /// The error of a key given twice where it takes one value.
    pub fn duplicate_value() -> (res: Self)
        ensures
            res@ == "duplicate value"@,
    {
        Self::message("duplicate value")
    }

    /// The error of a key given without a value where it needs one, or not
    /// given where it is required.
    pub fn empty_value() -> (res: Self)
        ensures
            res@ == "empty value"@,
    {
        Self::message("empty value")
    }

    /// The message.
    pub fn to_string(&self) -> (res: String)
        ensures
            res@ == self@,
    {
        self.0.clone()
    }
}

/// The model of a query error.
pub enum QueryErrorView {
    InvalidValue { key: Seq<char>, error: Seq<char> },
    UnknownKey { key: Seq<char> },
    InvalidQueryString { query: Seq<char>, message: Seq<char> },
}

/// An error of reading a value from a query string.
#[derive(Debug, Clone, PartialEq, Eq)]
pub enum QueryParseError {
    InvalidValue { key: String, error: QueryValueParseError },
    UnknownKey { key: String },
    InvalidQueryString { query: String, message: String },
}

impl View for QueryParseError {
    type V = QueryErrorView;

    open spec fn view(&self) -> QueryErrorView {
        match self {
            QueryParseError::InvalidValue { key, error } => QueryErrorView::InvalidValue {
                key: key@,
                error: error@,
            },
            QueryParseError::UnknownKey { key } => QueryErrorView::UnknownKey { key: key@ },
            QueryParseError::InvalidQueryString { query, message } => QueryErrorView::InvalidQueryString {
                query: query@,
                message: message@,
            },
        }
    }
}

/// `invalid value for key KEY: ERROR`, `unknown key: KEY` or
/// `invalid query string QUERY: MESSAGE`.
pub open spec fn query_error_text(e: QueryErrorView) -> Seq<char> {
    match e {
        QueryErrorView::InvalidValue { key, error } => "invalid value for key "@ + key + ": "@ + error,
        QueryErrorView::UnknownKey { key } => "unknown key: "@ + key,
        QueryErrorView::InvalidQueryString { query, message } => "invalid query string "@ + query
            + ": "@ + message,
    }
}

impl QueryParseError {
    pub fn invalid_value(key: &str, error: QueryValueParseError) -> (res: Self)
        ensures
            res@ == (QueryErrorView::InvalidValue { key: key@, error: error@ }),
    {
        QueryParseError::InvalidValue { key: to_owned_string(key), error }
    }

    pub fn unknown_key(key: &str) -> (res: Self)
        ensures
            res@ == (QueryErrorView::UnknownKey { key: key@ }),
    {
        QueryParseError::UnknownKey { key: to_owned_string(key) }
    }

    pub fn invalid_query_string(query: &str, message: &str) -> (res: Self)
        ensures
            res@ == (QueryErrorView::InvalidQueryString { query: query@, message: message@ }),
    {
        QueryParseError::InvalidQueryString { query: to_owned_string(query), message: to_owned_string(message) }
    }

    /// The message, as `Display` writes it.
    pub fn to_string(&self) -> (res: String)
        ensures
            res@ == query_error_text(self@),
    {
        let mut out: Vec<char> = Vec::new();
        match self {
            QueryParseError::InvalidValue { key, error } => {
                push_text(&mut out, "invalid value for key ");
                push_text(&mut out, key.as_str());
                push_text(&mut out, ": ");
                push_text(&mut out, error.to_string().as_str());
            },
            QueryParseError::UnknownKey { key } => {
                push_text(&mut out, "unknown key: ");
                push_text(&mut out, key.as_str());
            },
            QueryParseError::InvalidQueryString { query, message } => {
                push_text(&mut out, "invalid query string ");
                push_text(&mut out, query.as_str());
                push_text(&mut out, ": ");
                push_text(&mut out, message.as_str());
            },
        }
        string_of(out.as_slice())
    }
}

/// The model of a pair: its key and its optional value.
pub type PairView = (Seq<char>, Option<Seq<char>>);

/// One `key[=value]` component of a query string.
#[derive(Debug, Clone, PartialEq, Eq)]
pub struct QueryPair {
    pub key: String,
    pub value: Option<String>,
}

pub open spec fn opt_text(o: Option<String>) -> Option<Seq<char>> {
    match o {
        Some(s) => Some(s@),
        None => None,
    }
}

impl View for QueryPair {
    type V = PairView;

    open spec fn view(&self) -> PairView {
        (self.key@, opt_text(self.value))
    }
}

pub open spec fn pairs_view(ps: Seq<QueryPair>) -> Seq<PairView> {
    ps.map_values(|p: QueryPair| p@)
}

/// The text of one pair: the encoded key, then `=` and the encoded value when
/// there is one.
pub open spec fn pair_text(p: PairView) -> Seq<char> {
    match p.1 {
        Some(v) => query_encode(p.0) + seq!['='] + query_encode(v),
        None => query_encode(p.0),
    }
}

/// The query string of a list of pairs: their texts joined with `&`.
pub open spec fn query_text(ps: Seq<PairView>) -> Seq<char>
    decreases ps.len(),
{
    if ps.len() == 0 {
        Seq::<char>::empty()
    } else if ps.len() == 1 {
        pair_text(ps[0])
    } else {
        query_text(ps.drop_last()) + seq!['&'] + pair_text(ps.last())
    }
}

/// The query after one more pair is written: `&` first unless nothing was
/// written yet, then the text of the pair.
pub open spec fn emit_pair(q: Seq<char>, p: PairView) -> Seq<char> {
    (if q.len() > 0 {
        q.push('&')
    } else {
        q
    }) + pair_text(p)
}

/// The query a builder writes for a list of pairs.
pub open spec fn built_query(ps: Seq<PairView>) -> Seq<char>
    decreases ps.len(),
{
    if ps.len() == 0 {
        Seq::<char>::empty()
    } else {
        emit_pair(built_query(ps.drop_last()), ps.last())
    }
}

/// Writes a query string pair by pair.
#[derive(Debug, Clone, PartialEq, Eq, Default)]
pub struct QueryBuilderString {
    query: Vec<char>,
}

impl View for QueryBuilderString {
    type V = Seq<char>;

    closed spec fn view(&self) -> Seq<char> {
        self.query@
    }
}

impl QueryBuilderString {
    /// A builder that has written nothing.
    pub fn new() -> (res: Self)
        ensures
            res@ == Seq::<char>::empty(),
    {
        QueryBuilderString { query: Vec::new() }
    }

    /// Writes a key without a value.
    pub fn emit_key(&mut self, key: &str)
        ensures
            final(self)@ == emit_pair(old(self)@, (key@, None::<Seq<char>>)),
    {
        if self.query.len() > 0 {
            self.query.push('&');
        }
        push_encoded(&mut self.query, key);
    }

    /// Writes a key and its value.
    pub fn emit_key_value(&mut self, key: &str, value: &str)
        ensures
            final(self)@ == emit_pair(old(self)@, (key@, Some(value@))),
    {
        self.emit_key(key);
        self.query.push('=');
        push_encoded(&mut self.query, value);
        proof {
            let k = query_encode(key@);
            let v = query_encode(value@);
            let q0 = if old(self)@.len() > 0 {
                old(self)@.push('&')
            } else {
                old(self)@
            };
            assert(self@ =~= q0 + (k + seq!['='] + v));
        }
    }

    /// Writes a key, with its value when there is one.
    pub fn emit(&mut self, key: &str, value: Option<&str>)
        ensures
            final(self)@ == emit_pair(
                old(self)@,
                (
                    key@,
                    match value {
                        Some(v) => Some(v@),
                        None => None,
                    },
                ),
            ),
    {
        match value {
            Some(v) => self.emit_key_value(key, v),
            None => self.emit_key(key),
        }
    }

    /// The query written.
    pub fn into_query(self) -> (res: String)
        ensures
            res@ == self@,
    {
        string_of(self.query.as_slice())
    }
}

/// When every pair writes some text, the builder writes the texts of the
/// pairs joined with `&`.
pub proof fn lemma_built_query(ps: Seq<PairView>)
    requires
        forall|i: int| 0 <= i < ps.len() ==> #[trigger] pair_text(ps[i]).len() > 0,
    ensures
        built_query(ps) == query_text(ps),
        ps.len() > 0 ==> query_text(ps).len() > 0,
    decreases ps.len(),
{
    if ps.len() > 0 {
        let init = ps.drop_last();
        assert forall|i: int| 0 <= i < init.len() implies #[trigger] pair_text(init[i]).len() > 0 by {
            assert(init[i] == ps[i]);
        }
        lemma_built_query(init);
        assert(pair_text(ps[ps.len() - 1]).len() > 0);
        if ps.len() == 1 {
            assert(built_query(init) =~= Seq::<char>::empty());
            assert(built_query(ps) =~= pair_text(ps[0]));
        } else {
            assert(built_query(ps) =~= query_text(init) + seq!['&'] + pair_text(ps.last()));
        }
    }
}

/// Encodes one component into `out`.
fn push_encoded(out: &mut Vec<char>, s: &str)
    ensures
        final(out)@ == old(out)@ + query_encode(s@),
{
    let mut e = encode_component(s);
    out.append(&mut e);
}

/// Writes the pairs as a query string.
pub fn to_query_string(pairs: &Vec<QueryPair>) -> (res: String)
    ensures
        res@ == built_query(pairs_view(pairs@)),
{
    let mut builder = QueryBuilderString::new();
    let mut i: usize = 0;
    while i < pairs.len()
        invariant
            0 <= i <= pairs@.len(),
            builder@ == built_query(pairs_view(pairs@).take(i as int)),
        decreases pairs@.len() - i,
    {
        let p = &pairs[i];
        match &p.value {
            Some(v) => builder.emit_key_value(p.key.as_str(), v.as_str()),
            None => builder.emit_key(p.key.as_str()),
        }
        proof {
            let ps = pairs_view(pairs@);
            assert(ps.take(i + 1).drop_last() =~= ps.take(i as int));
            assert(ps.take(i + 1).last() == pairs@[i as int]@);
        }
        i = i + 1;
    }
    proof {
        assert(pairs_view(pairs@).take(pairs@.len() as int) =~= pairs_view(pairs@));
    }
    builder.into_query()
}

/// The parts before the first empty one: reading a query stops at an empty
/// part.
pub open spec fn leading_segments(segs: Seq<Seq<char>>) -> Seq<Seq<char>>
    decreases segs.len(),
{
    if segs.len() == 0 || segs[0].len() == 0 {
        Seq::<Seq<char>>::empty()
    } else {
        seq![segs[0]] + leading_segments(segs.drop_first())
    }
}

/// A part read as a pair: split at its first `=`, both sides percent-decoded.
pub open spec fn segment_pair(seg: Seq<char>) -> PairView {
    match first_index_of(seg, '=') {
        Some(i) => (query_decode(seg.take(i)), Some(query_decode(seg.skip(i + 1)))),
        None => (query_decode(seg), None),
    }
}

/// The pairs of a query string: it is split at every `&`, the parts up to the
/// first empty one are read as pairs.
pub open spec fn query_pairs(q: Seq<char>) -> Seq<PairView> {
    leading_segments(split_on(q, '&')).map_values(|s: Seq<char>| segment_pair(s))
}

/// Reads one part as a pair.
fn segment_to_query_pair(seg: &Vec<char>) -> (res: QueryPair)
    ensures
        res@ == segment_pair(seg@),
{
    let found = find_char(seg, '=');
    match found {
        Some(i) => {
            assert(i < seg.len());
            proof {
                lemma_first_index_of(seg@, '=');
                assert(i < seg@.len());
            }
            let k = slice_chars(seg, 0, i);
            let v = slice_chars(seg, i + 1, seg.len());
            let ks = string_of(k.as_slice());
            let vs = string_of(v.as_slice());
            proof {
                assert(seg@.take(i as int) =~= seg@.subrange(0, i as int));
                assert(seg@.skip(i + 1) =~= seg@.subrange(i + 1, seg@.len() as int));
            }
            QueryPair { key: decode_component(ks.as_str()), value: Some(decode_component(vs.as_str())) }
        },
        None => {
            let ks = string_of(seg.as_slice());
            QueryPair { key: decode_component(ks.as_str()), value: None }
        },
    }
}

/// Reads the pairs of a query string one by one, in the order of its
/// `&`-separated parts; an empty part reads as no pair.
#[derive(Debug, Clone)]
pub struct QueryIter {
    segments: Vec<Vec<char>>,
    position: usize,
}

impl QueryIter {
    /// The parts of the query.
    pub closed spec fn spec_segments(&self) -> Seq<Seq<char>> {
        self.segments@.map_values(|s: Vec<char>| s@)
    }

    /// How many parts were read.
    pub closed spec fn spec_position(&self) -> nat {
        self.position as nat
    }

    /// Starts reading a query string.
    pub fn new(query: &str) -> (res: Self)
        ensures
            res.spec_segments() == split_on(query@, '&'),
            res.spec_position() == 0,
    {
        let cs = chars_of(query);
        let segments = split_chars(&cs, '&');
        let it = QueryIter { segments, position: 0 };
        proof {
            assert(it.spec_segments() =~= split_on(query@, '&'));
        }
        it
    }

    /// Reads the next part: nothing when all parts were read or the part is
    /// empty, else the part as a pair.
    pub fn next(&mut self) -> (res: Option<QueryPair>)
        ensures
            final(self).spec_segments() == old(self).spec_segments(),
            old(self).spec_position() >= old(self).spec_segments().len() ==> res is None
                && final(self).spec_position() == old(self).spec_position(),
            old(self).spec_position() < old(self).spec_segments().len() ==> final(self).spec_position()
                == old(self).spec_position() + 1 && (if old(self).spec_segments()[old(self).spec_position() as int].len()
                == 0 {
                res is None
            } else {
                res matches Some(p) && p@ == segment_pair(
                    old(self).spec_segments()[old(self).spec_position() as int],
                )
            }),
    {
        if self.position >= self.segments.len() {
            return None;
        }
        let i = self.position;
        self.position = i + 1;
        let seg = &self.segments[i];
        if seg.len() == 0 {
            None
        } else {
            Some(segment_to_query_pair(seg))
        }
    }
}

proof fn lemma_leading_prefix(segs: Seq<Seq<char>>, i: int)
    requires
        0 <= i <= segs.len(),
        forall|j: int| 0 <= j < i ==> #[trigger] segs[j].len() > 0,
    ensures
        leading_segments(segs) == segs.take(i) + leading_segments(segs.skip(i)),
    decreases i,
{
    if i > 0 {
        lemma_leading_prefix(segs.drop_first(), i - 1);
        assert(segs.drop_first().take(i - 1) =~= segs.take(i).drop_first());
        assert(segs.drop_first().skip(i - 1) =~= segs.skip(i));
        assert(seq![segs[0]] + segs.take(i).drop_first() =~= segs.take(i));
        assert(leading_segments(segs) == seq![segs[0]] + leading_segments(segs.drop_first()));
        assert(seq![segs[0]] + (segs.take(i).drop_first() + leading_segments(segs.skip(i)))
            =~= segs.take(i) + leading_segments(segs.skip(i)));
    } else {
        assert(segs.skip(0) =~= segs);
        assert(segs.take(0) + leading_segments(segs.skip(0)) =~= leading_segments(segs));
    }
}

/// Reads the pairs of a query string.
pub fn parse_query(query: &str) -> (res: Vec<QueryPair>)
    ensures
        pairs_view(res@) == query_pairs(query@),
{
    let cs = chars_of(query);
    let parts = split_chars(&cs, '&');
    let ghost segs = split_on(query@, '&');
    let mut out: Vec<QueryPair> = Vec::new();
    let mut i: usize = 0;
    while i < parts.len()
        invariant
            0 <= i <= parts@.len(),
            cs@ == query@,
            segs == split_on(query@, '&'),
            parts@.len() == segs.len(),
            forall|j: int| 0 <= j < parts@.len() ==> #[trigger] parts@[j]@ == segs[j],
            forall|j: int| 0 <= j < i ==> #[trigger] segs[j].len() > 0,
            pairs_view(out@) == segs.take(i as int).map_values(|s: Seq<char>| segment_pair(s)),
        decreases parts@.len() - i,
    {
        let part = &parts[i];
        proof {
            assert(part@ == segs[i as int]);
        }
        if part.len() == 0 {
            proof {
                lemma_leading_prefix(segs, i as int);
                assert(segs[i as int].len() == 0);
                assert(segs.skip(i as int)[0] == segs[i as int]);
                assert(leading_segments(segs.skip(i as int)) == Seq::<Seq<char>>::empty());
                assert(segs.take(i as int) + Seq::<Seq<char>>::empty() =~= segs.take(i as int));
                assert(leading_segments(segs) == segs.take(i as int));
                assert(pairs_view(out@) =~= query_pairs(query@));
            }
            return out;
        }
        let p = segment_to_query_pair(part);
        let ghost old_out = out@;
        out.push(p);
        proof {
            assert(pairs_view(out@) =~= pairs_view(old_out).push(p@));
            assert(segs.take(i + 1).map_values(|s: Seq<char>| segment_pair(s)) =~= segs.take(i as int).map_values(
                |s: Seq<char>| segment_pair(s),
            ).push(segment_pair(segs[i as int])));
            assert(pairs_view(out@) =~= segs.take(i + 1).map_values(|s: Seq<char>| segment_pair(s)));
        }
        i = i + 1;
    }
    proof {
        lemma_leading_prefix(segs, i as int);
        assert(segs.skip(i as int) =~= Seq::<Seq<char>>::empty());
        assert(segs.take(i as int) + Seq::<Seq<char>>::empty() =~= segs.take(i as int));
        assert(leading_segments(segs) == segs.take(i as int));
    }
    out
}

/// A key that survives being written in a query and read back: its UTF-8 form
/// holds no `&`, no `=` and no `%` followed by two hex digits.
pub open spec fn key_is_query_safe(k: Seq<char>) -> bool {
    &&& !encode_utf8(k).contains(0x26u8)
    &&& !encode_utf8(k).contains(0x3Du8)
    &&& has_no_escape(encode_utf8(k))
}

/// A value that survives being written in a query and read back: its UTF-8
/// form holds no `&` and no `%` followed by two hex digits.
pub open spec fn value_is_query_safe(v: Seq<char>) -> bool {
    &&& !encode_utf8(v).contains(0x26u8)
    &&& has_no_escape(encode_utf8(v))
}

/// A pair that a query string carries faithfully: safe key and value, and not
/// an empty key without a value (that would be an empty part, which ends the
/// query).
pub open spec fn pair_is_query_safe(p: PairView) -> bool {
    &&& key_is_query_safe(p.0)
    &&& match p.1 {
        Some(v) => value_is_query_safe(v),
        None => p.0.len() > 0,
    }
}

proof fn lemma_pair_text(p: PairView)
    requires
        pair_is_query_safe(p),
    ensures
        !pair_text(p).contains('&'),
        pair_text(p).len() > 0,
        segment_pair(pair_text(p)) == p,
{
    lemma_query_encode_excludes(p.0, 0x26u8);
    lemma_query_encode_excludes(p.0, 0x3Du8);
    lemma_query_decode_encode(p.0);
    assert((0x26u8 as char) == '&');
    assert((0x3Du8 as char) == '=');
    match p.1 {
        Some(v) => {
            lemma_query_encode_excludes(v, 0x26u8);
            lemma_query_decode_encode(v);
            let a = query_encode(p.0);
            let b = query_encode(v);
            let t = a + seq!['='] + b;
            assert(t[a.len() as int] == '=');
            if t.contains('&') {
                let i = choose|i: int| 0 <= i < t.len() && t[i] == '&';
                if i < a.len() {
                    assert(a[i] == '&');
                } else if i > a.len() {
                    assert(b[i - a.len() - 1] == '&');
                }
            }
            lemma_first_index_of_after(a, b, '=');
            assert(t.take(a.len() as int) =~= a);
            assert(t.skip(a.len() as int + 1) =~= b);
        },
        None => {
            lemma_query_encode_nonempty(p.0);
            lemma_first_index_of(query_encode(p.0), '=');
        },
    }
}

proof fn lemma_query_text_split(ps: Seq<PairView>)
    requires
        ps.len() > 0,
        forall|i: int| 0 <= i < ps.len() ==> #[trigger] pair_is_query_safe(ps[i]),
    ensures
        split_on(query_text(ps), '&') == ps.map_values(|p: PairView| pair_text(p)),
    decreases ps.len(),
{
    lemma_pair_text(ps.last());
    if ps.len() == 1 {
        lemma_split_on_none(pair_text(ps[0]), '&');
        assert(ps.map_values(|p: PairView| pair_text(p)) =~= seq![pair_text(ps[0])]);
    } else {
        let init = ps.drop_last();
        assert forall|i: int| 0 <= i < init.len() implies #[trigger] pair_is_query_safe(init[i]) by {
            assert(init[i] == ps[i]);
        }
        lemma_query_text_split(init);
        lemma_split_on_sep(query_text(init), pair_text(ps.last()), '&');
        assert(init.map_values(|p: PairView| pair_text(p)).push(pair_text(ps.last()))
            =~= ps.map_values(|p: PairView| pair_text(p)));
    }
}

proof fn lemma_leading_all(segs: Seq<Seq<char>>)
    requires
        forall|i: int| 0 <= i < segs.len() ==> #[trigger] segs[i].len() > 0,
    ensures
        leading_segments(segs) == segs,
    decreases segs.len(),
{
    if segs.len() > 0 {
        lemma_leading_all(segs.drop_first());
        assert(seq![segs[0]] + segs.drop_first() =~= segs);
    }
}

/// Writing pairs as a query string and reading it back gives the same pairs,
/// for pairs whose keys and values a query carries faithfully.
pub proof fn lemma_query_pairs_roundtrip(ps: Seq<PairView>)
    requires
        forall|i: int| 0 <= i < ps.len() ==> #[trigger] pair_is_query_safe(ps[i]),
    ensures
        query_pairs(query_text(ps)) == ps,
        built_query(ps) == query_text(ps),
{
    assert forall|i: int| 0 <= i < ps.len() implies #[trigger] pair_text(ps[i]).len() > 0 by {
        lemma_pair_text(ps[i]);
    }
    lemma_built_query(ps);
    if ps.len() == 0 {
        assert(split_on(Seq::<char>::empty(), '&') == seq![Seq::<char>::empty()]);
        assert(query_pairs(query_text(ps)) =~= ps);
    } else {
        lemma_query_text_split(ps);
        let texts = ps.map_values(|p: PairView| pair_text(p));
        assert forall|i: int| 0 <= i < texts.len() implies #[trigger] texts[i].len() > 0 by {
            lemma_pair_text(ps[i]);
        }
        lemma_leading_all(texts);
        assert forall|i: int| 0 <= i < ps.len() implies texts.map_values(|s: Seq<char>| segment_pair(s))[i]
            == #[trigger] ps[i] by {
            lemma_pair_text(ps[i]);
        }
        assert(texts.map_values(|s: Seq<char>| segment_pair(s)) =~= ps);
    }
}


/// Writes a request as a query string: the pairs of its fields in schema
/// order.
pub fn to_query<R: SubsonicRequest>(r: &R) -> (res: String)
    ensures
        res@ == built_query(fields_pairs(R::spec_schema(), r.spec_fields())),
{
    r.to_query()
}

/// Reads a request from a query string: its pairs are read into the fields of
/// the request's schema.
pub fn from_query<R: SubsonicRequest>(query: &str) -> (res: Result<R, QueryParseError>)
    ensures
        match res {
            Ok(r) => fields_from(R::spec_schema(), query_pairs(query@)) == Ok::<
                Seq<FieldValueView>,
                QueryErrorView,
            >(r.spec_fields()),
            Err(e) => fields_from(R::spec_schema(), query_pairs(query@)) == Err::<
                Seq<FieldValueView>,
                QueryErrorView,
            >(e@),
        },
{
    R::from_query(query)
}

} // verus!
