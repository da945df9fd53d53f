//! Requests as lists of fields, and the fields as query pairs.
//!
//! A request type is described by its schema: one entry per field, giving the
//! key the field is written under and the shape of its value. Writing a request
//! gives the pairs of its fields in schema order. Reading a request feeds the
//! pairs one by one to the first field that accepts them (a pair that no field
//! accepts is an unknown key), then finishes every field in schema order.
use vstd::prelude::*;

use crate::common::{
    audio_bitrate_kbps, audio_bitrate_of, version_parse, version_text, video_bitrate_parse,
    video_bitrate_text, video_size_parse, video_size_text, AudioBitrate, Version, VideoBitrate,
    VideoSize,
};
use crate::query::{
    opt_text, pairs_view, PairView, QueryErrorView, QueryPair, QueryParseError,
    QueryValueParseError,
};
use crate::request::jukebox::{jukebox_action_parse, jukebox_action_text, JukeboxAction};
use crate::request::lists::{list_type_parse, list_type_text, ListType};
use crate::request::{AuthView, Authentication};
use crate::text::{
    decimal_text, parse_u32, parse_u64, parses_unsigned, str_eq, to_owned_string, u32_text,
    u32_parse_error_text, u64_parse_error_text, u64_text, unsigned_literal_value,
};

verus! {

/// The type of a single value.
#[derive(Debug, Clone, Copy, PartialEq, Eq, Structural)]
pub enum ScalarKind {
    Text,
    U32,
    U64,
    Size,
    Bitrate,
    List,
    Audio,
    Version,
    Jukebox,
}

/// The shape of a field: one value that must be given, an optional value, a
/// value repeated any number of times, a flag, an optional flag, or the
/// credentials (`p`, or `t` and `s`).
#[derive(Debug, Clone, Copy, PartialEq, Eq, Structural)]
pub enum FieldKind {
    Required(ScalarKind),
    Optional(ScalarKind),
    Repeated(ScalarKind),
    Flag,
    OptionalFlag,
    Auth,
}

/// A field of a schema: the key it is written under and its shape.
#[derive(Debug, Clone, Copy)]
pub struct FieldSpec {
    pub key: &'static str,
    pub kind: FieldKind,
}

pub type FieldSpecView = (Seq<char>, FieldKind);

impl View for FieldSpec {
    type V = FieldSpecView;

    open spec fn view(&self) -> FieldSpecView {
        (self.key@, self.kind)
    }
}

pub open spec fn schema_view(s: Seq<FieldSpec>) -> Seq<FieldSpecView> {
    s.map_values(|f: FieldSpec| f@)
}

/// A single value.
#[derive(Debug, Clone, PartialEq, Eq)]
pub enum Scalar {
    Text(String),
    U32(u32),
    U64(u64),
    Size(VideoSize),
    Bitrate(VideoBitrate),
    List(ListType),
    Audio(AudioBitrate),
    Version(Version),
    Jukebox(JukeboxAction),
}

pub enum ScalarView {
    Text(Seq<char>),
    U32(u32),
    U64(u64),
    Size(VideoSize),
    Bitrate(VideoBitrate),
    List(ListType),
    Audio(AudioBitrate),
    Version(Version),
    Jukebox(JukeboxAction),
}

impl View for Scalar {
    type V = ScalarView;

    open spec fn view(&self) -> ScalarView {
        match self {
            Scalar::Text(t) => ScalarView::Text(t@),
            Scalar::U32(n) => ScalarView::U32(*n),
            Scalar::U64(n) => ScalarView::U64(*n),
            Scalar::Size(v) => ScalarView::Size(*v),
            Scalar::Bitrate(v) => ScalarView::Bitrate(*v),
            Scalar::List(v) => ScalarView::List(*v),
            Scalar::Audio(v) => ScalarView::Audio(*v),
            Scalar::Version(v) => ScalarView::Version(*v),
            Scalar::Jukebox(v) => ScalarView::Jukebox(*v),
        }
    }
}

pub open spec fn scalars_view(v: Seq<Scalar>) -> Seq<ScalarView> {
    v.map_values(|x: Scalar| x@)
}

/// The value of a field.
#[derive(Debug, Clone, PartialEq, Eq)]
pub enum FieldValue {
    Required(Scalar),
    Optional(Option<Scalar>),
    Repeated(Vec<Scalar>),
    Flag(bool),
    OptionalFlag(Option<bool>),
    Auth(Authentication),
}

pub enum FieldValueView {
    Required(ScalarView),
    Optional(Option<ScalarView>),
    Repeated(Seq<ScalarView>),
    Flag(bool),
    OptionalFlag(Option<bool>),
    Auth(AuthView),
}

pub open spec fn opt_scalar_view(o: Option<Scalar>) -> Option<ScalarView> {
    match o {
        Some(x) => Some(x@),
        None => None,
    }
}

impl View for FieldValue {
    type V = FieldValueView;

    open spec fn view(&self) -> FieldValueView {
        match self {
            FieldValue::Required(x) => FieldValueView::Required(x@),
            FieldValue::Optional(o) => FieldValueView::Optional(opt_scalar_view(*o)),
            FieldValue::Repeated(v) => FieldValueView::Repeated(scalars_view(v@)),
            FieldValue::Flag(b) => FieldValueView::Flag(*b),
            FieldValue::OptionalFlag(o) => FieldValueView::OptionalFlag(*o),
            FieldValue::Auth(a) => FieldValueView::Auth(a@),
        }
    }
}

pub open spec fn fields_view(v: Seq<FieldValue>) -> Seq<FieldValueView> {
    v.map_values(|f: FieldValue| f@)
}

/// The kind of a value.
pub open spec fn scalar_kind(v: ScalarView) -> ScalarKind {
    match v {
        ScalarView::Text(_) => ScalarKind::Text,
        ScalarView::U32(_) => ScalarKind::U32,
        ScalarView::U64(_) => ScalarKind::U64,
        ScalarView::Size(_) => ScalarKind::Size,
        ScalarView::Bitrate(_) => ScalarKind::Bitrate,
        ScalarView::List(_) => ScalarKind::List,
        ScalarView::Audio(_) => ScalarKind::Audio,
        ScalarView::Version(_) => ScalarKind::Version,
        ScalarView::Jukebox(_) => ScalarKind::Jukebox,
    }
}

/// The text a value is written as.
pub open spec fn scalar_text(v: ScalarView) -> Seq<char> {
    match v {
        ScalarView::Text(t) => t,
        ScalarView::U32(n) => decimal_text(n as nat),
        ScalarView::U64(n) => decimal_text(n as nat),
        ScalarView::Size(s) => video_size_text(s),
        ScalarView::Bitrate(b) => video_bitrate_text(b),
        ScalarView::List(l) => list_type_text(l),
        ScalarView::Audio(a) => decimal_text(audio_bitrate_kbps(a) as nat),
        ScalarView::Version(v) => version_text(v),
        ScalarView::Jukebox(a) => jukebox_action_text(a),
    }
}

/// Reads a value of the given kind from a text, or gives the message of the
/// error.
pub open spec fn parse_scalar(k: ScalarKind, s: Seq<char>) -> Result<ScalarView, Seq<char>> {
    match k {
        ScalarKind::Text => Ok(ScalarView::Text(s)),
        ScalarKind::U32 => if parses_unsigned(s, u32::MAX as nat) {
            Ok(ScalarView::U32(unsigned_literal_value(s) as u32))
        } else {
            Err(u32_parse_error_text(s))
        },
        ScalarKind::U64 => if parses_unsigned(s, u64::MAX as nat) {
            Ok(ScalarView::U64(unsigned_literal_value(s) as u64))
        } else {
            Err(u64_parse_error_text(s))
        },
        ScalarKind::Size => match video_size_parse(s) {
            Some(v) => Ok(ScalarView::Size(v)),
            None => Err("invalid video size"@),
        },
        ScalarKind::Bitrate => match video_bitrate_parse(s) {
            Some(v) => Ok(ScalarView::Bitrate(v)),
            None => Err("invalid video bitrate"@),
        },
        ScalarKind::List => match list_type_parse(s) {
            Some(v) => Ok(ScalarView::List(v)),
            None => Err("Invalid list type"@),
        },
        ScalarKind::Audio => if parses_unsigned(s, u32::MAX as nat) {
            Ok(ScalarView::Audio(audio_bitrate_of(unsigned_literal_value(s) as u32)))
        } else {
            Err("invalid audio bitrate"@)
        },
        ScalarKind::Version => match version_parse(s) {
            Some(v) => Ok(ScalarView::Version(v)),
            None => Err("Invalid version"@),
        },
        ScalarKind::Jukebox => match jukebox_action_parse(s) {
            Some(v) => Ok(ScalarView::Jukebox(v)),
            None => Err("Invalid jukebox action"@),
        },
    }
}

/// Writes a value.
pub fn scalar_to_text(x: &Scalar) -> (res: String)
    ensures
        res@ == scalar_text(x@),
{
    match x {
        Scalar::Text(t) => t.clone(),
        Scalar::U32(n) => u32_text(*n),
        Scalar::U64(n) => u64_text(*n),
        Scalar::Size(v) => v.to_string(),
        Scalar::Bitrate(v) => v.to_string(),
        Scalar::List(v) => v.to_string(),
        Scalar::Audio(v) => v.to_string(),
        Scalar::Version(v) => v.to_string(),
        Scalar::Jukebox(v) => v.to_string(),
    }
}

/// Reads a value of the given kind.
pub fn scalar_from_text(k: ScalarKind, s: &str) -> (res: Result<Scalar, String>)
    ensures
        match res {
            Ok(x) => parse_scalar(k, s@) == Ok::<ScalarView, Seq<char>>(x@),
            Err(m) => parse_scalar(k, s@) == Err::<ScalarView, Seq<char>>(m@),
        },
{
    match k {
        ScalarKind::Text => Ok(Scalar::Text(to_owned_string(s))),
        ScalarKind::U32 => match parse_u32(s) {
            Ok(v) => Ok(Scalar::U32(v)),
            Err(m) => Err(m),
        },
        ScalarKind::U64 => match parse_u64(s) {
            Ok(v) => Ok(Scalar::U64(v)),
            Err(m) => Err(m),
        },
        ScalarKind::Size => match VideoSize::parse(s) {
            Ok(v) => Ok(Scalar::Size(v)),
            Err(e) => Err(e.to_string()),
        },
        ScalarKind::Bitrate => match VideoBitrate::parse(s) {
            Ok(v) => Ok(Scalar::Bitrate(v)),
            Err(e) => Err(e.to_string()),
        },
        ScalarKind::List => match ListType::parse(s) {
            Ok(v) => Ok(Scalar::List(v)),
            Err(e) => Err(e.to_string()),
        },
        ScalarKind::Audio => match AudioBitrate::parse(s) {
            Ok(v) => Ok(Scalar::Audio(v)),
            Err(e) => Err(e.to_string()),
        },
        ScalarKind::Version => match Version::parse(s) {
            Ok(v) => Ok(Scalar::Version(v)),
            Err(e) => Err(e.to_string()),
        },
        ScalarKind::Jukebox => match JukeboxAction::parse(s) {
            Ok(v) => Ok(Scalar::Jukebox(v)),
            Err(e) => Err(e.to_string()),
        },
    }
}

/// What a field has gathered while its pairs are read.
#[derive(Debug)]
pub enum FieldState {
    Single(Option<Scalar>),
    Many(Vec<Scalar>),
    Switch(Option<bool>),
    Credentials(Option<String>, Option<String>, Option<String>),
}

pub enum StateView {
    Single(Option<ScalarView>),
    Many(Seq<ScalarView>),
    Switch(Option<bool>),
    Credentials(Option<Seq<char>>, Option<Seq<char>>, Option<Seq<char>>),
}

impl View for FieldState {
    type V = StateView;

    open spec fn view(&self) -> StateView {
        match self {
            FieldState::Single(o) => StateView::Single(opt_scalar_view(*o)),
            FieldState::Many(v) => StateView::Many(scalars_view(v@)),
            FieldState::Switch(o) => StateView::Switch(*o),
            FieldState::Credentials(p, t, s) => StateView::Credentials(opt_text(*p), opt_text(*t), opt_text(*s)),
        }
    }
}

pub open spec fn states_view(v: Seq<FieldState>) -> Seq<StateView> {
    v.map_values(|s: FieldState| s@)
}

/// What a field holds before any pair is read.
pub open spec fn initial_state(k: FieldKind) -> StateView {
    match k {
        FieldKind::Required(_) => StateView::Single(None),
        FieldKind::Optional(_) => StateView::Single(None),
        FieldKind::Repeated(_) => StateView::Many(Seq::<ScalarView>::empty()),
        FieldKind::Flag => StateView::Switch(None),
        FieldKind::OptionalFlag => StateView::Switch(None),
        FieldKind::Auth => StateView::Credentials(None, None, None),
    }
}

pub open spec fn initial_states(schema: Seq<FieldSpecView>) -> Seq<StateView> {
    schema.map_values(|f: FieldSpecView| initial_state(f.1))
}

/// Reads one more value for a field (other than the credentials), or gives the
/// message of the error: a single value given twice, a missing value, a value
/// that does not read as its kind, a flag that is not `true`, `1`, `false` or
/// `0`.
pub open spec fn consume_value(k: FieldKind, st: StateView, v: Option<Seq<char>>) -> Result<StateView, Seq<char>> {
    match k {
        FieldKind::Required(sk) | FieldKind::Optional(sk) => match st {
            StateView::Single(cur) => if cur is Some {
                Err("duplicate value"@)
            } else {
                match v {
                    None => Err("empty value"@),
                    Some(t) => match parse_scalar(sk, t) {
                        Ok(x) => Ok(StateView::Single(Some(x))),
                        Err(m) => Err(m),
                    },
                }
            },
            _ => Ok(st),
        },
        FieldKind::Repeated(sk) => match st {
            StateView::Many(xs) => match v {
                None => Err("empty value"@),
                Some(t) => match parse_scalar(sk, t) {
                    Ok(x) => Ok(StateView::Many(xs.push(x))),
                    Err(m) => Err(m),
                },
            },
            _ => Ok(st),
        },
        FieldKind::Flag | FieldKind::OptionalFlag => match st {
            StateView::Switch(cur) => if cur is Some {
                Err("duplicate value"@)
            } else {
                match v {
                    None => Ok(StateView::Switch(Some(true))),
                    Some(t) => if t == "true"@ || t == "1"@ {
                        Ok(StateView::Switch(Some(true)))
                    } else if t == "false"@ || t == "0"@ {
                        Ok(StateView::Switch(Some(false)))
                    } else {
                        Err("invalid boolean value"@)
                    },
                }
            },
            _ => Ok(st),
        },
        FieldKind::Auth => Ok(st),
    }
}

/// The credentials take the last `p`, `t` and `s` given.
pub open spec fn update_credentials(st: StateView, key: Seq<char>, v: Seq<char>) -> StateView {
    match st {
        StateView::Credentials(p, t, s) => if key == "p"@ {
            StateView::Credentials(Some(v), t, s)
        } else if key == "t"@ {
            StateView::Credentials(p, Some(v), s)
        } else {
            StateView::Credentials(p, t, Some(v))
        },
        _ => st,
    }
}

/// A field takes a pair under its own key; the credentials take `p`, `t` and
/// `s` when they come with a value.
pub open spec fn accepts(f: FieldSpecView, p: PairView) -> bool {
    match f.1 {
        FieldKind::Auth => (p.0 == "p"@ || p.0 == "t"@ || p.0 == "s"@) && p.1 is Some,
        _ => p.0 == f.0,
    }
}

/// The first field of the schema that takes the pair.
pub open spec fn first_accepting(schema: Seq<FieldSpecView>, p: PairView) -> Option<int>
    decreases schema.len(),
{
    if schema.len() == 0 {
        None
    } else if accepts(schema[0], p) {
        Some(0)
    } else {
        match first_accepting(schema.drop_first(), p) {
            Some(i) => Some(i + 1),
            None => None,
        }
    }
}

/// Reads one pair.
pub open spec fn consume_pair(schema: Seq<FieldSpecView>, states: Seq<StateView>, p: PairView) -> Result<
    Seq<StateView>,
    QueryErrorView,
> {
    match first_accepting(schema, p) {
        None => Err(QueryErrorView::UnknownKey { key: p.0 }),
        Some(i) => if schema[i].1 is Auth {
            Ok(states.update(i, update_credentials(states[i], p.0, p.1.unwrap())))
        } else {
            match consume_value(schema[i].1, states[i], p.1) {
                Ok(st) => Ok(states.update(i, st)),
                Err(m) => Err(QueryErrorView::InvalidValue { key: schema[i].0, error: m }),
            }
        },
    }
}

/// Reads the pairs in order; the first error ends the reading.
pub open spec fn consume_pairs(schema: Seq<FieldSpecView>, states: Seq<StateView>, ps: Seq<PairView>) -> Result<
    Seq<StateView>,
    QueryErrorView,
>
    decreases ps.len(),
{
    if ps.len() == 0 {
        Ok(states)
    } else {
        match consume_pair(schema, states, ps[0]) {
            Ok(s2) => consume_pairs(schema, s2, ps.drop_first()),
            Err(e) => Err(e),
        }
    }
}

/// The value of a field once all pairs are read, or the message of the error:
/// a single value or a flag that must be given and was not, or credentials
/// with neither a password nor a token and a salt.
pub open spec fn finish_field(k: FieldKind, st: StateView) -> Result<FieldValueView, Seq<char>> {
    match st {
        StateView::Single(o) => match k {
            FieldKind::Required(_) => match o {
                Some(x) => Ok(FieldValueView::Required(x)),
                None => Err("empty value"@),
            },
            _ => Ok(FieldValueView::Optional(o)),
        },
        StateView::Many(xs) => Ok(FieldValueView::Repeated(xs)),
        StateView::Switch(o) => match k {
            FieldKind::Flag => match o {
                Some(b) => Ok(FieldValueView::Flag(b)),
                None => Err("empty value"@),
            },
            _ => Ok(FieldValueView::OptionalFlag(o)),
        },
        StateView::Credentials(p, t, s) => if t is Some && s is Some {
            Ok(FieldValueView::Auth(AuthView::Token(t.unwrap(), s.unwrap())))
        } else if p is Some {
            Ok(FieldValueView::Auth(AuthView::Password(p.unwrap())))
        } else {
            Err("one of p, t, s must be present"@)
        },
    }
}

/// The values of the fields; the first field in schema order that fails gives
/// the error.
pub open spec fn finish_fields(schema: Seq<FieldSpecView>, states: Seq<StateView>) -> Result<
    Seq<FieldValueView>,
    QueryErrorView,
>
    decreases states.len(),
{
    if states.len() == 0 {
        Ok(Seq::<FieldValueView>::empty())
    } else {
        let n = states.len() - 1;
        match finish_fields(schema, states.drop_last()) {
            Err(e) => Err(e),
            Ok(vs) => match finish_field(schema[n].1, states[n]) {
                Ok(v) => Ok(vs.push(v)),
                Err(m) => Err(QueryErrorView::InvalidValue { key: schema[n].0, error: m }),
            },
        }
    }
}

/// The fields read from a list of pairs.
pub open spec fn fields_from(schema: Seq<FieldSpecView>, ps: Seq<PairView>) -> Result<
    Seq<FieldValueView>,
    QueryErrorView,
> {
    match consume_pairs(schema, initial_states(schema), ps) {
        Ok(states) => finish_fields(schema, states),
        Err(e) => Err(e),
    }
}

/// The pairs of one field.
pub open spec fn field_pairs(f: FieldSpecView, v: FieldValueView) -> Seq<PairView> {
    match v {
        FieldValueView::Required(x) => seq![(f.0, Some(scalar_text(x)))],
        FieldValueView::Optional(Some(x)) => seq![(f.0, Some(scalar_text(x)))],
        FieldValueView::Optional(None) => Seq::<PairView>::empty(),
        FieldValueView::Repeated(xs) => xs.map_values(|x: ScalarView| (f.0, Some(scalar_text(x)))),
        FieldValueView::Flag(b) => if b {
            seq![(f.0, None::<Seq<char>>)]
        } else {
            Seq::<PairView>::empty()
        },
        FieldValueView::OptionalFlag(Some(b)) => if b {
            seq![(f.0, None::<Seq<char>>)]
        } else {
            Seq::<PairView>::empty()
        },
        FieldValueView::OptionalFlag(None) => Seq::<PairView>::empty(),
        FieldValueView::Auth(AuthView::Password(p)) => seq![("p"@, Some(p))],
        FieldValueView::Auth(AuthView::Token(t, s)) => seq![("t"@, Some(t)), ("s"@, Some(s))],
    }
}

/// The pairs of the fields, in schema order.
pub open spec fn fields_pairs(schema: Seq<FieldSpecView>, vs: Seq<FieldValueView>) -> Seq<PairView>
    decreases vs.len(),
{
    if vs.len() == 0 {
        Seq::<PairView>::empty()
    } else {
        fields_pairs(schema, vs.drop_last()) + field_pairs(schema[vs.len() - 1], vs.last())
    }
}

/// The pairs of the first `i + 1` fields are those of the first `i` fields,
/// then those of field `i`.
pub proof fn lemma_fields_pairs_take(schema: Seq<FieldSpecView>, vs: Seq<FieldValueView>, i: int)
    requires
        0 <= i < vs.len(),
    ensures
        fields_pairs(schema, vs.take(i + 1)) == fields_pairs(schema, vs.take(i)) + field_pairs(
            schema[i],
            vs[i],
        ),
{
    assert(vs.take(i + 1).drop_last() =~= vs.take(i));
}

/// The pairs of fields depend only on the schema entries of those fields.
proof fn lemma_fields_pairs_same_entries(s: Seq<FieldSpecView>, t: Seq<FieldSpecView>, vs: Seq<FieldValueView>)
    requires
        vs.len() <= s.len(),
        vs.len() <= t.len(),
        forall|i: int| 0 <= i < vs.len() ==> s[i] == t[i],
    ensures
        fields_pairs(s, vs) == fields_pairs(t, vs),
    decreases vs.len(),
{
    if vs.len() > 0 {
        lemma_fields_pairs_same_entries(s, t, vs.drop_last());
        assert(s[vs.len() - 1] == t[vs.len() - 1]);
    }
}

/// Two schemas written one after the other, with their fields, give the
/// pairs of the first, then those of the second.
pub proof fn lemma_fields_pairs_concat(
    s1: Seq<FieldSpecView>,
    s2: Seq<FieldSpecView>,
    v1: Seq<FieldValueView>,
    v2: Seq<FieldValueView>,
)
    requires
        s1.len() == v1.len(),
        v2.len() <= s2.len(),
    ensures
        fields_pairs(s1 + s2, v1 + v2) == fields_pairs(s1, v1) + fields_pairs(s2, v2),
    decreases v2.len(),
{
    if v2.len() == 0 {
        assert(v1 + v2 =~= v1);
        lemma_fields_pairs_same_entries(s1 + s2, s1, v1);
        assert(fields_pairs(s1, v1) + fields_pairs(s2, v2) =~= fields_pairs(s1, v1));
    } else {
        let w = v2.drop_last();
        lemma_fields_pairs_concat(s1, s2, v1, w);
        assert((v1 + v2).drop_last() =~= v1 + w);
        assert((s1 + s2)[v1.len() + v2.len() - 1] == s2[v2.len() - 1]);
        let f = field_pairs(s2[v2.len() - 1], v2.last());
        assert(fields_pairs(s1 + s2, v1 + v2) == fields_pairs(s1 + s2, v1 + w) + f);
        assert(fields_pairs(s2, v2) == fields_pairs(s2, w) + f);
        assert(fields_pairs(s1, v1) + fields_pairs(s2, w) + f =~= fields_pairs(s1, v1) + (fields_pairs(s2, w)
            + f));
    }
}

fn initial_state_of(k: FieldKind) -> (res: FieldState)
    ensures
        res@ == initial_state(k),
{
    match k {
        FieldKind::Required(_) | FieldKind::Optional(_) => FieldState::Single(None),
        FieldKind::Repeated(_) => {
            let v: Vec<Scalar> = Vec::new();
            proof {
                assert(scalars_view(v@) =~= Seq::<ScalarView>::empty());
            }
            FieldState::Many(v)
        },
        FieldKind::Flag | FieldKind::OptionalFlag => FieldState::Switch(None),
        FieldKind::Auth => FieldState::Credentials(None, None, None),
    }
}

fn initial_states_of(schema: &Vec<FieldSpec>) -> (res: Vec<FieldState>)
    ensures
        states_view(res@) == initial_states(schema_view(schema@)),
{
    let mut out: Vec<FieldState> = Vec::new();
    let mut i: usize = 0;
    while i < schema.len()
        invariant
            0 <= i <= schema@.len(),
            states_view(out@) == initial_states(schema_view(schema@.take(i as int))),
        decreases schema@.len() - i,
    {
        let st = initial_state_of(schema[i].kind);
        let ghost before = states_view(out@);
        out.push(st);
        proof {
            assert(schema_view(schema@.take(i + 1)) =~= schema_view(schema@.take(i as int)).push(schema@[i as int]@));
            assert(initial_states(schema_view(schema@.take(i + 1))) =~= initial_states(
                schema_view(schema@.take(i as int)),
            ).push(initial_state(schema@[i as int].kind)));
            assert(states_view(out@) =~= before.push(st@));
        }
        i = i + 1;
    }
    proof {
        assert(schema@.take(schema@.len() as int) =~= schema@);
    }
    out
}

fn accepts_pair(f: &FieldSpec, p: &QueryPair) -> (res: bool)
    ensures
        res == accepts(f@, p@),
{
    match f.kind {
        FieldKind::Auth => (str_eq(p.key.as_str(), "p") || str_eq(p.key.as_str(), "t") || str_eq(
            p.key.as_str(),
            "s",
        )) && p.value.is_some(),
        _ => str_eq(p.key.as_str(), f.key),
    }
}

proof fn lemma_first_accepting(schema: Seq<FieldSpecView>, p: PairView)
    ensures
        match first_accepting(schema, p) {
            Some(i) => 0 <= i < schema.len() && accepts(schema[i], p) && forall|j: int|
                0 <= j < i ==> !#[trigger] accepts(schema[j], p),
            None => forall|j: int| 0 <= j < schema.len() ==> !#[trigger] accepts(schema[j], p),
        },
    decreases schema.len(),
{
    if schema.len() > 0 {
        lemma_first_accepting(schema.drop_first(), p);
        match first_accepting(schema.drop_first(), p) {
            Some(i) => {
                if !accepts(schema[0], p) {
                    assert forall|j: int| 0 <= j < i + 1 implies !#[trigger] accepts(schema[j], p) by {
                        if j > 0 {
                            assert(schema[j] == schema.drop_first()[j - 1]);
                        }
                    }
                }
            },
            None => {
                if !accepts(schema[0], p) {
                    assert forall|j: int| 0 <= j < schema.len() implies !#[trigger] accepts(schema[j], p) by {
                        if j > 0 {
                            assert(schema[j] == schema.drop_first()[j - 1]);
                        }
                    }
                }
            },
        }
    }
}

fn find_field(schema: &Vec<FieldSpec>, p: &QueryPair) -> (res: Option<usize>)
    ensures
        match res {
            Some(i) => first_accepting(schema_view(schema@), p@) == Some(i as int) && i < schema@.len(),
            None => first_accepting(schema_view(schema@), p@) is None,
        },
{
    let ghost sv = schema_view(schema@);
    proof {
        lemma_first_accepting(sv, p@);
    }
    let mut i: usize = 0;
    while i < schema.len()
        invariant
            0 <= i <= schema@.len(),
            sv == schema_view(schema@),
            forall|j: int| 0 <= j < i ==> !#[trigger] accepts(sv[j], p@),
        decreases schema@.len() - i,
    {
        if accepts_pair(&schema[i], p) {
            proof {
                lemma_first_accepting(sv, p@);
                match first_accepting(sv, p@) {
                    Some(k) => {
                        if k < i {
                            assert(accepts(sv[k], p@));
                        } else if k > i {
                            assert(accepts(sv[i as int], p@));
                        }
                    },
                    None => {
                        assert(accepts(sv[i as int], p@));
                    },
                }
            }
            return Some(i);
        }
        i = i + 1;
    }
    proof {
        lemma_first_accepting(sv, p@);
        match first_accepting(sv, p@) {
            Some(k) => {
                assert(accepts(sv[k], p@));
            },
            None => {},
        }
    }
    None
}

/// Reads one more value for a field other than the credentials.
fn consume_value_exec(k: FieldKind, st: FieldState, v: &Option<String>) -> (res: Result<FieldState, String>)
    requires
        !(k is Auth),
    ensures
        match res {
            Ok(s2) => consume_value(k, st@, opt_text(*v)) == Ok::<StateView, Seq<char>>(s2@),
            Err(m) => consume_value(k, st@, opt_text(*v)) == Err::<StateView, Seq<char>>(m@),
        },
{
    match k {
        FieldKind::Required(sk) | FieldKind::Optional(sk) => match st {
            FieldState::Single(cur) => {
                if cur.is_some() {
                    return Err(to_owned_string("duplicate value"));
                }
                match v {
                    None => Err(to_owned_string("empty value")),
                    Some(t) => match scalar_from_text(sk, t.as_str()) {
                        Ok(x) => Ok(FieldState::Single(Some(x))),
                        Err(m) => Err(m),
                    },
                }
            },
            _ => Ok(st),
        },
        FieldKind::Repeated(sk) => match st {
            FieldState::Many(xs) => match v {
                None => Err(to_owned_string("empty value")),
                Some(t) => match scalar_from_text(sk, t.as_str()) {
                    Ok(x) => {
                        let mut xs = xs;
                        let ghost before = xs@;
                        xs.push(x);
                        proof {
                            assert(scalars_view(xs@) =~= scalars_view(before).push(x@));
                        }
                        Ok(FieldState::Many(xs))
                    },
                    Err(m) => Err(m),
                },
            },
            _ => Ok(st),
        },
        FieldKind::Flag | FieldKind::OptionalFlag => match st {
            FieldState::Switch(cur) => {
                if cur.is_some() {
                    return Err(to_owned_string("duplicate value"));
                }
                match v {
                    None => Ok(FieldState::Switch(Some(true))),
                    Some(t) => {
                        if str_eq(t.as_str(), "true") || str_eq(t.as_str(), "1") {
                            Ok(FieldState::Switch(Some(true)))
                        } else if str_eq(t.as_str(), "false") || str_eq(t.as_str(), "0") {
                            Ok(FieldState::Switch(Some(false)))
                        } else {
                            Err(to_owned_string("invalid boolean value"))
                        }
                    },
                }
            },
            _ => Ok(st),
        },
        FieldKind::Auth => Ok(st),
    }
}

fn update_credentials_exec(st: FieldState, key: &str, v: String) -> (res: FieldState)
    ensures
        res@ == update_credentials(st@, key@, v@),
{
    match st {
        FieldState::Credentials(p, t, s) => {
            if str_eq(key, "p") {
                FieldState::Credentials(Some(v), t, s)
            } else if str_eq(key, "t") {
                FieldState::Credentials(p, Some(v), s)
            } else {
                FieldState::Credentials(p, t, Some(v))
            }
        },
        _ => st,
    }
}

/// Reads one pair into the states of the fields.
fn consume_pair_exec(schema: &Vec<FieldSpec>, states: &mut Vec<FieldState>, p: &QueryPair) -> (res: Result<(), QueryParseError>)
    requires
        old(states)@.len() == schema@.len(),
    ensures
        final(states)@.len() == schema@.len(),
        match res {
            Ok(()) => consume_pair(schema_view(schema@), states_view(old(states)@), p@) == Ok::<
                Seq<StateView>,
                QueryErrorView,
            >(states_view(final(states)@)),
            Err(e) => consume_pair(schema_view(schema@), states_view(old(states)@), p@) == Err::<
                Seq<StateView>,
                QueryErrorView,
            >(e@),
        },
{
    let ghost sv = schema_view(schema@);
    let ghost before = states_view(states@);
    match find_field(schema, p) {
        None => Err(QueryParseError::unknown_key(p.key.as_str())),
        Some(i) => {
            let f = schema[i];
            let st = states.remove(i);
            proof {
                assert(st@ == before[i as int]);
                assert(sv[i as int] == f@);
            }
            match f.kind {
                FieldKind::Auth => {
                    let v = match &p.value {
                        Some(v) => v.clone(),
                        None => {
                            proof {
                                lemma_first_accepting(sv, p@);
                            }
                            to_owned_string("")
                        },
                    };
                    let st2 = update_credentials_exec(st, p.key.as_str(), v);
                    states.insert(i, st2);
                    proof {
                        lemma_first_accepting(sv, p@);
                        assert(states_view(states@) =~= before.update(i as int, st2@));
                    }
                    Ok(())
                },
                _ => {
                    match consume_value_exec(f.kind, st, &p.value) {
                        Ok(st2) => {
                            states.insert(i, st2);
                            proof {
                                assert(states_view(states@) =~= before.update(i as int, st2@));
                            }
                            Ok(())
                        },
                        Err(m) => {
                            let dummy = initial_state_of(f.kind);
                            states.insert(i, dummy);
                            Err(QueryParseError::invalid_value(f.key, QueryValueParseError::message(m.as_str())))
                        },
                    }
                },
            }
        },
    }
}

fn finish_field_exec(k: FieldKind, st: FieldState) -> (res: Result<FieldValue, String>)
    ensures
        match res {
            Ok(v) => finish_field(k, st@) == Ok::<FieldValueView, Seq<char>>(v@),
            Err(m) => finish_field(k, st@) == Err::<FieldValueView, Seq<char>>(m@),
        },
{
    match st {
        FieldState::Single(o) => match k {
            FieldKind::Required(_) => match o {
                Some(x) => Ok(FieldValue::Required(x)),
                None => Err(to_owned_string("empty value")),
            },
            _ => Ok(FieldValue::Optional(o)),
        },
        FieldState::Many(xs) => Ok(FieldValue::Repeated(xs)),
        FieldState::Switch(o) => match k {
            FieldKind::Flag => match o {
                Some(b) => Ok(FieldValue::Flag(b)),
                None => Err(to_owned_string("empty value")),
            },
            _ => Ok(FieldValue::OptionalFlag(o)),
        },
        FieldState::Credentials(p, t, s) => {
            match (t, s) {
                (Some(token), Some(salt)) => Ok(FieldValue::Auth(Authentication::Token { token, salt })),
                _ => match p {
                    Some(password) => Ok(FieldValue::Auth(Authentication::Password(password))),
                    None => Err(to_owned_string("one of p, t, s must be present")),
                },
            }
        },
    }
}

/// An error in the first fields is the error of all of them.
proof fn lemma_finish_fields_err(schema: Seq<FieldSpecView>, states: Seq<StateView>, k: int)
    requires
        0 <= k <= states.len(),
        finish_fields(schema, states.take(k)) is Err,
    ensures
        finish_fields(schema, states) == finish_fields(schema, states.take(k)),
    decreases states.len() - k,
{
    if k < states.len() {
        let t = states.take(k + 1);
        assert(t.drop_last() =~= states.take(k));
        lemma_finish_fields_err(schema, states, k + 1);
    } else {
        assert(states.take(k) =~= states);
    }
}

/// Reads the fields of a schema from a list of pairs.
pub fn fields_from_pairs(schema: &Vec<FieldSpec>, pairs: &Vec<QueryPair>) -> (res: Result<Vec<FieldValue>, QueryParseError>)
    ensures
        match res {
            Ok(vs) => fields_from(schema_view(schema@), pairs_view(pairs@)) == Ok::<
                Seq<FieldValueView>,
                QueryErrorView,
            >(fields_view(vs@)),
            Err(e) => fields_from(schema_view(schema@), pairs_view(pairs@)) == Err::<
                Seq<FieldValueView>,
                QueryErrorView,
            >(e@),
        },
{
    let ghost sv = schema_view(schema@);
    let ghost pv = pairs_view(pairs@);
    let mut states = initial_states_of(schema);
    let mut i: usize = 0;
    proof {
        assert(pv.skip(0) =~= pv);
    }
    while i < pairs.len()
        invariant
            0 <= i <= pairs@.len(),
            sv == schema_view(schema@),
            pv == pairs_view(pairs@),
            states@.len() == schema@.len(),
            consume_pairs(sv, initial_states(sv), pv) == consume_pairs(sv, states_view(states@), pv.skip(i as int)),
        decreases pairs@.len() - i,
    {
        let ghost before = states_view(states@);
        proof {
            assert(pv.skip(i as int)[0] == pv[i as int]);
            assert(pv.skip(i as int).drop_first() =~= pv.skip(i + 1));
        }
        match consume_pair_exec(schema, &mut states, &pairs[i]) {
            Ok(()) => {},
            Err(e) => {
                return Err(e);
            },
        }
        i = i + 1;
    }
    proof {
        assert(pv.skip(i as int) =~= Seq::<PairView>::empty());
        assert(consume_pairs(sv, initial_states(sv), pv) == Ok::<Seq<StateView>, QueryErrorView>(states_view(states@)));
    }
    // finish every field in order
    let mut out: Vec<FieldValue> = Vec::new();
    let ghost final_states = states_view(states@);
    let mut j: usize = 0;
    let n = states.len();
    let mut rest: Vec<FieldState> = Vec::new();
    // move the states out in order
    while states.len() > 0
        invariant
            rest@.len() + states@.len() == n,
            n == schema@.len(),
            final_states =~= states_view(rest@) + states_view(states@),
        decreases states@.len(),
    {
        let ghost b_rest = states_view(rest@);
        let ghost b_states = states_view(states@);
        let s = states.remove(0);
        rest.push(s);
        proof {
            assert(states_view(rest@) =~= b_rest.push(b_states[0]));
            assert(states_view(states@) =~= b_states.drop_first());
        }
    }
    proof {
        assert(states_view(states@) =~= Seq::<StateView>::empty());
        assert(final_states =~= states_view(rest@));
    }
    let mut rest = rest;
    let mut pending: Vec<FieldState> = Vec::new();
    // reverse so that popping gives schema order
    while rest.len() > 0
        invariant
            rest@.len() + pending@.len() == n,
            n == schema@.len(),
            final_states.len() == n,
            forall|k: int| 0 <= k < rest@.len() ==> #[trigger] rest@[k]@ == final_states[k],
            forall|k: int| 0 <= k < pending@.len() ==> #[trigger] pending@[k]@ == final_states[n - 1 - k],
        decreases rest@.len(),
    {
        let s = rest.pop().unwrap();
        pending.push(s);
    }
    proof {
        assert(final_states.take(0) =~= Seq::<StateView>::empty());
        assert(fields_view(out@) =~= Seq::<FieldValueView>::empty());
    }
    while j < n
        invariant
            0 <= j <= n,
            consume_pairs(sv, initial_states(sv), pv) == Ok::<Seq<StateView>, QueryErrorView>(final_states),
            pv == pairs_view(pairs@),
            n == schema@.len(),
            sv == schema_view(schema@),
            final_states.len() == n,
            pending@.len() == n - j,
            forall|k: int| 0 <= k < pending@.len() ==> #[trigger] pending@[k]@ == final_states[n - 1 - k],
            finish_fields(sv, final_states.take(j as int)) == Ok::<Seq<FieldValueView>, QueryErrorView>(
                fields_view(out@),
            ),
        decreases n - j,
    {
        let s = pending.pop().unwrap();
        let f = schema[j];
        proof {
            assert(s@ == final_states[j as int]);
            assert(final_states.take(j + 1).drop_last() =~= final_states.take(j as int));
            assert(final_states.take(j + 1)[j as int] == final_states[j as int]);
            assert(sv[j as int] == f@);
        }
        match finish_field_exec(f.kind, s) {
            Ok(v) => {
                let ghost before = fields_view(out@);
                out.push(v);
                proof {
                    assert(fields_view(out@) =~= before.push(v@));
                }
            },
            Err(m) => {
                let e = QueryParseError::invalid_value(f.key, QueryValueParseError::message(m.as_str()));
                proof {
                    lemma_finish_fields_err(sv, final_states, j + 1);
                }
                return Err(e);
            },
        }
        j = j + 1;
    }
    proof {
        assert(final_states.take(n as int) =~= final_states);
    }
    Ok(out)
}

/// Adds the pairs of one field.
fn push_field_pairs(out: &mut Vec<QueryPair>, f: &FieldSpec, v: &FieldValue)
    ensures
        pairs_view(final(out)@) == pairs_view(old(out)@) + field_pairs(f@, v@),
{
    let ghost before = pairs_view(out@);
    match v {
        FieldValue::Required(x) => {
            out.push(QueryPair { key: to_owned_string(f.key), value: Some(scalar_to_text(x)) });
            proof {
                assert(pairs_view(out@) =~= before + field_pairs(f@, v@));
            }
        },
        FieldValue::Optional(o) => match o {
            Some(x) => {
                out.push(QueryPair { key: to_owned_string(f.key), value: Some(scalar_to_text(x)) });
                proof {
                    assert(pairs_view(out@) =~= before + field_pairs(f@, v@));
                }
            },
            None => {
                proof {
                    assert(pairs_view(out@) =~= before + field_pairs(f@, v@));
                }
            },
        },
        FieldValue::Repeated(xs) => {
            let mut i: usize = 0;
            while i < xs.len()
                invariant
                    0 <= i <= xs@.len(),
                    pairs_view(out@) == before + scalars_view(xs@).take(i as int).map_values(
                        |x: ScalarView| (f@.0, Some(scalar_text(x))),
                    ),
                decreases xs@.len() - i,
            {
                let ghost b = pairs_view(out@);
                let q = QueryPair { key: to_owned_string(f.key), value: Some(scalar_to_text(&xs[i])) };
                out.push(q);
                proof {
                    assert(pairs_view(out@) =~= b.push(q@));
                    assert(scalars_view(xs@).take(i + 1).map_values(|x: ScalarView| (f@.0, Some(scalar_text(x))))
                        =~= scalars_view(xs@).take(i as int).map_values(|x: ScalarView| (f@.0, Some(scalar_text(x)))).push(
                        (f@.0, Some(scalar_text(xs@[i as int]@))),
                    ));
                    assert(scalars_view(xs@).take(i + 1) =~= scalars_view(xs@).take(i as int).push(xs@[i as int]@));
                    assert(pairs_view(out@) =~= before + scalars_view(xs@).take(i + 1).map_values(
                        |x: ScalarView| (f@.0, Some(scalar_text(x))),
                    ));
                }
                i = i + 1;
            }
            proof {
                assert(scalars_view(xs@).take(xs@.len() as int) =~= scalars_view(xs@));
            }
        },
        FieldValue::Flag(b) => {
            if *b {
                out.push(QueryPair { key: to_owned_string(f.key), value: None });
            }
            proof {
                assert(pairs_view(out@) =~= before + field_pairs(f@, v@));
            }
        },
        FieldValue::OptionalFlag(o) => {
            match o {
                Some(b) => {
                    if *b {
                        out.push(QueryPair { key: to_owned_string(f.key), value: None });
                    }
                },
                None => {},
            }
            proof {
                assert(pairs_view(out@) =~= before + field_pairs(f@, v@));
            }
        },
        FieldValue::Auth(a) => {
            match a {
                Authentication::Password(p) => {
                    out.push(QueryPair { key: to_owned_string("p"), value: Some(p.clone()) });
                },
                Authentication::Token { token, salt } => {
                    out.push(QueryPair { key: to_owned_string("t"), value: Some(token.clone()) });
                    out.push(QueryPair { key: to_owned_string("s"), value: Some(salt.clone()) });
                },
            }
            proof {
                assert(pairs_view(out@) =~= before + field_pairs(f@, v@));
            }
        },
    }
}

/// Writes the fields of a schema as pairs.
pub fn fields_to_pairs(schema: &Vec<FieldSpec>, fields: &Vec<FieldValue>) -> (res: Vec<QueryPair>)
    requires
        fields@.len() == schema@.len(),
    ensures
        pairs_view(res@) == fields_pairs(schema_view(schema@), fields_view(fields@)),
{
    let ghost sv = schema_view(schema@);
    let mut out: Vec<QueryPair> = Vec::new();
    let mut i: usize = 0;
    while i < fields.len()
        invariant
            0 <= i <= fields@.len(),
            fields@.len() == schema@.len(),
            sv == schema_view(schema@),
            pairs_view(out@) == fields_pairs(sv, fields_view(fields@).take(i as int)),
        decreases fields@.len() - i,
    {
        push_field_pairs(&mut out, &schema[i], &fields[i]);
        proof {
            let t = fields_view(fields@).take(i + 1);
            assert(t.drop_last() =~= fields_view(fields@).take(i as int));
            assert(t.last() == fields@[i as int]@);
            assert(sv[i as int] == schema@[i as int]@);
        }
        i = i + 1;
    }
    proof {
        assert(fields_view(fields@).take(fields@.len() as int) =~= fields_view(fields@));
    }
    out
}

} // verus!
