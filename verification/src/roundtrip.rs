//! Writing fields as a query string and reading them back gives the same
//! fields.
use vstd::prelude::*;
use vstd::utf8::{encode_utf8, is_ascii_chars, is_ascii_chars_encode_utf8};

use crate::codec::{
    accepts, consume_pair, consume_pairs, consume_value, field_pairs, fields_from, fields_pairs,
    finish_field, finish_fields, first_accepting, initial_state, initial_states, parse_scalar,
    scalar_kind, scalar_text, FieldKind, FieldSpecView, FieldValueView,
    ScalarKind, ScalarView, StateView,
};
use crate::common::{
    audio_bitrate_is_canonical, audio_bitrate_kbps, lemma_version_roundtrip,
    lemma_video_bitrate_roundtrip, lemma_video_size_roundtrip, video_size_text,
};
use crate::percent::has_no_escape;
use crate::query::{
    built_query, key_is_query_safe, lemma_query_pairs_roundtrip, pair_is_query_safe, query_pairs, query_text,
    value_is_query_safe, PairView, QueryErrorView,
};
use crate::request::jukebox::{jukebox_action_text, lemma_jukebox_action_roundtrip, JukeboxAction};
use crate::request::lists::{lemma_list_type_roundtrip, list_type_text, ListType};
use crate::request::AuthView;
use crate::text::{decimal_text, is_digit, lemma_decimal_text, lemma_parses_decimal};

verus! {

/// `p`, `t` or `s`: the keys of the credentials.
pub open spec fn is_credential_key(k: Seq<char>) -> bool {
    k == "p"@ || k == "t"@ || k == "s"@
}

/// A schema whose fields a query string can tell apart: every key other than
/// the credentials' is non-empty, safe in a query, distinct from the others
/// and from `p`, `t`, `s`; there is at most one credentials field.
pub open spec fn schema_is_valid(schema: Seq<FieldSpecView>) -> bool {
    &&& forall|i: int|
        0 <= i < schema.len() && !(#[trigger] schema[i].1 is Auth) ==> key_is_query_safe(schema[i].0)
            && schema[i].0.len() > 0 && !is_credential_key(schema[i].0)
    &&& forall|i: int, j: int|
        0 <= i < schema.len() && 0 <= j < schema.len() && i != j && !(#[trigger] schema[i].1 is Auth)
            && !(#[trigger] schema[j].1 is Auth) ==> schema[i].0 != schema[j].0
    &&& forall|i: int, j: int|
        0 <= i < schema.len() && 0 <= j < schema.len() && i != j ==> !(#[trigger] schema[i].1 is Auth
            && #[trigger] schema[j].1 is Auth)
}

/// A value of the shape that the field's kind asks for.
pub open spec fn value_fits(k: FieldKind, v: FieldValueView) -> bool {
    match k {
        FieldKind::Required(sk) => v matches FieldValueView::Required(x) && scalar_kind(x) == sk,
        FieldKind::Optional(sk) => v matches FieldValueView::Optional(o) && (o matches Some(x)
            ==> scalar_kind(x) == sk),
        FieldKind::Repeated(sk) => v matches FieldValueView::Repeated(xs) && forall|i: int|
            0 <= i < xs.len() ==> scalar_kind(#[trigger] xs[i]) == sk,
        FieldKind::Flag => v is Flag,
        FieldKind::OptionalFlag => v is OptionalFlag,
        FieldKind::Auth => v is Auth,
    }
}

/// One value per field of the schema, each of its field's shape.
pub open spec fn fields_fit(schema: Seq<FieldSpecView>, vs: Seq<FieldValueView>) -> bool {
    &&& vs.len() == schema.len()
    &&& forall|i: int| 0 <= i < vs.len() ==> #[trigger] value_fits(schema[i].1, vs[i])
}

/// A value that its text carries faithfully: a text safe in a query, or an
/// audio bitrate in its canonical variant.
pub open spec fn scalar_is_query_safe(x: ScalarView) -> bool {
    match x {
        ScalarView::Text(t) => value_is_query_safe(t),
        ScalarView::Audio(a) => audio_bitrate_is_canonical(a),
        _ => true,
    }
}

/// A field value that a query string carries faithfully: its values are safe,
/// and no flag is false (a false flag is written as nothing, and reads back as
/// absent).
pub open spec fn field_is_query_safe(v: FieldValueView) -> bool {
    match v {
        FieldValueView::Required(x) => scalar_is_query_safe(x),
        FieldValueView::Optional(o) => o matches Some(x) ==> scalar_is_query_safe(x),
        FieldValueView::Repeated(xs) => forall|i: int| 0 <= i < xs.len() ==> scalar_is_query_safe(#[trigger] xs[i]),
        FieldValueView::Flag(b) => b,
        FieldValueView::OptionalFlag(o) => o != Some(false),
        FieldValueView::Auth(AuthView::Password(p)) => value_is_query_safe(p),
        FieldValueView::Auth(AuthView::Token(t, s)) => value_is_query_safe(t) && value_is_query_safe(s),
    }
}

pub open spec fn fields_are_query_safe(vs: Seq<FieldValueView>) -> bool {
    forall|i: int| 0 <= i < vs.len() ==> #[trigger] field_is_query_safe(vs[i])
}

/// ASCII letters, digits, `@` and `.`.
pub open spec fn is_plain_char(c: char) -> bool {
    ('0' <= c && c <= '9') || ('a' <= c && c <= 'z') || ('A' <= c && c <= 'Z') || c == '@' || c == '.'
}

pub open spec fn is_plain(t: Seq<char>) -> bool {
    forall|i: int| 0 <= i < t.len() ==> #[trigger] is_plain_char(t[i])
}

proof fn lemma_plain_concat(a: Seq<char>, b: Seq<char>)
    requires
        is_plain(a),
        is_plain(b),
    ensures
        is_plain(a + b),
{
    assert forall|i: int| 0 <= i < (a + b).len() implies #[trigger] is_plain_char((a + b)[i]) by {
        if i < a.len() {
            assert((a + b)[i] == a[i]);
        } else {
            assert((a + b)[i] == b[i - a.len()]);
        }
    }
}

proof fn lemma_plain_decimal(n: nat)
    ensures
        is_plain(decimal_text(n)),
{
    lemma_decimal_text(n);
    assert forall|i: int| 0 <= i < decimal_text(n).len() implies #[trigger] is_plain_char(decimal_text(n)[i]) by {
        assert(is_digit(decimal_text(n)[i]));
    }
}

/// A plain text is safe as a key and as a value.
pub proof fn lemma_plain_safe(t: Seq<char>)
    requires
        is_plain(t),
    ensures
        key_is_query_safe(t),
        value_is_query_safe(t),
{
    assert(is_ascii_chars(t)) by {
        assert forall|i: int| 0 <= i < t.len() implies '\0' <= #[trigger] t[i] <= '\u{7f}' by {
            assert(is_plain_char(t[i]));
        }
    }
    is_ascii_chars_encode_utf8(t);
    let e = encode_utf8(t);
    assert forall|i: int| 0 <= i < e.len() implies #[trigger] e[i] != 0x26 && e[i] != 0x3D && e[i] != 0x25 by {
        assert(t[i] as u8 == e[i]);
        assert(is_plain_char(t[i]));
    }
    assert(!e.contains(0x26u8));
    assert(!e.contains(0x3Du8));
    assert(has_no_escape(e));
}

proof fn lemma_plain_list_type(l: ListType)
    ensures
        is_plain(list_type_text(l)),
{
    reveal_strlit("random");
    reveal_strlit("newest");
    reveal_strlit("highest");
    reveal_strlit("frequent");
    reveal_strlit("recent");
    reveal_strlit("alphabeticalByName");
    reveal_strlit("alphabeticalByArtist");
    reveal_strlit("starred");
    reveal_strlit("byYear");
    reveal_strlit("byGenre");
    let t = list_type_text(l);
    assert forall|i: int| 0 <= i < t.len() implies #[trigger] is_plain_char(t[i]) by {
        assert(('a' <= t[i] && t[i] <= 'z') || ('A' <= t[i] && t[i] <= 'Z'));
    }
}

proof fn lemma_plain_jukebox_action(a: JukeboxAction)
    ensures
        is_plain(jukebox_action_text(a)),
{
    reveal_strlit("get");
    reveal_strlit("status");
    reveal_strlit("set");
    reveal_strlit("start");
    reveal_strlit("stop");
    reveal_strlit("skip");
    reveal_strlit("add");
    reveal_strlit("clear");
    reveal_strlit("remove");
    reveal_strlit("shuffle");
    reveal_strlit("setGain");
    let t = jukebox_action_text(a);
    assert forall|i: int| 0 <= i < t.len() implies #[trigger] is_plain_char(t[i]) by {
        assert(('a' <= t[i] && t[i] <= 'z') || ('A' <= t[i] && t[i] <= 'Z'));
    }
}

/// The text of any value other than a free text is plain.
proof fn lemma_scalar_text_plain(x: ScalarView)
    requires
        !(x is Text),
    ensures
        is_plain(scalar_text(x)),
{
    match x {
        ScalarView::U32(n) => lemma_plain_decimal(n as nat),
        ScalarView::U64(n) => lemma_plain_decimal(n as nat),
        ScalarView::Size(s) => {
            lemma_plain_decimal(s.width as nat);
            lemma_plain_decimal(s.height as nat);
            lemma_plain_concat(decimal_text(s.width as nat), seq!['x']);
            lemma_plain_concat(decimal_text(s.width as nat) + seq!['x'], decimal_text(s.height as nat));
        },
        ScalarView::Bitrate(b) => {
            lemma_plain_decimal(b.bitrate as nat);
            match b.size {
                Some(s) => {
                    lemma_plain_decimal(s.width as nat);
                    lemma_plain_decimal(s.height as nat);
                    lemma_plain_concat(decimal_text(s.width as nat), seq!['x']);
                    lemma_plain_concat(decimal_text(s.width as nat) + seq!['x'], decimal_text(s.height as nat));
                    lemma_plain_concat(decimal_text(b.bitrate as nat), seq!['@']);
                    lemma_plain_concat(decimal_text(b.bitrate as nat) + seq!['@'], video_size_text(s));
                },
                None => {},
            }
        },
        ScalarView::List(l) => lemma_plain_list_type(l),
        ScalarView::Jukebox(a) => lemma_plain_jukebox_action(a),
        ScalarView::Audio(a) => lemma_plain_decimal(audio_bitrate_kbps(a) as nat),
        ScalarView::Version(v) => {
            lemma_plain_decimal(v.major as nat);
            lemma_plain_decimal(v.minor as nat);
            lemma_plain_decimal(v.patch as nat);
            let a = decimal_text(v.major as nat);
            let b = decimal_text(v.minor as nat);
            let c = decimal_text(v.patch as nat);
            lemma_plain_concat(a, seq!['.']);
            lemma_plain_concat(a + seq!['.'], b);
            lemma_plain_concat(a + seq!['.'] + b, seq!['.']);
            lemma_plain_concat(a + seq!['.'] + b + seq!['.'], c);
        },
        ScalarView::Text(_) => {},
    }
}

/// The text of a safe value is safe in a query.
proof fn lemma_scalar_text_safe(x: ScalarView)
    requires
        scalar_is_query_safe(x),
    ensures
        value_is_query_safe(scalar_text(x)),
{
    if !(x is Text) {
        lemma_scalar_text_plain(x);
        lemma_plain_safe(scalar_text(x));
    }
}

/// Reading the text of a safe value gives it back.
pub proof fn lemma_scalar_roundtrip(x: ScalarView)
    requires
        scalar_is_query_safe(x),
    ensures
        parse_scalar(scalar_kind(x), scalar_text(x)) == Ok::<ScalarView, Seq<char>>(x),
{
    match x {
        ScalarView::U32(n) => lemma_parses_decimal(n as nat, u32::MAX as nat),
        ScalarView::U64(n) => lemma_parses_decimal(n as nat, u64::MAX as nat),
        ScalarView::Size(s) => lemma_video_size_roundtrip(s),
        ScalarView::Bitrate(b) => lemma_video_bitrate_roundtrip(b),
        ScalarView::List(l) => lemma_list_type_roundtrip(l),
        ScalarView::Jukebox(a) => lemma_jukebox_action_roundtrip(a),
        ScalarView::Audio(a) => lemma_parses_decimal(audio_bitrate_kbps(a) as nat, u32::MAX as nat),
        ScalarView::Version(v) => lemma_version_roundtrip(v),
        ScalarView::Text(_) => {},
    }
}

proof fn lemma_credential_keys()
    ensures
        "p"@ != "t"@,
        "p"@ != "s"@,
        "t"@ != "s"@,
        key_is_query_safe("p"@),
        key_is_query_safe("t"@),
        key_is_query_safe("s"@),
        "p"@.len() > 0,
        "t"@.len() > 0,
        "s"@.len() > 0,
{
    reveal_strlit("p");
    reveal_strlit("t");
    reveal_strlit("s");
    assert("p"@[0] != "t"@[0]);
    assert("p"@[0] != "s"@[0]);
    assert("t"@[0] != "s"@[0]);
    assert(is_plain_char("p"@[0]));
    assert(is_plain_char("t"@[0]));
    assert(is_plain_char("s"@[0]));
    lemma_plain_safe("p"@);
    lemma_plain_safe("t"@);
    lemma_plain_safe("s"@);
}

/// The pairs of a safe field are safe.
proof fn lemma_field_pairs_safe(f: FieldSpecView, v: FieldValueView, q: PairView)
    requires
        !(f.1 is Auth) ==> key_is_query_safe(f.0) && f.0.len() > 0,
        value_fits(f.1, v),
        field_is_query_safe(v),
        field_pairs(f, v).contains(q),
    ensures
        pair_is_query_safe(q),
{
    lemma_credential_keys();
    let ps = field_pairs(f, v);
    let i = choose|i: int| 0 <= i < ps.len() && ps[i] == q;
    match v {
        FieldValueView::Required(x) => lemma_scalar_text_safe(x),
        FieldValueView::Optional(o) => match o {
            Some(x) => lemma_scalar_text_safe(x),
            None => {},
        },
        FieldValueView::Repeated(xs) => {
            assert(ps[i] == (f.0, Some(scalar_text(xs[i]))));
            lemma_scalar_text_safe(xs[i]);
        },
        _ => {},
    }
}

/// All the pairs of safe fields are safe.
proof fn lemma_fields_pairs_safe(schema: Seq<FieldSpecView>, vs: Seq<FieldValueView>)
    requires
        schema_is_valid(schema),
        fields_fit(schema, vs),
        fields_are_query_safe(vs),
    ensures
        forall|i: int| 0 <= i < fields_pairs(schema, vs).len() ==> #[trigger] pair_is_query_safe(
            fields_pairs(schema, vs)[i],
        ),
    decreases vs.len(),
{
    if vs.len() > 0 {
        let n = vs.len() - 1;
        let init = vs.drop_last();
        let sch = schema.take(n);
        assert(fields_pairs(schema, init) == fields_pairs(sch, init)) by {
            lemma_fields_pairs_prefix_schema(schema, init);
        }
        assert(schema_is_valid(sch)) by {
            assert forall|i: int| 0 <= i < sch.len() implies sch[i] == schema[i] by {}
        }
        assert(fields_fit(sch, init)) by {
            assert forall|i: int| 0 <= i < init.len() implies #[trigger] value_fits(sch[i].1, init[i]) by {
                assert(init[i] == vs[i]);
                assert(sch[i] == schema[i]);
                assert(value_fits(schema[i].1, vs[i]));
            }
        }
        assert(fields_are_query_safe(init)) by {
            assert forall|i: int| 0 <= i < init.len() implies #[trigger] field_is_query_safe(init[i]) by {
                assert(init[i] == vs[i]);
                assert(field_is_query_safe(vs[i]));
            }
        }
        lemma_fields_pairs_safe(sch, init);
        let a = fields_pairs(schema, init);
        let b = field_pairs(schema[n], vs.last());
        assert(value_fits(schema[n].1, vs[n]));
        assert(field_is_query_safe(vs[n]));
        assert forall|i: int| 0 <= i < (a + b).len() implies #[trigger] pair_is_query_safe((a + b)[i]) by {
            if i < a.len() {
                assert((a + b)[i] == a[i]);
            } else {
                assert((a + b)[i] == b[i - a.len()]);
                assert(b.contains(b[i - a.len()]));
                lemma_field_pairs_safe(schema[n], vs.last(), b[i - a.len()]);
            }
        }
    }
}

/// The pairs of the first fields depend only on the first entries of the
/// schema.
proof fn lemma_fields_pairs_prefix_schema(schema: Seq<FieldSpecView>, vs: Seq<FieldValueView>)
    requires
        vs.len() <= schema.len(),
    ensures
        fields_pairs(schema, vs) == fields_pairs(schema.take(vs.len() as int), vs),
    decreases vs.len(),
{
    if vs.len() > 0 {
        lemma_fields_pairs_prefix_schema(schema, vs.drop_last());
        lemma_fields_pairs_prefix_schema(schema.take(vs.len() as int), vs.drop_last());
        assert(schema.take(vs.len() as int).take(vs.drop_last().len() as int) =~= schema.take(
            vs.drop_last().len() as int,
        ));
    }
}

/// Reading a list of pairs in two parts.
proof fn lemma_consume_pairs_concat(
    schema: Seq<FieldSpecView>,
    st: Seq<StateView>,
    a: Seq<PairView>,
    b: Seq<PairView>,
)
    ensures
        consume_pairs(schema, st, a + b) == (match consume_pairs(schema, st, a) {
            Ok(s2) => consume_pairs(schema, s2, b),
            Err(e) => Err(e),
        }),
    decreases a.len(),
{
    if a.len() == 0 {
        assert(a + b =~= b);
    } else {
        assert((a + b)[0] == a[0]);
        assert((a + b).drop_first() =~= a.drop_first() + b);
        match consume_pair(schema, st, a[0]) {
            Ok(s2) => lemma_consume_pairs_concat(schema, s2, a.drop_first(), b),
            Err(_) => {},
        }
    }
}

/// Reading a single pair.
proof fn lemma_consume_one(schema: Seq<FieldSpecView>, st: Seq<StateView>, p: PairView)
    ensures
        consume_pairs(schema, st, seq![p]) == consume_pair(schema, st, p),
{
    assert(seq![p][0] == p);
    assert(seq![p].drop_first() =~= Seq::<PairView>::empty());
    match consume_pair(schema, st, p) {
        Ok(s2) => {
            assert(consume_pairs(schema, s2, Seq::<PairView>::empty()) == Ok::<Seq<StateView>, QueryErrorView>(s2));
        },
        Err(_) => {},
    }
}

/// A pair that field `k` takes and no field before it takes goes to field `k`.
proof fn lemma_first_accepting_is(schema: Seq<FieldSpecView>, p: PairView, k: int)
    requires
        0 <= k < schema.len(),
        accepts(schema[k], p),
        forall|j: int| 0 <= j < k ==> !#[trigger] accepts(schema[j], p),
    ensures
        first_accepting(schema, p) == Some(k),
    decreases k,
{
    if k > 0 {
        assert(!accepts(schema[0], p));
        assert forall|j: int| 0 <= j < k - 1 implies !#[trigger] accepts(schema.drop_first()[j], p) by {
            assert(schema.drop_first()[j] == schema[j + 1]);
        }
        lemma_first_accepting_is(schema.drop_first(), p, k - 1);
    }
}

/// In a valid schema, a pair of field `k` goes to field `k`.
proof fn lemma_pair_goes_to(schema: Seq<FieldSpecView>, k: int, p: PairView)
    requires
        schema_is_valid(schema),
        0 <= k < schema.len(),
        schema[k].1 is Auth ==> is_credential_key(p.0) && p.1 is Some,
        !(schema[k].1 is Auth) ==> p.0 == schema[k].0,
    ensures
        first_accepting(schema, p) == Some(k),
{
    assert forall|j: int| 0 <= j < k implies !#[trigger] accepts(schema[j], p) by {
        if schema[j].1 is Auth {
            assert(!(schema[k].1 is Auth));
        } else if !(schema[k].1 is Auth) {
            assert(schema[j].0 != schema[k].0);
        }
    }
    lemma_first_accepting_is(schema, p, k);
}

/// The state of a field once its own pairs are read.
pub open spec fn filled_state(v: FieldValueView) -> StateView {
    match v {
        FieldValueView::Required(x) => StateView::Single(Some(x)),
        FieldValueView::Optional(o) => StateView::Single(o),
        FieldValueView::Repeated(xs) => StateView::Many(xs),
        FieldValueView::Flag(b) => StateView::Switch(Some(b)),
        FieldValueView::OptionalFlag(o) => StateView::Switch(o),
        FieldValueView::Auth(AuthView::Password(p)) => StateView::Credentials(Some(p), None, None),
        FieldValueView::Auth(AuthView::Token(t, s)) => StateView::Credentials(None, Some(t), Some(s)),
    }
}

/// The states after the pairs of the first `k` fields are read.
pub open spec fn states_after(schema: Seq<FieldSpecView>, vs: Seq<FieldValueView>, k: int) -> Seq<StateView> {
    Seq::new(
        schema.len(),
        |j: int|
            if j < k {
                filled_state(vs[j])
            } else {
                initial_state(schema[j].1)
            },
    )
}

/// Reading repeated values of field `k`, one pair each.
proof fn lemma_consume_repeated(
    schema: Seq<FieldSpecView>,
    st: Seq<StateView>,
    k: int,
    xs: Seq<ScalarView>,
    m: int,
)
    requires
        schema_is_valid(schema),
        0 <= k < schema.len(),
        st.len() == schema.len(),
        0 <= m <= xs.len(),
        schema[k].1 matches FieldKind::Repeated(sk) && forall|i: int| 0 <= i < xs.len() ==> scalar_kind(
            #[trigger] xs[i],
        ) == sk,
        forall|i: int| 0 <= i < xs.len() ==> scalar_is_query_safe(#[trigger] xs[i]),
        st[k] == StateView::Many(Seq::<ScalarView>::empty()),
    ensures
        consume_pairs(
            schema,
            st,
            xs.take(m).map_values(|x: ScalarView| (schema[k].0, Some(scalar_text(x)))),
        ) == Ok::<Seq<StateView>, QueryErrorView>(st.update(k, StateView::Many(xs.take(m)))),
    decreases m,
{
    if m == 0 {
        assert(xs.take(0).map_values(|x: ScalarView| (schema[k].0, Some(scalar_text(x)))) =~= Seq::<PairView>::empty());
        assert(xs.take(0) =~= Seq::<ScalarView>::empty());
        assert(st.update(k, StateView::Many(xs.take(0))) =~= st);
    } else {
        lemma_consume_repeated(schema, st, k, xs, m - 1);
        let s1 = st.update(k, StateView::Many(xs.take(m - 1)));
        let p = (schema[k].0, Some(scalar_text(xs[m - 1])));
        let a = xs.take(m - 1).map_values(|x: ScalarView| (schema[k].0, Some(scalar_text(x))));
        assert(xs.take(m).map_values(|x: ScalarView| (schema[k].0, Some(scalar_text(x)))) =~= a + seq![p]);
        lemma_consume_pairs_concat(schema, st, a, seq![p]);
        lemma_pair_goes_to(schema, k, p);
        lemma_scalar_roundtrip(xs[m - 1]);
        assert(xs.take(m - 1).push(xs[m - 1]) =~= xs.take(m));
        assert(s1[k] == StateView::Many(xs.take(m - 1)));
        assert(consume_pair(schema, s1, p) == Ok::<Seq<StateView>, QueryErrorView>(
            s1.update(k, StateView::Many(xs.take(m))),
        ));
        assert(s1.update(k, StateView::Many(xs.take(m))) =~= st.update(k, StateView::Many(xs.take(m))));
        lemma_consume_one(schema, s1, p);
        assert(consume_pairs(schema, s1, seq![p]) == Ok::<Seq<StateView>, QueryErrorView>(
            st.update(k, StateView::Many(xs.take(m))),
        ));
    }
}

/// Reading the pairs of field `k` fills that field and leaves the others.
proof fn lemma_consume_field(schema: Seq<FieldSpecView>, vs: Seq<FieldValueView>, k: int)
    requires
        schema_is_valid(schema),
        fields_fit(schema, vs),
        fields_are_query_safe(vs),
        0 <= k < schema.len(),
    ensures
        consume_pairs(schema, states_after(schema, vs, k), field_pairs(schema[k], vs[k])) == Ok::<
            Seq<StateView>,
            QueryErrorView,
        >(states_after(schema, vs, k + 1)),
{
    lemma_credential_keys();
    let st = states_after(schema, vs, k);
    let next = states_after(schema, vs, k + 1);
    let f = schema[k];
    let v = vs[k];
    assert(value_fits(f.1, v));
    assert(field_is_query_safe(v));
    assert(st[k] == initial_state(f.1));
    assert(st.update(k, filled_state(v)) =~= next);
    let ps = field_pairs(f, v);
    match v {
        FieldValueView::Required(x) => {
            let p = (f.0, Some(scalar_text(x)));
            lemma_pair_goes_to(schema, k, p);
            lemma_scalar_roundtrip(x);
            assert(ps =~= seq![p]);
            lemma_consume_one(schema, st, p);
            assert(consume_pair(schema, st, p) == Ok::<Seq<StateView>, QueryErrorView>(
                st.update(k, filled_state(v)),
            ));
        },
        FieldValueView::Optional(o) => {
            match o {
                Some(x) => {
                    let p = (f.0, Some(scalar_text(x)));
                    lemma_pair_goes_to(schema, k, p);
                    lemma_scalar_roundtrip(x);
                    assert(ps =~= seq![p]);
                    lemma_consume_one(schema, st, p);
                    assert(consume_pair(schema, st, p) == Ok::<Seq<StateView>, QueryErrorView>(
                        st.update(k, filled_state(v)),
                    ));
                },
                None => {
                    assert(st =~= next);
                },
            }
        },
        FieldValueView::Repeated(xs) => {
            lemma_consume_repeated(schema, st, k, xs, xs.len() as int);
            assert(xs.take(xs.len() as int) =~= xs);
        },
        FieldValueView::Flag(b) => {
            let p = (f.0, None::<Seq<char>>);
            lemma_pair_goes_to(schema, k, p);
            assert(ps =~= seq![p]);
            lemma_consume_one(schema, st, p);
        },
        FieldValueView::OptionalFlag(o) => {
            match o {
                Some(b) => {
                    let p = (f.0, None::<Seq<char>>);
                    lemma_pair_goes_to(schema, k, p);
                    assert(ps =~= seq![p]);
                    lemma_consume_one(schema, st, p);
                },
                None => {
                    assert(st =~= next);
                },
            }
        },
        FieldValueView::Auth(AuthView::Password(pw)) => {
            let p = ("p"@, Some(pw));
            lemma_pair_goes_to(schema, k, p);
            assert(ps =~= seq![p]);
            lemma_consume_one(schema, st, p);
            assert(consume_pair(schema, st, p) == Ok::<Seq<StateView>, QueryErrorView>(
                st.update(k, filled_state(v)),
            ));
        },
        FieldValueView::Auth(AuthView::Token(t, s)) => {
            let p1 = ("t"@, Some(t));
            let p2 = ("s"@, Some(s));
            lemma_pair_goes_to(schema, k, p1);
            lemma_pair_goes_to(schema, k, p2);
            let s1 = st.update(k, StateView::Credentials(None, Some(t), None));
            assert(consume_pair(schema, st, p1) == Ok::<Seq<StateView>, QueryErrorView>(s1));
            assert(s1[k] == StateView::Credentials(None, Some(t), None));
            assert(consume_pair(schema, s1, p2) == Ok::<Seq<StateView>, QueryErrorView>(
                s1.update(k, StateView::Credentials(None, Some(t), Some(s))),
            ));
            assert(s1.update(k, StateView::Credentials(None, Some(t), Some(s))) =~= next);
            assert(ps =~= seq![p1] + seq![p2]);
            lemma_consume_pairs_concat(schema, st, seq![p1], seq![p2]);
            lemma_consume_one(schema, st, p1);
            lemma_consume_one(schema, s1, p2);
        },
    }
}

/// Reading the pairs of the first `k` fields fills those fields.
proof fn lemma_consume_fields(schema: Seq<FieldSpecView>, vs: Seq<FieldValueView>, k: int)
    requires
        schema_is_valid(schema),
        fields_fit(schema, vs),
        fields_are_query_safe(vs),
        0 <= k <= schema.len(),
    ensures
        consume_pairs(schema, initial_states(schema), fields_pairs(schema, vs.take(k))) == Ok::<
            Seq<StateView>,
            QueryErrorView,
        >(states_after(schema, vs, k)),
    decreases k,
{
    if k == 0 {
        assert(vs.take(0) =~= Seq::<FieldValueView>::empty());
        assert(states_after(schema, vs, 0) =~= initial_states(schema));
    } else {
        lemma_consume_fields(schema, vs, k - 1);
        let t = vs.take(k);
        assert(t.drop_last() =~= vs.take(k - 1));
        assert(t.last() == vs[k - 1]);
        lemma_consume_pairs_concat(
            schema,
            initial_states(schema),
            fields_pairs(schema, vs.take(k - 1)),
            field_pairs(schema[k - 1], vs[k - 1]),
        );
        lemma_consume_field(schema, vs, k - 1);
    }
}

/// Finishing filled fields gives their values.
proof fn lemma_finish_filled(schema: Seq<FieldSpecView>, vs: Seq<FieldValueView>, k: int)
    requires
        fields_fit(schema, vs),
        fields_are_query_safe(vs),
        0 <= k <= schema.len(),
    ensures
        finish_fields(schema, states_after(schema, vs, schema.len() as int).take(k)) == Ok::<
            Seq<FieldValueView>,
            QueryErrorView,
        >(vs.take(k)),
    decreases k,
{
    let all = states_after(schema, vs, schema.len() as int);
    if k == 0 {
        assert(all.take(0) =~= Seq::<StateView>::empty());
        assert(vs.take(0) =~= Seq::<FieldValueView>::empty());
    } else {
        lemma_finish_filled(schema, vs, k - 1);
        let t = all.take(k);
        assert(t.drop_last() =~= all.take(k - 1));
        assert(t[k - 1] == filled_state(vs[k - 1]));
        assert(value_fits(schema[k - 1].1, vs[k - 1]));
        assert(field_is_query_safe(vs[k - 1]));
        assert(finish_field(schema[k - 1].1, filled_state(vs[k - 1])) == Ok::<FieldValueView, Seq<char>>(
            vs[k - 1],
        ));
        assert(vs.take(k - 1).push(vs[k - 1]) =~= vs.take(k));
    }
}

/// Writing fields as a query string and reading them back gives the same
/// fields, for a valid schema and values that a query carries faithfully.
pub proof fn lemma_fields_roundtrip(schema: Seq<FieldSpecView>, vs: Seq<FieldValueView>)
    requires
        schema_is_valid(schema),
        fields_fit(schema, vs),
        fields_are_query_safe(vs),
    ensures
        fields_from(schema, query_pairs(query_text(fields_pairs(schema, vs)))) == Ok::<
            Seq<FieldValueView>,
            QueryErrorView,
        >(vs),
        built_query(fields_pairs(schema, vs)) == query_text(fields_pairs(schema, vs)),
{
    lemma_fields_pairs_safe(schema, vs);
    lemma_query_pairs_roundtrip(fields_pairs(schema, vs));
    lemma_consume_fields(schema, vs, schema.len() as int);
    assert(vs.take(schema.len() as int) =~= vs);
    lemma_finish_filled(schema, vs, schema.len() as int);
    let all = states_after(schema, vs, schema.len() as int);
    assert(all.take(schema.len() as int) =~= all);
}


/// What a field has gathered is of the shape its kind gives it.
pub open spec fn state_fits(k: FieldKind, st: StateView) -> bool {
    match k {
        FieldKind::Required(sk) | FieldKind::Optional(sk) => st matches StateView::Single(o) && (o matches Some(
            x,
        ) ==> scalar_kind(x) == sk),
        FieldKind::Repeated(sk) => st matches StateView::Many(xs) && forall|i: int|
            0 <= i < xs.len() ==> scalar_kind(#[trigger] xs[i]) == sk,
        FieldKind::Flag | FieldKind::OptionalFlag => st is Switch,
        FieldKind::Auth => st is Credentials,
    }
}

pub open spec fn states_fit(schema: Seq<FieldSpecView>, states: Seq<StateView>) -> bool {
    &&& states.len() == schema.len()
    &&& forall|i: int| 0 <= i < states.len() ==> #[trigger] state_fits(schema[i].1, states[i])
}

proof fn lemma_parse_scalar_kind(k: ScalarKind, s: Seq<char>)
    ensures
        parse_scalar(k, s) matches Ok(x) ==> scalar_kind(x) == k,
{
}

proof fn lemma_consume_value_fits(k: FieldKind, st: StateView, v: Option<Seq<char>>)
    requires
        state_fits(k, st),
    ensures
        consume_value(k, st, v) matches Ok(s2) ==> state_fits(k, s2),
{
    match k {
        FieldKind::Required(sk) | FieldKind::Optional(sk) => {
            if let Some(t) = v {
                lemma_parse_scalar_kind(sk, t);
            }
        },
        FieldKind::Repeated(sk) => {
            if let Some(t) = v {
                lemma_parse_scalar_kind(sk, t);
                match (parse_scalar(sk, t), st) {
                    (Ok(x), StateView::Many(xs)) => {
                        assert forall|i: int| 0 <= i < xs.push(x).len() implies scalar_kind(
                            #[trigger] xs.push(x)[i],
                        ) == sk by {
                            if i < xs.len() {
                                assert(xs.push(x)[i] == xs[i]);
                            }
                        }
                    },
                    _ => {},
                }
            }
        },
        _ => {},
    }
}

proof fn lemma_consume_pair_fits(schema: Seq<FieldSpecView>, states: Seq<StateView>, p: PairView)
    requires
        states_fit(schema, states),
    ensures
        consume_pair(schema, states, p) matches Ok(s2) ==> states_fit(schema, s2),
{
    lemma_first_accepting_bounds(schema, p);
    match first_accepting(schema, p) {
        None => {},
        Some(i) => {
            assert(state_fits(schema[i].1, states[i]));
            if !(schema[i].1 is Auth) {
                lemma_consume_value_fits(schema[i].1, states[i], p.1);
            }
            match consume_pair(schema, states, p) {
                Ok(s2) => {
                    assert forall|j: int| 0 <= j < s2.len() implies #[trigger] state_fits(schema[j].1, s2[j]) by {
                        if j != i {
                            assert(s2[j] == states[j]);
                        }
                    }
                },
                Err(_) => {},
            }
        },
    }
}

proof fn lemma_first_accepting_bounds(schema: Seq<FieldSpecView>, p: PairView)
    ensures
        first_accepting(schema, p) matches Some(i) ==> 0 <= i < schema.len(),
    decreases schema.len(),
{
    if schema.len() > 0 {
        lemma_first_accepting_bounds(schema.drop_first(), p);
    }
}

proof fn lemma_consume_pairs_fits(schema: Seq<FieldSpecView>, states: Seq<StateView>, ps: Seq<PairView>)
    requires
        states_fit(schema, states),
    ensures
        consume_pairs(schema, states, ps) matches Ok(s2) ==> states_fit(schema, s2),
    decreases ps.len(),
{
    if ps.len() > 0 {
        lemma_consume_pair_fits(schema, states, ps[0]);
        match consume_pair(schema, states, ps[0]) {
            Ok(s2) => lemma_consume_pairs_fits(schema, s2, ps.drop_first()),
            Err(_) => {},
        }
    }
}

proof fn lemma_finish_fields_fit(schema: Seq<FieldSpecView>, states: Seq<StateView>)
    requires
        states.len() <= schema.len(),
        forall|i: int| 0 <= i < states.len() ==> #[trigger] state_fits(schema[i].1, states[i]),
    ensures
        finish_fields(schema, states) matches Ok(vs) ==> vs.len() == states.len() && forall|i: int|
            0 <= i < vs.len() ==> #[trigger] value_fits(schema[i].1, vs[i]),
    decreases states.len(),
{
    if states.len() > 0 {
        let n = states.len() - 1;
        let init = states.drop_last();
        assert forall|i: int| 0 <= i < init.len() implies #[trigger] state_fits(schema[i].1, init[i]) by {
            assert(init[i] == states[i]);
        }
        lemma_finish_fields_fit(schema, init);
        assert(state_fits(schema[n].1, states[n]));
        match finish_fields(schema, init) {
            Ok(vs) => match finish_field(schema[n].1, states[n]) {
                Ok(v) => {
                    assert(value_fits(schema[n].1, v));
                    assert forall|i: int| 0 <= i < vs.push(v).len() implies #[trigger] value_fits(
                        schema[i].1,
                        vs.push(v)[i],
                    ) by {
                        if i < vs.len() {
                            assert(vs.push(v)[i] == vs[i]);
                        }
                    }
                },
                Err(_) => {},
            },
            Err(_) => {},
        }
    }
}

/// Whatever is read from a list of pairs has one value per field of the
/// schema, each of its field's shape.
pub proof fn lemma_fields_from_fit(schema: Seq<FieldSpecView>, ps: Seq<PairView>)
    ensures
        fields_from(schema, ps) matches Ok(vs) ==> fields_fit(schema, vs),
{
    let init = initial_states(schema);
    assert(states_fit(schema, init)) by {
        assert forall|i: int| 0 <= i < init.len() implies #[trigger] state_fits(schema[i].1, init[i]) by {
            assert(init[i] == initial_state(schema[i].1));
        }
    }
    lemma_consume_pairs_fits(schema, init, ps);
    match consume_pairs(schema, init, ps) {
        Ok(states) => lemma_finish_fields_fit(schema, states),
        Err(_) => {},
    }
}

/// A schema of a request body: valid, with no credentials field and no key
/// taken by the envelope of a request (`u`, `v`, `c`, `f`).
pub open spec fn is_body_schema(schema: Seq<FieldSpecView>) -> bool {
    &&& schema_is_valid(schema)
    &&& forall|i: int| 0 <= i < schema.len() ==> !(#[trigger] schema[i].1 is Auth) && schema[i].0 != "u"@
        && schema[i].0 != "v"@ && schema[i].0 != "c"@ && schema[i].0 != "f"@
}

/// A schema whose keys are plain, non-empty, distinct and not `p`, `t`, `s`,
/// `u`, `v`, `c` or `f`, without credentials, is the schema of a body.
pub proof fn lemma_plain_body_schema(schema: Seq<FieldSpecView>)
    requires
        forall|i: int| 0 <= i < schema.len() ==> !(#[trigger] schema[i].1 is Auth) && is_plain(schema[i].0)
            && schema[i].0.len() > 0,
        forall|i: int| 0 <= i < schema.len() ==> !is_reserved_key(#[trigger] schema[i].0),
        forall|i: int, j: int| 0 <= i < j < schema.len() ==> #[trigger] schema[i].0 != #[trigger] schema[j].0,
    ensures
        is_body_schema(schema),
{
    assert forall|i: int| 0 <= i < schema.len() && !(#[trigger] schema[i].1 is Auth) implies key_is_query_safe(
        schema[i].0,
    ) && schema[i].0.len() > 0 && !is_credential_key(schema[i].0) by {
        lemma_plain_safe(schema[i].0);
        assert(!is_reserved_key(schema[i].0));
    }
    assert forall|i: int, j: int|
        0 <= i < schema.len() && 0 <= j < schema.len() && i != j && !(#[trigger] schema[i].1 is Auth) && !(
        #[trigger] schema[j].1 is Auth) implies schema[i].0 != schema[j].0 by {
        if i < j {
            assert(schema[i].0 != schema[j].0);
        } else {
            assert(schema[j].0 != schema[i].0);
        }
    }
    assert forall|i: int| 0 <= i < schema.len() implies !(#[trigger] schema[i].1 is Auth) && schema[i].0 != "u"@
        && schema[i].0 != "v"@ && schema[i].0 != "c"@ && schema[i].0 != "f"@ by {
        assert(!is_reserved_key(schema[i].0));
    }
}

/// The keys a body may not use: the credentials' and the envelope's.
pub open spec fn is_reserved_key(k: Seq<char>) -> bool {
    k == "p"@ || k == "t"@ || k == "s"@ || k == "u"@ || k == "v"@ || k == "c"@ || k == "f"@
}


/// The reserved keys are one character long.
pub proof fn lemma_reserved_keys()
    ensures
        forall|k: Seq<char>| #[trigger] is_reserved_key(k) ==> k.len() == 1,
{
    reveal_strlit("p");
    reveal_strlit("t");
    reveal_strlit("s");
    reveal_strlit("u");
    reveal_strlit("v");
    reveal_strlit("c");
    reveal_strlit("f");
}

} // verus!
