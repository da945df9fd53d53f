//! Conversions between the fields of request types and field values.
use vstd::prelude::*;

use crate::codec::{field_pairs, FieldKind, FieldValue, FieldValueView, Scalar, ScalarKind, ScalarView, scalars_view};
use crate::common::{audio_bitrate_kbps, version_text, video_bitrate_text, video_size_text, AudioBitrate, Milliseconds, Seconds, Version, VideoBitrate, VideoSize};
use crate::query::PairView;
use crate::request::jukebox::{jukebox_action_text, JukeboxAction};
use crate::request::lists::{list_type_text, ListType};
use crate::request::Authentication;
use crate::roundtrip::value_fits;
use crate::text::decimal_text;

verus! {

pub open spec fn text_value(s: String) -> FieldValueView {
    FieldValueView::Required(ScalarView::Text(s@))
}

pub open spec fn opt_text_value(o: Option<String>) -> FieldValueView {
    FieldValueView::Optional(
        match o {
            Some(s) => Some(ScalarView::Text(s@)),
            None => None,
        },
    )
}

pub open spec fn opt_u32_value(o: Option<u32>) -> FieldValueView {
    FieldValueView::Optional(
        match o {
            Some(n) => Some(ScalarView::U32(n)),
            None => None,
        },
    )
}

pub open spec fn millis_value(m: Milliseconds) -> FieldValueView {
    FieldValueView::Required(ScalarView::U64(m.0))
}

pub open spec fn opt_millis_value(o: Option<Milliseconds>) -> FieldValueView {
    FieldValueView::Optional(
        match o {
            Some(m) => Some(ScalarView::U64(m.0)),
            None => None,
        },
    )
}

pub open spec fn opt_secs_value(o: Option<Seconds>) -> FieldValueView {
    FieldValueView::Optional(
        match o {
            Some(m) => Some(ScalarView::U64(m.0)),
            None => None,
        },
    )
}

pub open spec fn opt_flag_value(o: Option<bool>) -> FieldValueView {
    FieldValueView::OptionalFlag(o)
}

pub open spec fn texts_value(v: Seq<String>) -> FieldValueView {
    FieldValueView::Repeated(v.map_values(|s: String| ScalarView::Text(s@)))
}

pub open spec fn u32s_value(v: Seq<u32>) -> FieldValueView {
    FieldValueView::Repeated(v.map_values(|n: u32| ScalarView::U32(n)))
}

pub open spec fn list_type_value(l: ListType) -> FieldValueView {
    FieldValueView::Required(ScalarView::List(l))
}

pub open spec fn opt_size_value(o: Option<VideoSize>) -> FieldValueView {
    FieldValueView::Optional(
        match o {
            Some(v) => Some(ScalarView::Size(v)),
            None => None,
        },
    )
}

pub open spec fn opt_bitrate_value(o: Option<VideoBitrate>) -> FieldValueView {
    FieldValueView::Optional(
        match o {
            Some(v) => Some(ScalarView::Bitrate(v)),
            None => None,
        },
    )
}

pub open spec fn opt_audio_value(o: Option<AudioBitrate>) -> FieldValueView {
    FieldValueView::Optional(
        match o {
            Some(v) => Some(ScalarView::Audio(v)),
            None => None,
        },
    )
}

pub open spec fn version_value(v: Version) -> FieldValueView {
    FieldValueView::Required(ScalarView::Version(v))
}

pub open spec fn auth_value(a: Authentication) -> FieldValueView {
    FieldValueView::Auth(a@)
}

/// The pair of a key with a value.
pub open spec fn valued_pair(key: Seq<char>, v: Seq<char>) -> Seq<PairView> {
    seq![(key, Some(v))]
}

/// How a text field is written under a key: the key with the text.
pub open spec fn text_pairs(key: Seq<char>, s: String) -> Seq<PairView> {
    valued_pair(key, s@)
}

/// How an optional text field is written: the key with the text, if set.
pub open spec fn opt_text_pairs(key: Seq<char>, o: Option<String>) -> Seq<PairView> {
    match o {
        Some(s) => valued_pair(key, s@),
        None => Seq::<PairView>::empty(),
    }
}

/// How an optional number is written: the key with its decimal text, if set.
pub open spec fn opt_u32_pairs(key: Seq<char>, o: Option<u32>) -> Seq<PairView> {
    match o {
        Some(n) => valued_pair(key, decimal_text(n as nat)),
        None => Seq::<PairView>::empty(),
    }
}

/// How a time in milliseconds is written: the key with the decimal number.
pub open spec fn millis_pairs(key: Seq<char>, m: Milliseconds) -> Seq<PairView> {
    valued_pair(key, decimal_text(m.0 as nat))
}

/// How an optional time in milliseconds is written.
pub open spec fn opt_millis_pairs(key: Seq<char>, o: Option<Milliseconds>) -> Seq<PairView> {
    match o {
        Some(m) => valued_pair(key, decimal_text(m.0 as nat)),
        None => Seq::<PairView>::empty(),
    }
}

/// How an optional time in seconds is written.
pub open spec fn opt_secs_pairs(key: Seq<char>, o: Option<Seconds>) -> Seq<PairView> {
    match o {
        Some(m) => valued_pair(key, decimal_text(m.0 as nat)),
        None => Seq::<PairView>::empty(),
    }
}

/// How an optional switch is written: the bare key when it is on, nothing
/// when it is off or unset.
pub open spec fn opt_flag_pairs(key: Seq<char>, o: Option<bool>) -> Seq<PairView> {
    if o == Some(true) {
        seq![(key, None::<Seq<char>>)]
    } else {
        Seq::<PairView>::empty()
    }
}

/// How a list of texts is written: the key once with each text, in order.
pub open spec fn texts_pairs(key: Seq<char>, v: Seq<String>) -> Seq<PairView> {
    v.map_values(|s: String| (key, Some(s@)))
}

/// How a list of numbers is written: the key once with each number, in order.
pub open spec fn u32s_pairs(key: Seq<char>, v: Seq<u32>) -> Seq<PairView> {
    v.map_values(|n: u32| (key, Some(decimal_text(n as nat))))
}

/// How a list type is written: the key with the list type's name.
pub open spec fn list_type_pairs(key: Seq<char>, l: ListType) -> Seq<PairView> {
    valued_pair(key, list_type_text(l))
}

/// How a jukebox action is written: the key with the action's name.
pub open spec fn jukebox_action_pairs(key: Seq<char>, a: JukeboxAction) -> Seq<PairView> {
    valued_pair(key, jukebox_action_text(a))
}

/// How an optional video size is written: the key with `WIDTHxHEIGHT`.
pub open spec fn opt_size_pairs(key: Seq<char>, o: Option<VideoSize>) -> Seq<PairView> {
    match o {
        Some(v) => valued_pair(key, video_size_text(v)),
        None => Seq::<PairView>::empty(),
    }
}

/// How an optional video bitrate is written.
pub open spec fn opt_bitrate_pairs(key: Seq<char>, o: Option<VideoBitrate>) -> Seq<PairView> {
    match o {
        Some(v) => valued_pair(key, video_bitrate_text(v)),
        None => Seq::<PairView>::empty(),
    }
}

/// How an optional audio bitrate is written: the key with its number of
/// kbit/s.
pub open spec fn opt_audio_pairs(key: Seq<char>, o: Option<AudioBitrate>) -> Seq<PairView> {
    match o {
        Some(a) => valued_pair(key, decimal_text(audio_bitrate_kbps(a) as nat)),
        None => Seq::<PairView>::empty(),
    }
}

/// How a version is written: the key with `MAJOR.MINOR.PATCH`.
pub open spec fn version_pairs(key: Seq<char>, v: Version) -> Seq<PairView> {
    valued_pair(key, version_text(v))
}

/// How credentials are written: a password under `p`, or a token under `t`
/// and its salt under `s`.
pub open spec fn auth_pairs(a: Authentication) -> Seq<PairView> {
    match a {
        Authentication::Password(p) => seq![("p"@, Some(p@))],
        Authentication::Token { token, salt } => seq![("t"@, Some(token@)), ("s"@, Some(salt@))],
    }
}

/// A list of texts under a key is written as `texts_pairs` says.
pub proof fn lemma_texts_pairs(key: Seq<char>, k: FieldKind, v: Seq<String>)
    ensures
        field_pairs((key, k), texts_value(v)) == texts_pairs(key, v),
{
    assert(field_pairs((key, k), texts_value(v)) =~= texts_pairs(key, v));
}

/// A list of numbers under a key is written as `u32s_pairs` says.
pub proof fn lemma_u32s_pairs(key: Seq<char>, k: FieldKind, v: Seq<u32>)
    ensures
        field_pairs((key, k), u32s_value(v)) == u32s_pairs(key, v),
{
    assert(field_pairs((key, k), u32s_value(v)) =~= u32s_pairs(key, v));
}

pub(crate) fn text_field(s: &String) -> (res: FieldValue)
    ensures
        res@ == text_value(*s),
{
    FieldValue::Required(Scalar::Text(s.clone()))
}

pub(crate) fn text_from(v: FieldValue) -> (res: String)
    requires
        value_fits(FieldKind::Required(ScalarKind::Text), v@),
    ensures
        text_value(res) == v@,
{
    match v {
        FieldValue::Required(Scalar::Text(s)) => s,
        _ => {
            proof {
                assert(false);
            }
            String::new()
        },
    }
}

pub(crate) fn opt_text_field(o: &Option<String>) -> (res: FieldValue)
    ensures
        res@ == opt_text_value(*o),
{
    match o {
        Some(s) => FieldValue::Optional(Some(Scalar::Text(s.clone()))),
        None => FieldValue::Optional(None),
    }
}

pub(crate) fn opt_text_from(v: FieldValue) -> (res: Option<String>)
    requires
        value_fits(FieldKind::Optional(ScalarKind::Text), v@),
    ensures
        opt_text_value(res) == v@,
{
    match v {
        FieldValue::Optional(Some(Scalar::Text(s))) => Some(s),
        FieldValue::Optional(None) => None,
        _ => {
            proof {
                assert(false);
            }
            None
        },
    }
}

pub(crate) fn opt_u32_field(o: &Option<u32>) -> (res: FieldValue)
    ensures
        res@ == opt_u32_value(*o),
{
    match o {
        Some(n) => FieldValue::Optional(Some(Scalar::U32(*n))),
        None => FieldValue::Optional(None),
    }
}

pub(crate) fn opt_u32_from(v: FieldValue) -> (res: Option<u32>)
    requires
        value_fits(FieldKind::Optional(ScalarKind::U32), v@),
    ensures
        opt_u32_value(res) == v@,
{
    match v {
        FieldValue::Optional(Some(Scalar::U32(n))) => Some(n),
        FieldValue::Optional(None) => None,
        _ => {
            proof {
                assert(false);
            }
            None
        },
    }
}

pub(crate) fn millis_field(m: &Milliseconds) -> (res: FieldValue)
    ensures
        res@ == millis_value(*m),
{
    FieldValue::Required(Scalar::U64(m.0))
}

pub(crate) fn millis_from(v: FieldValue) -> (res: Milliseconds)
    requires
        value_fits(FieldKind::Required(ScalarKind::U64), v@),
    ensures
        millis_value(res) == v@,
{
    match v {
        FieldValue::Required(Scalar::U64(n)) => Milliseconds(n),
        _ => {
            proof {
                assert(false);
            }
            Milliseconds(0)
        },
    }
}

pub(crate) fn opt_millis_field(o: &Option<Milliseconds>) -> (res: FieldValue)
    ensures
        res@ == opt_millis_value(*o),
{
    match o {
        Some(m) => FieldValue::Optional(Some(Scalar::U64(m.0))),
        None => FieldValue::Optional(None),
    }
}

pub(crate) fn opt_millis_from(v: FieldValue) -> (res: Option<Milliseconds>)
    requires
        value_fits(FieldKind::Optional(ScalarKind::U64), v@),
    ensures
        opt_millis_value(res) == v@,
{
    match v {
        FieldValue::Optional(Some(Scalar::U64(n))) => Some(Milliseconds(n)),
        FieldValue::Optional(None) => None,
        _ => {
            proof {
                assert(false);
            }
            None
        },
    }
}

pub(crate) fn opt_secs_field(o: &Option<Seconds>) -> (res: FieldValue)
    ensures
        res@ == opt_secs_value(*o),
{
    match o {
        Some(m) => FieldValue::Optional(Some(Scalar::U64(m.0))),
        None => FieldValue::Optional(None),
    }
}

pub(crate) fn opt_secs_from(v: FieldValue) -> (res: Option<Seconds>)
    requires
        value_fits(FieldKind::Optional(ScalarKind::U64), v@),
    ensures
        opt_secs_value(res) == v@,
{
    match v {
        FieldValue::Optional(Some(Scalar::U64(n))) => Some(Seconds(n)),
        FieldValue::Optional(None) => None,
        _ => {
            proof {
                assert(false);
            }
            None
        },
    }
}

pub(crate) fn opt_flag_field(o: &Option<bool>) -> (res: FieldValue)
    ensures
        res@ == opt_flag_value(*o),
{
    FieldValue::OptionalFlag(*o)
}

pub(crate) fn opt_flag_from(v: FieldValue) -> (res: Option<bool>)
    requires
        value_fits(FieldKind::OptionalFlag, v@),
    ensures
        opt_flag_value(res) == v@,
{
    match v {
        FieldValue::OptionalFlag(o) => o,
        _ => {
            proof {
                assert(false);
            }
            None
        },
    }
}

pub(crate) fn texts_field(v: &Vec<String>) -> (res: FieldValue)
    ensures
        res@ == texts_value(v@),
{
    let mut out: Vec<Scalar> = Vec::new();
    let mut i: usize = 0;
    while i < v.len()
        invariant
            0 <= i <= v@.len(),
            scalars_view(out@) == v@.take(i as int).map_values(|s: String| ScalarView::Text(s@)),
        decreases v@.len() - i,
    {
        let ghost before = scalars_view(out@);
        out.push(Scalar::Text(v[i].clone()));
        proof {
            assert(scalars_view(out@) =~= before.push(ScalarView::Text(v@[i as int]@)));
            assert(v@.take(i + 1).map_values(|s: String| ScalarView::Text(s@)) =~= v@.take(i as int).map_values(
                |s: String| ScalarView::Text(s@),
            ).push(ScalarView::Text(v@[i as int]@)));
        }
        i = i + 1;
    }
    proof {
        assert(v@.take(v@.len() as int) =~= v@);
    }
    FieldValue::Repeated(out)
}

pub(crate) fn texts_from(v: FieldValue) -> (res: Vec<String>)
    requires
        value_fits(FieldKind::Repeated(ScalarKind::Text), v@),
    ensures
        texts_value(res@) == v@,
{
    match v {
        FieldValue::Repeated(xs) => {
            let ghost xv = scalars_view(xs@);
            let mut out: Vec<String> = Vec::new();
            let mut i: usize = 0;
            while i < xs.len()
                invariant
                    0 <= i <= xs@.len(),
                    xv == scalars_view(xs@),
                    forall|j: int| 0 <= j < xv.len() ==> #[trigger] xv[j] is Text,
                    out@.map_values(|s: String| ScalarView::Text(s@)) == xv.take(i as int),
                decreases xs@.len() - i,
            {
                let s = match &xs[i] {
                    Scalar::Text(s) => s.clone(),
                    _ => {
                        proof {
                            assert(xv[i as int] is Text);
                        }
                        String::new()
                    },
                };
                let ghost before = out@;
                out.push(s);
                proof {
                    assert(xv[i as int] == ScalarView::Text(s@));
                    assert(out@.map_values(|s: String| ScalarView::Text(s@)) =~= before.map_values(
                        |s: String| ScalarView::Text(s@),
                    ).push(ScalarView::Text(s@)));
                    assert(xv.take(i + 1) =~= xv.take(i as int).push(xv[i as int]));
                }
                i = i + 1;
            }
            proof {
                assert(xv.take(xv.len() as int) =~= xv);
            }
            out
        },
        _ => {
            proof {
                assert(false);
            }
            Vec::new()
        },
    }
}

pub(crate) fn u32s_field(v: &Vec<u32>) -> (res: FieldValue)
    ensures
        res@ == u32s_value(v@),
{
    let mut out: Vec<Scalar> = Vec::new();
    let mut i: usize = 0;
    while i < v.len()
        invariant
            0 <= i <= v@.len(),
            scalars_view(out@) == v@.take(i as int).map_values(|n: u32| ScalarView::U32(n)),
        decreases v@.len() - i,
    {
        let ghost before = scalars_view(out@);
        out.push(Scalar::U32(v[i]));
        proof {
            assert(scalars_view(out@) =~= before.push(ScalarView::U32(v@[i as int])));
            assert(v@.take(i + 1).map_values(|n: u32| ScalarView::U32(n)) =~= v@.take(i as int).map_values(
                |n: u32| ScalarView::U32(n),
            ).push(ScalarView::U32(v@[i as int])));
        }
        i = i + 1;
    }
    proof {
        assert(v@.take(v@.len() as int) =~= v@);
    }
    FieldValue::Repeated(out)
}

pub(crate) fn u32s_from(v: FieldValue) -> (res: Vec<u32>)
    requires
        value_fits(FieldKind::Repeated(ScalarKind::U32), v@),
    ensures
        u32s_value(res@) == v@,
{
    match v {
        FieldValue::Repeated(xs) => {
            let ghost xv = scalars_view(xs@);
            let mut out: Vec<u32> = Vec::new();
            let mut i: usize = 0;
            while i < xs.len()
                invariant
                    0 <= i <= xs@.len(),
                    xv == scalars_view(xs@),
                    forall|j: int| 0 <= j < xv.len() ==> #[trigger] xv[j] is U32,
                    out@.map_values(|n: u32| ScalarView::U32(n)) == xv.take(i as int),
                decreases xs@.len() - i,
            {
                let n = match &xs[i] {
                    Scalar::U32(n) => *n,
                    _ => {
                        proof {
                            assert(xv[i as int] is U32);
                        }
                        0
                    },
                };
                let ghost before = out@;
                out.push(n);
                proof {
                    assert(xv[i as int] == ScalarView::U32(n));
                    assert(out@.map_values(|n: u32| ScalarView::U32(n)) =~= before.map_values(
                        |n: u32| ScalarView::U32(n),
                    ).push(ScalarView::U32(n)));
                    assert(xv.take(i + 1) =~= xv.take(i as int).push(xv[i as int]));
                }
                i = i + 1;
            }
            proof {
                assert(xv.take(xv.len() as int) =~= xv);
            }
            out
        },
        _ => {
            proof {
                assert(false);
            }
            Vec::new()
        },
    }
}

pub(crate) fn list_type_field(l: &ListType) -> (res: FieldValue)
    ensures
        res@ == list_type_value(*l),
{
    FieldValue::Required(Scalar::List(*l))
}

pub(crate) fn list_type_from(v: FieldValue) -> (res: ListType)
    requires
        value_fits(FieldKind::Required(ScalarKind::List), v@),
    ensures
        list_type_value(res) == v@,
{
    match v {
        FieldValue::Required(Scalar::List(l)) => l,
        _ => {
            proof {
                assert(false);
            }
            ListType::Random
        },
    }
}

pub(crate) fn opt_size_field(o: &Option<VideoSize>) -> (res: FieldValue)
    ensures
        res@ == opt_size_value(*o),
{
    match o {
        Some(v) => FieldValue::Optional(Some(Scalar::Size(*v))),
        None => FieldValue::Optional(None),
    }
}

pub(crate) fn opt_size_from(v: FieldValue) -> (res: Option<VideoSize>)
    requires
        value_fits(FieldKind::Optional(ScalarKind::Size), v@),
    ensures
        opt_size_value(res) == v@,
{
    match v {
        FieldValue::Optional(Some(Scalar::Size(x))) => Some(x),
        FieldValue::Optional(None) => None,
        _ => {
            proof {
                assert(false);
            }
            None
        },
    }
}

pub(crate) fn opt_bitrate_field(o: &Option<VideoBitrate>) -> (res: FieldValue)
    ensures
        res@ == opt_bitrate_value(*o),
{
    match o {
        Some(v) => FieldValue::Optional(Some(Scalar::Bitrate(*v))),
        None => FieldValue::Optional(None),
    }
}

pub(crate) fn opt_bitrate_from(v: FieldValue) -> (res: Option<VideoBitrate>)
    requires
        value_fits(FieldKind::Optional(ScalarKind::Bitrate), v@),
    ensures
        opt_bitrate_value(res) == v@,
{
    match v {
        FieldValue::Optional(Some(Scalar::Bitrate(x))) => Some(x),
        FieldValue::Optional(None) => None,
        _ => {
            proof {
                assert(false);
            }
            None
        },
    }
}

pub(crate) fn opt_audio_field(o: &Option<AudioBitrate>) -> (res: FieldValue)
    ensures
        res@ == opt_audio_value(*o),
{
    match o {
        Some(v) => FieldValue::Optional(Some(Scalar::Audio(*v))),
        None => FieldValue::Optional(None),
    }
}

pub(crate) fn opt_audio_from(v: FieldValue) -> (res: Option<AudioBitrate>)
    requires
        value_fits(FieldKind::Optional(ScalarKind::Audio), v@),
    ensures
        opt_audio_value(res) == v@,
{
    match v {
        FieldValue::Optional(Some(Scalar::Audio(x))) => Some(x),
        FieldValue::Optional(None) => None,
        _ => {
            proof {
                assert(false);
            }
            None
        },
    }
}

pub(crate) fn version_field(v: &Version) -> (res: FieldValue)
    ensures
        res@ == version_value(*v),
{
    FieldValue::Required(Scalar::Version(*v))
}

pub(crate) fn version_from(v: FieldValue) -> (res: Version)
    requires
        value_fits(FieldKind::Required(ScalarKind::Version), v@),
    ensures
        version_value(res) == v@,
{
    match v {
        FieldValue::Required(Scalar::Version(x)) => x,
        _ => {
            proof {
                assert(false);
            }
            Version { major: 0, minor: 0, patch: 0 }
        },
    }
}

pub(crate) fn auth_field(a: &Authentication) -> (res: FieldValue)
    ensures
        res@ == auth_value(*a),
{
    match a {
        Authentication::Password(p) => FieldValue::Auth(Authentication::Password(p.clone())),
        Authentication::Token { token, salt } => FieldValue::Auth(
            Authentication::Token { token: token.clone(), salt: salt.clone() },
        ),
    }
}

pub(crate) fn auth_from(v: FieldValue) -> (res: Authentication)
    requires
        value_fits(FieldKind::Auth, v@),
    ensures
        auth_value(res) == v@,
{
    match v {
        FieldValue::Auth(a) => a,
        _ => {
            proof {
                assert(false);
            }
            Authentication::Password(String::new())
        },
    }
}


pub open spec fn jukebox_action_value(a: JukeboxAction) -> FieldValueView {
    FieldValueView::Required(ScalarView::Jukebox(a))
}

pub(crate) fn jukebox_action_field(a: &JukeboxAction) -> (res: FieldValue)
    ensures
        res@ == jukebox_action_value(*a),
{
    FieldValue::Required(Scalar::Jukebox(*a))
}

pub(crate) fn jukebox_action_from(v: FieldValue) -> (res: JukeboxAction)
    requires
        value_fits(FieldKind::Required(ScalarKind::Jukebox), v@),
    ensures
        jukebox_action_value(res) == v@,
{
    match v {
        FieldValue::Required(Scalar::Jukebox(a)) => a,
        _ => {
            proof {
                assert(false);
            }
            JukeboxAction::Get
        },
    }
}

} // verus!
