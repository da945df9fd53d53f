//! Jukebox requests.
use vstd::prelude::*;

use crate::text::{str_eq, to_owned_string};
use crate::codec::{
    fields_view, schema_view, FieldKind, FieldSpec, FieldSpecView, FieldValue, FieldValueView, ScalarKind,
};
use crate::common::Version;
use crate::request::values::{jukebox_action_field, jukebox_action_from, jukebox_action_value, opt_text_field, opt_text_from, opt_text_value, opt_u32_field, opt_u32_from, opt_u32_value, texts_field, texts_from, texts_value};
use crate::request::SubsonicRequest;
use crate::roundtrip::{is_plain, lemma_plain_body_schema, lemma_reserved_keys, value_fits};

use crate::codec::{fields_pairs, lemma_fields_pairs_take};
use crate::query::PairView;
use crate::request::values::{jukebox_action_pairs, lemma_texts_pairs, opt_text_pairs, opt_u32_pairs, texts_pairs};

verus! {

/// What a `jukeboxControl` request asks the jukebox to do.
#[derive(Debug, Clone, Copy, PartialEq, Eq, Hash, Structural)]
pub enum JukeboxAction {
    Get,
    Status,
    SetPlaylist,
    Start,
    Stop,
    Skip,
    Add,
    Clear,
    Remove,
    Shuffle,
    SetGain,
}

/// The error of reading a jukebox action.
#[derive(Debug, Clone, Copy, PartialEq, Eq, Structural)]
pub struct InvalidJukeboxAction;

impl InvalidJukeboxAction {
    pub fn to_string(&self) -> (res: String)
        ensures
            res@ == "Invalid jukebox action"@,
    {
        to_owned_string("Invalid jukebox action")
    }
}

/// The name of a jukebox action in a query.
pub open spec fn jukebox_action_text(t: JukeboxAction) -> Seq<char> {
    match t {
        JukeboxAction::Get => "get"@,
        JukeboxAction::Status => "status"@,
        JukeboxAction::SetPlaylist => "set"@,
        JukeboxAction::Start => "start"@,
        JukeboxAction::Stop => "stop"@,
        JukeboxAction::Skip => "skip"@,
        JukeboxAction::Add => "add"@,
        JukeboxAction::Clear => "clear"@,
        JukeboxAction::Remove => "remove"@,
        JukeboxAction::Shuffle => "shuffle"@,
        JukeboxAction::SetGain => "setGain"@,
    }
}

/// The jukebox action that a name stands for.
pub open spec fn jukebox_action_parse(s: Seq<char>) -> Option<JukeboxAction> {
    if s == "get"@ {
        Some(JukeboxAction::Get)
    } else if s == "status"@ {
        Some(JukeboxAction::Status)
    } else if s == "set"@ {
        Some(JukeboxAction::SetPlaylist)
    } else if s == "start"@ {
        Some(JukeboxAction::Start)
    } else if s == "stop"@ {
        Some(JukeboxAction::Stop)
    } else if s == "skip"@ {
        Some(JukeboxAction::Skip)
    } else if s == "add"@ {
        Some(JukeboxAction::Add)
    } else if s == "clear"@ {
        Some(JukeboxAction::Clear)
    } else if s == "remove"@ {
        Some(JukeboxAction::Remove)
    } else if s == "shuffle"@ {
        Some(JukeboxAction::Shuffle)
    } else if s == "setGain"@ {
        Some(JukeboxAction::SetGain)
    } else {
        None
    }
}

impl JukeboxAction {
    pub fn as_str(&self) -> (res: &'static str)
        ensures
            res@ == jukebox_action_text(*self),
    {
        match self {
            JukeboxAction::Get => "get",
            JukeboxAction::Status => "status",
            JukeboxAction::SetPlaylist => "set",
            JukeboxAction::Start => "start",
            JukeboxAction::Stop => "stop",
            JukeboxAction::Skip => "skip",
            JukeboxAction::Add => "add",
            JukeboxAction::Clear => "clear",
            JukeboxAction::Remove => "remove",
            JukeboxAction::Shuffle => "shuffle",
            JukeboxAction::SetGain => "setGain",
        }
    }

    pub fn to_string(&self) -> (res: String)
        ensures
            res@ == jukebox_action_text(*self),
    {
        to_owned_string(self.as_str())
    }

    /// Reads the name of a jukebox action.
    pub fn parse(s: &str) -> (res: Result<Self, InvalidJukeboxAction>)
        ensures
            match res {
                Ok(t) => jukebox_action_parse(s@) == Some(t),
                Err(_) => jukebox_action_parse(s@) is None,
            },
    {
        if str_eq(s, "get") {
            Ok(JukeboxAction::Get)
        } else if str_eq(s, "status") {
            Ok(JukeboxAction::Status)
        } else if str_eq(s, "set") {
            Ok(JukeboxAction::SetPlaylist)
        } else if str_eq(s, "start") {
            Ok(JukeboxAction::Start)
        } else if str_eq(s, "stop") {
            Ok(JukeboxAction::Stop)
        } else if str_eq(s, "skip") {
            Ok(JukeboxAction::Skip)
        } else if str_eq(s, "add") {
            Ok(JukeboxAction::Add)
        } else if str_eq(s, "clear") {
            Ok(JukeboxAction::Clear)
        } else if str_eq(s, "remove") {
            Ok(JukeboxAction::Remove)
        } else if str_eq(s, "shuffle") {
            Ok(JukeboxAction::Shuffle)
        } else if str_eq(s, "setGain") {
            Ok(JukeboxAction::SetGain)
        } else {
            Err(InvalidJukeboxAction)
        }
    }
}

impl std::str::FromStr for JukeboxAction {
    type Err = InvalidJukeboxAction;

    fn from_str(s: &str) -> Result<Self, Self::Err> {
        Self::parse(s)
    }
}

/// Each jukebox action is written under its name in the API: `get`,
/// `status`, `set` (for setting the playlist), `start`, `stop`, `skip`, `add`,
/// `clear`, `remove`, `shuffle` and `setGain`.
pub proof fn lemma_jukebox_action_names()
    ensures
        jukebox_action_text(JukeboxAction::Get) == "get"@,
        jukebox_action_text(JukeboxAction::Status) == "status"@,
        jukebox_action_text(JukeboxAction::SetPlaylist) == "set"@,
        jukebox_action_text(JukeboxAction::Start) == "start"@,
        jukebox_action_text(JukeboxAction::Stop) == "stop"@,
        jukebox_action_text(JukeboxAction::Skip) == "skip"@,
        jukebox_action_text(JukeboxAction::Add) == "add"@,
        jukebox_action_text(JukeboxAction::Clear) == "clear"@,
        jukebox_action_text(JukeboxAction::Remove) == "remove"@,
        jukebox_action_text(JukeboxAction::Shuffle) == "shuffle"@,
        jukebox_action_text(JukeboxAction::SetGain) == "setGain"@,
{
}

/// Reading the name of a jukebox action gives it back.
pub proof fn lemma_jukebox_action_roundtrip(t: JukeboxAction)
    ensures
        jukebox_action_parse(jukebox_action_text(t)) == Some(t),
{
    reveal_strlit("get");
    reveal_strlit("status");
    reveal_strlit("set");
    reveal_strlit("start");
    reveal_strlit("stop");
    reveal_strlit("skip");
    reveal_strlit("add");
    reveal_strlit("clear");
    reveal_strlit("remove");
    reveal_strlit("shuffle");
    reveal_strlit("setGain");
    match t {
        JukeboxAction::Get => {
        },
        JukeboxAction::Status => {
            assert("status"@.len() != "get"@.len());
        },
        JukeboxAction::SetPlaylist => {
            assert("set"@[0] != "get"@[0]);
            assert("set"@.len() != "status"@.len());
        },
        JukeboxAction::Start => {
            assert("start"@.len() != "get"@.len());
            assert("start"@.len() != "status"@.len());
            assert("start"@.len() != "set"@.len());
        },
        JukeboxAction::Stop => {
            assert("stop"@.len() != "get"@.len());
            assert("stop"@.len() != "status"@.len());
            assert("stop"@.len() != "set"@.len());
            assert("stop"@.len() != "start"@.len());
        },
        JukeboxAction::Skip => {
            assert("skip"@.len() != "get"@.len());
            assert("skip"@.len() != "status"@.len());
            assert("skip"@.len() != "set"@.len());
            assert("skip"@.len() != "start"@.len());
            assert("skip"@[1] != "stop"@[1]);
        },
        JukeboxAction::Add => {
            assert("add"@[0] != "get"@[0]);
            assert("add"@.len() != "status"@.len());
            assert("add"@[0] != "set"@[0]);
            assert("add"@.len() != "start"@.len());
            assert("add"@.len() != "stop"@.len());
            assert("add"@.len() != "skip"@.len());
        },
        JukeboxAction::Clear => {
            assert("clear"@.len() != "get"@.len());
            assert("clear"@.len() != "status"@.len());
            assert("clear"@.len() != "set"@.len());
            assert("clear"@[0] != "start"@[0]);
            assert("clear"@.len() != "stop"@.len());
            assert("clear"@.len() != "skip"@.len());
            assert("clear"@.len() != "add"@.len());
        },
        JukeboxAction::Remove => {
            assert("remove"@.len() != "get"@.len());
            assert("remove"@[0] != "status"@[0]);
            assert("remove"@.len() != "set"@.len());
            assert("remove"@.len() != "start"@.len());
            assert("remove"@.len() != "stop"@.len());
            assert("remove"@.len() != "skip"@.len());
            assert("remove"@.len() != "add"@.len());
            assert("remove"@.len() != "clear"@.len());
        },
        JukeboxAction::Shuffle => {
            assert("shuffle"@.len() != "get"@.len());
            assert("shuffle"@.len() != "status"@.len());
            assert("shuffle"@.len() != "set"@.len());
            assert("shuffle"@.len() != "start"@.len());
            assert("shuffle"@.len() != "stop"@.len());
            assert("shuffle"@.len() != "skip"@.len());
            assert("shuffle"@.len() != "add"@.len());
            assert("shuffle"@.len() != "clear"@.len());
            assert("shuffle"@.len() != "remove"@.len());
        },
        JukeboxAction::SetGain => {
            assert("setGain"@.len() != "get"@.len());
            assert("setGain"@.len() != "status"@.len());
            assert("setGain"@.len() != "set"@.len());
            assert("setGain"@.len() != "start"@.len());
            assert("setGain"@.len() != "stop"@.len());
            assert("setGain"@.len() != "skip"@.len());
            assert("setGain"@.len() != "add"@.len());
            assert("setGain"@.len() != "clear"@.len());
            assert("setGain"@.len() != "remove"@.len());
            assert("setGain"@[1] != "shuffle"@[1]);
        },
    }
}


/// Controls the jukebox, i.e., playback directly on the server's audio hardware.
/// Note: The user must be authorized to control the jukebox (see Settings > Users > User is allowed to play files in jukebox mode).
///
/// For more information, see <http://www.subsonic.org/pages/api.jsp#jukeboxControl>
#[derive(Debug, Clone, PartialEq)]
pub struct JukeboxControl {
    /// The operation to perform.
    pub action: JukeboxAction,
    /// Used by [`JukeboxAction::Skip`] and [`JukeboxAction::Remove`].
    /// Zero-based index of the song to skip to or remove.
    pub index: Option<u32>,
    /// Since 1.7.0
    /// Used by [`JukeboxAction::Skip`].
    /// Start playing this many seconds into the track.
    pub offset: Option<u32>,
    /// Used by [`JukeboxAction::Add`] and [`JukeboxAction::SetPlaylist`].
    /// ID of song to add to the jukebox playlist.
    /// [`JukeboxAction::SetPlaylist`] is similar to a [`JukeboxAction::Clear`] followed by a [`JukeboxAction::Add`], but will not change the currently playing track.)
    pub id: Vec<String>,
    /// Used by [`JukeboxAction::SetGain`] to control the playback volume.
    /// A float value between 0.0 and 1.0, as written in the query; reading it
    /// as a number is left to the caller.
    pub gain: Option<String>,
}

impl SubsonicRequest for JukeboxControl {
    open spec fn spec_schema() -> Seq<FieldSpecView> {
        seq![
            ("action"@, FieldKind::Required(ScalarKind::Jukebox)),
            ("index"@, FieldKind::Optional(ScalarKind::U32)),
            ("offset"@, FieldKind::Optional(ScalarKind::U32)),
            ("id"@, FieldKind::Repeated(ScalarKind::Text)),
            ("gain"@, FieldKind::Optional(ScalarKind::Text)),
        ]
    }

    open spec fn spec_fields(&self) -> Seq<FieldValueView> {
        seq![
            jukebox_action_value(self.action),
            opt_u32_value(self.index),
            opt_u32_value(self.offset),
            texts_value(self.id@),
            opt_text_value(self.gain),
        ]
    }

    open spec fn spec_schema_ok() -> bool {
        true
    }

    open spec fn spec_is_body() -> bool {
        true
    }

    open spec fn spec_path() -> Seq<char> {
        "/rest/jukeboxControl"@
    }

    open spec fn spec_since() -> Version {
        Version { major: 1, minor: 2, patch: 0 }
    }

    fn path() -> (res: &'static str) {
        "/rest/jukeboxControl"
    }

    fn since() -> (res: Version) {
        Version::new(1, 2, 0)
    }

    fn schema() -> (res: Vec<FieldSpec>) {
        let mut out: Vec<FieldSpec> = Vec::new();
        out.push(FieldSpec { key: "action", kind: FieldKind::Required(ScalarKind::Jukebox) });
        out.push(FieldSpec { key: "index", kind: FieldKind::Optional(ScalarKind::U32) });
        out.push(FieldSpec { key: "offset", kind: FieldKind::Optional(ScalarKind::U32) });
        out.push(FieldSpec { key: "id", kind: FieldKind::Repeated(ScalarKind::Text) });
        out.push(FieldSpec { key: "gain", kind: FieldKind::Optional(ScalarKind::Text) });
        proof {
            assert(schema_view(out@) =~= Self::spec_schema());
        }
        out
    }

    fn fields(&self) -> (res: Vec<FieldValue>) {
        let mut out: Vec<FieldValue> = Vec::new();
        out.push(jukebox_action_field(&self.action));
        out.push(opt_u32_field(&self.index));
        out.push(opt_u32_field(&self.offset));
        out.push(texts_field(&self.id));
        out.push(opt_text_field(&self.gain));
        proof {
            assert(fields_view(out@) =~= self.spec_fields());
        }
        out
    }

    fn from_fields(fields: Vec<FieldValue>) -> (res: Self) {
        let ghost all = fields_view(fields@);
        let mut fields = fields;
        proof {
            assert(value_fits(Self::spec_schema()[0].1, all[0]));
            assert(value_fits(Self::spec_schema()[1].1, all[1]));
            assert(value_fits(Self::spec_schema()[2].1, all[2]));
            assert(value_fits(Self::spec_schema()[3].1, all[3]));
            assert(value_fits(Self::spec_schema()[4].1, all[4]));
        }
        let v4 = fields.pop().unwrap();
        let v3 = fields.pop().unwrap();
        let v2 = fields.pop().unwrap();
        let v1 = fields.pop().unwrap();
        let v0 = fields.pop().unwrap();
        proof {
            assert(v0@ == all[0]);
            assert(v1@ == all[1]);
            assert(v2@ == all[2]);
            assert(v3@ == all[3]);
            assert(v4@ == all[4]);
        }
        let r = JukeboxControl {
            action: jukebox_action_from(v0),
            index: opt_u32_from(v1),
            offset: opt_u32_from(v2),
            id: texts_from(v3),
            gain: opt_text_from(v4),
        };
        proof {
            assert(r.spec_fields() =~= all);
        }
        r
    }

    proof fn lemma_fields_fit(r: &Self) {
        assert(value_fits(Self::spec_schema()[0].1, r.spec_fields()[0]));
        assert(value_fits(Self::spec_schema()[1].1, r.spec_fields()[1]));
        assert(value_fits(Self::spec_schema()[2].1, r.spec_fields()[2]));
        assert(value_fits(Self::spec_schema()[3].1, r.spec_fields()[3]));
        assert(value_fits(Self::spec_schema()[4].1, r.spec_fields()[4]));
    }

    proof fn lemma_schema_valid() {
        reveal_strlit("action");
        reveal_strlit("index");
        reveal_strlit("offset");
        reveal_strlit("id");
        reveal_strlit("gain");
        assert(is_plain("action"@));
        assert(is_plain("index"@));
        assert(is_plain("offset"@));
        assert(is_plain("id"@));
        assert(is_plain("gain"@));
        lemma_reserved_keys();
        assert("action"@[0] != "offset"@[0]);
        lemma_plain_body_schema(Self::spec_schema());
    }
}

/// A [`JukeboxControl`] is written as the pairs of its set fields, in the order
/// they are declared, each under the camelCase name of its struct field:
/// `action`, `index`, `offset`, `id`, `gain`.
pub proof fn lemma_jukebox_control_pairs(r: &JukeboxControl)
    ensures
        fields_pairs(JukeboxControl::spec_schema(), r.spec_fields()) == jukebox_action_pairs("action"@, r.action)
            + opt_u32_pairs("index"@, r.index)
            + opt_u32_pairs("offset"@, r.offset)
            + texts_pairs("id"@, r.id@)
            + opt_text_pairs("gain"@, r.gain),
{
    let s = JukeboxControl::spec_schema();
    let f = r.spec_fields();
    assert(fields_pairs(s, f.take(0)) =~= Seq::<PairView>::empty());
    assert(fields_pairs(s, f.take(1)) == fields_pairs(s, f.take(0)) + jukebox_action_pairs("action"@, r.action)) by {
        lemma_fields_pairs_take(s, f, 0);
    }
    assert(fields_pairs(s, f.take(2)) == fields_pairs(s, f.take(1)) + opt_u32_pairs("index"@, r.index)) by {
        lemma_fields_pairs_take(s, f, 1);
    }
    assert(fields_pairs(s, f.take(3)) == fields_pairs(s, f.take(2)) + opt_u32_pairs("offset"@, r.offset)) by {
        lemma_fields_pairs_take(s, f, 2);
    }
    assert(fields_pairs(s, f.take(4)) == fields_pairs(s, f.take(3)) + texts_pairs("id"@, r.id@)) by {
        lemma_fields_pairs_take(s, f, 3);
        lemma_texts_pairs("id"@, FieldKind::Repeated(ScalarKind::Text), r.id@);
    }
    assert(fields_pairs(s, f.take(5)) == fields_pairs(s, f.take(4)) + opt_text_pairs("gain"@, r.gain)) by {
        lemma_fields_pairs_take(s, f, 4);
    }
    assert(fields_pairs(s, f.take(1)) =~= jukebox_action_pairs("action"@, r.action));
    assert(f.take(5) =~= f);
}

} // verus!
