//! Chat requests.
use vstd::prelude::*;

use crate::codec::{fields_view, schema_view, FieldKind, FieldSpec, FieldSpecView, FieldValue, FieldValueView, ScalarKind};
use crate::common::{Milliseconds, Version};
use crate::request::values::{opt_millis_field, opt_millis_from, opt_millis_value, text_field, text_from, text_value};
use crate::request::SubsonicRequest;
use crate::roundtrip::{is_plain, lemma_plain_body_schema, lemma_reserved_keys, value_fits};

use crate::codec::{fields_pairs, lemma_fields_pairs_take};
use crate::query::PairView;
use crate::request::values::{opt_millis_pairs, text_pairs};

verus! {

/// Returns the current visible (non-expired) chat messages.
///
/// For more information, see <http://www.subsonic.org/pages/api.jsp#getChatMessages>
#[derive(Debug, Clone, PartialEq)]
pub struct GetChatMessages {
    /// Only return messages newer than this time.
    pub since: Option<Milliseconds>,
}

impl SubsonicRequest for GetChatMessages {
    open spec fn spec_schema() -> Seq<FieldSpecView> {
        seq![
            ("since"@, FieldKind::Optional(ScalarKind::U64)),
        ]
    }

    open spec fn spec_fields(&self) -> Seq<FieldValueView> {
        seq![
            opt_millis_value(self.since),
        ]
    }

    open spec fn spec_schema_ok() -> bool {
        true
    }

    open spec fn spec_is_body() -> bool {
        true
    }

    open spec fn spec_path() -> Seq<char> {
        "/rest/getChatMessages"@
    }

    open spec fn spec_since() -> Version {
        Version { major: 1, minor: 2, patch: 0 }
    }

    fn path() -> (res: &'static str) {
        "/rest/getChatMessages"
    }

    fn since() -> (res: Version) {
        Version::new(1, 2, 0)
    }

    fn schema() -> (res: Vec<FieldSpec>) {
        let mut out: Vec<FieldSpec> = Vec::new();
        out.push(FieldSpec { key: "since", kind: FieldKind::Optional(ScalarKind::U64) });
        proof {
            assert(schema_view(out@) =~= Self::spec_schema());
        }
        out
    }

    fn fields(&self) -> (res: Vec<FieldValue>) {
        let mut out: Vec<FieldValue> = Vec::new();
        out.push(opt_millis_field(&self.since));
        proof {
            assert(fields_view(out@) =~= self.spec_fields());
        }
        out
    }

    fn from_fields(fields: Vec<FieldValue>) -> (res: Self) {
        let ghost all = fields_view(fields@);
        let mut fields = fields;
        proof {
            assert(value_fits(Self::spec_schema()[0].1, all[0]));
        }
        let v0 = fields.pop().unwrap();
        proof {
            assert(v0@ == all[0]);
        }
        let r = GetChatMessages {
            since: opt_millis_from(v0),
        };
        proof {
            assert(r.spec_fields() =~= all);
        }
        r
    }

    proof fn lemma_fields_fit(r: &Self) {
        assert(value_fits(Self::spec_schema()[0].1, r.spec_fields()[0]));
    }

    proof fn lemma_schema_valid() {
        reveal_strlit("since");
        assert(is_plain("since"@));
        lemma_reserved_keys();
        lemma_plain_body_schema(Self::spec_schema());
    }
}

/// Adds a message to the chat log.
///
/// For more information, see <http://www.subsonic.org/pages/api.jsp#addChatMessage>
#[derive(Debug, Clone, PartialEq)]
pub struct AddChatMessage {
    /// The chat message.
    pub message: String,
}

impl SubsonicRequest for AddChatMessage {
    open spec fn spec_schema() -> Seq<FieldSpecView> {
        seq![
            ("message"@, FieldKind::Required(ScalarKind::Text)),
        ]
    }

    open spec fn spec_fields(&self) -> Seq<FieldValueView> {
        seq![
            text_value(self.message),
        ]
    }

    open spec fn spec_schema_ok() -> bool {
        true
    }

    open spec fn spec_is_body() -> bool {
        true
    }

    open spec fn spec_path() -> Seq<char> {
        "/rest/addChatMessage"@
    }

    open spec fn spec_since() -> Version {
        Version { major: 1, minor: 2, patch: 0 }
    }

    fn path() -> (res: &'static str) {
        "/rest/addChatMessage"
    }

    fn since() -> (res: Version) {
        Version::new(1, 2, 0)
    }

    fn schema() -> (res: Vec<FieldSpec>) {
        let mut out: Vec<FieldSpec> = Vec::new();
        out.push(FieldSpec { key: "message", kind: FieldKind::Required(ScalarKind::Text) });
        proof {
            assert(schema_view(out@) =~= Self::spec_schema());
        }
        out
    }

    fn fields(&self) -> (res: Vec<FieldValue>) {
        let mut out: Vec<FieldValue> = Vec::new();
        out.push(text_field(&self.message));
        proof {
            assert(fields_view(out@) =~= self.spec_fields());
        }
        out
    }

    fn from_fields(fields: Vec<FieldValue>) -> (res: Self) {
        let ghost all = fields_view(fields@);
        let mut fields = fields;
        proof {
            assert(value_fits(Self::spec_schema()[0].1, all[0]));
        }
        let v0 = fields.pop().unwrap();
        proof {
            assert(v0@ == all[0]);
        }
        let r = AddChatMessage {
            message: text_from(v0),
        };
        proof {
            assert(r.spec_fields() =~= all);
        }
        r
    }

    proof fn lemma_fields_fit(r: &Self) {
        assert(value_fits(Self::spec_schema()[0].1, r.spec_fields()[0]));
    }

    proof fn lemma_schema_valid() {
        reveal_strlit("message");
        assert(is_plain("message"@));
        lemma_reserved_keys();
        lemma_plain_body_schema(Self::spec_schema());
    }
}

/// A [`GetChatMessages`] is written as the pairs of its set fields, in the order
/// they are declared, each under the camelCase name of its struct field:
/// `since`.
pub proof fn lemma_get_chat_messages_pairs(r: &GetChatMessages)
    ensures
        fields_pairs(GetChatMessages::spec_schema(), r.spec_fields()) == opt_millis_pairs("since"@, r.since),
{
    let s = GetChatMessages::spec_schema();
    let f = r.spec_fields();
    assert(fields_pairs(s, f.take(0)) =~= Seq::<PairView>::empty());
    assert(fields_pairs(s, f.take(1)) == fields_pairs(s, f.take(0)) + opt_millis_pairs("since"@, r.since)) by {
        lemma_fields_pairs_take(s, f, 0);
    }
    assert(fields_pairs(s, f.take(1)) =~= opt_millis_pairs("since"@, r.since));
    assert(f.take(1) =~= f);
}

/// A [`AddChatMessage`] is written as the pairs of its set fields, in the order
/// they are declared, each under the camelCase name of its struct field:
/// `message`.
pub proof fn lemma_add_chat_message_pairs(r: &AddChatMessage)
    ensures
        fields_pairs(AddChatMessage::spec_schema(), r.spec_fields()) == text_pairs("message"@, r.message),
{
    let s = AddChatMessage::spec_schema();
    let f = r.spec_fields();
    assert(fields_pairs(s, f.take(0)) =~= Seq::<PairView>::empty());
    assert(fields_pairs(s, f.take(1)) == fields_pairs(s, f.take(0)) + text_pairs("message"@, r.message)) by {
        lemma_fields_pairs_take(s, f, 0);
    }
    assert(fields_pairs(s, f.take(1)) =~= text_pairs("message"@, r.message));
    assert(f.take(1) =~= f);
}

} // verus!
