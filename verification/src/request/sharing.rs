//! Sharing requests.
use vstd::prelude::*;

use crate::codec::{fields_view, schema_view, FieldKind, FieldSpec, FieldSpecView, FieldValue, FieldValueView, ScalarKind};
use crate::common::{Milliseconds, Version};
use crate::request::values::{opt_millis_field, opt_millis_from, opt_millis_value, opt_text_field, opt_text_from, opt_text_value, text_field, text_from, text_value, texts_field, texts_from, texts_value};
use crate::request::SubsonicRequest;
use crate::roundtrip::{is_plain, lemma_plain_body_schema, lemma_reserved_keys, value_fits};

use crate::codec::{fields_pairs, lemma_fields_pairs_take};
use crate::query::PairView;
use crate::request::values::{lemma_texts_pairs, opt_millis_pairs, opt_text_pairs, text_pairs, texts_pairs};

verus! {

/// Returns information about shared media this user is allowed to manage. Takes no extra parameters.
///
/// For more information, see <http://www.subsonic.org/pages/api.jsp#getShares>
#[derive(Debug, Clone, PartialEq)]
pub struct GetShares;

impl SubsonicRequest for GetShares {
    open spec fn spec_schema() -> Seq<FieldSpecView> {
        Seq::<FieldSpecView>::empty()
    }

    open spec fn spec_fields(&self) -> Seq<FieldValueView> {
        Seq::<FieldValueView>::empty()
    }

    open spec fn spec_schema_ok() -> bool {
        true
    }

    open spec fn spec_is_body() -> bool {
        true
    }

    open spec fn spec_path() -> Seq<char> {
        "/rest/getShares"@
    }

    open spec fn spec_since() -> Version {
        Version { major: 1, minor: 6, patch: 0 }
    }

    fn path() -> (res: &'static str) {
        "/rest/getShares"
    }

    fn since() -> (res: Version) {
        Version::new(1, 6, 0)
    }

    fn schema() -> (res: Vec<FieldSpec>) {
        let mut out: Vec<FieldSpec> = Vec::new();
        proof {
            assert(schema_view(out@) =~= Self::spec_schema());
        }
        out
    }

    fn fields(&self) -> (res: Vec<FieldValue>) {
        let mut out: Vec<FieldValue> = Vec::new();
        proof {
            assert(fields_view(out@) =~= self.spec_fields());
        }
        out
    }

    fn from_fields(fields: Vec<FieldValue>) -> (res: Self) {
        proof {
            assert(fields_view(fields@) =~= Seq::<FieldValueView>::empty());
        }
        GetShares
    }

    proof fn lemma_fields_fit(r: &Self) {
    }

    proof fn lemma_schema_valid() {
        lemma_plain_body_schema(Self::spec_schema());
    }
}

/// Creates a public URL that can be used by anyone to stream music or video from the Subsonic server.
/// The URL is short and suitable for posting on Facebook, Twitter etc.
/// Note: The user must be authorized to share (see Settings > Users > User is allowed to share files with anyone).
///
/// For more information, see <http://www.subsonic.org/pages/api.jsp#createShare>
#[derive(Debug, Clone, PartialEq)]
pub struct CreateShare {
    /// ID of a song, album or video to share. Use one id parameter for each entry to share
    pub id: Vec<String>,
    /// A user-defined description that will be displayed to people visiting the shared media.
    pub description: Option<String>,
    /// The time at which the share expires.
    pub expires: Option<Milliseconds>,
}

impl SubsonicRequest for CreateShare {
    open spec fn spec_schema() -> Seq<FieldSpecView> {
        seq![
            ("id"@, FieldKind::Repeated(ScalarKind::Text)),
            ("description"@, FieldKind::Optional(ScalarKind::Text)),
            ("expires"@, FieldKind::Optional(ScalarKind::U64)),
        ]
    }

    open spec fn spec_fields(&self) -> Seq<FieldValueView> {
        seq![
            texts_value(self.id@),
            opt_text_value(self.description),
            opt_millis_value(self.expires),
        ]
    }

    open spec fn spec_schema_ok() -> bool {
        true
    }

    open spec fn spec_is_body() -> bool {
        true
    }

    open spec fn spec_path() -> Seq<char> {
        "/rest/createShare"@
    }

    open spec fn spec_since() -> Version {
        Version { major: 1, minor: 6, patch: 0 }
    }

    fn path() -> (res: &'static str) {
        "/rest/createShare"
    }

    fn since() -> (res: Version) {
        Version::new(1, 6, 0)
    }

    fn schema() -> (res: Vec<FieldSpec>) {
        let mut out: Vec<FieldSpec> = Vec::new();
        out.push(FieldSpec { key: "id", kind: FieldKind::Repeated(ScalarKind::Text) });
        out.push(FieldSpec { key: "description", kind: FieldKind::Optional(ScalarKind::Text) });
        out.push(FieldSpec { key: "expires", kind: FieldKind::Optional(ScalarKind::U64) });
        proof {
            assert(schema_view(out@) =~= Self::spec_schema());
        }
        out
    }

    fn fields(&self) -> (res: Vec<FieldValue>) {
        let mut out: Vec<FieldValue> = Vec::new();
        out.push(texts_field(&self.id));
        out.push(opt_text_field(&self.description));
        out.push(opt_millis_field(&self.expires));
        proof {
            assert(fields_view(out@) =~= self.spec_fields());
        }
        out
    }

    fn from_fields(fields: Vec<FieldValue>) -> (res: Self) {
        let ghost all = fields_view(fields@);
        let mut fields = fields;
        proof {
            assert(value_fits(Self::spec_schema()[0].1, all[0]));
            assert(value_fits(Self::spec_schema()[1].1, all[1]));
            assert(value_fits(Self::spec_schema()[2].1, all[2]));
        }
        let v2 = fields.pop().unwrap();
        let v1 = fields.pop().unwrap();
        let v0 = fields.pop().unwrap();
        proof {
            assert(v0@ == all[0]);
            assert(v1@ == all[1]);
            assert(v2@ == all[2]);
        }
        let r = CreateShare {
            id: texts_from(v0),
            description: opt_text_from(v1),
            expires: opt_millis_from(v2),
        };
        proof {
            assert(r.spec_fields() =~= all);
        }
        r
    }

    proof fn lemma_fields_fit(r: &Self) {
        assert(value_fits(Self::spec_schema()[0].1, r.spec_fields()[0]));
        assert(value_fits(Self::spec_schema()[1].1, r.spec_fields()[1]));
        assert(value_fits(Self::spec_schema()[2].1, r.spec_fields()[2]));
    }

    proof fn lemma_schema_valid() {
        reveal_strlit("id");
        reveal_strlit("description");
        reveal_strlit("expires");
        assert(is_plain("id"@));
        assert(is_plain("description"@));
        assert(is_plain("expires"@));
        lemma_reserved_keys();
        lemma_plain_body_schema(Self::spec_schema());
    }
}

/// Updates the description and/or expiration date for an existing share.
///
/// For more information, see <http://www.subsonic.org/pages/api.jsp#updateShare>
#[derive(Debug, Clone, PartialEq)]
pub struct UpdateShare {
    /// ID of the share to update.
    pub id: String,
    /// A user-defined description that will be displayed to people visiting the shared media.
    pub description: Option<String>,
    /// The time at which the share expires. Set to zero to remove the expiration.
    pub expires: Option<Milliseconds>,
}

impl SubsonicRequest for UpdateShare {
    open spec fn spec_schema() -> Seq<FieldSpecView> {
        seq![
            ("id"@, FieldKind::Required(ScalarKind::Text)),
            ("description"@, FieldKind::Optional(ScalarKind::Text)),
            ("expires"@, FieldKind::Optional(ScalarKind::U64)),
        ]
    }

    open spec fn spec_fields(&self) -> Seq<FieldValueView> {
        seq![
            text_value(self.id),
            opt_text_value(self.description),
            opt_millis_value(self.expires),
        ]
    }

    open spec fn spec_schema_ok() -> bool {
        true
    }

    open spec fn spec_is_body() -> bool {
        true
    }

    open spec fn spec_path() -> Seq<char> {
        "/rest/updateShare"@
    }

    open spec fn spec_since() -> Version {
        Version { major: 1, minor: 6, patch: 0 }
    }

    fn path() -> (res: &'static str) {
        "/rest/updateShare"
    }

    fn since() -> (res: Version) {
        Version::new(1, 6, 0)
    }

    fn schema() -> (res: Vec<FieldSpec>) {
        let mut out: Vec<FieldSpec> = Vec::new();
        out.push(FieldSpec { key: "id", kind: FieldKind::Required(ScalarKind::Text) });
        out.push(FieldSpec { key: "description", kind: FieldKind::Optional(ScalarKind::Text) });
        out.push(FieldSpec { key: "expires", kind: FieldKind::Optional(ScalarKind::U64) });
        proof {
            assert(schema_view(out@) =~= Self::spec_schema());
        }
        out
    }

    fn fields(&self) -> (res: Vec<FieldValue>) {
        let mut out: Vec<FieldValue> = Vec::new();
        out.push(text_field(&self.id));
        out.push(opt_text_field(&self.description));
        out.push(opt_millis_field(&self.expires));
        proof {
            assert(fields_view(out@) =~= self.spec_fields());
        }
        out
    }

    fn from_fields(fields: Vec<FieldValue>) -> (res: Self) {
        let ghost all = fields_view(fields@);
        let mut fields = fields;
        proof {
            assert(value_fits(Self::spec_schema()[0].1, all[0]));
            assert(value_fits(Self::spec_schema()[1].1, all[1]));
            assert(value_fits(Self::spec_schema()[2].1, all[2]));
        }
        let v2 = fields.pop().unwrap();
        let v1 = fields.pop().unwrap();
        let v0 = fields.pop().unwrap();
        proof {
            assert(v0@ == all[0]);
            assert(v1@ == all[1]);
            assert(v2@ == all[2]);
        }
        let r = UpdateShare {
            id: text_from(v0),
            description: opt_text_from(v1),
            expires: opt_millis_from(v2),
        };
        proof {
            assert(r.spec_fields() =~= all);
        }
        r
    }

    proof fn lemma_fields_fit(r: &Self) {
        assert(value_fits(Self::spec_schema()[0].1, r.spec_fields()[0]));
        assert(value_fits(Self::spec_schema()[1].1, r.spec_fields()[1]));
        assert(value_fits(Self::spec_schema()[2].1, r.spec_fields()[2]));
    }

    proof fn lemma_schema_valid() {
        reveal_strlit("id");
        reveal_strlit("description");
        reveal_strlit("expires");
        assert(is_plain("id"@));
        assert(is_plain("description"@));
        assert(is_plain("expires"@));
        lemma_reserved_keys();
        lemma_plain_body_schema(Self::spec_schema());
    }
}

/// Deletes an existing share.
///
/// For more information, see <http://www.subsonic.org/pages/api.jsp#deleteShare>
#[derive(Debug, Clone, PartialEq)]
pub struct DeleteShare {
    /// ID of the share to delete.
    pub id: String,
}

impl SubsonicRequest for DeleteShare {
    open spec fn spec_schema() -> Seq<FieldSpecView> {
        seq![
            ("id"@, FieldKind::Required(ScalarKind::Text)),
        ]
    }

    open spec fn spec_fields(&self) -> Seq<FieldValueView> {
        seq![
            text_value(self.id),
        ]
    }

    open spec fn spec_schema_ok() -> bool {
        true
    }

    open spec fn spec_is_body() -> bool {
        true
    }

    open spec fn spec_path() -> Seq<char> {
        "/rest/deleteShare"@
    }

    open spec fn spec_since() -> Version {
        Version { major: 1, minor: 6, patch: 0 }
    }

    fn path() -> (res: &'static str) {
        "/rest/deleteShare"
    }

    fn since() -> (res: Version) {
        Version::new(1, 6, 0)
    }

    fn schema() -> (res: Vec<FieldSpec>) {
        let mut out: Vec<FieldSpec> = Vec::new();
        out.push(FieldSpec { key: "id", kind: FieldKind::Required(ScalarKind::Text) });
        proof {
            assert(schema_view(out@) =~= Self::spec_schema());
        }
        out
    }

    fn fields(&self) -> (res: Vec<FieldValue>) {
        let mut out: Vec<FieldValue> = Vec::new();
        out.push(text_field(&self.id));
        proof {
            assert(fields_view(out@) =~= self.spec_fields());
        }
        out
    }

    fn from_fields(fields: Vec<FieldValue>) -> (res: Self) {
        let ghost all = fields_view(fields@);
        let mut fields = fields;
        proof {
            assert(value_fits(Self::spec_schema()[0].1, all[0]));
        }
        let v0 = fields.pop().unwrap();
        proof {
            assert(v0@ == all[0]);
        }
        let r = DeleteShare {
            id: text_from(v0),
        };
        proof {
            assert(r.spec_fields() =~= all);
        }
        r
    }

    proof fn lemma_fields_fit(r: &Self) {
        assert(value_fits(Self::spec_schema()[0].1, r.spec_fields()[0]));
    }

    proof fn lemma_schema_valid() {
        reveal_strlit("id");
        assert(is_plain("id"@));
        lemma_reserved_keys();
        lemma_plain_body_schema(Self::spec_schema());
    }
}

/// A [`CreateShare`] is written as the pairs of its set fields, in the order
/// they are declared, each under the camelCase name of its struct field:
/// `id`, `description`, `expires`.
pub proof fn lemma_create_share_pairs(r: &CreateShare)
    ensures
        fields_pairs(CreateShare::spec_schema(), r.spec_fields()) == texts_pairs("id"@, r.id@)
            + opt_text_pairs("description"@, r.description)
            + opt_millis_pairs("expires"@, r.expires),
{
    let s = CreateShare::spec_schema();
    let f = r.spec_fields();
    assert(fields_pairs(s, f.take(0)) =~= Seq::<PairView>::empty());
    assert(fields_pairs(s, f.take(1)) == fields_pairs(s, f.take(0)) + texts_pairs("id"@, r.id@)) by {
        lemma_fields_pairs_take(s, f, 0);
        lemma_texts_pairs("id"@, FieldKind::Repeated(ScalarKind::Text), r.id@);
    }
    assert(fields_pairs(s, f.take(2)) == fields_pairs(s, f.take(1)) + opt_text_pairs("description"@, r.description)) by {
        lemma_fields_pairs_take(s, f, 1);
    }
    assert(fields_pairs(s, f.take(3)) == fields_pairs(s, f.take(2)) + opt_millis_pairs("expires"@, r.expires)) by {
        lemma_fields_pairs_take(s, f, 2);
    }
    assert(fields_pairs(s, f.take(1)) =~= texts_pairs("id"@, r.id@));
    assert(f.take(3) =~= f);
}

/// A [`UpdateShare`] is written as the pairs of its set fields, in the order
/// they are declared, each under the camelCase name of its struct field:
/// `id`, `description`, `expires`.
pub proof fn lemma_update_share_pairs(r: &UpdateShare)
    ensures
        fields_pairs(UpdateShare::spec_schema(), r.spec_fields()) == text_pairs("id"@, r.id)
            + opt_text_pairs("description"@, r.description)
            + opt_millis_pairs("expires"@, r.expires),
{
    let s = UpdateShare::spec_schema();
    let f = r.spec_fields();
    assert(fields_pairs(s, f.take(0)) =~= Seq::<PairView>::empty());
    assert(fields_pairs(s, f.take(1)) == fields_pairs(s, f.take(0)) + text_pairs("id"@, r.id)) by {
        lemma_fields_pairs_take(s, f, 0);
    }
    assert(fields_pairs(s, f.take(2)) == fields_pairs(s, f.take(1)) + opt_text_pairs("description"@, r.description)) by {
        lemma_fields_pairs_take(s, f, 1);
    }
    assert(fields_pairs(s, f.take(3)) == fields_pairs(s, f.take(2)) + opt_millis_pairs("expires"@, r.expires)) by {
        lemma_fields_pairs_take(s, f, 2);
    }
    assert(fields_pairs(s, f.take(1)) =~= text_pairs("id"@, r.id));
    assert(f.take(3) =~= f);
}

/// A [`DeleteShare`] is written as the pairs of its set fields, in the order
/// they are declared, each under the camelCase name of its struct field:
/// `id`.
pub proof fn lemma_delete_share_pairs(r: &DeleteShare)
    ensures
        fields_pairs(DeleteShare::spec_schema(), r.spec_fields()) == text_pairs("id"@, r.id),
{
    let s = DeleteShare::spec_schema();
    let f = r.spec_fields();
    assert(fields_pairs(s, f.take(0)) =~= Seq::<PairView>::empty());
    assert(fields_pairs(s, f.take(1)) == fields_pairs(s, f.take(0)) + text_pairs("id"@, r.id)) by {
        lemma_fields_pairs_take(s, f, 0);
    }
    assert(fields_pairs(s, f.take(1)) =~= text_pairs("id"@, r.id));
    assert(f.take(1) =~= f);
}

} // verus!
