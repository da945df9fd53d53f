//! Bookmark requests.
use vstd::prelude::*;

use crate::codec::{fields_view, schema_view, FieldKind, FieldSpec, FieldSpecView, FieldValue, FieldValueView, ScalarKind};
use crate::common::{Milliseconds, Version};
use crate::request::values::{millis_field, millis_from, millis_value, opt_millis_field, opt_millis_from, opt_millis_value, opt_text_field, opt_text_from, opt_text_value, text_field, text_from, text_value, texts_field, texts_from, texts_value};
use crate::request::SubsonicRequest;
use crate::roundtrip::{is_plain, lemma_plain_body_schema, lemma_reserved_keys, value_fits};

use crate::codec::{fields_pairs, lemma_fields_pairs_take};
use crate::query::PairView;
use crate::request::values::{lemma_texts_pairs, millis_pairs, opt_millis_pairs, opt_text_pairs, text_pairs, texts_pairs};

verus! {

/// Returns all bookmarks for this user. A bookmark is a position within a certain media file.
///
/// For more information, see <http://www.subsonic.org/pages/api.jsp#getBookmarks>
#[derive(Debug, Clone, PartialEq)]
pub struct GetBookmarks;

impl SubsonicRequest for GetBookmarks {
    open spec fn spec_schema() -> Seq<FieldSpecView> {
        Seq::<FieldSpecView>::empty()
    }

    open spec fn spec_fields(&self) -> Seq<FieldValueView> {
        Seq::<FieldValueView>::empty()
    }

    open spec fn spec_schema_ok() -> bool {
        true
    }

    open spec fn spec_is_body() -> bool {
        true
    }

    open spec fn spec_path() -> Seq<char> {
        "/rest/getBookmarks"@
    }

    open spec fn spec_since() -> Version {
        Version { major: 1, minor: 9, patch: 0 }
    }

    fn path() -> (res: &'static str) {
        "/rest/getBookmarks"
    }

    fn since() -> (res: Version) {
        Version::new(1, 9, 0)
    }

    fn schema() -> (res: Vec<FieldSpec>) {
        let mut out: Vec<FieldSpec> = Vec::new();
        proof {
            assert(schema_view(out@) =~= Self::spec_schema());
        }
        out
    }

    fn fields(&self) -> (res: Vec<FieldValue>) {
        let mut out: Vec<FieldValue> = Vec::new();
        proof {
            assert(fields_view(out@) =~= self.spec_fields());
        }
        out
    }

    fn from_fields(fields: Vec<FieldValue>) -> (res: Self) {
        proof {
            assert(fields_view(fields@) =~= Seq::<FieldValueView>::empty());
        }
        GetBookmarks
    }

    proof fn lemma_fields_fit(r: &Self) {
    }

    proof fn lemma_schema_valid() {
        lemma_plain_body_schema(Self::spec_schema());
    }
}

/// Creates or updates a bookmark (a position within a media file). Bookmarks are personal and not visible to other users.
///
/// For more information, see <http://www.subsonic.org/pages/api.jsp#createBookmark>
#[derive(Debug, Clone, PartialEq)]
pub struct CreateBookmark {
    /// ID of the media file to bookmark.
    /// If a bookmark already exists for this file it will be overwritten.
    pub id: String,
    /// The position within the media file.
    pub position: Milliseconds,
    /// A user-defined comment.
    pub comment: Option<String>,
}

impl SubsonicRequest for CreateBookmark {
    open spec fn spec_schema() -> Seq<FieldSpecView> {
        seq![
            ("id"@, FieldKind::Required(ScalarKind::Text)),
            ("position"@, FieldKind::Required(ScalarKind::U64)),
            ("comment"@, FieldKind::Optional(ScalarKind::Text)),
        ]
    }

    open spec fn spec_fields(&self) -> Seq<FieldValueView> {
        seq![
            text_value(self.id),
            millis_value(self.position),
            opt_text_value(self.comment),
        ]
    }

    open spec fn spec_schema_ok() -> bool {
        true
    }

    open spec fn spec_is_body() -> bool {
        true
    }

    open spec fn spec_path() -> Seq<char> {
        "/rest/createBookmark"@
    }

    open spec fn spec_since() -> Version {
        Version { major: 1, minor: 9, patch: 0 }
    }

    fn path() -> (res: &'static str) {
        "/rest/createBookmark"
    }

    fn since() -> (res: Version) {
        Version::new(1, 9, 0)
    }

    fn schema() -> (res: Vec<FieldSpec>) {
        let mut out: Vec<FieldSpec> = Vec::new();
        out.push(FieldSpec { key: "id", kind: FieldKind::Required(ScalarKind::Text) });
        out.push(FieldSpec { key: "position", kind: FieldKind::Required(ScalarKind::U64) });
        out.push(FieldSpec { key: "comment", kind: FieldKind::Optional(ScalarKind::Text) });
        proof {
            assert(schema_view(out@) =~= Self::spec_schema());
        }
        out
    }

    fn fields(&self) -> (res: Vec<FieldValue>) {
        let mut out: Vec<FieldValue> = Vec::new();
        out.push(text_field(&self.id));
        out.push(millis_field(&self.position));
        out.push(opt_text_field(&self.comment));
        proof {
            assert(fields_view(out@) =~= self.spec_fields());
        }
        out
    }

    fn from_fields(fields: Vec<FieldValue>) -> (res: Self) {
        let ghost all = fields_view(fields@);
        let mut fields = fields;
        proof {
            assert(value_fits(Self::spec_schema()[0].1, all[0]));
            assert(value_fits(Self::spec_schema()[1].1, all[1]));
            assert(value_fits(Self::spec_schema()[2].1, all[2]));
        }
        let v2 = fields.pop().unwrap();
        let v1 = fields.pop().unwrap();
        let v0 = fields.pop().unwrap();
        proof {
            assert(v0@ == all[0]);
            assert(v1@ == all[1]);
            assert(v2@ == all[2]);
        }
        let r = CreateBookmark {
            id: text_from(v0),
            position: millis_from(v1),
            comment: opt_text_from(v2),
        };
        proof {
            assert(r.spec_fields() =~= all);
        }
        r
    }

    proof fn lemma_fields_fit(r: &Self) {
        assert(value_fits(Self::spec_schema()[0].1, r.spec_fields()[0]));
        assert(value_fits(Self::spec_schema()[1].1, r.spec_fields()[1]));
        assert(value_fits(Self::spec_schema()[2].1, r.spec_fields()[2]));
    }

    proof fn lemma_schema_valid() {
        reveal_strlit("id");
        reveal_strlit("position");
        reveal_strlit("comment");
        assert(is_plain("id"@));
        assert(is_plain("position"@));
        assert(is_plain("comment"@));
        lemma_reserved_keys();
        lemma_plain_body_schema(Self::spec_schema());
    }
}

/// Deletes the bookmark for a given file.
///
/// For more information, see <http://www.subsonic.org/pages/api.jsp#deleteBookmark>
#[derive(Debug, Clone, PartialEq)]
pub struct DeleteBookmark {
    /// ID of the media file for which to delete the bookmark.
    /// Other users' bookmarks are not affected.
    pub id: String,
}

impl SubsonicRequest for DeleteBookmark {
    open spec fn spec_schema() -> Seq<FieldSpecView> {
        seq![
            ("id"@, FieldKind::Required(ScalarKind::Text)),
        ]
    }

    open spec fn spec_fields(&self) -> Seq<FieldValueView> {
        seq![
            text_value(self.id),
        ]
    }

    open spec fn spec_schema_ok() -> bool {
        true
    }

    open spec fn spec_is_body() -> bool {
        true
    }

    open spec fn spec_path() -> Seq<char> {
        "/rest/deleteBookmark"@
    }

    open spec fn spec_since() -> Version {
        Version { major: 1, minor: 9, patch: 0 }
    }

    fn path() -> (res: &'static str) {
        "/rest/deleteBookmark"
    }

    fn since() -> (res: Version) {
        Version::new(1, 9, 0)
    }

    fn schema() -> (res: Vec<FieldSpec>) {
        let mut out: Vec<FieldSpec> = Vec::new();
        out.push(FieldSpec { key: "id", kind: FieldKind::Required(ScalarKind::Text) });
        proof {
            assert(schema_view(out@) =~= Self::spec_schema());
        }
        out
    }

    fn fields(&self) -> (res: Vec<FieldValue>) {
        let mut out: Vec<FieldValue> = Vec::new();
        out.push(text_field(&self.id));
        proof {
            assert(fields_view(out@) =~= self.spec_fields());
        }
        out
    }

    fn from_fields(fields: Vec<FieldValue>) -> (res: Self) {
        let ghost all = fields_view(fields@);
        let mut fields = fields;
        proof {
            assert(value_fits(Self::spec_schema()[0].1, all[0]));
        }
        let v0 = fields.pop().unwrap();
        proof {
            assert(v0@ == all[0]);
        }
        let r = DeleteBookmark {
            id: text_from(v0),
        };
        proof {
            assert(r.spec_fields() =~= all);
        }
        r
    }

    proof fn lemma_fields_fit(r: &Self) {
        assert(value_fits(Self::spec_schema()[0].1, r.spec_fields()[0]));
    }

    proof fn lemma_schema_valid() {
        reveal_strlit("id");
        assert(is_plain("id"@));
        lemma_reserved_keys();
        lemma_plain_body_schema(Self::spec_schema());
    }
}

/// Returns the state of the play queue for this user (as set by [`SavePlayQueue`]).
/// This includes the tracks in the play queue, the currently playing track, and the position within this track.
/// Typically used to allow a user to move between different clients/apps while retaining the same play queue (for instance when listening to an audio book).
///
/// For more information, see <http://www.subsonic.org/pages/api.jsp#getPlayQueue>
#[derive(Debug, Clone, PartialEq)]
pub struct GetPlayQueue;

impl SubsonicRequest for GetPlayQueue {
    open spec fn spec_schema() -> Seq<FieldSpecView> {
        Seq::<FieldSpecView>::empty()
    }

    open spec fn spec_fields(&self) -> Seq<FieldValueView> {
        Seq::<FieldValueView>::empty()
    }

    open spec fn spec_schema_ok() -> bool {
        true
    }

    open spec fn spec_is_body() -> bool {
        true
    }

    open spec fn spec_path() -> Seq<char> {
        "/rest/getPlayQueue"@
    }

    open spec fn spec_since() -> Version {
        Version { major: 1, minor: 12, patch: 0 }
    }

    fn path() -> (res: &'static str) {
        "/rest/getPlayQueue"
    }

    fn since() -> (res: Version) {
        Version::new(1, 12, 0)
    }

    fn schema() -> (res: Vec<FieldSpec>) {
        let mut out: Vec<FieldSpec> = Vec::new();
        proof {
            assert(schema_view(out@) =~= Self::spec_schema());
        }
        out
    }

    fn fields(&self) -> (res: Vec<FieldValue>) {
        let mut out: Vec<FieldValue> = Vec::new();
        proof {
            assert(fields_view(out@) =~= self.spec_fields());
        }
        out
    }

    fn from_fields(fields: Vec<FieldValue>) -> (res: Self) {
        proof {
            assert(fields_view(fields@) =~= Seq::<FieldValueView>::empty());
        }
        GetPlayQueue
    }

    proof fn lemma_fields_fit(r: &Self) {
    }

    proof fn lemma_schema_valid() {
        lemma_plain_body_schema(Self::spec_schema());
    }
}

///  Saves the state of the play queue for this user.
/// This includes the tracks in the play queue, the currently playing track, and the position within this track.
/// Typically used to allow a user to move between different clients/apps while retaining the same play queue (for instance when listening to an audio book).
///
/// For more information, see <http://www.subsonic.org/pages/api.jsp#savePlayQueue>
#[derive(Debug, Clone, PartialEq)]
pub struct SavePlayQueue {
    /// ID of a song in the play queue.
    pub id: Vec<String>,
    /// The ID of the current playing song.
    pub current: Option<String>,
    /// The position in milliseconds within the currently playing song.
    pub position: Option<Milliseconds>,
}

impl SubsonicRequest for SavePlayQueue {
    open spec fn spec_schema() -> Seq<FieldSpecView> {
        seq![
            ("id"@, FieldKind::Repeated(ScalarKind::Text)),
            ("current"@, FieldKind::Optional(ScalarKind::Text)),
            ("position"@, FieldKind::Optional(ScalarKind::U64)),
        ]
    }

    open spec fn spec_fields(&self) -> Seq<FieldValueView> {
        seq![
            texts_value(self.id@),
            opt_text_value(self.current),
            opt_millis_value(self.position),
        ]
    }

    open spec fn spec_schema_ok() -> bool {
        true
    }

    open spec fn spec_is_body() -> bool {
        true
    }

    open spec fn spec_path() -> Seq<char> {
        "/rest/savePlayQueue"@
    }

    open spec fn spec_since() -> Version {
        Version { major: 1, minor: 12, patch: 0 }
    }

    fn path() -> (res: &'static str) {
        "/rest/savePlayQueue"
    }

    fn since() -> (res: Version) {
        Version::new(1, 12, 0)
    }

    fn schema() -> (res: Vec<FieldSpec>) {
        let mut out: Vec<FieldSpec> = Vec::new();
        out.push(FieldSpec { key: "id", kind: FieldKind::Repeated(ScalarKind::Text) });
        out.push(FieldSpec { key: "current", kind: FieldKind::Optional(ScalarKind::Text) });
        out.push(FieldSpec { key: "position", kind: FieldKind::Optional(ScalarKind::U64) });
        proof {
            assert(schema_view(out@) =~= Self::spec_schema());
        }
        out
    }

    fn fields(&self) -> (res: Vec<FieldValue>) {
        let mut out: Vec<FieldValue> = Vec::new();
        out.push(texts_field(&self.id));
        out.push(opt_text_field(&self.current));
        out.push(opt_millis_field(&self.position));
        proof {
            assert(fields_view(out@) =~= self.spec_fields());
        }
        out
    }

    fn from_fields(fields: Vec<FieldValue>) -> (res: Self) {
        let ghost all = fields_view(fields@);
        let mut fields = fields;
        proof {
            assert(value_fits(Self::spec_schema()[0].1, all[0]));
            assert(value_fits(Self::spec_schema()[1].1, all[1]));
            assert(value_fits(Self::spec_schema()[2].1, all[2]));
        }
        let v2 = fields.pop().unwrap();
        let v1 = fields.pop().unwrap();
        let v0 = fields.pop().unwrap();
        proof {
            assert(v0@ == all[0]);
            assert(v1@ == all[1]);
            assert(v2@ == all[2]);
        }
        let r = SavePlayQueue {
            id: texts_from(v0),
            current: opt_text_from(v1),
            position: opt_millis_from(v2),
        };
        proof {
            assert(r.spec_fields() =~= all);
        }
        r
    }

    proof fn lemma_fields_fit(r: &Self) {
        assert(value_fits(Self::spec_schema()[0].1, r.spec_fields()[0]));
        assert(value_fits(Self::spec_schema()[1].1, r.spec_fields()[1]));
        assert(value_fits(Self::spec_schema()[2].1, r.spec_fields()[2]));
    }

    proof fn lemma_schema_valid() {
        reveal_strlit("id");
        reveal_strlit("current");
        reveal_strlit("position");
        assert(is_plain("id"@));
        assert(is_plain("current"@));
        assert(is_plain("position"@));
        lemma_reserved_keys();
        lemma_plain_body_schema(Self::spec_schema());
    }
}

/// A [`CreateBookmark`] is written as the pairs of its set fields, in the order
/// they are declared, each under the camelCase name of its struct field:
/// `id`, `position`, `comment`.
pub proof fn lemma_create_bookmark_pairs(r: &CreateBookmark)
    ensures
        fields_pairs(CreateBookmark::spec_schema(), r.spec_fields()) == text_pairs("id"@, r.id)
            + millis_pairs("position"@, r.position)
            + opt_text_pairs("comment"@, r.comment),
{
    let s = CreateBookmark::spec_schema();
    let f = r.spec_fields();
    assert(fields_pairs(s, f.take(0)) =~= Seq::<PairView>::empty());
    assert(fields_pairs(s, f.take(1)) == fields_pairs(s, f.take(0)) + text_pairs("id"@, r.id)) by {
        lemma_fields_pairs_take(s, f, 0);
    }
    assert(fields_pairs(s, f.take(2)) == fields_pairs(s, f.take(1)) + millis_pairs("position"@, r.position)) by {
        lemma_fields_pairs_take(s, f, 1);
    }
    assert(fields_pairs(s, f.take(3)) == fields_pairs(s, f.take(2)) + opt_text_pairs("comment"@, r.comment)) by {
        lemma_fields_pairs_take(s, f, 2);
    }
    assert(fields_pairs(s, f.take(1)) =~= text_pairs("id"@, r.id));
    assert(f.take(3) =~= f);
}

/// A [`DeleteBookmark`] is written as the pairs of its set fields, in the order
/// they are declared, each under the camelCase name of its struct field:
/// `id`.
pub proof fn lemma_delete_bookmark_pairs(r: &DeleteBookmark)
    ensures
        fields_pairs(DeleteBookmark::spec_schema(), r.spec_fields()) == text_pairs("id"@, r.id),
{
    let s = DeleteBookmark::spec_schema();
    let f = r.spec_fields();
    assert(fields_pairs(s, f.take(0)) =~= Seq::<PairView>::empty());
    assert(fields_pairs(s, f.take(1)) == fields_pairs(s, f.take(0)) + text_pairs("id"@, r.id)) by {
        lemma_fields_pairs_take(s, f, 0);
    }
    assert(fields_pairs(s, f.take(1)) =~= text_pairs("id"@, r.id));
    assert(f.take(1) =~= f);
}

/// A [`SavePlayQueue`] is written as the pairs of its set fields, in the order
/// they are declared, each under the camelCase name of its struct field:
/// `id`, `current`, `position`.
pub proof fn lemma_save_play_queue_pairs(r: &SavePlayQueue)
    ensures
        fields_pairs(SavePlayQueue::spec_schema(), r.spec_fields()) == texts_pairs("id"@, r.id@)
            + opt_text_pairs("current"@, r.current)
            + opt_millis_pairs("position"@, r.position),
{
    let s = SavePlayQueue::spec_schema();
    let f = r.spec_fields();
    assert(fields_pairs(s, f.take(0)) =~= Seq::<PairView>::empty());
    assert(fields_pairs(s, f.take(1)) == fields_pairs(s, f.take(0)) + texts_pairs("id"@, r.id@)) by {
        lemma_fields_pairs_take(s, f, 0);
        lemma_texts_pairs("id"@, FieldKind::Repeated(ScalarKind::Text), r.id@);
    }
    assert(fields_pairs(s, f.take(2)) == fields_pairs(s, f.take(1)) + opt_text_pairs("current"@, r.current)) by {
        lemma_fields_pairs_take(s, f, 1);
    }
    assert(fields_pairs(s, f.take(3)) == fields_pairs(s, f.take(2)) + opt_millis_pairs("position"@, r.position)) by {
        lemma_fields_pairs_take(s, f, 2);
    }
    assert(fields_pairs(s, f.take(1)) =~= texts_pairs("id"@, r.id@));
    assert(f.take(3) =~= f);
}

} // verus!
