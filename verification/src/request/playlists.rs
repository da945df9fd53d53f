//! Playlist requests.
use vstd::prelude::*;

use crate::codec::{fields_view, schema_view, FieldKind, FieldSpec, FieldSpecView, FieldValue, FieldValueView, ScalarKind};
use crate::common::Version;
use crate::request::values::{opt_flag_field, opt_flag_from, opt_flag_value, opt_text_field, opt_text_from, opt_text_value, text_field, text_from, text_value, texts_field, texts_from, texts_value, u32s_field, u32s_from, u32s_value};
use crate::request::SubsonicRequest;
use crate::roundtrip::{is_plain, lemma_plain_body_schema, lemma_reserved_keys, value_fits};

use crate::codec::{fields_pairs, lemma_fields_pairs_take};
use crate::query::PairView;
use crate::request::values::{lemma_texts_pairs, lemma_u32s_pairs, opt_flag_pairs, opt_text_pairs, text_pairs, texts_pairs, u32s_pairs};

verus! {

/// Returns all playlists a user is allowed to play.
///
/// For more information, see <http://www.subsonic.org/pages/api.jsp#getPlaylists>
#[derive(Debug, Clone, PartialEq)]
pub struct GetPlaylists {
    /// Since 1.8.0
    /// If specified, return playlists for this user rather than for the authenticated user. The authenticated user must have admin role if this parameter is used.
    pub username: Option<String>,
}

impl SubsonicRequest for GetPlaylists {
    open spec fn spec_schema() -> Seq<FieldSpecView> {
        seq![
            ("username"@, FieldKind::Optional(ScalarKind::Text)),
        ]
    }

    open spec fn spec_fields(&self) -> Seq<FieldValueView> {
        seq![
            opt_text_value(self.username),
        ]
    }

    open spec fn spec_schema_ok() -> bool {
        true
    }

    open spec fn spec_is_body() -> bool {
        true
    }

    open spec fn spec_path() -> Seq<char> {
        "/rest/getPlaylists"@
    }

    open spec fn spec_since() -> Version {
        Version { major: 1, minor: 0, patch: 0 }
    }

    fn path() -> (res: &'static str) {
        "/rest/getPlaylists"
    }

    fn since() -> (res: Version) {
        Version::new(1, 0, 0)
    }

    fn schema() -> (res: Vec<FieldSpec>) {
        let mut out: Vec<FieldSpec> = Vec::new();
        out.push(FieldSpec { key: "username", kind: FieldKind::Optional(ScalarKind::Text) });
        proof {
            assert(schema_view(out@) =~= Self::spec_schema());
        }
        out
    }

    fn fields(&self) -> (res: Vec<FieldValue>) {
        let mut out: Vec<FieldValue> = Vec::new();
        out.push(opt_text_field(&self.username));
        proof {
            assert(fields_view(out@) =~= self.spec_fields());
        }
        out
    }

    fn from_fields(fields: Vec<FieldValue>) -> (res: Self) {
        let ghost all = fields_view(fields@);
        let mut fields = fields;
        proof {
            assert(value_fits(Self::spec_schema()[0].1, all[0]));
        }
        let v0 = fields.pop().unwrap();
        proof {
            assert(v0@ == all[0]);
        }
        let r = GetPlaylists {
            username: opt_text_from(v0),
        };
        proof {
            assert(r.spec_fields() =~= all);
        }
        r
    }

    proof fn lemma_fields_fit(r: &Self) {
        assert(value_fits(Self::spec_schema()[0].1, r.spec_fields()[0]));
    }

    proof fn lemma_schema_valid() {
        reveal_strlit("username");
        assert(is_plain("username"@));
        lemma_reserved_keys();
        lemma_plain_body_schema(Self::spec_schema());
    }
}

/// Returns a listing of files in a saved playlist.
///
/// For more information, see <http://www.subsonic.org/pages/api.jsp#getPlaylist>
#[derive(Debug, Clone, PartialEq)]
pub struct GetPlaylist {
    /// ID of the playlist to return, as obtained by [`GetPlaylists`].
    pub id: String,
}

impl SubsonicRequest for GetPlaylist {
    open spec fn spec_schema() -> Seq<FieldSpecView> {
        seq![
            ("id"@, FieldKind::Required(ScalarKind::Text)),
        ]
    }

    open spec fn spec_fields(&self) -> Seq<FieldValueView> {
        seq![
            text_value(self.id),
        ]
    }

    open spec fn spec_schema_ok() -> bool {
        true
    }

    open spec fn spec_is_body() -> bool {
        true
    }

    open spec fn spec_path() -> Seq<char> {
        "/rest/getPlaylist"@
    }

    open spec fn spec_since() -> Version {
        Version { major: 1, minor: 0, patch: 0 }
    }

    fn path() -> (res: &'static str) {
        "/rest/getPlaylist"
    }

    fn since() -> (res: Version) {
        Version::new(1, 0, 0)
    }

    fn schema() -> (res: Vec<FieldSpec>) {
        let mut out: Vec<FieldSpec> = Vec::new();
        out.push(FieldSpec { key: "id", kind: FieldKind::Required(ScalarKind::Text) });
        proof {
            assert(schema_view(out@) =~= Self::spec_schema());
        }
        out
    }

    fn fields(&self) -> (res: Vec<FieldValue>) {
        let mut out: Vec<FieldValue> = Vec::new();
        out.push(text_field(&self.id));
        proof {
            assert(fields_view(out@) =~= self.spec_fields());
        }
        out
    }

    fn from_fields(fields: Vec<FieldValue>) -> (res: Self) {
        let ghost all = fields_view(fields@);
        let mut fields = fields;
        proof {
            assert(value_fits(Self::spec_schema()[0].1, all[0]));
        }
        let v0 = fields.pop().unwrap();
        proof {
            assert(v0@ == all[0]);
        }
        let r = GetPlaylist {
            id: text_from(v0),
        };
        proof {
            assert(r.spec_fields() =~= all);
        }
        r
    }

    proof fn lemma_fields_fit(r: &Self) {
        assert(value_fits(Self::spec_schema()[0].1, r.spec_fields()[0]));
    }

    proof fn lemma_schema_valid() {
        reveal_strlit("id");
        assert(is_plain("id"@));
        lemma_reserved_keys();
        lemma_plain_body_schema(Self::spec_schema());
    }
}

/// Creates (or updates) a playlist.
///
/// For more information, see <http://www.subsonic.org/pages/api.jsp#createPlaylist>
#[derive(Debug, Clone, PartialEq)]
pub struct CreatePlaylist {
    /// The playlist ID.
    /// Required if updating.
    pub paylist_id: Option<String>,
    /// The human-readable name of the playlist.
    /// Required if creating.
    pub name: Option<String>,
    /// The list of song IDs to include in the playlist.
    pub song_id: Vec<String>,
}

impl SubsonicRequest for CreatePlaylist {
    open spec fn spec_schema() -> Seq<FieldSpecView> {
        seq![
            ("paylistId"@, FieldKind::Optional(ScalarKind::Text)),
            ("name"@, FieldKind::Optional(ScalarKind::Text)),
            ("songId"@, FieldKind::Repeated(ScalarKind::Text)),
        ]
    }

    open spec fn spec_fields(&self) -> Seq<FieldValueView> {
        seq![
            opt_text_value(self.paylist_id),
            opt_text_value(self.name),
            texts_value(self.song_id@),
        ]
    }

    open spec fn spec_schema_ok() -> bool {
        true
    }

    open spec fn spec_is_body() -> bool {
        true
    }

    open spec fn spec_path() -> Seq<char> {
        "/rest/createPlaylist"@
    }

    open spec fn spec_since() -> Version {
        Version { major: 1, minor: 2, patch: 0 }
    }

    fn path() -> (res: &'static str) {
        "/rest/createPlaylist"
    }

    fn since() -> (res: Version) {
        Version::new(1, 2, 0)
    }

    fn schema() -> (res: Vec<FieldSpec>) {
        let mut out: Vec<FieldSpec> = Vec::new();
        out.push(FieldSpec { key: "paylistId", kind: FieldKind::Optional(ScalarKind::Text) });
        out.push(FieldSpec { key: "name", kind: FieldKind::Optional(ScalarKind::Text) });
        out.push(FieldSpec { key: "songId", kind: FieldKind::Repeated(ScalarKind::Text) });
        proof {
            assert(schema_view(out@) =~= Self::spec_schema());
        }
        out
    }

    fn fields(&self) -> (res: Vec<FieldValue>) {
        let mut out: Vec<FieldValue> = Vec::new();
        out.push(opt_text_field(&self.paylist_id));
        out.push(opt_text_field(&self.name));
        out.push(texts_field(&self.song_id));
        proof {
            assert(fields_view(out@) =~= self.spec_fields());
        }
        out
    }

    fn from_fields(fields: Vec<FieldValue>) -> (res: Self) {
        let ghost all = fields_view(fields@);
        let mut fields = fields;
        proof {
            assert(value_fits(Self::spec_schema()[0].1, all[0]));
            assert(value_fits(Self::spec_schema()[1].1, all[1]));
            assert(value_fits(Self::spec_schema()[2].1, all[2]));
        }
        let v2 = fields.pop().unwrap();
        let v1 = fields.pop().unwrap();
        let v0 = fields.pop().unwrap();
        proof {
            assert(v0@ == all[0]);
            assert(v1@ == all[1]);
            assert(v2@ == all[2]);
        }
        let r = CreatePlaylist {
            paylist_id: opt_text_from(v0),
            name: opt_text_from(v1),
            song_id: texts_from(v2),
        };
        proof {
            assert(r.spec_fields() =~= all);
        }
        r
    }

    proof fn lemma_fields_fit(r: &Self) {
        assert(value_fits(Self::spec_schema()[0].1, r.spec_fields()[0]));
        assert(value_fits(Self::spec_schema()[1].1, r.spec_fields()[1]));
        assert(value_fits(Self::spec_schema()[2].1, r.spec_fields()[2]));
    }

    proof fn lemma_schema_valid() {
        reveal_strlit("paylistId");
        reveal_strlit("name");
        reveal_strlit("songId");
        assert(is_plain("paylistId"@));
        assert(is_plain("name"@));
        assert(is_plain("songId"@));
        lemma_reserved_keys();
        lemma_plain_body_schema(Self::spec_schema());
    }
}

/// Updates a playlist. Only the owner of a playlist is allowed to update it.
///
/// For more information, see <http://www.subsonic.org/pages/api.jsp#updatePlaylist>
#[derive(Debug, Clone, PartialEq)]
pub struct UpdatePlaylist {
    /// The playlist ID.
    pub playlist_id: String,
    /// The human-readable name of the playlist.
    pub name: Option<String>,
    /// The playlist comment.
    pub comment: Option<String>,
    /// Whether this playlist is visible to all users.
    pub public: Option<bool>,
    /// Add this song with this ID to the playlist.
    pub song_id_to_add: Vec<String>,
    /// Remove the song at this position in the playlist.
    pub song_index_to_remove: Vec<u32>,
}

impl SubsonicRequest for UpdatePlaylist {
    open spec fn spec_schema() -> Seq<FieldSpecView> {
        seq![
            ("playlistId"@, FieldKind::Required(ScalarKind::Text)),
            ("name"@, FieldKind::Optional(ScalarKind::Text)),
            ("comment"@, FieldKind::Optional(ScalarKind::Text)),
            ("public"@, FieldKind::OptionalFlag),
            ("songIdToAdd"@, FieldKind::Repeated(ScalarKind::Text)),
            ("songIndexToRemove"@, FieldKind::Repeated(ScalarKind::U32)),
        ]
    }

    open spec fn spec_fields(&self) -> Seq<FieldValueView> {
        seq![
            text_value(self.playlist_id),
            opt_text_value(self.name),
            opt_text_value(self.comment),
            opt_flag_value(self.public),
            texts_value(self.song_id_to_add@),
            u32s_value(self.song_index_to_remove@),
        ]
    }

    open spec fn spec_schema_ok() -> bool {
        true
    }

    open spec fn spec_is_body() -> bool {
        true
    }

    open spec fn spec_path() -> Seq<char> {
        "/rest/updatePlaylist"@
    }

    open spec fn spec_since() -> Version {
        Version { major: 1, minor: 8, patch: 0 }
    }

    fn path() -> (res: &'static str) {
        "/rest/updatePlaylist"
    }

    fn since() -> (res: Version) {
        Version::new(1, 8, 0)
    }

    fn schema() -> (res: Vec<FieldSpec>) {
        let mut out: Vec<FieldSpec> = Vec::new();
        out.push(FieldSpec { key: "playlistId", kind: FieldKind::Required(ScalarKind::Text) });
        out.push(FieldSpec { key: "name", kind: FieldKind::Optional(ScalarKind::Text) });
        out.push(FieldSpec { key: "comment", kind: FieldKind::Optional(ScalarKind::Text) });
        out.push(FieldSpec { key: "public", kind: FieldKind::OptionalFlag });
        out.push(FieldSpec { key: "songIdToAdd", kind: FieldKind::Repeated(ScalarKind::Text) });
        out.push(FieldSpec { key: "songIndexToRemove", kind: FieldKind::Repeated(ScalarKind::U32) });
        proof {
            assert(schema_view(out@) =~= Self::spec_schema());
        }
        out
    }

    fn fields(&self) -> (res: Vec<FieldValue>) {
        let mut out: Vec<FieldValue> = Vec::new();
        out.push(text_field(&self.playlist_id));
        out.push(opt_text_field(&self.name));
        out.push(opt_text_field(&self.comment));
        out.push(opt_flag_field(&self.public));
        out.push(texts_field(&self.song_id_to_add));
        out.push(u32s_field(&self.song_index_to_remove));
        proof {
            assert(fields_view(out@) =~= self.spec_fields());
        }
        out
    }

    fn from_fields(fields: Vec<FieldValue>) -> (res: Self) {
        let ghost all = fields_view(fields@);
        let mut fields = fields;
        proof {
            assert(value_fits(Self::spec_schema()[0].1, all[0]));
            assert(value_fits(Self::spec_schema()[1].1, all[1]));
            assert(value_fits(Self::spec_schema()[2].1, all[2]));
            assert(value_fits(Self::spec_schema()[3].1, all[3]));
            assert(value_fits(Self::spec_schema()[4].1, all[4]));
            assert(value_fits(Self::spec_schema()[5].1, all[5]));
        }
        let v5 = fields.pop().unwrap();
        let v4 = fields.pop().unwrap();
        let v3 = fields.pop().unwrap();
        let v2 = fields.pop().unwrap();
        let v1 = fields.pop().unwrap();
        let v0 = fields.pop().unwrap();
        proof {
            assert(v0@ == all[0]);
            assert(v1@ == all[1]);
            assert(v2@ == all[2]);
            assert(v3@ == all[3]);
            assert(v4@ == all[4]);
            assert(v5@ == all[5]);
        }
        let r = UpdatePlaylist {
            playlist_id: text_from(v0),
            name: opt_text_from(v1),
            comment: opt_text_from(v2),
            public: opt_flag_from(v3),
            song_id_to_add: texts_from(v4),
            song_index_to_remove: u32s_from(v5),
        };
        proof {
            assert(r.spec_fields() =~= all);
        }
        r
    }

    proof fn lemma_fields_fit(r: &Self) {
        assert(value_fits(Self::spec_schema()[0].1, r.spec_fields()[0]));
        assert(value_fits(Self::spec_schema()[1].1, r.spec_fields()[1]));
        assert(value_fits(Self::spec_schema()[2].1, r.spec_fields()[2]));
        assert(value_fits(Self::spec_schema()[3].1, r.spec_fields()[3]));
        assert(value_fits(Self::spec_schema()[4].1, r.spec_fields()[4]));
        assert(value_fits(Self::spec_schema()[5].1, r.spec_fields()[5]));
    }

    proof fn lemma_schema_valid() {
        reveal_strlit("playlistId");
        reveal_strlit("name");
        reveal_strlit("comment");
        reveal_strlit("public");
        reveal_strlit("songIdToAdd");
        reveal_strlit("songIndexToRemove");
        assert(is_plain("playlistId"@));
        assert(is_plain("name"@));
        assert(is_plain("comment"@));
        assert(is_plain("public"@));
        assert(is_plain("songIdToAdd"@));
        assert(is_plain("songIndexToRemove"@));
        lemma_reserved_keys();
        lemma_plain_body_schema(Self::spec_schema());
    }
}

/// Deletes a saved playlist.
///
/// For more information, see <http://www.subsonic.org/pages/api.jsp#deletePlaylist>
#[derive(Debug, Clone, PartialEq)]
pub struct DeletePlaylist {
    /// ID of the playlist to delete, as obtained by [`GetPlaylists`].
    pub id: String,
}

impl SubsonicRequest for DeletePlaylist {
    open spec fn spec_schema() -> Seq<FieldSpecView> {
        seq![
            ("id"@, FieldKind::Required(ScalarKind::Text)),
        ]
    }

    open spec fn spec_fields(&self) -> Seq<FieldValueView> {
        seq![
            text_value(self.id),
        ]
    }

    open spec fn spec_schema_ok() -> bool {
        true
    }

    open spec fn spec_is_body() -> bool {
        true
    }

    open spec fn spec_path() -> Seq<char> {
        "/rest/deletePlaylist"@
    }

    open spec fn spec_since() -> Version {
        Version { major: 1, minor: 2, patch: 0 }
    }

    fn path() -> (res: &'static str) {
        "/rest/deletePlaylist"
    }

    fn since() -> (res: Version) {
        Version::new(1, 2, 0)
    }

    fn schema() -> (res: Vec<FieldSpec>) {
        let mut out: Vec<FieldSpec> = Vec::new();
        out.push(FieldSpec { key: "id", kind: FieldKind::Required(ScalarKind::Text) });
        proof {
            assert(schema_view(out@) =~= Self::spec_schema());
        }
        out
    }

    fn fields(&self) -> (res: Vec<FieldValue>) {
        let mut out: Vec<FieldValue> = Vec::new();
        out.push(text_field(&self.id));
        proof {
            assert(fields_view(out@) =~= self.spec_fields());
        }
        out
    }

    fn from_fields(fields: Vec<FieldValue>) -> (res: Self) {
        let ghost all = fields_view(fields@);
        let mut fields = fields;
        proof {
            assert(value_fits(Self::spec_schema()[0].1, all[0]));
        }
        let v0 = fields.pop().unwrap();
        proof {
            assert(v0@ == all[0]);
        }
        let r = DeletePlaylist {
            id: text_from(v0),
        };
        proof {
            assert(r.spec_fields() =~= all);
        }
        r
    }

    proof fn lemma_fields_fit(r: &Self) {
        assert(value_fits(Self::spec_schema()[0].1, r.spec_fields()[0]));
    }

    proof fn lemma_schema_valid() {
        reveal_strlit("id");
        assert(is_plain("id"@));
        lemma_reserved_keys();
        lemma_plain_body_schema(Self::spec_schema());
    }
}

/// A [`GetPlaylists`] is written as the pairs of its set fields, in the order
/// they are declared, each under the camelCase name of its struct field:
/// `username`.
pub proof fn lemma_get_playlists_pairs(r: &GetPlaylists)
    ensures
        fields_pairs(GetPlaylists::spec_schema(), r.spec_fields()) == opt_text_pairs("username"@, r.username),
{
    let s = GetPlaylists::spec_schema();
    let f = r.spec_fields();
    assert(fields_pairs(s, f.take(0)) =~= Seq::<PairView>::empty());
    assert(fields_pairs(s, f.take(1)) == fields_pairs(s, f.take(0)) + opt_text_pairs("username"@, r.username)) by {
        lemma_fields_pairs_take(s, f, 0);
    }
    assert(fields_pairs(s, f.take(1)) =~= opt_text_pairs("username"@, r.username));
    assert(f.take(1) =~= f);
}

/// A [`GetPlaylist`] is written as the pairs of its set fields, in the order
/// they are declared, each under the camelCase name of its struct field:
/// `id`.
pub proof fn lemma_get_playlist_pairs(r: &GetPlaylist)
    ensures
        fields_pairs(GetPlaylist::spec_schema(), r.spec_fields()) == text_pairs("id"@, r.id),
{
    let s = GetPlaylist::spec_schema();
    let f = r.spec_fields();
    assert(fields_pairs(s, f.take(0)) =~= Seq::<PairView>::empty());
    assert(fields_pairs(s, f.take(1)) == fields_pairs(s, f.take(0)) + text_pairs("id"@, r.id)) by {
        lemma_fields_pairs_take(s, f, 0);
    }
    assert(fields_pairs(s, f.take(1)) =~= text_pairs("id"@, r.id));
    assert(f.take(1) =~= f);
}

/// A [`CreatePlaylist`] is written as the pairs of its set fields, in the order
/// they are declared, each under the camelCase name of its struct field:
/// `paylistId`, `name`, `songId`.
pub proof fn lemma_create_playlist_pairs(r: &CreatePlaylist)
    ensures
        fields_pairs(CreatePlaylist::spec_schema(), r.spec_fields()) == opt_text_pairs("paylistId"@, r.paylist_id)
            + opt_text_pairs("name"@, r.name)
            + texts_pairs("songId"@, r.song_id@),
{
    let s = CreatePlaylist::spec_schema();
    let f = r.spec_fields();
    assert(fields_pairs(s, f.take(0)) =~= Seq::<PairView>::empty());
    assert(fields_pairs(s, f.take(1)) == fields_pairs(s, f.take(0)) + opt_text_pairs("paylistId"@, r.paylist_id)) by {
        lemma_fields_pairs_take(s, f, 0);
    }
    assert(fields_pairs(s, f.take(2)) == fields_pairs(s, f.take(1)) + opt_text_pairs("name"@, r.name)) by {
        lemma_fields_pairs_take(s, f, 1);
    }
    assert(fields_pairs(s, f.take(3)) == fields_pairs(s, f.take(2)) + texts_pairs("songId"@, r.song_id@)) by {
        lemma_fields_pairs_take(s, f, 2);
        lemma_texts_pairs("songId"@, FieldKind::Repeated(ScalarKind::Text), r.song_id@);
    }
    assert(fields_pairs(s, f.take(1)) =~= opt_text_pairs("paylistId"@, r.paylist_id));
    assert(f.take(3) =~= f);
}

/// A [`UpdatePlaylist`] is written as the pairs of its set fields, in the order
/// they are declared, each under the camelCase name of its struct field:
/// `playlistId`, `name`, `comment`, `public`, `songIdToAdd`, `songIndexToRemove`.
pub proof fn lemma_update_playlist_pairs(r: &UpdatePlaylist)
    ensures
        fields_pairs(UpdatePlaylist::spec_schema(), r.spec_fields()) == text_pairs("playlistId"@, r.playlist_id)
            + opt_text_pairs("name"@, r.name)
            + opt_text_pairs("comment"@, r.comment)
            + opt_flag_pairs("public"@, r.public)
            + texts_pairs("songIdToAdd"@, r.song_id_to_add@)
            + u32s_pairs("songIndexToRemove"@, r.song_index_to_remove@),
{
    let s = UpdatePlaylist::spec_schema();
    let f = r.spec_fields();
    assert(fields_pairs(s, f.take(0)) =~= Seq::<PairView>::empty());
    assert(fields_pairs(s, f.take(1)) == fields_pairs(s, f.take(0)) + text_pairs("playlistId"@, r.playlist_id)) by {
        lemma_fields_pairs_take(s, f, 0);
    }
    assert(fields_pairs(s, f.take(2)) == fields_pairs(s, f.take(1)) + opt_text_pairs("name"@, r.name)) by {
        lemma_fields_pairs_take(s, f, 1);
    }
    assert(fields_pairs(s, f.take(3)) == fields_pairs(s, f.take(2)) + opt_text_pairs("comment"@, r.comment)) by {
        lemma_fields_pairs_take(s, f, 2);
    }
    assert(fields_pairs(s, f.take(4)) == fields_pairs(s, f.take(3)) + opt_flag_pairs("public"@, r.public)) by {
        lemma_fields_pairs_take(s, f, 3);
    }
    assert(fields_pairs(s, f.take(5)) == fields_pairs(s, f.take(4)) + texts_pairs("songIdToAdd"@, r.song_id_to_add@)) by {
        lemma_fields_pairs_take(s, f, 4);
        lemma_texts_pairs("songIdToAdd"@, FieldKind::Repeated(ScalarKind::Text), r.song_id_to_add@);
    }
    assert(fields_pairs(s, f.take(6)) == fields_pairs(s, f.take(5)) + u32s_pairs("songIndexToRemove"@, r.song_index_to_remove@)) by {
        lemma_fields_pairs_take(s, f, 5);
        lemma_u32s_pairs("songIndexToRemove"@, FieldKind::Repeated(ScalarKind::U32), r.song_index_to_remove@);
    }
    assert(fields_pairs(s, f.take(1)) =~= text_pairs("playlistId"@, r.playlist_id));
    assert(f.take(6) =~= f);
}

/// A [`DeletePlaylist`] is written as the pairs of its set fields, in the order
/// they are declared, each under the camelCase name of its struct field:
/// `id`.
pub proof fn lemma_delete_playlist_pairs(r: &DeletePlaylist)
    ensures
        fields_pairs(DeletePlaylist::spec_schema(), r.spec_fields()) == text_pairs("id"@, r.id),
{
    let s = DeletePlaylist::spec_schema();
    let f = r.spec_fields();
    assert(fields_pairs(s, f.take(0)) =~= Seq::<PairView>::empty());
    assert(fields_pairs(s, f.take(1)) == fields_pairs(s, f.take(0)) + text_pairs("id"@, r.id)) by {
        lemma_fields_pairs_take(s, f, 0);
    }
    assert(fields_pairs(s, f.take(1)) =~= text_pairs("id"@, r.id));
    assert(f.take(1) =~= f);
}

} // verus!
