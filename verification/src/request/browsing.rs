//! Browsing requests.
use vstd::prelude::*;

use crate::codec::{fields_view, schema_view, FieldKind, FieldSpec, FieldSpecView, FieldValue, FieldValueView, ScalarKind};
use crate::common::{Milliseconds, Version};
use crate::request::values::{opt_flag_field, opt_flag_from, opt_flag_value, opt_millis_field, opt_millis_from, opt_millis_value, opt_text_field, opt_text_from, opt_text_value, opt_u32_field, opt_u32_from, opt_u32_value, text_field, text_from, text_value};
use crate::request::SubsonicRequest;
use crate::roundtrip::{is_plain, lemma_plain_body_schema, lemma_reserved_keys, value_fits};

use crate::codec::{fields_pairs, lemma_fields_pairs_take};
use crate::query::PairView;
use crate::request::values::{opt_flag_pairs, opt_millis_pairs, opt_text_pairs, opt_u32_pairs, text_pairs};

verus! {

/// Returns all configured top-level music folders. Takes no extra parameters.
///
/// For more information, see <http://www.subsonic.org/pages/api.jsp#getMusicFolders>
#[derive(Debug, Clone, PartialEq)]
pub struct GetMusicFolders;

impl SubsonicRequest for GetMusicFolders {
    open spec fn spec_schema() -> Seq<FieldSpecView> {
        Seq::<FieldSpecView>::empty()
    }

    open spec fn spec_fields(&self) -> Seq<FieldValueView> {
        Seq::<FieldValueView>::empty()
    }

    open spec fn spec_schema_ok() -> bool {
        true
    }

    open spec fn spec_is_body() -> bool {
        true
    }

    open spec fn spec_path() -> Seq<char> {
        "/rest/getMusicFolders"@
    }

    open spec fn spec_since() -> Version {
        Version { major: 1, minor: 0, patch: 0 }
    }

    fn path() -> (res: &'static str) {
        "/rest/getMusicFolders"
    }

    fn since() -> (res: Version) {
        Version::new(1, 0, 0)
    }

    fn schema() -> (res: Vec<FieldSpec>) {
        let mut out: Vec<FieldSpec> = Vec::new();
        proof {
            assert(schema_view(out@) =~= Self::spec_schema());
        }
        out
    }

    fn fields(&self) -> (res: Vec<FieldValue>) {
        let mut out: Vec<FieldValue> = Vec::new();
        proof {
            assert(fields_view(out@) =~= self.spec_fields());
        }
        out
    }

    fn from_fields(fields: Vec<FieldValue>) -> (res: Self) {
        proof {
            assert(fields_view(fields@) =~= Seq::<FieldValueView>::empty());
        }
        GetMusicFolders
    }

    proof fn lemma_fields_fit(r: &Self) {
    }

    proof fn lemma_schema_valid() {
        lemma_plain_body_schema(Self::spec_schema());
    }
}

/// Returns an indexed structure of all artists.
///
/// For more information, see <http://www.subsonic.org/pages/api.jsp#getIndexes>
#[derive(Debug, Clone, PartialEq)]
pub struct GetIndexes {
    /// If specified, only return artists in the music folder with the given ID.
    /// See [`GetMusicFolders`].
    pub music_folder_id: Option<String>,
    /// If specified, only return a result if the artist collection has changed since the given time.
    pub if_modified_since: Option<Milliseconds>,
}

impl SubsonicRequest for GetIndexes {
    open spec fn spec_schema() -> Seq<FieldSpecView> {
        seq![
            ("musicFolderId"@, FieldKind::Optional(ScalarKind::Text)),
            ("ifModifiedSince"@, FieldKind::Optional(ScalarKind::U64)),
        ]
    }

    open spec fn spec_fields(&self) -> Seq<FieldValueView> {
        seq![
            opt_text_value(self.music_folder_id),
            opt_millis_value(self.if_modified_since),
        ]
    }

    open spec fn spec_schema_ok() -> bool {
        true
    }

    open spec fn spec_is_body() -> bool {
        true
    }

    open spec fn spec_path() -> Seq<char> {
        "/rest/getIndexes"@
    }

    open spec fn spec_since() -> Version {
        Version { major: 1, minor: 0, patch: 0 }
    }

    fn path() -> (res: &'static str) {
        "/rest/getIndexes"
    }

    fn since() -> (res: Version) {
        Version::new(1, 0, 0)
    }

    fn schema() -> (res: Vec<FieldSpec>) {
        let mut out: Vec<FieldSpec> = Vec::new();
        out.push(FieldSpec { key: "musicFolderId", kind: FieldKind::Optional(ScalarKind::Text) });
        out.push(FieldSpec { key: "ifModifiedSince", kind: FieldKind::Optional(ScalarKind::U64) });
        proof {
            assert(schema_view(out@) =~= Self::spec_schema());
        }
        out
    }

    fn fields(&self) -> (res: Vec<FieldValue>) {
        let mut out: Vec<FieldValue> = Vec::new();
        out.push(opt_text_field(&self.music_folder_id));
        out.push(opt_millis_field(&self.if_modified_since));
        proof {
            assert(fields_view(out@) =~= self.spec_fields());
        }
        out
    }

    fn from_fields(fields: Vec<FieldValue>) -> (res: Self) {
        let ghost all = fields_view(fields@);
        let mut fields = fields;
        proof {
            assert(value_fits(Self::spec_schema()[0].1, all[0]));
            assert(value_fits(Self::spec_schema()[1].1, all[1]));
        }
        let v1 = fields.pop().unwrap();
        let v0 = fields.pop().unwrap();
        proof {
            assert(v0@ == all[0]);
            assert(v1@ == all[1]);
        }
        let r = GetIndexes {
            music_folder_id: opt_text_from(v0),
            if_modified_since: opt_millis_from(v1),
        };
        proof {
            assert(r.spec_fields() =~= all);
        }
        r
    }

    proof fn lemma_fields_fit(r: &Self) {
        assert(value_fits(Self::spec_schema()[0].1, r.spec_fields()[0]));
        assert(value_fits(Self::spec_schema()[1].1, r.spec_fields()[1]));
    }

    proof fn lemma_schema_valid() {
        reveal_strlit("musicFolderId");
        reveal_strlit("ifModifiedSince");
        assert(is_plain("musicFolderId"@));
        assert(is_plain("ifModifiedSince"@));
        lemma_reserved_keys();
        lemma_plain_body_schema(Self::spec_schema());
    }
}

/// Returns a listing of all files in a music directory. Typically used to get list of albums for an artist, or list of songs for an album.
///
/// For more information, see <http://www.subsonic.org/pages/api.jsp#getMusicDirectory>
#[derive(Debug, Clone, PartialEq)]
pub struct GetMusicDirectory {
    /// A string which uniquely identifies the music folder. Obtained by calls to getIndexes or getMusicDirectory.
    pub id: String,
}

impl SubsonicRequest for GetMusicDirectory {
    open spec fn spec_schema() -> Seq<FieldSpecView> {
        seq![
            ("id"@, FieldKind::Required(ScalarKind::Text)),
        ]
    }

    open spec fn spec_fields(&self) -> Seq<FieldValueView> {
        seq![
            text_value(self.id),
        ]
    }

    open spec fn spec_schema_ok() -> bool {
        true
    }

    open spec fn spec_is_body() -> bool {
        true
    }

    open spec fn spec_path() -> Seq<char> {
        "/rest/getMusicDirectory"@
    }

    open spec fn spec_since() -> Version {
        Version { major: 1, minor: 0, patch: 0 }
    }

    fn path() -> (res: &'static str) {
        "/rest/getMusicDirectory"
    }

    fn since() -> (res: Version) {
        Version::new(1, 0, 0)
    }

    fn schema() -> (res: Vec<FieldSpec>) {
        let mut out: Vec<FieldSpec> = Vec::new();
        out.push(FieldSpec { key: "id", kind: FieldKind::Required(ScalarKind::Text) });
        proof {
            assert(schema_view(out@) =~= Self::spec_schema());
        }
        out
    }

    fn fields(&self) -> (res: Vec<FieldValue>) {
        let mut out: Vec<FieldValue> = Vec::new();
        out.push(text_field(&self.id));
        proof {
            assert(fields_view(out@) =~= self.spec_fields());
        }
        out
    }

    fn from_fields(fields: Vec<FieldValue>) -> (res: Self) {
        let ghost all = fields_view(fields@);
        let mut fields = fields;
        proof {
            assert(value_fits(Self::spec_schema()[0].1, all[0]));
        }
        let v0 = fields.pop().unwrap();
        proof {
            assert(v0@ == all[0]);
        }
        let r = GetMusicDirectory {
            id: text_from(v0),
        };
        proof {
            assert(r.spec_fields() =~= all);
        }
        r
    }

    proof fn lemma_fields_fit(r: &Self) {
        assert(value_fits(Self::spec_schema()[0].1, r.spec_fields()[0]));
    }

    proof fn lemma_schema_valid() {
        reveal_strlit("id");
        assert(is_plain("id"@));
        lemma_reserved_keys();
        lemma_plain_body_schema(Self::spec_schema());
    }
}

/// Returns all genres.
///
/// For more information, see <http://www.subsonic.org/pages/api.jsp#getGenres>
#[derive(Debug, Clone, PartialEq)]
pub struct GetGenres;

impl SubsonicRequest for GetGenres {
    open spec fn spec_schema() -> Seq<FieldSpecView> {
        Seq::<FieldSpecView>::empty()
    }

    open spec fn spec_fields(&self) -> Seq<FieldValueView> {
        Seq::<FieldValueView>::empty()
    }

    open spec fn spec_schema_ok() -> bool {
        true
    }

    open spec fn spec_is_body() -> bool {
        true
    }

    open spec fn spec_path() -> Seq<char> {
        "/rest/getGenres"@
    }

    open spec fn spec_since() -> Version {
        Version { major: 1, minor: 9, patch: 0 }
    }

    fn path() -> (res: &'static str) {
        "/rest/getGenres"
    }

    fn since() -> (res: Version) {
        Version::new(1, 9, 0)
    }

    fn schema() -> (res: Vec<FieldSpec>) {
        let mut out: Vec<FieldSpec> = Vec::new();
        proof {
            assert(schema_view(out@) =~= Self::spec_schema());
        }
        out
    }

    fn fields(&self) -> (res: Vec<FieldValue>) {
        let mut out: Vec<FieldValue> = Vec::new();
        proof {
            assert(fields_view(out@) =~= self.spec_fields());
        }
        out
    }

    fn from_fields(fields: Vec<FieldValue>) -> (res: Self) {
        proof {
            assert(fields_view(fields@) =~= Seq::<FieldValueView>::empty());
        }
        GetGenres
    }

    proof fn lemma_fields_fit(r: &Self) {
    }

    proof fn lemma_schema_valid() {
        lemma_plain_body_schema(Self::spec_schema());
    }
}

/// Represents the parameters for the `getArtists` request.
///
/// For more information, see <http://www.subsonic.org/pages/api.jsp#getArtists>.
#[derive(Debug, Clone, PartialEq)]
pub struct GetArtists {
    /// If specified, only return artists in the music folder with the given ID.
    /// See [`GetMusicFolders`].
    pub music_folder_id: Option<u32>,
}

impl SubsonicRequest for GetArtists {
    open spec fn spec_schema() -> Seq<FieldSpecView> {
        seq![
            ("musicFolderId"@, FieldKind::Optional(ScalarKind::U32)),
        ]
    }

    open spec fn spec_fields(&self) -> Seq<FieldValueView> {
        seq![
            opt_u32_value(self.music_folder_id),
        ]
    }

    open spec fn spec_schema_ok() -> bool {
        true
    }

    open spec fn spec_is_body() -> bool {
        true
    }

    open spec fn spec_path() -> Seq<char> {
        "/rest/getArtists"@
    }

    open spec fn spec_since() -> Version {
        Version { major: 1, minor: 8, patch: 0 }
    }

    fn path() -> (res: &'static str) {
        "/rest/getArtists"
    }

    fn since() -> (res: Version) {
        Version::new(1, 8, 0)
    }

    fn schema() -> (res: Vec<FieldSpec>) {
        let mut out: Vec<FieldSpec> = Vec::new();
        out.push(FieldSpec { key: "musicFolderId", kind: FieldKind::Optional(ScalarKind::U32) });
        proof {
            assert(schema_view(out@) =~= Self::spec_schema());
        }
        out
    }

    fn fields(&self) -> (res: Vec<FieldValue>) {
        let mut out: Vec<FieldValue> = Vec::new();
        out.push(opt_u32_field(&self.music_folder_id));
        proof {
            assert(fields_view(out@) =~= self.spec_fields());
        }
        out
    }

    fn from_fields(fields: Vec<FieldValue>) -> (res: Self) {
        let ghost all = fields_view(fields@);
        let mut fields = fields;
        proof {
            assert(value_fits(Self::spec_schema()[0].1, all[0]));
        }
        let v0 = fields.pop().unwrap();
        proof {
            assert(v0@ == all[0]);
        }
        let r = GetArtists {
            music_folder_id: opt_u32_from(v0),
        };
        proof {
            assert(r.spec_fields() =~= all);
        }
        r
    }

    proof fn lemma_fields_fit(r: &Self) {
        assert(value_fits(Self::spec_schema()[0].1, r.spec_fields()[0]));
    }

    proof fn lemma_schema_valid() {
        reveal_strlit("musicFolderId");
        assert(is_plain("musicFolderId"@));
        lemma_reserved_keys();
        lemma_plain_body_schema(Self::spec_schema());
    }
}

/// Returns details for an artist, including a list of albums.
///
/// See: <http://www.subsonic.org/pages/api.jsp#getArtist>
#[derive(Debug, Clone, PartialEq)]
pub struct GetArtist {
    /// The artist ID.
    pub id: String,
}

impl SubsonicRequest for GetArtist {
    open spec fn spec_schema() -> Seq<FieldSpecView> {
        seq![
            ("id"@, FieldKind::Required(ScalarKind::Text)),
        ]
    }

    open spec fn spec_fields(&self) -> Seq<FieldValueView> {
        seq![
            text_value(self.id),
        ]
    }

    open spec fn spec_schema_ok() -> bool {
        true
    }

    open spec fn spec_is_body() -> bool {
        true
    }

    open spec fn spec_path() -> Seq<char> {
        "/rest/getArtist"@
    }

    open spec fn spec_since() -> Version {
        Version { major: 1, minor: 8, patch: 0 }
    }

    fn path() -> (res: &'static str) {
        "/rest/getArtist"
    }

    fn since() -> (res: Version) {
        Version::new(1, 8, 0)
    }

    fn schema() -> (res: Vec<FieldSpec>) {
        let mut out: Vec<FieldSpec> = Vec::new();
        out.push(FieldSpec { key: "id", kind: FieldKind::Required(ScalarKind::Text) });
        proof {
            assert(schema_view(out@) =~= Self::spec_schema());
        }
        out
    }

    fn fields(&self) -> (res: Vec<FieldValue>) {
        let mut out: Vec<FieldValue> = Vec::new();
        out.push(text_field(&self.id));
        proof {
            assert(fields_view(out@) =~= self.spec_fields());
        }
        out
    }

    fn from_fields(fields: Vec<FieldValue>) -> (res: Self) {
        let ghost all = fields_view(fields@);
        let mut fields = fields;
        proof {
            assert(value_fits(Self::spec_schema()[0].1, all[0]));
        }
        let v0 = fields.pop().unwrap();
        proof {
            assert(v0@ == all[0]);
        }
        let r = GetArtist {
            id: text_from(v0),
        };
        proof {
            assert(r.spec_fields() =~= all);
        }
        r
    }

    proof fn lemma_fields_fit(r: &Self) {
        assert(value_fits(Self::spec_schema()[0].1, r.spec_fields()[0]));
    }

    proof fn lemma_schema_valid() {
        reveal_strlit("id");
        assert(is_plain("id"@));
        lemma_reserved_keys();
        lemma_plain_body_schema(Self::spec_schema());
    }
}

/// Returns details for an album, including a list of songs.
///
/// For more information, see <http://www.subsonic.org/pages/api.jsp#getAlbum>
#[derive(Debug, Clone, PartialEq)]
pub struct GetAlbum {
    /// The album ID.
    pub id: String,
}

impl SubsonicRequest for GetAlbum {
    open spec fn spec_schema() -> Seq<FieldSpecView> {
        seq![
            ("id"@, FieldKind::Required(ScalarKind::Text)),
        ]
    }

    open spec fn spec_fields(&self) -> Seq<FieldValueView> {
        seq![
            text_value(self.id),
        ]
    }

    open spec fn spec_schema_ok() -> bool {
        true
    }

    open spec fn spec_is_body() -> bool {
        true
    }

    open spec fn spec_path() -> Seq<char> {
        "/rest/getAlbum"@
    }

    open spec fn spec_since() -> Version {
        Version { major: 1, minor: 8, patch: 0 }
    }

    fn path() -> (res: &'static str) {
        "/rest/getAlbum"
    }

    fn since() -> (res: Version) {
        Version::new(1, 8, 0)
    }

    fn schema() -> (res: Vec<FieldSpec>) {
        let mut out: Vec<FieldSpec> = Vec::new();
        out.push(FieldSpec { key: "id", kind: FieldKind::Required(ScalarKind::Text) });
        proof {
            assert(schema_view(out@) =~= Self::spec_schema());
        }
        out
    }

    fn fields(&self) -> (res: Vec<FieldValue>) {
        let mut out: Vec<FieldValue> = Vec::new();
        out.push(text_field(&self.id));
        proof {
            assert(fields_view(out@) =~= self.spec_fields());
        }
        out
    }

    fn from_fields(fields: Vec<FieldValue>) -> (res: Self) {
        let ghost all = fields_view(fields@);
        let mut fields = fields;
        proof {
            assert(value_fits(Self::spec_schema()[0].1, all[0]));
        }
        let v0 = fields.pop().unwrap();
        proof {
            assert(v0@ == all[0]);
        }
        let r = GetAlbum {
            id: text_from(v0),
        };
        proof {
            assert(r.spec_fields() =~= all);
        }
        r
    }

    proof fn lemma_fields_fit(r: &Self) {
        assert(value_fits(Self::spec_schema()[0].1, r.spec_fields()[0]));
    }

    proof fn lemma_schema_valid() {
        reveal_strlit("id");
        assert(is_plain("id"@));
        lemma_reserved_keys();
        lemma_plain_body_schema(Self::spec_schema());
    }
}

/// Returns details for a song.
///
/// For more information, see <http://www.subsonic.org/pages/api.jsp#getSong>
#[derive(Debug, Clone, PartialEq)]
pub struct GetSong {
    /// The ID of the song to retrieve.
    pub id: String,
}

impl SubsonicRequest for GetSong {
    open spec fn spec_schema() -> Seq<FieldSpecView> {
        seq![
            ("id"@, FieldKind::Required(ScalarKind::Text)),
        ]
    }

    open spec fn spec_fields(&self) -> Seq<FieldValueView> {
        seq![
            text_value(self.id),
        ]
    }

    open spec fn spec_schema_ok() -> bool {
        true
    }

    open spec fn spec_is_body() -> bool {
        true
    }

    open spec fn spec_path() -> Seq<char> {
        "/rest/getSong"@
    }

    open spec fn spec_since() -> Version {
        Version { major: 1, minor: 8, patch: 0 }
    }

    fn path() -> (res: &'static str) {
        "/rest/getSong"
    }

    fn since() -> (res: Version) {
        Version::new(1, 8, 0)
    }

    fn schema() -> (res: Vec<FieldSpec>) {
        let mut out: Vec<FieldSpec> = Vec::new();
        out.push(FieldSpec { key: "id", kind: FieldKind::Required(ScalarKind::Text) });
        proof {
            assert(schema_view(out@) =~= Self::spec_schema());
        }
        out
    }

    fn fields(&self) -> (res: Vec<FieldValue>) {
        let mut out: Vec<FieldValue> = Vec::new();
        out.push(text_field(&self.id));
        proof {
            assert(fields_view(out@) =~= self.spec_fields());
        }
        out
    }

    fn from_fields(fields: Vec<FieldValue>) -> (res: Self) {
        let ghost all = fields_view(fields@);
        let mut fields = fields;
        proof {
            assert(value_fits(Self::spec_schema()[0].1, all[0]));
        }
        let v0 = fields.pop().unwrap();
        proof {
            assert(v0@ == all[0]);
        }
        let r = GetSong {
            id: text_from(v0),
        };
        proof {
            assert(r.spec_fields() =~= all);
        }
        r
    }

    proof fn lemma_fields_fit(r: &Self) {
        assert(value_fits(Self::spec_schema()[0].1, r.spec_fields()[0]));
    }

    proof fn lemma_schema_valid() {
        reveal_strlit("id");
        assert(is_plain("id"@));
        lemma_reserved_keys();
        lemma_plain_body_schema(Self::spec_schema());
    }
}

/// Represents a request to retrieve all video files.
///
/// For more information, see <http://www.subsonic.org/pages/api.jsp#getVideos>
#[derive(Debug, Clone, PartialEq)]
pub struct GetVideos;

impl SubsonicRequest for GetVideos {
    open spec fn spec_schema() -> Seq<FieldSpecView> {
        Seq::<FieldSpecView>::empty()
    }

    open spec fn spec_fields(&self) -> Seq<FieldValueView> {
        Seq::<FieldValueView>::empty()
    }

    open spec fn spec_schema_ok() -> bool {
        true
    }

    open spec fn spec_is_body() -> bool {
        true
    }

    open spec fn spec_path() -> Seq<char> {
        "/rest/getVideos"@
    }

    open spec fn spec_since() -> Version {
        Version { major: 1, minor: 8, patch: 0 }
    }

    fn path() -> (res: &'static str) {
        "/rest/getVideos"
    }

    fn since() -> (res: Version) {
        Version::new(1, 8, 0)
    }

    fn schema() -> (res: Vec<FieldSpec>) {
        let mut out: Vec<FieldSpec> = Vec::new();
        proof {
            assert(schema_view(out@) =~= Self::spec_schema());
        }
        out
    }

    fn fields(&self) -> (res: Vec<FieldValue>) {
        let mut out: Vec<FieldValue> = Vec::new();
        proof {
            assert(fields_view(out@) =~= self.spec_fields());
        }
        out
    }

    fn from_fields(fields: Vec<FieldValue>) -> (res: Self) {
        proof {
            assert(fields_view(fields@) =~= Seq::<FieldValueView>::empty());
        }
        GetVideos
    }

    proof fn lemma_fields_fit(r: &Self) {
    }

    proof fn lemma_schema_valid() {
        lemma_plain_body_schema(Self::spec_schema());
    }
}

/// Returns details for a video, including information about available audio tracks, subtitles (captions) and conversions.
///
/// For more information, see <http://www.subsonic.org/pages/api.jsp#getVideoInfo>
#[derive(Debug, Clone, PartialEq)]
pub struct GetVideoInfo {
    pub id: String,
}

impl SubsonicRequest for GetVideoInfo {
    open spec fn spec_schema() -> Seq<FieldSpecView> {
        seq![
            ("id"@, FieldKind::Required(ScalarKind::Text)),
        ]
    }

    open spec fn spec_fields(&self) -> Seq<FieldValueView> {
        seq![
            text_value(self.id),
        ]
    }

    open spec fn spec_schema_ok() -> bool {
        true
    }

    open spec fn spec_is_body() -> bool {
        true
    }

    open spec fn spec_path() -> Seq<char> {
        "/rest/getVideoInfo"@
    }

    open spec fn spec_since() -> Version {
        Version { major: 1, minor: 14, patch: 0 }
    }

    fn path() -> (res: &'static str) {
        "/rest/getVideoInfo"
    }

    fn since() -> (res: Version) {
        Version::new(1, 14, 0)
    }

    fn schema() -> (res: Vec<FieldSpec>) {
        let mut out: Vec<FieldSpec> = Vec::new();
        out.push(FieldSpec { key: "id", kind: FieldKind::Required(ScalarKind::Text) });
        proof {
            assert(schema_view(out@) =~= Self::spec_schema());
        }
        out
    }

    fn fields(&self) -> (res: Vec<FieldValue>) {
        let mut out: Vec<FieldValue> = Vec::new();
        out.push(text_field(&self.id));
        proof {
            assert(fields_view(out@) =~= self.spec_fields());
        }
        out
    }

    fn from_fields(fields: Vec<FieldValue>) -> (res: Self) {
        let ghost all = fields_view(fields@);
        let mut fields = fields;
        proof {
            assert(value_fits(Self::spec_schema()[0].1, all[0]));
        }
        let v0 = fields.pop().unwrap();
        proof {
            assert(v0@ == all[0]);
        }
        let r = GetVideoInfo {
            id: text_from(v0),
        };
        proof {
            assert(r.spec_fields() =~= all);
        }
        r
    }

    proof fn lemma_fields_fit(r: &Self) {
        assert(value_fits(Self::spec_schema()[0].1, r.spec_fields()[0]));
    }

    proof fn lemma_schema_valid() {
        reveal_strlit("id");
        assert(is_plain("id"@));
        lemma_reserved_keys();
        lemma_plain_body_schema(Self::spec_schema());
    }
}

/// Returns artist info with biography, image URLs and similar artists, using data from <http://last.fm>.
///
/// For more information, see <http://www.subsonic.org/pages/api.jsp#getArtistInfo>
#[derive(Debug, Clone, PartialEq)]
pub struct GetArtistInfo {
    /// The artist, album or song ID.
    pub id: String,
    /// Max number of similar artists to return.
    pub count: Option<u32>,
    /// Whether to return artists that are not present in the media library.
    pub include_not_present: Option<bool>,
}

impl GetArtistInfo {
    pub const DEFAULT_COUNT: u32 = 20;
    pub const DEFAULT_INCLUDE_NOT_PRESENT: bool = false;
}

impl SubsonicRequest for GetArtistInfo {
    open spec fn spec_schema() -> Seq<FieldSpecView> {
        seq![
            ("id"@, FieldKind::Required(ScalarKind::Text)),
            ("count"@, FieldKind::Optional(ScalarKind::U32)),
            ("includeNotPresent"@, FieldKind::OptionalFlag),
        ]
    }

    open spec fn spec_fields(&self) -> Seq<FieldValueView> {
        seq![
            text_value(self.id),
            opt_u32_value(self.count),
            opt_flag_value(self.include_not_present),
        ]
    }

    open spec fn spec_schema_ok() -> bool {
        true
    }

    open spec fn spec_is_body() -> bool {
        true
    }

    open spec fn spec_path() -> Seq<char> {
        "/rest/getArtistInfo"@
    }

    open spec fn spec_since() -> Version {
        Version { major: 1, minor: 11, patch: 0 }
    }

    fn path() -> (res: &'static str) {
        "/rest/getArtistInfo"
    }

    fn since() -> (res: Version) {
        Version::new(1, 11, 0)
    }

    fn schema() -> (res: Vec<FieldSpec>) {
        let mut out: Vec<FieldSpec> = Vec::new();
        out.push(FieldSpec { key: "id", kind: FieldKind::Required(ScalarKind::Text) });
        out.push(FieldSpec { key: "count", kind: FieldKind::Optional(ScalarKind::U32) });
        out.push(FieldSpec { key: "includeNotPresent", kind: FieldKind::OptionalFlag });
        proof {
            assert(schema_view(out@) =~= Self::spec_schema());
        }
        out
    }

    fn fields(&self) -> (res: Vec<FieldValue>) {
        let mut out: Vec<FieldValue> = Vec::new();
        out.push(text_field(&self.id));
        out.push(opt_u32_field(&self.count));
        out.push(opt_flag_field(&self.include_not_present));
        proof {
            assert(fields_view(out@) =~= self.spec_fields());
        }
        out
    }

    fn from_fields(fields: Vec<FieldValue>) -> (res: Self) {
        let ghost all = fields_view(fields@);
        let mut fields = fields;
        proof {
            assert(value_fits(Self::spec_schema()[0].1, all[0]));
            assert(value_fits(Self::spec_schema()[1].1, all[1]));
            assert(value_fits(Self::spec_schema()[2].1, all[2]));
        }
        let v2 = fields.pop().unwrap();
        let v1 = fields.pop().unwrap();
        let v0 = fields.pop().unwrap();
        proof {
            assert(v0@ == all[0]);
            assert(v1@ == all[1]);
            assert(v2@ == all[2]);
        }
        let r = GetArtistInfo {
            id: text_from(v0),
            count: opt_u32_from(v1),
            include_not_present: opt_flag_from(v2),
        };
        proof {
            assert(r.spec_fields() =~= all);
        }
        r
    }

    proof fn lemma_fields_fit(r: &Self) {
        assert(value_fits(Self::spec_schema()[0].1, r.spec_fields()[0]));
        assert(value_fits(Self::spec_schema()[1].1, r.spec_fields()[1]));
        assert(value_fits(Self::spec_schema()[2].1, r.spec_fields()[2]));
    }

    proof fn lemma_schema_valid() {
        reveal_strlit("id");
        reveal_strlit("count");
        reveal_strlit("includeNotPresent");
        assert(is_plain("id"@));
        assert(is_plain("count"@));
        assert(is_plain("includeNotPresent"@));
        lemma_reserved_keys();
        lemma_plain_body_schema(Self::spec_schema());
    }
}

/// Similar to [`GetArtistInfo`], but organizes music according to ID3 tags.
///
/// For more information, see <http://www.subsonic.org/pages/api.jsp#getArtistInfo2>
#[derive(Debug, Clone, PartialEq)]
pub struct GetArtistInfo2 {
    /// The artist, album or song ID.
    pub id: String,
    /// Max number of similar artists to return.
    pub count: Option<u32>,
    /// Whether to return artists that are not present in the media library.
    pub include_not_present: Option<bool>,
}

impl GetArtistInfo2 {
    pub const DEFAULT_COUNT: u32 = 20;
    pub const DEFAULT_INCLUDE_NOT_PRESENT: bool = false;
}

impl SubsonicRequest for GetArtistInfo2 {
    open spec fn spec_schema() -> Seq<FieldSpecView> {
        seq![
            ("id"@, FieldKind::Required(ScalarKind::Text)),
            ("count"@, FieldKind::Optional(ScalarKind::U32)),
            ("includeNotPresent"@, FieldKind::OptionalFlag),
        ]
    }

    open spec fn spec_fields(&self) -> Seq<FieldValueView> {
        seq![
            text_value(self.id),
            opt_u32_value(self.count),
            opt_flag_value(self.include_not_present),
        ]
    }

    open spec fn spec_schema_ok() -> bool {
        true
    }

    open spec fn spec_is_body() -> bool {
        true
    }

    open spec fn spec_path() -> Seq<char> {
        "/rest/getArtistInfo2"@
    }

    open spec fn spec_since() -> Version {
        Version { major: 1, minor: 11, patch: 0 }
    }

    fn path() -> (res: &'static str) {
        "/rest/getArtistInfo2"
    }

    fn since() -> (res: Version) {
        Version::new(1, 11, 0)
    }

    fn schema() -> (res: Vec<FieldSpec>) {
        let mut out: Vec<FieldSpec> = Vec::new();
        out.push(FieldSpec { key: "id", kind: FieldKind::Required(ScalarKind::Text) });
        out.push(FieldSpec { key: "count", kind: FieldKind::Optional(ScalarKind::U32) });
        out.push(FieldSpec { key: "includeNotPresent", kind: FieldKind::OptionalFlag });
        proof {
            assert(schema_view(out@) =~= Self::spec_schema());
        }
        out
    }

    fn fields(&self) -> (res: Vec<FieldValue>) {
        let mut out: Vec<FieldValue> = Vec::new();
        out.push(text_field(&self.id));
        out.push(opt_u32_field(&self.count));
        out.push(opt_flag_field(&self.include_not_present));
        proof {
            assert(fields_view(out@) =~= self.spec_fields());
        }
        out
    }

    fn from_fields(fields: Vec<FieldValue>) -> (res: Self) {
        let ghost all = fields_view(fields@);
        let mut fields = fields;
        proof {
            assert(value_fits(Self::spec_schema()[0].1, all[0]));
            assert(value_fits(Self::spec_schema()[1].1, all[1]));
            assert(value_fits(Self::spec_schema()[2].1, all[2]));
        }
        let v2 = fields.pop().unwrap();
        let v1 = fields.pop().unwrap();
        let v0 = fields.pop().unwrap();
        proof {
            assert(v0@ == all[0]);
            assert(v1@ == all[1]);
            assert(v2@ == all[2]);
        }
        let r = GetArtistInfo2 {
            id: text_from(v0),
            count: opt_u32_from(v1),
            include_not_present: opt_flag_from(v2),
        };
        proof {
            assert(r.spec_fields() =~= all);
        }
        r
    }

    proof fn lemma_fields_fit(r: &Self) {
        assert(value_fits(Self::spec_schema()[0].1, r.spec_fields()[0]));
        assert(value_fits(Self::spec_schema()[1].1, r.spec_fields()[1]));
        assert(value_fits(Self::spec_schema()[2].1, r.spec_fields()[2]));
    }

    proof fn lemma_schema_valid() {
        reveal_strlit("id");
        reveal_strlit("count");
        reveal_strlit("includeNotPresent");
        assert(is_plain("id"@));
        assert(is_plain("count"@));
        assert(is_plain("includeNotPresent"@));
        lemma_reserved_keys();
        lemma_plain_body_schema(Self::spec_schema());
    }
}

/// Returns album notes, image URLs etc, using data from <last.fm>.
///
/// For more information, see <http://www.subsonic.org/pages/api.jsp#getAlbumInfo>
#[derive(Debug, Clone, PartialEq)]
pub struct GetAlbumInfo {
    /// The album or song ID.
    pub id: String,
}

impl SubsonicRequest for GetAlbumInfo {
    open spec fn spec_schema() -> Seq<FieldSpecView> {
        seq![
            ("id"@, FieldKind::Required(ScalarKind::Text)),
        ]
    }

    open spec fn spec_fields(&self) -> Seq<FieldValueView> {
        seq![
            text_value(self.id),
        ]
    }

    open spec fn spec_schema_ok() -> bool {
        true
    }

    open spec fn spec_is_body() -> bool {
        true
    }

    open spec fn spec_path() -> Seq<char> {
        "/rest/getAlbumInfo"@
    }

    open spec fn spec_since() -> Version {
        Version { major: 1, minor: 14, patch: 0 }
    }

    fn path() -> (res: &'static str) {
        "/rest/getAlbumInfo"
    }

    fn since() -> (res: Version) {
        Version::new(1, 14, 0)
    }

    fn schema() -> (res: Vec<FieldSpec>) {
        let mut out: Vec<FieldSpec> = Vec::new();
        out.push(FieldSpec { key: "id", kind: FieldKind::Required(ScalarKind::Text) });
        proof {
            assert(schema_view(out@) =~= Self::spec_schema());
        }
        out
    }

    fn fields(&self) -> (res: Vec<FieldValue>) {
        let mut out: Vec<FieldValue> = Vec::new();
        out.push(text_field(&self.id));
        proof {
            assert(fields_view(out@) =~= self.spec_fields());
        }
        out
    }

    fn from_fields(fields: Vec<FieldValue>) -> (res: Self) {
        let ghost all = fields_view(fields@);
        let mut fields = fields;
        proof {
            assert(value_fits(Self::spec_schema()[0].1, all[0]));
        }
        let v0 = fields.pop().unwrap();
        proof {
            assert(v0@ == all[0]);
        }
        let r = GetAlbumInfo {
            id: text_from(v0),
        };
        proof {
            assert(r.spec_fields() =~= all);
        }
        r
    }

    proof fn lemma_fields_fit(r: &Self) {
        assert(value_fits(Self::spec_schema()[0].1, r.spec_fields()[0]));
    }

    proof fn lemma_schema_valid() {
        reveal_strlit("id");
        assert(is_plain("id"@));
        lemma_reserved_keys();
        lemma_plain_body_schema(Self::spec_schema());
    }
}

/// Similar to [`GetAlbumInfo`], but organizes music according to ID3 tags.
///
/// For more information, see <http://www.subsonic.org/pages/api.jsp#getAlbumInfo2>
#[derive(Debug, Clone, PartialEq)]
pub struct GetAlbumInfo2 {
    /// The album or song ID.
    pub id: String,
}

impl SubsonicRequest for GetAlbumInfo2 {
    open spec fn spec_schema() -> Seq<FieldSpecView> {
        seq![
            ("id"@, FieldKind::Required(ScalarKind::Text)),
        ]
    }

    open spec fn spec_fields(&self) -> Seq<FieldValueView> {
        seq![
            text_value(self.id),
        ]
    }

    open spec fn spec_schema_ok() -> bool {
        true
    }

    open spec fn spec_is_body() -> bool {
        true
    }

    open spec fn spec_path() -> Seq<char> {
        "/rest/getAlbumInfo2"@
    }

    open spec fn spec_since() -> Version {
        Version { major: 1, minor: 14, patch: 0 }
    }

    fn path() -> (res: &'static str) {
        "/rest/getAlbumInfo2"
    }

    fn since() -> (res: Version) {
        Version::new(1, 14, 0)
    }

    fn schema() -> (res: Vec<FieldSpec>) {
        let mut out: Vec<FieldSpec> = Vec::new();
        out.push(FieldSpec { key: "id", kind: FieldKind::Required(ScalarKind::Text) });
        proof {
            assert(schema_view(out@) =~= Self::spec_schema());
        }
        out
    }

    fn fields(&self) -> (res: Vec<FieldValue>) {
        let mut out: Vec<FieldValue> = Vec::new();
        out.push(text_field(&self.id));
        proof {
            assert(fields_view(out@) =~= self.spec_fields());
        }
        out
    }

    fn from_fields(fields: Vec<FieldValue>) -> (res: Self) {
        let ghost all = fields_view(fields@);
        let mut fields = fields;
        proof {
            assert(value_fits(Self::spec_schema()[0].1, all[0]));
        }
        let v0 = fields.pop().unwrap();
        proof {
            assert(v0@ == all[0]);
        }
        let r = GetAlbumInfo2 {
            id: text_from(v0),
        };
        proof {
            assert(r.spec_fields() =~= all);
        }
        r
    }

    proof fn lemma_fields_fit(r: &Self) {
        assert(value_fits(Self::spec_schema()[0].1, r.spec_fields()[0]));
    }

    proof fn lemma_schema_valid() {
        reveal_strlit("id");
        assert(is_plain("id"@));
        lemma_reserved_keys();
        lemma_plain_body_schema(Self::spec_schema());
    }
}

/// Returns a random collection of songs from the given artist and similar artists, using data from last.fm. Typically used for artist radio features.
///
/// For more information, see <http://www.subsonic.org/pages/api.jsp#getSimilarSongs>
#[derive(Debug, Clone, PartialEq)]
pub struct GetSimilarSongs {
    /// The artist, album or song ID.
    pub id: String,
    /// Max number of songs to return.
    pub count: Option<u32>,
}

impl GetSimilarSongs {
    pub const DEFAULT_COUNT: u32 = 50;
}

impl SubsonicRequest for GetSimilarSongs {
    open spec fn spec_schema() -> Seq<FieldSpecView> {
        seq![
            ("id"@, FieldKind::Required(ScalarKind::Text)),
            ("count"@, FieldKind::Optional(ScalarKind::U32)),
        ]
    }

    open spec fn spec_fields(&self) -> Seq<FieldValueView> {
        seq![
            text_value(self.id),
            opt_u32_value(self.count),
        ]
    }

    open spec fn spec_schema_ok() -> bool {
        true
    }

    open spec fn spec_is_body() -> bool {
        true
    }

    open spec fn spec_path() -> Seq<char> {
        "/rest/getSimilarSongs"@
    }

    open spec fn spec_since() -> Version {
        Version { major: 1, minor: 11, patch: 0 }
    }

    fn path() -> (res: &'static str) {
        "/rest/getSimilarSongs"
    }

    fn since() -> (res: Version) {
        Version::new(1, 11, 0)
    }

    fn schema() -> (res: Vec<FieldSpec>) {
        let mut out: Vec<FieldSpec> = Vec::new();
        out.push(FieldSpec { key: "id", kind: FieldKind::Required(ScalarKind::Text) });
        out.push(FieldSpec { key: "count", kind: FieldKind::Optional(ScalarKind::U32) });
        proof {
            assert(schema_view(out@) =~= Self::spec_schema());
        }
        out
    }

    fn fields(&self) -> (res: Vec<FieldValue>) {
        let mut out: Vec<FieldValue> = Vec::new();
        out.push(text_field(&self.id));
        out.push(opt_u32_field(&self.count));
        proof {
            assert(fields_view(out@) =~= self.spec_fields());
        }
        out
    }

    fn from_fields(fields: Vec<FieldValue>) -> (res: Self) {
        let ghost all = fields_view(fields@);
        let mut fields = fields;
        proof {
            assert(value_fits(Self::spec_schema()[0].1, all[0]));
            assert(value_fits(Self::spec_schema()[1].1, all[1]));
        }
        let v1 = fields.pop().unwrap();
        let v0 = fields.pop().unwrap();
        proof {
            assert(v0@ == all[0]);
            assert(v1@ == all[1]);
        }
        let r = GetSimilarSongs {
            id: text_from(v0),
            count: opt_u32_from(v1),
        };
        proof {
            assert(r.spec_fields() =~= all);
        }
        r
    }

    proof fn lemma_fields_fit(r: &Self) {
        assert(value_fits(Self::spec_schema()[0].1, r.spec_fields()[0]));
        assert(value_fits(Self::spec_schema()[1].1, r.spec_fields()[1]));
    }

    proof fn lemma_schema_valid() {
        reveal_strlit("id");
        reveal_strlit("count");
        assert(is_plain("id"@));
        assert(is_plain("count"@));
        lemma_reserved_keys();
        lemma_plain_body_schema(Self::spec_schema());
    }
}

/// Similar to [`GetSimilarSongs`], but organizes music according to ID3 tags.
///
/// For more information, see <http://www.subsonic.org/pages/api.jsp#getSimilarSongs2>
#[derive(Debug, Clone, PartialEq)]
pub struct GetSimilarSongs2 {
    /// The artist, album or song ID.
    pub id: String,
    /// Max number of songs to return.
    pub count: Option<u32>,
}

impl GetSimilarSongs2 {
    pub const DEFAULT_COUNT: u32 = 50;
}

impl SubsonicRequest for GetSimilarSongs2 {
    open spec fn spec_schema() -> Seq<FieldSpecView> {
        seq![
            ("id"@, FieldKind::Required(ScalarKind::Text)),
            ("count"@, FieldKind::Optional(ScalarKind::U32)),
        ]
    }

    open spec fn spec_fields(&self) -> Seq<FieldValueView> {
        seq![
            text_value(self.id),
            opt_u32_value(self.count),
        ]
    }

    open spec fn spec_schema_ok() -> bool {
        true
    }

    open spec fn spec_is_body() -> bool {
        true
    }

    open spec fn spec_path() -> Seq<char> {
        "/rest/getSimilarSongs2"@
    }

    open spec fn spec_since() -> Version {
        Version { major: 1, minor: 11, patch: 0 }
    }

    fn path() -> (res: &'static str) {
        "/rest/getSimilarSongs2"
    }

    fn since() -> (res: Version) {
        Version::new(1, 11, 0)
    }

    fn schema() -> (res: Vec<FieldSpec>) {
        let mut out: Vec<FieldSpec> = Vec::new();
        out.push(FieldSpec { key: "id", kind: FieldKind::Required(ScalarKind::Text) });
        out.push(FieldSpec { key: "count", kind: FieldKind::Optional(ScalarKind::U32) });
        proof {
            assert(schema_view(out@) =~= Self::spec_schema());
        }
        out
    }

    fn fields(&self) -> (res: Vec<FieldValue>) {
        let mut out: Vec<FieldValue> = Vec::new();
        out.push(text_field(&self.id));
        out.push(opt_u32_field(&self.count));
        proof {
            assert(fields_view(out@) =~= self.spec_fields());
        }
        out
    }

    fn from_fields(fields: Vec<FieldValue>) -> (res: Self) {
        let ghost all = fields_view(fields@);
        let mut fields = fields;
        proof {
            assert(value_fits(Self::spec_schema()[0].1, all[0]));
            assert(value_fits(Self::spec_schema()[1].1, all[1]));
        }
        let v1 = fields.pop().unwrap();
        let v0 = fields.pop().unwrap();
        proof {
            assert(v0@ == all[0]);
            assert(v1@ == all[1]);
        }
        let r = GetSimilarSongs2 {
            id: text_from(v0),
            count: opt_u32_from(v1),
        };
        proof {
            assert(r.spec_fields() =~= all);
        }
        r
    }

    proof fn lemma_fields_fit(r: &Self) {
        assert(value_fits(Self::spec_schema()[0].1, r.spec_fields()[0]));
        assert(value_fits(Self::spec_schema()[1].1, r.spec_fields()[1]));
    }

    proof fn lemma_schema_valid() {
        reveal_strlit("id");
        reveal_strlit("count");
        assert(is_plain("id"@));
        assert(is_plain("count"@));
        lemma_reserved_keys();
        lemma_plain_body_schema(Self::spec_schema());
    }
}

/// Returns top songs for the given artist, using data from <last.fm>.
///
/// For more information, see <http://www.subsonic.org/pages/api.jsp#getTopSongs>
#[derive(Debug, Clone, PartialEq)]
pub struct GetTopSongs {
    /// The artist name.
    pub id: String,
    /// Max number of songs to return.
    pub count: Option<u32>,
}

impl GetTopSongs {
    pub const DEFAULT_COUNT: u32 = 50;
}

impl SubsonicRequest for GetTopSongs {
    open spec fn spec_schema() -> Seq<FieldSpecView> {
        seq![
            ("id"@, FieldKind::Required(ScalarKind::Text)),
            ("count"@, FieldKind::Optional(ScalarKind::U32)),
        ]
    }

    open spec fn spec_fields(&self) -> Seq<FieldValueView> {
        seq![
            text_value(self.id),
            opt_u32_value(self.count),
        ]
    }

    open spec fn spec_schema_ok() -> bool {
        true
    }

    open spec fn spec_is_body() -> bool {
        true
    }

    open spec fn spec_path() -> Seq<char> {
        "/rest/getTopSongs"@
    }

    open spec fn spec_since() -> Version {
        Version { major: 1, minor: 13, patch: 0 }
    }

    fn path() -> (res: &'static str) {
        "/rest/getTopSongs"
    }

    fn since() -> (res: Version) {
        Version::new(1, 13, 0)
    }

    fn schema() -> (res: Vec<FieldSpec>) {
        let mut out: Vec<FieldSpec> = Vec::new();
        out.push(FieldSpec { key: "id", kind: FieldKind::Required(ScalarKind::Text) });
        out.push(FieldSpec { key: "count", kind: FieldKind::Optional(ScalarKind::U32) });
        proof {
            assert(schema_view(out@) =~= Self::spec_schema());
        }
        out
    }

    fn fields(&self) -> (res: Vec<FieldValue>) {
        let mut out: Vec<FieldValue> = Vec::new();
        out.push(text_field(&self.id));
        out.push(opt_u32_field(&self.count));
        proof {
            assert(fields_view(out@) =~= self.spec_fields());
        }
        out
    }

    fn from_fields(fields: Vec<FieldValue>) -> (res: Self) {
        let ghost all = fields_view(fields@);
        let mut fields = fields;
        proof {
            assert(value_fits(Self::spec_schema()[0].1, all[0]));
            assert(value_fits(Self::spec_schema()[1].1, all[1]));
        }
        let v1 = fields.pop().unwrap();
        let v0 = fields.pop().unwrap();
        proof {
            assert(v0@ == all[0]);
            assert(v1@ == all[1]);
        }
        let r = GetTopSongs {
            id: text_from(v0),
            count: opt_u32_from(v1),
        };
        proof {
            assert(r.spec_fields() =~= all);
        }
        r
    }

    proof fn lemma_fields_fit(r: &Self) {
        assert(value_fits(Self::spec_schema()[0].1, r.spec_fields()[0]));
        assert(value_fits(Self::spec_schema()[1].1, r.spec_fields()[1]));
    }

    proof fn lemma_schema_valid() {
        reveal_strlit("id");
        reveal_strlit("count");
        assert(is_plain("id"@));
        assert(is_plain("count"@));
        lemma_reserved_keys();
        lemma_plain_body_schema(Self::spec_schema());
    }
}

/// A [`GetIndexes`] is written as the pairs of its set fields, in the order
/// they are declared, each under the camelCase name of its struct field:
/// `musicFolderId`, `ifModifiedSince`.
pub proof fn lemma_get_indexes_pairs(r: &GetIndexes)
    ensures
        fields_pairs(GetIndexes::spec_schema(), r.spec_fields()) == opt_text_pairs("musicFolderId"@, r.music_folder_id)
            + opt_millis_pairs("ifModifiedSince"@, r.if_modified_since),
{
    let s = GetIndexes::spec_schema();
    let f = r.spec_fields();
    assert(fields_pairs(s, f.take(0)) =~= Seq::<PairView>::empty());
    assert(fields_pairs(s, f.take(1)) == fields_pairs(s, f.take(0)) + opt_text_pairs("musicFolderId"@, r.music_folder_id)) by {
        lemma_fields_pairs_take(s, f, 0);
    }
    assert(fields_pairs(s, f.take(2)) == fields_pairs(s, f.take(1)) + opt_millis_pairs("ifModifiedSince"@, r.if_modified_since)) by {
        lemma_fields_pairs_take(s, f, 1);
    }
    assert(fields_pairs(s, f.take(1)) =~= opt_text_pairs("musicFolderId"@, r.music_folder_id));
    assert(f.take(2) =~= f);
}

/// A [`GetMusicDirectory`] is written as the pairs of its set fields, in the order
/// they are declared, each under the camelCase name of its struct field:
/// `id`.
pub proof fn lemma_get_music_directory_pairs(r: &GetMusicDirectory)
    ensures
        fields_pairs(GetMusicDirectory::spec_schema(), r.spec_fields()) == text_pairs("id"@, r.id),
{
    let s = GetMusicDirectory::spec_schema();
    let f = r.spec_fields();
    assert(fields_pairs(s, f.take(0)) =~= Seq::<PairView>::empty());
    assert(fields_pairs(s, f.take(1)) == fields_pairs(s, f.take(0)) + text_pairs("id"@, r.id)) by {
        lemma_fields_pairs_take(s, f, 0);
    }
    assert(fields_pairs(s, f.take(1)) =~= text_pairs("id"@, r.id));
    assert(f.take(1) =~= f);
}

/// A [`GetArtists`] is written as the pairs of its set fields, in the order
/// they are declared, each under the camelCase name of its struct field:
/// `musicFolderId`.
pub proof fn lemma_get_artists_pairs(r: &GetArtists)
    ensures
        fields_pairs(GetArtists::spec_schema(), r.spec_fields()) == opt_u32_pairs("musicFolderId"@, r.music_folder_id),
{
    let s = GetArtists::spec_schema();
    let f = r.spec_fields();
    assert(fields_pairs(s, f.take(0)) =~= Seq::<PairView>::empty());
    assert(fields_pairs(s, f.take(1)) == fields_pairs(s, f.take(0)) + opt_u32_pairs("musicFolderId"@, r.music_folder_id)) by {
        lemma_fields_pairs_take(s, f, 0);
    }
    assert(fields_pairs(s, f.take(1)) =~= opt_u32_pairs("musicFolderId"@, r.music_folder_id));
    assert(f.take(1) =~= f);
}

/// A [`GetArtist`] is written as the pairs of its set fields, in the order
/// they are declared, each under the camelCase name of its struct field:
/// `id`.
pub proof fn lemma_get_artist_pairs(r: &GetArtist)
    ensures
        fields_pairs(GetArtist::spec_schema(), r.spec_fields()) == text_pairs("id"@, r.id),
{
    let s = GetArtist::spec_schema();
    let f = r.spec_fields();
    assert(fields_pairs(s, f.take(0)) =~= Seq::<PairView>::empty());
    assert(fields_pairs(s, f.take(1)) == fields_pairs(s, f.take(0)) + text_pairs("id"@, r.id)) by {
        lemma_fields_pairs_take(s, f, 0);
    }
    assert(fields_pairs(s, f.take(1)) =~= text_pairs("id"@, r.id));
    assert(f.take(1) =~= f);
}

/// A [`GetAlbum`] is written as the pairs of its set fields, in the order
/// they are declared, each under the camelCase name of its struct field:
/// `id`.
pub proof fn lemma_get_album_pairs(r: &GetAlbum)
    ensures
        fields_pairs(GetAlbum::spec_schema(), r.spec_fields()) == text_pairs("id"@, r.id),
{
    let s = GetAlbum::spec_schema();
    let f = r.spec_fields();
    assert(fields_pairs(s, f.take(0)) =~= Seq::<PairView>::empty());
    assert(fields_pairs(s, f.take(1)) == fields_pairs(s, f.take(0)) + text_pairs("id"@, r.id)) by {
        lemma_fields_pairs_take(s, f, 0);
    }
    assert(fields_pairs(s, f.take(1)) =~= text_pairs("id"@, r.id));
    assert(f.take(1) =~= f);
}

/// A [`GetSong`] is written as the pairs of its set fields, in the order
/// they are declared, each under the camelCase name of its struct field:
/// `id`.
pub proof fn lemma_get_song_pairs(r: &GetSong)
    ensures
        fields_pairs(GetSong::spec_schema(), r.spec_fields()) == text_pairs("id"@, r.id),
{
    let s = GetSong::spec_schema();
    let f = r.spec_fields();
    assert(fields_pairs(s, f.take(0)) =~= Seq::<PairView>::empty());
    assert(fields_pairs(s, f.take(1)) == fields_pairs(s, f.take(0)) + text_pairs("id"@, r.id)) by {
        lemma_fields_pairs_take(s, f, 0);
    }
    assert(fields_pairs(s, f.take(1)) =~= text_pairs("id"@, r.id));
    assert(f.take(1) =~= f);
}

/// A [`GetVideoInfo`] is written as the pairs of its set fields, in the order
/// they are declared, each under the camelCase name of its struct field:
/// `id`.
pub proof fn lemma_get_video_info_pairs(r: &GetVideoInfo)
    ensures
        fields_pairs(GetVideoInfo::spec_schema(), r.spec_fields()) == text_pairs("id"@, r.id),
{
    let s = GetVideoInfo::spec_schema();
    let f = r.spec_fields();
    assert(fields_pairs(s, f.take(0)) =~= Seq::<PairView>::empty());
    assert(fields_pairs(s, f.take(1)) == fields_pairs(s, f.take(0)) + text_pairs("id"@, r.id)) by {
        lemma_fields_pairs_take(s, f, 0);
    }
    assert(fields_pairs(s, f.take(1)) =~= text_pairs("id"@, r.id));
    assert(f.take(1) =~= f);
}

/// A [`GetArtistInfo`] is written as the pairs of its set fields, in the order
/// they are declared, each under the camelCase name of its struct field:
/// `id`, `count`, `includeNotPresent`.
pub proof fn lemma_get_artist_info_pairs(r: &GetArtistInfo)
    ensures
        fields_pairs(GetArtistInfo::spec_schema(), r.spec_fields()) == text_pairs("id"@, r.id)
            + opt_u32_pairs("count"@, r.count)
            + opt_flag_pairs("includeNotPresent"@, r.include_not_present),
{
    let s = GetArtistInfo::spec_schema();
    let f = r.spec_fields();
    assert(fields_pairs(s, f.take(0)) =~= Seq::<PairView>::empty());
    assert(fields_pairs(s, f.take(1)) == fields_pairs(s, f.take(0)) + text_pairs("id"@, r.id)) by {
        lemma_fields_pairs_take(s, f, 0);
    }
    assert(fields_pairs(s, f.take(2)) == fields_pairs(s, f.take(1)) + opt_u32_pairs("count"@, r.count)) by {
        lemma_fields_pairs_take(s, f, 1);
    }
    assert(fields_pairs(s, f.take(3)) == fields_pairs(s, f.take(2)) + opt_flag_pairs("includeNotPresent"@, r.include_not_present)) by {
        lemma_fields_pairs_take(s, f, 2);
    }
    assert(fields_pairs(s, f.take(1)) =~= text_pairs("id"@, r.id));
    assert(f.take(3) =~= f);
}

/// A [`GetArtistInfo2`] is written as the pairs of its set fields, in the order
/// they are declared, each under the camelCase name of its struct field:
/// `id`, `count`, `includeNotPresent`.
pub proof fn lemma_get_artist_info2_pairs(r: &GetArtistInfo2)
    ensures
        fields_pairs(GetArtistInfo2::spec_schema(), r.spec_fields()) == text_pairs("id"@, r.id)
            + opt_u32_pairs("count"@, r.count)
            + opt_flag_pairs("includeNotPresent"@, r.include_not_present),
{
    let s = GetArtistInfo2::spec_schema();
    let f = r.spec_fields();
    assert(fields_pairs(s, f.take(0)) =~= Seq::<PairView>::empty());
    assert(fields_pairs(s, f.take(1)) == fields_pairs(s, f.take(0)) + text_pairs("id"@, r.id)) by {
        lemma_fields_pairs_take(s, f, 0);
    }
    assert(fields_pairs(s, f.take(2)) == fields_pairs(s, f.take(1)) + opt_u32_pairs("count"@, r.count)) by {
        lemma_fields_pairs_take(s, f, 1);
    }
    assert(fields_pairs(s, f.take(3)) == fields_pairs(s, f.take(2)) + opt_flag_pairs("includeNotPresent"@, r.include_not_present)) by {
        lemma_fields_pairs_take(s, f, 2);
    }
    assert(fields_pairs(s, f.take(1)) =~= text_pairs("id"@, r.id));
    assert(f.take(3) =~= f);
}

/// A [`GetAlbumInfo`] is written as the pairs of its set fields, in the order
/// they are declared, each under the camelCase name of its struct field:
/// `id`.
pub proof fn lemma_get_album_info_pairs(r: &GetAlbumInfo)
    ensures
        fields_pairs(GetAlbumInfo::spec_schema(), r.spec_fields()) == text_pairs("id"@, r.id),
{
    let s = GetAlbumInfo::spec_schema();
    let f = r.spec_fields();
    assert(fields_pairs(s, f.take(0)) =~= Seq::<PairView>::empty());
    assert(fields_pairs(s, f.take(1)) == fields_pairs(s, f.take(0)) + text_pairs("id"@, r.id)) by {
        lemma_fields_pairs_take(s, f, 0);
    }
    assert(fields_pairs(s, f.take(1)) =~= text_pairs("id"@, r.id));
    assert(f.take(1) =~= f);
}

/// A [`GetAlbumInfo2`] is written as the pairs of its set fields, in the order
/// they are declared, each under the camelCase name of its struct field:
/// `id`.
pub proof fn lemma_get_album_info2_pairs(r: &GetAlbumInfo2)
    ensures
        fields_pairs(GetAlbumInfo2::spec_schema(), r.spec_fields()) == text_pairs("id"@, r.id),
{
    let s = GetAlbumInfo2::spec_schema();
    let f = r.spec_fields();
    assert(fields_pairs(s, f.take(0)) =~= Seq::<PairView>::empty());
    assert(fields_pairs(s, f.take(1)) == fields_pairs(s, f.take(0)) + text_pairs("id"@, r.id)) by {
        lemma_fields_pairs_take(s, f, 0);
    }
    assert(fields_pairs(s, f.take(1)) =~= text_pairs("id"@, r.id));
    assert(f.take(1) =~= f);
}

/// A [`GetSimilarSongs`] is written as the pairs of its set fields, in the order
/// they are declared, each under the camelCase name of its struct field:
/// `id`, `count`.
pub proof fn lemma_get_similar_songs_pairs(r: &GetSimilarSongs)
    ensures
        fields_pairs(GetSimilarSongs::spec_schema(), r.spec_fields()) == text_pairs("id"@, r.id)
            + opt_u32_pairs("count"@, r.count),
{
    let s = GetSimilarSongs::spec_schema();
    let f = r.spec_fields();
    assert(fields_pairs(s, f.take(0)) =~= Seq::<PairView>::empty());
    assert(fields_pairs(s, f.take(1)) == fields_pairs(s, f.take(0)) + text_pairs("id"@, r.id)) by {
        lemma_fields_pairs_take(s, f, 0);
    }
    assert(fields_pairs(s, f.take(2)) == fields_pairs(s, f.take(1)) + opt_u32_pairs("count"@, r.count)) by {
        lemma_fields_pairs_take(s, f, 1);
    }
    assert(fields_pairs(s, f.take(1)) =~= text_pairs("id"@, r.id));
    assert(f.take(2) =~= f);
}

/// A [`GetSimilarSongs2`] is written as the pairs of its set fields, in the order
/// they are declared, each under the camelCase name of its struct field:
/// `id`, `count`.
pub proof fn lemma_get_similar_songs2_pairs(r: &GetSimilarSongs2)
    ensures
        fields_pairs(GetSimilarSongs2::spec_schema(), r.spec_fields()) == text_pairs("id"@, r.id)
            + opt_u32_pairs("count"@, r.count),
{
    let s = GetSimilarSongs2::spec_schema();
    let f = r.spec_fields();
    assert(fields_pairs(s, f.take(0)) =~= Seq::<PairView>::empty());
    assert(fields_pairs(s, f.take(1)) == fields_pairs(s, f.take(0)) + text_pairs("id"@, r.id)) by {
        lemma_fields_pairs_take(s, f, 0);
    }
    assert(fields_pairs(s, f.take(2)) == fields_pairs(s, f.take(1)) + opt_u32_pairs("count"@, r.count)) by {
        lemma_fields_pairs_take(s, f, 1);
    }
    assert(fields_pairs(s, f.take(1)) =~= text_pairs("id"@, r.id));
    assert(f.take(2) =~= f);
}

/// A [`GetTopSongs`] is written as the pairs of its set fields, in the order
/// they are declared, each under the camelCase name of its struct field:
/// `id`, `count`.
pub proof fn lemma_get_top_songs_pairs(r: &GetTopSongs)
    ensures
        fields_pairs(GetTopSongs::spec_schema(), r.spec_fields()) == text_pairs("id"@, r.id)
            + opt_u32_pairs("count"@, r.count),
{
    let s = GetTopSongs::spec_schema();
    let f = r.spec_fields();
    assert(fields_pairs(s, f.take(0)) =~= Seq::<PairView>::empty());
    assert(fields_pairs(s, f.take(1)) == fields_pairs(s, f.take(0)) + text_pairs("id"@, r.id)) by {
        lemma_fields_pairs_take(s, f, 0);
    }
    assert(fields_pairs(s, f.take(2)) == fields_pairs(s, f.take(1)) + opt_u32_pairs("count"@, r.count)) by {
        lemma_fields_pairs_take(s, f, 1);
    }
    assert(fields_pairs(s, f.take(1)) =~= text_pairs("id"@, r.id));
    assert(f.take(2) =~= f);
}

} // verus!
