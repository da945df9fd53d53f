//! User management requests.
use vstd::prelude::*;

use crate::codec::{fields_view, schema_view, FieldKind, FieldSpec, FieldSpecView, FieldValue, FieldValueView, ScalarKind};
use crate::common::{Version, AudioBitrate};
use crate::request::values::{opt_audio_field, opt_audio_from, opt_audio_value, opt_flag_field, opt_flag_from, opt_flag_value, opt_text_field, opt_text_from, opt_text_value, text_field, text_from, text_value, texts_field, texts_from, texts_value};
use crate::request::SubsonicRequest;
use crate::roundtrip::{is_plain, lemma_plain_body_schema, lemma_reserved_keys, value_fits};

use crate::codec::{fields_pairs, lemma_fields_pairs_take};
use crate::query::PairView;
use crate::request::values::{lemma_texts_pairs, opt_audio_pairs, opt_flag_pairs, opt_text_pairs, text_pairs, texts_pairs};

verus! {

/// Get details about a given user, including which authorization roles and folder access it has.
/// Can be used to enable/disable certain features in the client, such as jukebox control.
///
/// For more information, see <http://www.subsonic.org/pages/api.jsp#getUser>
#[derive(Debug, Clone, PartialEq)]
pub struct GetUser {
    /// The name of the user to retrieve.
    /// You can only retrieve your own user unless you have admin privileges.
    pub username: String,
}

impl SubsonicRequest for GetUser {
    open spec fn spec_schema() -> Seq<FieldSpecView> {
        seq![
            ("username"@, FieldKind::Required(ScalarKind::Text)),
        ]
    }

    open spec fn spec_fields(&self) -> Seq<FieldValueView> {
        seq![
            text_value(self.username),
        ]
    }

    open spec fn spec_schema_ok() -> bool {
        true
    }

    open spec fn spec_is_body() -> bool {
        true
    }

    open spec fn spec_path() -> Seq<char> {
        "/rest/getUser"@
    }

    open spec fn spec_since() -> Version {
        Version { major: 1, minor: 3, patch: 0 }
    }

    fn path() -> (res: &'static str) {
        "/rest/getUser"
    }

    fn since() -> (res: Version) {
        Version::new(1, 3, 0)
    }

    fn schema() -> (res: Vec<FieldSpec>) {
        let mut out: Vec<FieldSpec> = Vec::new();
        out.push(FieldSpec { key: "username", kind: FieldKind::Required(ScalarKind::Text) });
        proof {
            assert(schema_view(out@) =~= Self::spec_schema());
        }
        out
    }

    fn fields(&self) -> (res: Vec<FieldValue>) {
        let mut out: Vec<FieldValue> = Vec::new();
        out.push(text_field(&self.username));
        proof {
            assert(fields_view(out@) =~= self.spec_fields());
        }
        out
    }

    fn from_fields(fields: Vec<FieldValue>) -> (res: Self) {
        let ghost all = fields_view(fields@);
        let mut fields = fields;
        proof {
            assert(value_fits(Self::spec_schema()[0].1, all[0]));
        }
        let v0 = fields.pop().unwrap();
        proof {
            assert(v0@ == all[0]);
        }
        let r = GetUser {
            username: text_from(v0),
        };
        proof {
            assert(r.spec_fields() =~= all);
        }
        r
    }

    proof fn lemma_fields_fit(r: &Self) {
        assert(value_fits(Self::spec_schema()[0].1, r.spec_fields()[0]));
    }

    proof fn lemma_schema_valid() {
        reveal_strlit("username");
        assert(is_plain("username"@));
        lemma_reserved_keys();
        lemma_plain_body_schema(Self::spec_schema());
    }
}

///  Get details about all users, including which authorization roles and folder access they have.
/// Only users with admin privileges are allowed to call this method.
///
/// For more information, see <http://www.subsonic.org/pages/api.jsp#getUsers>
#[derive(Debug, Clone, PartialEq)]
pub struct GetUsers;

impl SubsonicRequest for GetUsers {
    open spec fn spec_schema() -> Seq<FieldSpecView> {
        Seq::<FieldSpecView>::empty()
    }

    open spec fn spec_fields(&self) -> Seq<FieldValueView> {
        Seq::<FieldValueView>::empty()
    }

    open spec fn spec_schema_ok() -> bool {
        true
    }

    open spec fn spec_is_body() -> bool {
        true
    }

    open spec fn spec_path() -> Seq<char> {
        "/rest/getUsers"@
    }

    open spec fn spec_since() -> Version {
        Version { major: 1, minor: 8, patch: 0 }
    }

    fn path() -> (res: &'static str) {
        "/rest/getUsers"
    }

    fn since() -> (res: Version) {
        Version::new(1, 8, 0)
    }

    fn schema() -> (res: Vec<FieldSpec>) {
        let mut out: Vec<FieldSpec> = Vec::new();
        proof {
            assert(schema_view(out@) =~= Self::spec_schema());
        }
        out
    }

    fn fields(&self) -> (res: Vec<FieldValue>) {
        let mut out: Vec<FieldValue> = Vec::new();
        proof {
            assert(fields_view(out@) =~= self.spec_fields());
        }
        out
    }

    fn from_fields(fields: Vec<FieldValue>) -> (res: Self) {
        proof {
            assert(fields_view(fields@) =~= Seq::<FieldValueView>::empty());
        }
        GetUsers
    }

    proof fn lemma_fields_fit(r: &Self) {
    }

    proof fn lemma_schema_valid() {
        lemma_plain_body_schema(Self::spec_schema());
    }
}

/// Creates a new Subsonic user, using the following parameters.
///
/// For more information, see <http://www.subsonic.org/pages/api.jsp#createUser>
#[derive(Debug, Clone, PartialEq)]
pub struct CreateUser {
    /// The name of the new user.
    pub username: String,
    /// The password of the new user, either in clear text of hex-encoded.
    pub password: String,
    /// The email address of the new user.
    pub email: String,
    /// Whether the user is authenicated in LDAP.
    pub ldap_authenticated: Option<bool>,
    /// Whether the user is administrator.
    pub admin_role: Option<bool>,
    /// Whether the user is allowed to change personal settings and password.
    pub settings_role: Option<bool>,
    /// Whether the user is allowed to play files.
    pub stream_role: Option<bool>,
    /// Whether the user is allowed to play files in jukebox mode.
    pub jukebox_role: Option<bool>,
    /// Whether the user is allowed to download files.
    pub download_role: Option<bool>,
    /// Whether the user is allowed to upload files.
    pub upload_role: Option<bool>,
    /// Whether the user is allowed to create and delete playlists. Since 1.8.0, changing this role has no effect.
    pub playlist_role: Option<bool>,
    /// Whether the user is allowed to change cover art and tags.
    pub covert_art_role: Option<bool>,
    /// Whether the user is allowed to create and edit comments and ratings.
    pub comment_role: Option<bool>,
    /// Whether the user is allowed to administrate Podcasts.
    pub podcast_role: Option<bool>,
    /// Since 1.8.0
    /// Whether the user is allowed to share files with anyone.
    pub share_role: Option<bool>,
    /// Since 1.15.0
    /// Whether the user is allowed to start video conversions.
    pub video_conversion_role: Option<bool>,
    /// Since 1.12.0
    /// IDs of the music folders the user is allowed access to. Include the parameter once for each folder.
    pub music_folder_id: Vec<String>,
}

impl SubsonicRequest for CreateUser {
    open spec fn spec_schema() -> Seq<FieldSpecView> {
        seq![
            ("username"@, FieldKind::Required(ScalarKind::Text)),
            ("password"@, FieldKind::Required(ScalarKind::Text)),
            ("email"@, FieldKind::Required(ScalarKind::Text)),
            ("ldapAuthenticated"@, FieldKind::OptionalFlag),
            ("adminRole"@, FieldKind::OptionalFlag),
            ("settingsRole"@, FieldKind::OptionalFlag),
            ("streamRole"@, FieldKind::OptionalFlag),
            ("jukeboxRole"@, FieldKind::OptionalFlag),
            ("downloadRole"@, FieldKind::OptionalFlag),
            ("uploadRole"@, FieldKind::OptionalFlag),
            ("playlistRole"@, FieldKind::OptionalFlag),
            ("covertArtRole"@, FieldKind::OptionalFlag),
            ("commentRole"@, FieldKind::OptionalFlag),
            ("podcastRole"@, FieldKind::OptionalFlag),
            ("shareRole"@, FieldKind::OptionalFlag),
            ("videoConversionRole"@, FieldKind::OptionalFlag),
            ("musicFolderId"@, FieldKind::Repeated(ScalarKind::Text)),
        ]
    }

    open spec fn spec_fields(&self) -> Seq<FieldValueView> {
        seq![
            text_value(self.username),
            text_value(self.password),
            text_value(self.email),
            opt_flag_value(self.ldap_authenticated),
            opt_flag_value(self.admin_role),
            opt_flag_value(self.settings_role),
            opt_flag_value(self.stream_role),
            opt_flag_value(self.jukebox_role),
            opt_flag_value(self.download_role),
            opt_flag_value(self.upload_role),
            opt_flag_value(self.playlist_role),
            opt_flag_value(self.covert_art_role),
            opt_flag_value(self.comment_role),
            opt_flag_value(self.podcast_role),
            opt_flag_value(self.share_role),
            opt_flag_value(self.video_conversion_role),
            texts_value(self.music_folder_id@),
        ]
    }

    open spec fn spec_schema_ok() -> bool {
        true
    }

    open spec fn spec_is_body() -> bool {
        true
    }

    open spec fn spec_path() -> Seq<char> {
        "/rest/createUser"@
    }

    open spec fn spec_since() -> Version {
        Version { major: 1, minor: 1, patch: 0 }
    }

    fn path() -> (res: &'static str) {
        "/rest/createUser"
    }

    fn since() -> (res: Version) {
        Version::new(1, 1, 0)
    }

    fn schema() -> (res: Vec<FieldSpec>) {
        let mut out: Vec<FieldSpec> = Vec::new();
        out.push(FieldSpec { key: "username", kind: FieldKind::Required(ScalarKind::Text) });
        out.push(FieldSpec { key: "password", kind: FieldKind::Required(ScalarKind::Text) });
        out.push(FieldSpec { key: "email", kind: FieldKind::Required(ScalarKind::Text) });
        out.push(FieldSpec { key: "ldapAuthenticated", kind: FieldKind::OptionalFlag });
        out.push(FieldSpec { key: "adminRole", kind: FieldKind::OptionalFlag });
        out.push(FieldSpec { key: "settingsRole", kind: FieldKind::OptionalFlag });
        out.push(FieldSpec { key: "streamRole", kind: FieldKind::OptionalFlag });
        out.push(FieldSpec { key: "jukeboxRole", kind: FieldKind::OptionalFlag });
        out.push(FieldSpec { key: "downloadRole", kind: FieldKind::OptionalFlag });
        out.push(FieldSpec { key: "uploadRole", kind: FieldKind::OptionalFlag });
        out.push(FieldSpec { key: "playlistRole", kind: FieldKind::OptionalFlag });
        out.push(FieldSpec { key: "covertArtRole", kind: FieldKind::OptionalFlag });
        out.push(FieldSpec { key: "commentRole", kind: FieldKind::OptionalFlag });
        out.push(FieldSpec { key: "podcastRole", kind: FieldKind::OptionalFlag });
        out.push(FieldSpec { key: "shareRole", kind: FieldKind::OptionalFlag });
        out.push(FieldSpec { key: "videoConversionRole", kind: FieldKind::OptionalFlag });
        out.push(FieldSpec { key: "musicFolderId", kind: FieldKind::Repeated(ScalarKind::Text) });
        proof {
            assert(schema_view(out@) =~= Self::spec_schema());
        }
        out
    }

    fn fields(&self) -> (res: Vec<FieldValue>) {
        let mut out: Vec<FieldValue> = Vec::new();
        out.push(text_field(&self.username));
        out.push(text_field(&self.password));
        out.push(text_field(&self.email));
        out.push(opt_flag_field(&self.ldap_authenticated));
        out.push(opt_flag_field(&self.admin_role));
        out.push(opt_flag_field(&self.settings_role));
        out.push(opt_flag_field(&self.stream_role));
        out.push(opt_flag_field(&self.jukebox_role));
        out.push(opt_flag_field(&self.download_role));
        out.push(opt_flag_field(&self.upload_role));
        out.push(opt_flag_field(&self.playlist_role));
        out.push(opt_flag_field(&self.covert_art_role));
        out.push(opt_flag_field(&self.comment_role));
        out.push(opt_flag_field(&self.podcast_role));
        out.push(opt_flag_field(&self.share_role));
        out.push(opt_flag_field(&self.video_conversion_role));
        out.push(texts_field(&self.music_folder_id));
        proof {
            assert(fields_view(out@) =~= self.spec_fields());
        }
        out
    }

    fn from_fields(fields: Vec<FieldValue>) -> (res: Self) {
        let ghost all = fields_view(fields@);
        let mut fields = fields;
        proof {
            assert(value_fits(Self::spec_schema()[0].1, all[0]));
            assert(value_fits(Self::spec_schema()[1].1, all[1]));
            assert(value_fits(Self::spec_schema()[2].1, all[2]));
            assert(value_fits(Self::spec_schema()[3].1, all[3]));
            assert(value_fits(Self::spec_schema()[4].1, all[4]));
            assert(value_fits(Self::spec_schema()[5].1, all[5]));
            assert(value_fits(Self::spec_schema()[6].1, all[6]));
            assert(value_fits(Self::spec_schema()[7].1, all[7]));
            assert(value_fits(Self::spec_schema()[8].1, all[8]));
            assert(value_fits(Self::spec_schema()[9].1, all[9]));
            assert(value_fits(Self::spec_schema()[10].1, all[10]));
            assert(value_fits(Self::spec_schema()[11].1, all[11]));
            assert(value_fits(Self::spec_schema()[12].1, all[12]));
            assert(value_fits(Self::spec_schema()[13].1, all[13]));
            assert(value_fits(Self::spec_schema()[14].1, all[14]));
            assert(value_fits(Self::spec_schema()[15].1, all[15]));
            assert(value_fits(Self::spec_schema()[16].1, all[16]));
        }
        let v16 = fields.pop().unwrap();
        let v15 = fields.pop().unwrap();
        let v14 = fields.pop().unwrap();
        let v13 = fields.pop().unwrap();
        let v12 = fields.pop().unwrap();
        let v11 = fields.pop().unwrap();
        let v10 = fields.pop().unwrap();
        let v9 = fields.pop().unwrap();
        let v8 = fields.pop().unwrap();
        let v7 = fields.pop().unwrap();
        let v6 = fields.pop().unwrap();
        let v5 = fields.pop().unwrap();
        let v4 = fields.pop().unwrap();
        let v3 = fields.pop().unwrap();
        let v2 = fields.pop().unwrap();
        let v1 = fields.pop().unwrap();
        let v0 = fields.pop().unwrap();
        proof {
            assert(v0@ == all[0]);
            assert(v1@ == all[1]);
            assert(v2@ == all[2]);
            assert(v3@ == all[3]);
            assert(v4@ == all[4]);
            assert(v5@ == all[5]);
            assert(v6@ == all[6]);
            assert(v7@ == all[7]);
            assert(v8@ == all[8]);
            assert(v9@ == all[9]);
            assert(v10@ == all[10]);
            assert(v11@ == all[11]);
            assert(v12@ == all[12]);
            assert(v13@ == all[13]);
            assert(v14@ == all[14]);
            assert(v15@ == all[15]);
            assert(v16@ == all[16]);
        }
        let r = CreateUser {
            username: text_from(v0),
            password: text_from(v1),
            email: text_from(v2),
            ldap_authenticated: opt_flag_from(v3),
            admin_role: opt_flag_from(v4),
            settings_role: opt_flag_from(v5),
            stream_role: opt_flag_from(v6),
            jukebox_role: opt_flag_from(v7),
            download_role: opt_flag_from(v8),
            upload_role: opt_flag_from(v9),
            playlist_role: opt_flag_from(v10),
            covert_art_role: opt_flag_from(v11),
            comment_role: opt_flag_from(v12),
            podcast_role: opt_flag_from(v13),
            share_role: opt_flag_from(v14),
            video_conversion_role: opt_flag_from(v15),
            music_folder_id: texts_from(v16),
        };
        proof {
            assert(r.spec_fields() =~= all);
        }
        r
    }

    proof fn lemma_fields_fit(r: &Self) {
        assert(value_fits(Self::spec_schema()[0].1, r.spec_fields()[0]));
        assert(value_fits(Self::spec_schema()[1].1, r.spec_fields()[1]));
        assert(value_fits(Self::spec_schema()[2].1, r.spec_fields()[2]));
        assert(value_fits(Self::spec_schema()[3].1, r.spec_fields()[3]));
        assert(value_fits(Self::spec_schema()[4].1, r.spec_fields()[4]));
        assert(value_fits(Self::spec_schema()[5].1, r.spec_fields()[5]));
        assert(value_fits(Self::spec_schema()[6].1, r.spec_fields()[6]));
        assert(value_fits(Self::spec_schema()[7].1, r.spec_fields()[7]));
        assert(value_fits(Self::spec_schema()[8].1, r.spec_fields()[8]));
        assert(value_fits(Self::spec_schema()[9].1, r.spec_fields()[9]));
        assert(value_fits(Self::spec_schema()[10].1, r.spec_fields()[10]));
        assert(value_fits(Self::spec_schema()[11].1, r.spec_fields()[11]));
        assert(value_fits(Self::spec_schema()[12].1, r.spec_fields()[12]));
        assert(value_fits(Self::spec_schema()[13].1, r.spec_fields()[13]));
        assert(value_fits(Self::spec_schema()[14].1, r.spec_fields()[14]));
        assert(value_fits(Self::spec_schema()[15].1, r.spec_fields()[15]));
        assert(value_fits(Self::spec_schema()[16].1, r.spec_fields()[16]));
    }

    proof fn lemma_schema_valid() {
        reveal_strlit("username");
        reveal_strlit("password");
        reveal_strlit("email");
        reveal_strlit("ldapAuthenticated");
        reveal_strlit("adminRole");
        reveal_strlit("settingsRole");
        reveal_strlit("streamRole");
        reveal_strlit("jukeboxRole");
        reveal_strlit("downloadRole");
        reveal_strlit("uploadRole");
        reveal_strlit("playlistRole");
        reveal_strlit("covertArtRole");
        reveal_strlit("commentRole");
        reveal_strlit("podcastRole");
        reveal_strlit("shareRole");
        reveal_strlit("videoConversionRole");
        reveal_strlit("musicFolderId");
        assert(is_plain("username"@));
        assert(is_plain("password"@));
        assert(is_plain("email"@));
        assert(is_plain("ldapAuthenticated"@));
        assert(is_plain("adminRole"@));
        assert(is_plain("settingsRole"@));
        assert(is_plain("streamRole"@));
        assert(is_plain("jukeboxRole"@));
        assert(is_plain("downloadRole"@));
        assert(is_plain("uploadRole"@));
        assert(is_plain("playlistRole"@));
        assert(is_plain("covertArtRole"@));
        assert(is_plain("commentRole"@));
        assert(is_plain("podcastRole"@));
        assert(is_plain("shareRole"@));
        assert(is_plain("videoConversionRole"@));
        assert(is_plain("musicFolderId"@));
        lemma_reserved_keys();
        assert("username"@[0] != "password"@[0]);
        assert("adminRole"@[0] != "shareRole"@[0]);
        assert("settingsRole"@[0] != "downloadRole"@[0]);
        assert("settingsRole"@[0] != "playlistRole"@[0]);
        assert("streamRole"@[0] != "uploadRole"@[0]);
        assert("jukeboxRole"@[0] != "commentRole"@[0]);
        assert("jukeboxRole"@[0] != "podcastRole"@[0]);
        assert("downloadRole"@[0] != "playlistRole"@[0]);
        assert("covertArtRole"@[0] != "musicFolderId"@[0]);
        assert("commentRole"@[0] != "podcastRole"@[0]);
        lemma_plain_body_schema(Self::spec_schema());
    }
}

///  Modifies an existing Subsonic user, using the following parameters.
///
/// For more information, see <http://www.subsonic.org/pages/api.jsp#updateUser>
#[derive(Debug, Clone, PartialEq)]
pub struct UpdateUser {
    /// The name of the user.
    pub username: String,
    /// The password of the new user, either in clear text of hex-encoded.
    pub password: Option<String>,
    /// The email address of the new user.
    pub email: Option<String>,
    /// Whether the user is authenicated in LDAP.
    pub ldap_authenticated: Option<bool>,
    /// Whether the user is administrator.
    pub admin_role: Option<bool>,
    /// Whether the user is allowed to change personal settings and password.
    pub settings_role: Option<bool>,
    /// Whether the user is allowed to play files.
    pub stream_role: Option<bool>,
    /// Whether the user is allowed to play files in jukebox mode.
    pub jukebox_role: Option<bool>,
    /// Whether the user is allowed to download files.
    pub download_role: Option<bool>,
    /// Whether the user is allowed to upload files.
    pub upload_role: Option<bool>,
    /// Whether the user is allowed to change cover art and tags.
    pub covert_art_role: Option<bool>,
    /// Whether the user is allowed to create and edit comments and ratings.
    pub comment_role: Option<bool>,
    /// Whether the user is allowed to administrate Podcasts.
    pub podcast_role: Option<bool>,
    /// Whether the user is allowed to share files with anyone.
    pub share_role: Option<bool>,
    /// Since 1.15.0
    /// Whether the user is allowed to start video conversions.
    pub video_conversion_role: Option<bool>,
    /// Since 1.12.0
    /// IDs of the music folders the user is allowed access to.
    pub music_folder_id: Vec<String>,
    /// Since 1.13.0
    /// he maximum bit rate (in Kbps) for the user.
    /// Audio streams of higher bit rates are automatically downsampled to this bit rate.
    /// Legal values: 0 (no limit), 32, 40, 48, 56, 64, 80, 96, 112, 128, 160, 192, 224, 256, 320.
    pub max_bit_rate: Option<AudioBitrate>,
}

impl SubsonicRequest for UpdateUser {
    open spec fn spec_schema() -> Seq<FieldSpecView> {
        seq![
            ("username"@, FieldKind::Required(ScalarKind::Text)),
            ("password"@, FieldKind::Optional(ScalarKind::Text)),
            ("email"@, FieldKind::Optional(ScalarKind::Text)),
            ("ldapAuthenticated"@, FieldKind::OptionalFlag),
            ("adminRole"@, FieldKind::OptionalFlag),
            ("settingsRole"@, FieldKind::OptionalFlag),
            ("streamRole"@, FieldKind::OptionalFlag),
            ("jukeboxRole"@, FieldKind::OptionalFlag),
            ("downloadRole"@, FieldKind::OptionalFlag),
            ("uploadRole"@, FieldKind::OptionalFlag),
            ("covertArtRole"@, FieldKind::OptionalFlag),
            ("commentRole"@, FieldKind::OptionalFlag),
            ("podcastRole"@, FieldKind::OptionalFlag),
            ("shareRole"@, FieldKind::OptionalFlag),
            ("videoConversionRole"@, FieldKind::OptionalFlag),
            ("musicFolderId"@, FieldKind::Repeated(ScalarKind::Text)),
            ("maxBitRate"@, FieldKind::Optional(ScalarKind::Audio)),
        ]
    }

    open spec fn spec_fields(&self) -> Seq<FieldValueView> {
        seq![
            text_value(self.username),
            opt_text_value(self.password),
            opt_text_value(self.email),
            opt_flag_value(self.ldap_authenticated),
            opt_flag_value(self.admin_role),
            opt_flag_value(self.settings_role),
            opt_flag_value(self.stream_role),
            opt_flag_value(self.jukebox_role),
            opt_flag_value(self.download_role),
            opt_flag_value(self.upload_role),
            opt_flag_value(self.covert_art_role),
            opt_flag_value(self.comment_role),
            opt_flag_value(self.podcast_role),
            opt_flag_value(self.share_role),
            opt_flag_value(self.video_conversion_role),
            texts_value(self.music_folder_id@),
            opt_audio_value(self.max_bit_rate),
        ]
    }

    open spec fn spec_schema_ok() -> bool {
        true
    }

    open spec fn spec_is_body() -> bool {
        true
    }

    open spec fn spec_path() -> Seq<char> {
        "/rest/updateUser"@
    }

    open spec fn spec_since() -> Version {
        Version { major: 1, minor: 10, patch: 1 }
    }

    fn path() -> (res: &'static str) {
        "/rest/updateUser"
    }

    fn since() -> (res: Version) {
        Version::new(1, 10, 1)
    }

    fn schema() -> (res: Vec<FieldSpec>) {
        let mut out: Vec<FieldSpec> = Vec::new();
        out.push(FieldSpec { key: "username", kind: FieldKind::Required(ScalarKind::Text) });
        out.push(FieldSpec { key: "password", kind: FieldKind::Optional(ScalarKind::Text) });
        out.push(FieldSpec { key: "email", kind: FieldKind::Optional(ScalarKind::Text) });
        out.push(FieldSpec { key: "ldapAuthenticated", kind: FieldKind::OptionalFlag });
        out.push(FieldSpec { key: "adminRole", kind: FieldKind::OptionalFlag });
        out.push(FieldSpec { key: "settingsRole", kind: FieldKind::OptionalFlag });
        out.push(FieldSpec { key: "streamRole", kind: FieldKind::OptionalFlag });
        out.push(FieldSpec { key: "jukeboxRole", kind: FieldKind::OptionalFlag });
        out.push(FieldSpec { key: "downloadRole", kind: FieldKind::OptionalFlag });
        out.push(FieldSpec { key: "uploadRole", kind: FieldKind::OptionalFlag });
        out.push(FieldSpec { key: "covertArtRole", kind: FieldKind::OptionalFlag });
        out.push(FieldSpec { key: "commentRole", kind: FieldKind::OptionalFlag });
        out.push(FieldSpec { key: "podcastRole", kind: FieldKind::OptionalFlag });
        out.push(FieldSpec { key: "shareRole", kind: FieldKind::OptionalFlag });
        out.push(FieldSpec { key: "videoConversionRole", kind: FieldKind::OptionalFlag });
        out.push(FieldSpec { key: "musicFolderId", kind: FieldKind::Repeated(ScalarKind::Text) });
        out.push(FieldSpec { key: "maxBitRate", kind: FieldKind::Optional(ScalarKind::Audio) });
        proof {
            assert(schema_view(out@) =~= Self::spec_schema());
        }
        out
    }

    fn fields(&self) -> (res: Vec<FieldValue>) {
        let mut out: Vec<FieldValue> = Vec::new();
        out.push(text_field(&self.username));
        out.push(opt_text_field(&self.password));
        out.push(opt_text_field(&self.email));
        out.push(opt_flag_field(&self.ldap_authenticated));
        out.push(opt_flag_field(&self.admin_role));
        out.push(opt_flag_field(&self.settings_role));
        out.push(opt_flag_field(&self.stream_role));
        out.push(opt_flag_field(&self.jukebox_role));
        out.push(opt_flag_field(&self.download_role));
        out.push(opt_flag_field(&self.upload_role));
        out.push(opt_flag_field(&self.covert_art_role));
        out.push(opt_flag_field(&self.comment_role));
        out.push(opt_flag_field(&self.podcast_role));
        out.push(opt_flag_field(&self.share_role));
        out.push(opt_flag_field(&self.video_conversion_role));
        out.push(texts_field(&self.music_folder_id));
        out.push(opt_audio_field(&self.max_bit_rate));
        proof {
            assert(fields_view(out@) =~= self.spec_fields());
        }
        out
    }

    fn from_fields(fields: Vec<FieldValue>) -> (res: Self) {
        let ghost all = fields_view(fields@);
        let mut fields = fields;
        proof {
            assert(value_fits(Self::spec_schema()[0].1, all[0]));
            assert(value_fits(Self::spec_schema()[1].1, all[1]));
            assert(value_fits(Self::spec_schema()[2].1, all[2]));
            assert(value_fits(Self::spec_schema()[3].1, all[3]));
            assert(value_fits(Self::spec_schema()[4].1, all[4]));
            assert(value_fits(Self::spec_schema()[5].1, all[5]));
            assert(value_fits(Self::spec_schema()[6].1, all[6]));
            assert(value_fits(Self::spec_schema()[7].1, all[7]));
            assert(value_fits(Self::spec_schema()[8].1, all[8]));
            assert(value_fits(Self::spec_schema()[9].1, all[9]));
            assert(value_fits(Self::spec_schema()[10].1, all[10]));
            assert(value_fits(Self::spec_schema()[11].1, all[11]));
            assert(value_fits(Self::spec_schema()[12].1, all[12]));
            assert(value_fits(Self::spec_schema()[13].1, all[13]));
            assert(value_fits(Self::spec_schema()[14].1, all[14]));
            assert(value_fits(Self::spec_schema()[15].1, all[15]));
            assert(value_fits(Self::spec_schema()[16].1, all[16]));
        }
        let v16 = fields.pop().unwrap();
        let v15 = fields.pop().unwrap();
        let v14 = fields.pop().unwrap();
        let v13 = fields.pop().unwrap();
        let v12 = fields.pop().unwrap();
        let v11 = fields.pop().unwrap();
        let v10 = fields.pop().unwrap();
        let v9 = fields.pop().unwrap();
        let v8 = fields.pop().unwrap();
        let v7 = fields.pop().unwrap();
        let v6 = fields.pop().unwrap();
        let v5 = fields.pop().unwrap();
        let v4 = fields.pop().unwrap();
        let v3 = fields.pop().unwrap();
        let v2 = fields.pop().unwrap();
        let v1 = fields.pop().unwrap();
        let v0 = fields.pop().unwrap();
        proof {
            assert(v0@ == all[0]);
            assert(v1@ == all[1]);
            assert(v2@ == all[2]);
            assert(v3@ == all[3]);
            assert(v4@ == all[4]);
            assert(v5@ == all[5]);
            assert(v6@ == all[6]);
            assert(v7@ == all[7]);
            assert(v8@ == all[8]);
            assert(v9@ == all[9]);
            assert(v10@ == all[10]);
            assert(v11@ == all[11]);
            assert(v12@ == all[12]);
            assert(v13@ == all[13]);
            assert(v14@ == all[14]);
            assert(v15@ == all[15]);
            assert(v16@ == all[16]);
        }
        let r = UpdateUser {
            username: text_from(v0),
            password: opt_text_from(v1),
            email: opt_text_from(v2),
            ldap_authenticated: opt_flag_from(v3),
            admin_role: opt_flag_from(v4),
            settings_role: opt_flag_from(v5),
            stream_role: opt_flag_from(v6),
            jukebox_role: opt_flag_from(v7),
            download_role: opt_flag_from(v8),
            upload_role: opt_flag_from(v9),
            covert_art_role: opt_flag_from(v10),
            comment_role: opt_flag_from(v11),
            podcast_role: opt_flag_from(v12),
            share_role: opt_flag_from(v13),
            video_conversion_role: opt_flag_from(v14),
            music_folder_id: texts_from(v15),
            max_bit_rate: opt_audio_from(v16),
        };
        proof {
            assert(r.spec_fields() =~= all);
        }
        r
    }

    proof fn lemma_fields_fit(r: &Self) {
        assert(value_fits(Self::spec_schema()[0].1, r.spec_fields()[0]));
        assert(value_fits(Self::spec_schema()[1].1, r.spec_fields()[1]));
        assert(value_fits(Self::spec_schema()[2].1, r.spec_fields()[2]));
        assert(value_fits(Self::spec_schema()[3].1, r.spec_fields()[3]));
        assert(value_fits(Self::spec_schema()[4].1, r.spec_fields()[4]));
        assert(value_fits(Self::spec_schema()[5].1, r.spec_fields()[5]));
        assert(value_fits(Self::spec_schema()[6].1, r.spec_fields()[6]));
        assert(value_fits(Self::spec_schema()[7].1, r.spec_fields()[7]));
        assert(value_fits(Self::spec_schema()[8].1, r.spec_fields()[8]));
        assert(value_fits(Self::spec_schema()[9].1, r.spec_fields()[9]));
        assert(value_fits(Self::spec_schema()[10].1, r.spec_fields()[10]));
        assert(value_fits(Self::spec_schema()[11].1, r.spec_fields()[11]));
        assert(value_fits(Self::spec_schema()[12].1, r.spec_fields()[12]));
        assert(value_fits(Self::spec_schema()[13].1, r.spec_fields()[13]));
        assert(value_fits(Self::spec_schema()[14].1, r.spec_fields()[14]));
        assert(value_fits(Self::spec_schema()[15].1, r.spec_fields()[15]));
        assert(value_fits(Self::spec_schema()[16].1, r.spec_fields()[16]));
    }

    proof fn lemma_schema_valid() {
        reveal_strlit("username");
        reveal_strlit("password");
        reveal_strlit("email");
        reveal_strlit("ldapAuthenticated");
        reveal_strlit("adminRole");
        reveal_strlit("settingsRole");
        reveal_strlit("streamRole");
        reveal_strlit("jukeboxRole");
        reveal_strlit("downloadRole");
        reveal_strlit("uploadRole");
        reveal_strlit("covertArtRole");
        reveal_strlit("commentRole");
        reveal_strlit("podcastRole");
        reveal_strlit("shareRole");
        reveal_strlit("videoConversionRole");
        reveal_strlit("musicFolderId");
        reveal_strlit("maxBitRate");
        assert(is_plain("username"@));
        assert(is_plain("password"@));
        assert(is_plain("email"@));
        assert(is_plain("ldapAuthenticated"@));
        assert(is_plain("adminRole"@));
        assert(is_plain("settingsRole"@));
        assert(is_plain("streamRole"@));
        assert(is_plain("jukeboxRole"@));
        assert(is_plain("downloadRole"@));
        assert(is_plain("uploadRole"@));
        assert(is_plain("covertArtRole"@));
        assert(is_plain("commentRole"@));
        assert(is_plain("podcastRole"@));
        assert(is_plain("shareRole"@));
        assert(is_plain("videoConversionRole"@));
        assert(is_plain("musicFolderId"@));
        assert(is_plain("maxBitRate"@));
        lemma_reserved_keys();
        assert("username"@[0] != "password"@[0]);
        assert("adminRole"@[0] != "shareRole"@[0]);
        assert("settingsRole"@[0] != "downloadRole"@[0]);
        assert("streamRole"@[0] != "uploadRole"@[0]);
        assert("streamRole"@[0] != "maxBitRate"@[0]);
        assert("jukeboxRole"@[0] != "commentRole"@[0]);
        assert("jukeboxRole"@[0] != "podcastRole"@[0]);
        assert("uploadRole"@[0] != "maxBitRate"@[0]);
        assert("covertArtRole"@[0] != "musicFolderId"@[0]);
        assert("commentRole"@[0] != "podcastRole"@[0]);
        lemma_plain_body_schema(Self::spec_schema());
    }
}

/// Deletes an existing Subsonic user, using the following parameters.
///
/// For more information, see <http://www.subsonic.org/pages/api.jsp#deleteUser>
#[derive(Debug, Clone, PartialEq)]
pub struct DeleteUser {
    /// The name of the user to delete.
    pub username: String,
}

impl SubsonicRequest for DeleteUser {
    open spec fn spec_schema() -> Seq<FieldSpecView> {
        seq![
            ("username"@, FieldKind::Required(ScalarKind::Text)),
        ]
    }

    open spec fn spec_fields(&self) -> Seq<FieldValueView> {
        seq![
            text_value(self.username),
        ]
    }

    open spec fn spec_schema_ok() -> bool {
        true
    }

    open spec fn spec_is_body() -> bool {
        true
    }

    open spec fn spec_path() -> Seq<char> {
        "/rest/deleteUser"@
    }

    open spec fn spec_since() -> Version {
        Version { major: 1, minor: 3, patch: 0 }
    }

    fn path() -> (res: &'static str) {
        "/rest/deleteUser"
    }

    fn since() -> (res: Version) {
        Version::new(1, 3, 0)
    }

    fn schema() -> (res: Vec<FieldSpec>) {
        let mut out: Vec<FieldSpec> = Vec::new();
        out.push(FieldSpec { key: "username", kind: FieldKind::Required(ScalarKind::Text) });
        proof {
            assert(schema_view(out@) =~= Self::spec_schema());
        }
        out
    }

    fn fields(&self) -> (res: Vec<FieldValue>) {
        let mut out: Vec<FieldValue> = Vec::new();
        out.push(text_field(&self.username));
        proof {
            assert(fields_view(out@) =~= self.spec_fields());
        }
        out
    }

    fn from_fields(fields: Vec<FieldValue>) -> (res: Self) {
        let ghost all = fields_view(fields@);
        let mut fields = fields;
        proof {
            assert(value_fits(Self::spec_schema()[0].1, all[0]));
        }
        let v0 = fields.pop().unwrap();
        proof {
            assert(v0@ == all[0]);
        }
        let r = DeleteUser {
            username: text_from(v0),
        };
        proof {
            assert(r.spec_fields() =~= all);
        }
        r
    }

    proof fn lemma_fields_fit(r: &Self) {
        assert(value_fits(Self::spec_schema()[0].1, r.spec_fields()[0]));
    }

    proof fn lemma_schema_valid() {
        reveal_strlit("username");
        assert(is_plain("username"@));
        lemma_reserved_keys();
        lemma_plain_body_schema(Self::spec_schema());
    }
}

/// Changes the password of an existing Subsonic user, using the following parameters.
/// You can only change your own password unless you have admin privileges.
#[derive(Debug, Clone, PartialEq)]
pub struct ChangePassword {
    /// The name of the user which should change its password.
    pub username: String,
    /// The new password of the new user, either in clear text of hex-encoded.
    pub password: String,
}

impl SubsonicRequest for ChangePassword {
    open spec fn spec_schema() -> Seq<FieldSpecView> {
        seq![
            ("username"@, FieldKind::Required(ScalarKind::Text)),
            ("password"@, FieldKind::Required(ScalarKind::Text)),
        ]
    }

    open spec fn spec_fields(&self) -> Seq<FieldValueView> {
        seq![
            text_value(self.username),
            text_value(self.password),
        ]
    }

    open spec fn spec_schema_ok() -> bool {
        true
    }

    open spec fn spec_is_body() -> bool {
        true
    }

    open spec fn spec_path() -> Seq<char> {
        "/rest/changePassword"@
    }

    open spec fn spec_since() -> Version {
        Version { major: 1, minor: 1, patch: 0 }
    }

    fn path() -> (res: &'static str) {
        "/rest/changePassword"
    }

    fn since() -> (res: Version) {
        Version::new(1, 1, 0)
    }

    fn schema() -> (res: Vec<FieldSpec>) {
        let mut out: Vec<FieldSpec> = Vec::new();
        out.push(FieldSpec { key: "username", kind: FieldKind::Required(ScalarKind::Text) });
        out.push(FieldSpec { key: "password", kind: FieldKind::Required(ScalarKind::Text) });
        proof {
            assert(schema_view(out@) =~= Self::spec_schema());
        }
        out
    }

    fn fields(&self) -> (res: Vec<FieldValue>) {
        let mut out: Vec<FieldValue> = Vec::new();
        out.push(text_field(&self.username));
        out.push(text_field(&self.password));
        proof {
            assert(fields_view(out@) =~= self.spec_fields());
        }
        out
    }

    fn from_fields(fields: Vec<FieldValue>) -> (res: Self) {
        let ghost all = fields_view(fields@);
        let mut fields = fields;
        proof {
            assert(value_fits(Self::spec_schema()[0].1, all[0]));
            assert(value_fits(Self::spec_schema()[1].1, all[1]));
        }
        let v1 = fields.pop().unwrap();
        let v0 = fields.pop().unwrap();
        proof {
            assert(v0@ == all[0]);
            assert(v1@ == all[1]);
        }
        let r = ChangePassword {
            username: text_from(v0),
            password: text_from(v1),
        };
        proof {
            assert(r.spec_fields() =~= all);
        }
        r
    }

    proof fn lemma_fields_fit(r: &Self) {
        assert(value_fits(Self::spec_schema()[0].1, r.spec_fields()[0]));
        assert(value_fits(Self::spec_schema()[1].1, r.spec_fields()[1]));
    }

    proof fn lemma_schema_valid() {
        reveal_strlit("username");
        reveal_strlit("password");
        assert(is_plain("username"@));
        assert(is_plain("password"@));
        lemma_reserved_keys();
        assert("username"@[0] != "password"@[0]);
        lemma_plain_body_schema(Self::spec_schema());
    }
}

/// A [`GetUser`] is written as the pairs of its set fields, in the order
/// they are declared, each under the camelCase name of its struct field:
/// `username`.
pub proof fn lemma_get_user_pairs(r: &GetUser)
    ensures
        fields_pairs(GetUser::spec_schema(), r.spec_fields()) == text_pairs("username"@, r.username),
{
    let s = GetUser::spec_schema();
    let f = r.spec_fields();
    assert(fields_pairs(s, f.take(0)) =~= Seq::<PairView>::empty());
    assert(fields_pairs(s, f.take(1)) == fields_pairs(s, f.take(0)) + text_pairs("username"@, r.username)) by {
        lemma_fields_pairs_take(s, f, 0);
    }
    assert(fields_pairs(s, f.take(1)) =~= text_pairs("username"@, r.username));
    assert(f.take(1) =~= f);
}

/// A [`CreateUser`] is written as the pairs of its set fields, in the order
/// they are declared, each under the camelCase name of its struct field:
/// `username`, `password`, `email`, `ldapAuthenticated`, `adminRole`,
/// `settingsRole`, `streamRole`, `jukeboxRole`, `downloadRole`, `uploadRole`,
/// `playlistRole`, `covertArtRole`, `commentRole`, `podcastRole`, `shareRole`,
/// `videoConversionRole`, `musicFolderId`.
pub proof fn lemma_create_user_pairs(r: &CreateUser)
    ensures
        fields_pairs(CreateUser::spec_schema(), r.spec_fields()) == text_pairs("username"@, r.username)
            + text_pairs("password"@, r.password)
            + text_pairs("email"@, r.email)
            + opt_flag_pairs("ldapAuthenticated"@, r.ldap_authenticated)
            + opt_flag_pairs("adminRole"@, r.admin_role)
            + opt_flag_pairs("settingsRole"@, r.settings_role)
            + opt_flag_pairs("streamRole"@, r.stream_role)
            + opt_flag_pairs("jukeboxRole"@, r.jukebox_role)
            + opt_flag_pairs("downloadRole"@, r.download_role)
            + opt_flag_pairs("uploadRole"@, r.upload_role)
            + opt_flag_pairs("playlistRole"@, r.playlist_role)
            + opt_flag_pairs("covertArtRole"@, r.covert_art_role)
            + opt_flag_pairs("commentRole"@, r.comment_role)
            + opt_flag_pairs("podcastRole"@, r.podcast_role)
            + opt_flag_pairs("shareRole"@, r.share_role)
            + opt_flag_pairs("videoConversionRole"@, r.video_conversion_role)
            + texts_pairs("musicFolderId"@, r.music_folder_id@),
{
    let s = CreateUser::spec_schema();
    let f = r.spec_fields();
    assert(fields_pairs(s, f.take(0)) =~= Seq::<PairView>::empty());
    assert(fields_pairs(s, f.take(1)) == fields_pairs(s, f.take(0)) + text_pairs("username"@, r.username)) by {
        lemma_fields_pairs_take(s, f, 0);
    }
    assert(fields_pairs(s, f.take(2)) == fields_pairs(s, f.take(1)) + text_pairs("password"@, r.password)) by {
        lemma_fields_pairs_take(s, f, 1);
    }
    assert(fields_pairs(s, f.take(3)) == fields_pairs(s, f.take(2)) + text_pairs("email"@, r.email)) by {
        lemma_fields_pairs_take(s, f, 2);
    }
    assert(fields_pairs(s, f.take(4)) == fields_pairs(s, f.take(3)) + opt_flag_pairs("ldapAuthenticated"@, r.ldap_authenticated)) by {
        lemma_fields_pairs_take(s, f, 3);
    }
    assert(fields_pairs(s, f.take(5)) == fields_pairs(s, f.take(4)) + opt_flag_pairs("adminRole"@, r.admin_role)) by {
        lemma_fields_pairs_take(s, f, 4);
    }
    assert(fields_pairs(s, f.take(6)) == fields_pairs(s, f.take(5)) + opt_flag_pairs("settingsRole"@, r.settings_role)) by {
        lemma_fields_pairs_take(s, f, 5);
    }
    assert(fields_pairs(s, f.take(7)) == fields_pairs(s, f.take(6)) + opt_flag_pairs("streamRole"@, r.stream_role)) by {
        lemma_fields_pairs_take(s, f, 6);
    }
    assert(fields_pairs(s, f.take(8)) == fields_pairs(s, f.take(7)) + opt_flag_pairs("jukeboxRole"@, r.jukebox_role)) by {
        lemma_fields_pairs_take(s, f, 7);
    }
    assert(fields_pairs(s, f.take(9)) == fields_pairs(s, f.take(8)) + opt_flag_pairs("downloadRole"@, r.download_role)) by {
        lemma_fields_pairs_take(s, f, 8);
    }
    assert(fields_pairs(s, f.take(10)) == fields_pairs(s, f.take(9)) + opt_flag_pairs("uploadRole"@, r.upload_role)) by {
        lemma_fields_pairs_take(s, f, 9);
    }
    assert(fields_pairs(s, f.take(11)) == fields_pairs(s, f.take(10)) + opt_flag_pairs("playlistRole"@, r.playlist_role)) by {
        lemma_fields_pairs_take(s, f, 10);
    }
    assert(fields_pairs(s, f.take(12)) == fields_pairs(s, f.take(11)) + opt_flag_pairs("covertArtRole"@, r.covert_art_role)) by {
        lemma_fields_pairs_take(s, f, 11);
    }
    assert(fields_pairs(s, f.take(13)) == fields_pairs(s, f.take(12)) + opt_flag_pairs("commentRole"@, r.comment_role)) by {
        lemma_fields_pairs_take(s, f, 12);
    }
    assert(fields_pairs(s, f.take(14)) == fields_pairs(s, f.take(13)) + opt_flag_pairs("podcastRole"@, r.podcast_role)) by {
        lemma_fields_pairs_take(s, f, 13);
    }
    assert(fields_pairs(s, f.take(15)) == fields_pairs(s, f.take(14)) + opt_flag_pairs("shareRole"@, r.share_role)) by {
        lemma_fields_pairs_take(s, f, 14);
    }
    assert(fields_pairs(s, f.take(16)) == fields_pairs(s, f.take(15)) + opt_flag_pairs("videoConversionRole"@, r.video_conversion_role)) by {
        lemma_fields_pairs_take(s, f, 15);
    }
    assert(fields_pairs(s, f.take(17)) == fields_pairs(s, f.take(16)) + texts_pairs("musicFolderId"@, r.music_folder_id@)) by {
        lemma_fields_pairs_take(s, f, 16);
        lemma_texts_pairs("musicFolderId"@, FieldKind::Repeated(ScalarKind::Text), r.music_folder_id@);
    }
    assert(fields_pairs(s, f.take(1)) =~= text_pairs("username"@, r.username));
    assert(f.take(17) =~= f);
}

/// A [`UpdateUser`] is written as the pairs of its set fields, in the order
/// they are declared, each under the camelCase name of its struct field:
/// `username`, `password`, `email`, `ldapAuthenticated`, `adminRole`,
/// `settingsRole`, `streamRole`, `jukeboxRole`, `downloadRole`, `uploadRole`,
/// `covertArtRole`, `commentRole`, `podcastRole`, `shareRole`,
/// `videoConversionRole`, `musicFolderId`, `maxBitRate`.
pub proof fn lemma_update_user_pairs(r: &UpdateUser)
    ensures
        fields_pairs(UpdateUser::spec_schema(), r.spec_fields()) == text_pairs("username"@, r.username)
            + opt_text_pairs("password"@, r.password)
            + opt_text_pairs("email"@, r.email)
            + opt_flag_pairs("ldapAuthenticated"@, r.ldap_authenticated)
            + opt_flag_pairs("adminRole"@, r.admin_role)
            + opt_flag_pairs("settingsRole"@, r.settings_role)
            + opt_flag_pairs("streamRole"@, r.stream_role)
            + opt_flag_pairs("jukeboxRole"@, r.jukebox_role)
            + opt_flag_pairs("downloadRole"@, r.download_role)
            + opt_flag_pairs("uploadRole"@, r.upload_role)
            + opt_flag_pairs("covertArtRole"@, r.covert_art_role)
            + opt_flag_pairs("commentRole"@, r.comment_role)
            + opt_flag_pairs("podcastRole"@, r.podcast_role)
            + opt_flag_pairs("shareRole"@, r.share_role)
            + opt_flag_pairs("videoConversionRole"@, r.video_conversion_role)
            + texts_pairs("musicFolderId"@, r.music_folder_id@)
            + opt_audio_pairs("maxBitRate"@, r.max_bit_rate),
{
    let s = UpdateUser::spec_schema();
    let f = r.spec_fields();
    assert(fields_pairs(s, f.take(0)) =~= Seq::<PairView>::empty());
    assert(fields_pairs(s, f.take(1)) == fields_pairs(s, f.take(0)) + text_pairs("username"@, r.username)) by {
        lemma_fields_pairs_take(s, f, 0);
    }
    assert(fields_pairs(s, f.take(2)) == fields_pairs(s, f.take(1)) + opt_text_pairs("password"@, r.password)) by {
        lemma_fields_pairs_take(s, f, 1);
    }
    assert(fields_pairs(s, f.take(3)) == fields_pairs(s, f.take(2)) + opt_text_pairs("email"@, r.email)) by {
        lemma_fields_pairs_take(s, f, 2);
    }
    assert(fields_pairs(s, f.take(4)) == fields_pairs(s, f.take(3)) + opt_flag_pairs("ldapAuthenticated"@, r.ldap_authenticated)) by {
        lemma_fields_pairs_take(s, f, 3);
    }
    assert(fields_pairs(s, f.take(5)) == fields_pairs(s, f.take(4)) + opt_flag_pairs("adminRole"@, r.admin_role)) by {
        lemma_fields_pairs_take(s, f, 4);
    }
    assert(fields_pairs(s, f.take(6)) == fields_pairs(s, f.take(5)) + opt_flag_pairs("settingsRole"@, r.settings_role)) by {
        lemma_fields_pairs_take(s, f, 5);
    }
    assert(fields_pairs(s, f.take(7)) == fields_pairs(s, f.take(6)) + opt_flag_pairs("streamRole"@, r.stream_role)) by {
        lemma_fields_pairs_take(s, f, 6);
    }
    assert(fields_pairs(s, f.take(8)) == fields_pairs(s, f.take(7)) + opt_flag_pairs("jukeboxRole"@, r.jukebox_role)) by {
        lemma_fields_pairs_take(s, f, 7);
    }
    assert(fields_pairs(s, f.take(9)) == fields_pairs(s, f.take(8)) + opt_flag_pairs("downloadRole"@, r.download_role)) by {
        lemma_fields_pairs_take(s, f, 8);
    }
    assert(fields_pairs(s, f.take(10)) == fields_pairs(s, f.take(9)) + opt_flag_pairs("uploadRole"@, r.upload_role)) by {
        lemma_fields_pairs_take(s, f, 9);
    }
    assert(fields_pairs(s, f.take(11)) == fields_pairs(s, f.take(10)) + opt_flag_pairs("covertArtRole"@, r.covert_art_role)) by {
        lemma_fields_pairs_take(s, f, 10);
    }
    assert(fields_pairs(s, f.take(12)) == fields_pairs(s, f.take(11)) + opt_flag_pairs("commentRole"@, r.comment_role)) by {
        lemma_fields_pairs_take(s, f, 11);
    }
    assert(fields_pairs(s, f.take(13)) == fields_pairs(s, f.take(12)) + opt_flag_pairs("podcastRole"@, r.podcast_role)) by {
        lemma_fields_pairs_take(s, f, 12);
    }
    assert(fields_pairs(s, f.take(14)) == fields_pairs(s, f.take(13)) + opt_flag_pairs("shareRole"@, r.share_role)) by {
        lemma_fields_pairs_take(s, f, 13);
    }
    assert(fields_pairs(s, f.take(15)) == fields_pairs(s, f.take(14)) + opt_flag_pairs("videoConversionRole"@, r.video_conversion_role)) by {
        lemma_fields_pairs_take(s, f, 14);
    }
    assert(fields_pairs(s, f.take(16)) == fields_pairs(s, f.take(15)) + texts_pairs("musicFolderId"@, r.music_folder_id@)) by {
        lemma_fields_pairs_take(s, f, 15);
        lemma_texts_pairs("musicFolderId"@, FieldKind::Repeated(ScalarKind::Text), r.music_folder_id@);
    }
    assert(fields_pairs(s, f.take(17)) == fields_pairs(s, f.take(16)) + opt_audio_pairs("maxBitRate"@, r.max_bit_rate)) by {
        lemma_fields_pairs_take(s, f, 16);
    }
    assert(fields_pairs(s, f.take(1)) =~= text_pairs("username"@, r.username));
    assert(f.take(17) =~= f);
}

/// A [`DeleteUser`] is written as the pairs of its set fields, in the order
/// they are declared, each under the camelCase name of its struct field:
/// `username`.
pub proof fn lemma_delete_user_pairs(r: &DeleteUser)
    ensures
        fields_pairs(DeleteUser::spec_schema(), r.spec_fields()) == text_pairs("username"@, r.username),
{
    let s = DeleteUser::spec_schema();
    let f = r.spec_fields();
    assert(fields_pairs(s, f.take(0)) =~= Seq::<PairView>::empty());
    assert(fields_pairs(s, f.take(1)) == fields_pairs(s, f.take(0)) + text_pairs("username"@, r.username)) by {
        lemma_fields_pairs_take(s, f, 0);
    }
    assert(fields_pairs(s, f.take(1)) =~= text_pairs("username"@, r.username));
    assert(f.take(1) =~= f);
}

/// A [`ChangePassword`] is written as the pairs of its set fields, in the order
/// they are declared, each under the camelCase name of its struct field:
/// `username`, `password`.
pub proof fn lemma_change_password_pairs(r: &ChangePassword)
    ensures
        fields_pairs(ChangePassword::spec_schema(), r.spec_fields()) == text_pairs("username"@, r.username)
            + text_pairs("password"@, r.password),
{
    let s = ChangePassword::spec_schema();
    let f = r.spec_fields();
    assert(fields_pairs(s, f.take(0)) =~= Seq::<PairView>::empty());
    assert(fields_pairs(s, f.take(1)) == fields_pairs(s, f.take(0)) + text_pairs("username"@, r.username)) by {
        lemma_fields_pairs_take(s, f, 0);
    }
    assert(fields_pairs(s, f.take(2)) == fields_pairs(s, f.take(1)) + text_pairs("password"@, r.password)) by {
        lemma_fields_pairs_take(s, f, 1);
    }
    assert(fields_pairs(s, f.take(1)) =~= text_pairs("username"@, r.username));
    assert(f.take(2) =~= f);
}

} // verus!
