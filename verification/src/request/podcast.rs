//! Podcast requests.
use vstd::prelude::*;

use crate::codec::{fields_view, schema_view, FieldKind, FieldSpec, FieldSpecView, FieldValue, FieldValueView, ScalarKind};
use crate::common::Version;
use crate::request::values::{opt_flag_field, opt_flag_from, opt_flag_value, opt_text_field, opt_text_from, opt_text_value, opt_u32_field, opt_u32_from, opt_u32_value, text_field, text_from, text_value};
use crate::request::SubsonicRequest;
use crate::roundtrip::{is_plain, lemma_plain_body_schema, lemma_reserved_keys, value_fits};

use crate::codec::{fields_pairs, lemma_fields_pairs_take};
use crate::query::PairView;
use crate::request::values::{opt_flag_pairs, opt_text_pairs, opt_u32_pairs, text_pairs};

verus! {

/// Returns all Podcast channels the server subscribes to, and (optionally) their episodes.
/// This method can also be used to return details for only one channel - refer to the id parameter.
/// A typical use case for this method would be to first retrieve all channels without episodes, and then retrieve all episodes for the single channel the user selects.
///
/// For more information, see <http://www.subsonic.org/pages/api.jsp#getPodcasts>
#[derive(Debug, Clone, PartialEq)]
pub struct GetPodcasts {
    /// Since 1.9.0
    /// Whether to include Podcast episodes in the returned result.
    pub include_episodes: Option<bool>,
    /// Since 1.9.0
    /// If specified, only return the Podcast channel with this ID.
    pub id: Option<String>,
}

impl SubsonicRequest for GetPodcasts {
    open spec fn spec_schema() -> Seq<FieldSpecView> {
        seq![
            ("includeEpisodes"@, FieldKind::OptionalFlag),
            ("id"@, FieldKind::Optional(ScalarKind::Text)),
        ]
    }

    open spec fn spec_fields(&self) -> Seq<FieldValueView> {
        seq![
            opt_flag_value(self.include_episodes),
            opt_text_value(self.id),
        ]
    }

    open spec fn spec_schema_ok() -> bool {
        true
    }

    open spec fn spec_is_body() -> bool {
        true
    }

    open spec fn spec_path() -> Seq<char> {
        "/rest/getPodcasts"@
    }

    open spec fn spec_since() -> Version {
        Version { major: 1, minor: 6, patch: 0 }
    }

    fn path() -> (res: &'static str) {
        "/rest/getPodcasts"
    }

    fn since() -> (res: Version) {
        Version::new(1, 6, 0)
    }

    fn schema() -> (res: Vec<FieldSpec>) {
        let mut out: Vec<FieldSpec> = Vec::new();
        out.push(FieldSpec { key: "includeEpisodes", kind: FieldKind::OptionalFlag });
        out.push(FieldSpec { key: "id", kind: FieldKind::Optional(ScalarKind::Text) });
        proof {
            assert(schema_view(out@) =~= Self::spec_schema());
        }
        out
    }

    fn fields(&self) -> (res: Vec<FieldValue>) {
        let mut out: Vec<FieldValue> = Vec::new();
        out.push(opt_flag_field(&self.include_episodes));
        out.push(opt_text_field(&self.id));
        proof {
            assert(fields_view(out@) =~= self.spec_fields());
        }
        out
    }

    fn from_fields(fields: Vec<FieldValue>) -> (res: Self) {
        let ghost all = fields_view(fields@);
        let mut fields = fields;
        proof {
            assert(value_fits(Self::spec_schema()[0].1, all[0]));
            assert(value_fits(Self::spec_schema()[1].1, all[1]));
        }
        let v1 = fields.pop().unwrap();
        let v0 = fields.pop().unwrap();
        proof {
            assert(v0@ == all[0]);
            assert(v1@ == all[1]);
        }
        let r = GetPodcasts {
            include_episodes: opt_flag_from(v0),
            id: opt_text_from(v1),
        };
        proof {
            assert(r.spec_fields() =~= all);
        }
        r
    }

    proof fn lemma_fields_fit(r: &Self) {
        assert(value_fits(Self::spec_schema()[0].1, r.spec_fields()[0]));
        assert(value_fits(Self::spec_schema()[1].1, r.spec_fields()[1]));
    }

    proof fn lemma_schema_valid() {
        reveal_strlit("includeEpisodes");
        reveal_strlit("id");
        assert(is_plain("includeEpisodes"@));
        assert(is_plain("id"@));
        lemma_reserved_keys();
        lemma_plain_body_schema(Self::spec_schema());
    }
}

/// Returns the most recently published Podcast episodes.
///
/// For more information, see <http://www.subsonic.org/pages/api.jsp#getNewestPodcasts>
#[derive(Debug, Clone, PartialEq)]
pub struct GetNewestPodcasts {
    /// The maximum number of episodes to return.
    pub count: Option<u32>,
}

impl SubsonicRequest for GetNewestPodcasts {
    open spec fn spec_schema() -> Seq<FieldSpecView> {
        seq![
            ("count"@, FieldKind::Optional(ScalarKind::U32)),
        ]
    }

    open spec fn spec_fields(&self) -> Seq<FieldValueView> {
        seq![
            opt_u32_value(self.count),
        ]
    }

    open spec fn spec_schema_ok() -> bool {
        true
    }

    open spec fn spec_is_body() -> bool {
        true
    }

    open spec fn spec_path() -> Seq<char> {
        "/rest/getNewestPodcasts"@
    }

    open spec fn spec_since() -> Version {
        Version { major: 1, minor: 13, patch: 0 }
    }

    fn path() -> (res: &'static str) {
        "/rest/getNewestPodcasts"
    }

    fn since() -> (res: Version) {
        Version::new(1, 13, 0)
    }

    fn schema() -> (res: Vec<FieldSpec>) {
        let mut out: Vec<FieldSpec> = Vec::new();
        out.push(FieldSpec { key: "count", kind: FieldKind::Optional(ScalarKind::U32) });
        proof {
            assert(schema_view(out@) =~= Self::spec_schema());
        }
        out
    }

    fn fields(&self) -> (res: Vec<FieldValue>) {
        let mut out: Vec<FieldValue> = Vec::new();
        out.push(opt_u32_field(&self.count));
        proof {
            assert(fields_view(out@) =~= self.spec_fields());
        }
        out
    }

    fn from_fields(fields: Vec<FieldValue>) -> (res: Self) {
        let ghost all = fields_view(fields@);
        let mut fields = fields;
        proof {
            assert(value_fits(Self::spec_schema()[0].1, all[0]));
        }
        let v0 = fields.pop().unwrap();
        proof {
            assert(v0@ == all[0]);
        }
        let r = GetNewestPodcasts {
            count: opt_u32_from(v0),
        };
        proof {
            assert(r.spec_fields() =~= all);
        }
        r
    }

    proof fn lemma_fields_fit(r: &Self) {
        assert(value_fits(Self::spec_schema()[0].1, r.spec_fields()[0]));
    }

    proof fn lemma_schema_valid() {
        reveal_strlit("count");
        assert(is_plain("count"@));
        lemma_reserved_keys();
        lemma_plain_body_schema(Self::spec_schema());
    }
}

/// Requests the server to check for new Podcast episodes.
/// Note: The user must be authorized for Podcast administration (see Settings > Users > User is allowed to administrate Podcasts).
///
/// For more information, see <http://www.subsonic.org/pages/api.jsp#refreshPodcasts>
#[derive(Debug, Clone, PartialEq)]
pub struct RefreshPodcasts;

impl SubsonicRequest for RefreshPodcasts {
    open spec fn spec_schema() -> Seq<FieldSpecView> {
        Seq::<FieldSpecView>::empty()
    }

    open spec fn spec_fields(&self) -> Seq<FieldValueView> {
        Seq::<FieldValueView>::empty()
    }

    open spec fn spec_schema_ok() -> bool {
        true
    }

    open spec fn spec_is_body() -> bool {
        true
    }

    open spec fn spec_path() -> Seq<char> {
        "/rest/refreshPodcasts"@
    }

    open spec fn spec_since() -> Version {
        Version { major: 1, minor: 9, patch: 0 }
    }

    fn path() -> (res: &'static str) {
        "/rest/refreshPodcasts"
    }

    fn since() -> (res: Version) {
        Version::new(1, 9, 0)
    }

    fn schema() -> (res: Vec<FieldSpec>) {
        let mut out: Vec<FieldSpec> = Vec::new();
        proof {
            assert(schema_view(out@) =~= Self::spec_schema());
        }
        out
    }

    fn fields(&self) -> (res: Vec<FieldValue>) {
        let mut out: Vec<FieldValue> = Vec::new();
        proof {
            assert(fields_view(out@) =~= self.spec_fields());
        }
        out
    }

    fn from_fields(fields: Vec<FieldValue>) -> (res: Self) {
        proof {
            assert(fields_view(fields@) =~= Seq::<FieldValueView>::empty());
        }
        RefreshPodcasts
    }

    proof fn lemma_fields_fit(r: &Self) {
    }

    proof fn lemma_schema_valid() {
        lemma_plain_body_schema(Self::spec_schema());
    }
}

/// Adds a new Podcast channel.
/// Note: The user must be authorized for Podcast administration (see Settings > Users > User is allowed to administrate Podcasts).
///
/// For more information, see <http://www.subsonic.org/pages/api.jsp#createPodcastChannel>
#[derive(Debug, Clone, PartialEq)]
pub struct CreatePodcastChannel {
    /// The URL of the Podcast to add.
    pub url: String,
}

impl SubsonicRequest for CreatePodcastChannel {
    open spec fn spec_schema() -> Seq<FieldSpecView> {
        seq![
            ("url"@, FieldKind::Required(ScalarKind::Text)),
        ]
    }

    open spec fn spec_fields(&self) -> Seq<FieldValueView> {
        seq![
            text_value(self.url),
        ]
    }

    open spec fn spec_schema_ok() -> bool {
        true
    }

    open spec fn spec_is_body() -> bool {
        true
    }

    open spec fn spec_path() -> Seq<char> {
        "/rest/createPodcastChannel"@
    }

    open spec fn spec_since() -> Version {
        Version { major: 1, minor: 9, patch: 0 }
    }

    fn path() -> (res: &'static str) {
        "/rest/createPodcastChannel"
    }

    fn since() -> (res: Version) {
        Version::new(1, 9, 0)
    }

    fn schema() -> (res: Vec<FieldSpec>) {
        let mut out: Vec<FieldSpec> = Vec::new();
        out.push(FieldSpec { key: "url", kind: FieldKind::Required(ScalarKind::Text) });
        proof {
            assert(schema_view(out@) =~= Self::spec_schema());
        }
        out
    }

    fn fields(&self) -> (res: Vec<FieldValue>) {
        let mut out: Vec<FieldValue> = Vec::new();
        out.push(text_field(&self.url));
        proof {
            assert(fields_view(out@) =~= self.spec_fields());
        }
        out
    }

    fn from_fields(fields: Vec<FieldValue>) -> (res: Self) {
        let ghost all = fields_view(fields@);
        let mut fields = fields;
        proof {
            assert(value_fits(Self::spec_schema()[0].1, all[0]));
        }
        let v0 = fields.pop().unwrap();
        proof {
            assert(v0@ == all[0]);
        }
        let r = CreatePodcastChannel {
            url: text_from(v0),
        };
        proof {
            assert(r.spec_fields() =~= all);
        }
        r
    }

    proof fn lemma_fields_fit(r: &Self) {
        assert(value_fits(Self::spec_schema()[0].1, r.spec_fields()[0]));
    }

    proof fn lemma_schema_valid() {
        reveal_strlit("url");
        assert(is_plain("url"@));
        lemma_reserved_keys();
        lemma_plain_body_schema(Self::spec_schema());
    }
}

/// Deletes a Podcast channel.
/// Note: The user must be authorized for Podcast administration (see Settings > Users > User is allowed to administrate Podcasts).
///
/// For more information, see <http://www.subsonic.org/pages/api.jsp#deletePodcastChannel>
#[derive(Debug, Clone, PartialEq)]
pub struct DeletePodcastChannel {
    /// The ID of the Podcast channel to delete.
    pub id: String,
}

impl SubsonicRequest for DeletePodcastChannel {
    open spec fn spec_schema() -> Seq<FieldSpecView> {
        seq![
            ("id"@, FieldKind::Required(ScalarKind::Text)),
        ]
    }

    open spec fn spec_fields(&self) -> Seq<FieldValueView> {
        seq![
            text_value(self.id),
        ]
    }

    open spec fn spec_schema_ok() -> bool {
        true
    }

    open spec fn spec_is_body() -> bool {
        true
    }

    open spec fn spec_path() -> Seq<char> {
        "/rest/deletePodcastChannel"@
    }

    open spec fn spec_since() -> Version {
        Version { major: 1, minor: 9, patch: 0 }
    }

    fn path() -> (res: &'static str) {
        "/rest/deletePodcastChannel"
    }

    fn since() -> (res: Version) {
        Version::new(1, 9, 0)
    }

    fn schema() -> (res: Vec<FieldSpec>) {
        let mut out: Vec<FieldSpec> = Vec::new();
        out.push(FieldSpec { key: "id", kind: FieldKind::Required(ScalarKind::Text) });
        proof {
            assert(schema_view(out@) =~= Self::spec_schema());
        }
        out
    }

    fn fields(&self) -> (res: Vec<FieldValue>) {
        let mut out: Vec<FieldValue> = Vec::new();
        out.push(text_field(&self.id));
        proof {
            assert(fields_view(out@) =~= self.spec_fields());
        }
        out
    }

    fn from_fields(fields: Vec<FieldValue>) -> (res: Self) {
        let ghost all = fields_view(fields@);
        let mut fields = fields;
        proof {
            assert(value_fits(Self::spec_schema()[0].1, all[0]));
        }
        let v0 = fields.pop().unwrap();
        proof {
            assert(v0@ == all[0]);
        }
        let r = DeletePodcastChannel {
            id: text_from(v0),
        };
        proof {
            assert(r.spec_fields() =~= all);
        }
        r
    }

    proof fn lemma_fields_fit(r: &Self) {
        assert(value_fits(Self::spec_schema()[0].1, r.spec_fields()[0]));
    }

    proof fn lemma_schema_valid() {
        reveal_strlit("id");
        assert(is_plain("id"@));
        lemma_reserved_keys();
        lemma_plain_body_schema(Self::spec_schema());
    }
}

/// Deletes a Podcast episode.
/// Note: The user must be authorized for Podcast administration (see Settings > Users > User is allowed to administrate Podcasts).
///
/// For more information, see <http://www.subsonic.org/pages/api.jsp#deletePodcastEpisode>
#[derive(Debug, Clone, PartialEq)]
pub struct DeletePodcastEpisode {
    /// The ID of the Podcast episode to delete.
    pub id: String,
}

impl SubsonicRequest for DeletePodcastEpisode {
    open spec fn spec_schema() -> Seq<FieldSpecView> {
        seq![
            ("id"@, FieldKind::Required(ScalarKind::Text)),
        ]
    }

    open spec fn spec_fields(&self) -> Seq<FieldValueView> {
        seq![
            text_value(self.id),
        ]
    }

    open spec fn spec_schema_ok() -> bool {
        true
    }

    open spec fn spec_is_body() -> bool {
        true
    }

    open spec fn spec_path() -> Seq<char> {
        "/rest/deletePodcastEpisode"@
    }

    open spec fn spec_since() -> Version {
        Version { major: 1, minor: 9, patch: 0 }
    }

    fn path() -> (res: &'static str) {
        "/rest/deletePodcastEpisode"
    }

    fn since() -> (res: Version) {
        Version::new(1, 9, 0)
    }

    fn schema() -> (res: Vec<FieldSpec>) {
        let mut out: Vec<FieldSpec> = Vec::new();
        out.push(FieldSpec { key: "id", kind: FieldKind::Required(ScalarKind::Text) });
        proof {
            assert(schema_view(out@) =~= Self::spec_schema());
        }
        out
    }

    fn fields(&self) -> (res: Vec<FieldValue>) {
        let mut out: Vec<FieldValue> = Vec::new();
        out.push(text_field(&self.id));
        proof {
            assert(fields_view(out@) =~= self.spec_fields());
        }
        out
    }

    fn from_fields(fields: Vec<FieldValue>) -> (res: Self) {
        let ghost all = fields_view(fields@);
        let mut fields = fields;
        proof {
            assert(value_fits(Self::spec_schema()[0].1, all[0]));
        }
        let v0 = fields.pop().unwrap();
        proof {
            assert(v0@ == all[0]);
        }
        let r = DeletePodcastEpisode {
            id: text_from(v0),
        };
        proof {
            assert(r.spec_fields() =~= all);
        }
        r
    }

    proof fn lemma_fields_fit(r: &Self) {
        assert(value_fits(Self::spec_schema()[0].1, r.spec_fields()[0]));
    }

    proof fn lemma_schema_valid() {
        reveal_strlit("id");
        assert(is_plain("id"@));
        lemma_reserved_keys();
        lemma_plain_body_schema(Self::spec_schema());
    }
}

/// Request the server to start downloading a given Podcast episode.
/// Note: The user must be authorized for Podcast administration (see Settings > Users > User is allowed to administrate Podcasts).
///
/// For more information, see <http://www.subsonic.org/pages/api.jsp#downloadPodcastEpisode>
#[derive(Debug, Clone, PartialEq)]
pub struct DownloadPodcastEpisode {
    /// The ID of the Podcast episode to download.
    pub id: String,
}

impl SubsonicRequest for DownloadPodcastEpisode {
    open spec fn spec_schema() -> Seq<FieldSpecView> {
        seq![
            ("id"@, FieldKind::Required(ScalarKind::Text)),
        ]
    }

    open spec fn spec_fields(&self) -> Seq<FieldValueView> {
        seq![
            text_value(self.id),
        ]
    }

    open spec fn spec_schema_ok() -> bool {
        true
    }

    open spec fn spec_is_body() -> bool {
        true
    }

    open spec fn spec_path() -> Seq<char> {
        "/rest/downloadPodcastEpisode"@
    }

    open spec fn spec_since() -> Version {
        Version { major: 1, minor: 9, patch: 0 }
    }

    fn path() -> (res: &'static str) {
        "/rest/downloadPodcastEpisode"
    }

    fn since() -> (res: Version) {
        Version::new(1, 9, 0)
    }

    fn schema() -> (res: Vec<FieldSpec>) {
        let mut out: Vec<FieldSpec> = Vec::new();
        out.push(FieldSpec { key: "id", kind: FieldKind::Required(ScalarKind::Text) });
        proof {
            assert(schema_view(out@) =~= Self::spec_schema());
        }
        out
    }

    fn fields(&self) -> (res: Vec<FieldValue>) {
        let mut out: Vec<FieldValue> = Vec::new();
        out.push(text_field(&self.id));
        proof {
            assert(fields_view(out@) =~= self.spec_fields());
        }
        out
    }

    fn from_fields(fields: Vec<FieldValue>) -> (res: Self) {
        let ghost all = fields_view(fields@);
        let mut fields = fields;
        proof {
            assert(value_fits(Self::spec_schema()[0].1, all[0]));
        }
        let v0 = fields.pop().unwrap();
        proof {
            assert(v0@ == all[0]);
        }
        let r = DownloadPodcastEpisode {
            id: text_from(v0),
        };
        proof {
            assert(r.spec_fields() =~= all);
        }
        r
    }

    proof fn lemma_fields_fit(r: &Self) {
        assert(value_fits(Self::spec_schema()[0].1, r.spec_fields()[0]));
    }

    proof fn lemma_schema_valid() {
        reveal_strlit("id");
        assert(is_plain("id"@));
        lemma_reserved_keys();
        lemma_plain_body_schema(Self::spec_schema());
    }
}

/// A [`GetPodcasts`] is written as the pairs of its set fields, in the order
/// they are declared, each under the camelCase name of its struct field:
/// `includeEpisodes`, `id`.
pub proof fn lemma_get_podcasts_pairs(r: &GetPodcasts)
    ensures
        fields_pairs(GetPodcasts::spec_schema(), r.spec_fields()) == opt_flag_pairs("includeEpisodes"@, r.include_episodes)
            + opt_text_pairs("id"@, r.id),
{
    let s = GetPodcasts::spec_schema();
    let f = r.spec_fields();
    assert(fields_pairs(s, f.take(0)) =~= Seq::<PairView>::empty());
    assert(fields_pairs(s, f.take(1)) == fields_pairs(s, f.take(0)) + opt_flag_pairs("includeEpisodes"@, r.include_episodes)) by {
        lemma_fields_pairs_take(s, f, 0);
    }
    assert(fields_pairs(s, f.take(2)) == fields_pairs(s, f.take(1)) + opt_text_pairs("id"@, r.id)) by {
        lemma_fields_pairs_take(s, f, 1);
    }
    assert(fields_pairs(s, f.take(1)) =~= opt_flag_pairs("includeEpisodes"@, r.include_episodes));
    assert(f.take(2) =~= f);
}

/// A [`GetNewestPodcasts`] is written as the pairs of its set fields, in the order
/// they are declared, each under the camelCase name of its struct field:
/// `count`.
pub proof fn lemma_get_newest_podcasts_pairs(r: &GetNewestPodcasts)
    ensures
        fields_pairs(GetNewestPodcasts::spec_schema(), r.spec_fields()) == opt_u32_pairs("count"@, r.count),
{
    let s = GetNewestPodcasts::spec_schema();
    let f = r.spec_fields();
    assert(fields_pairs(s, f.take(0)) =~= Seq::<PairView>::empty());
    assert(fields_pairs(s, f.take(1)) == fields_pairs(s, f.take(0)) + opt_u32_pairs("count"@, r.count)) by {
        lemma_fields_pairs_take(s, f, 0);
    }
    assert(fields_pairs(s, f.take(1)) =~= opt_u32_pairs("count"@, r.count));
    assert(f.take(1) =~= f);
}

/// A [`CreatePodcastChannel`] is written as the pairs of its set fields, in the order
/// they are declared, each under the camelCase name of its struct field:
/// `url`.
pub proof fn lemma_create_podcast_channel_pairs(r: &CreatePodcastChannel)
    ensures
        fields_pairs(CreatePodcastChannel::spec_schema(), r.spec_fields()) == text_pairs("url"@, r.url),
{
    let s = CreatePodcastChannel::spec_schema();
    let f = r.spec_fields();
    assert(fields_pairs(s, f.take(0)) =~= Seq::<PairView>::empty());
    assert(fields_pairs(s, f.take(1)) == fields_pairs(s, f.take(0)) + text_pairs("url"@, r.url)) by {
        lemma_fields_pairs_take(s, f, 0);
    }
    assert(fields_pairs(s, f.take(1)) =~= text_pairs("url"@, r.url));
    assert(f.take(1) =~= f);
}

/// A [`DeletePodcastChannel`] is written as the pairs of its set fields, in the order
/// they are declared, each under the camelCase name of its struct field:
/// `id`.
pub proof fn lemma_delete_podcast_channel_pairs(r: &DeletePodcastChannel)
    ensures
        fields_pairs(DeletePodcastChannel::spec_schema(), r.spec_fields()) == text_pairs("id"@, r.id),
{
    let s = DeletePodcastChannel::spec_schema();
    let f = r.spec_fields();
    assert(fields_pairs(s, f.take(0)) =~= Seq::<PairView>::empty());
    assert(fields_pairs(s, f.take(1)) == fields_pairs(s, f.take(0)) + text_pairs("id"@, r.id)) by {
        lemma_fields_pairs_take(s, f, 0);
    }
    assert(fields_pairs(s, f.take(1)) =~= text_pairs("id"@, r.id));
    assert(f.take(1) =~= f);
}

/// A [`DeletePodcastEpisode`] is written as the pairs of its set fields, in the order
/// they are declared, each under the camelCase name of its struct field:
/// `id`.
pub proof fn lemma_delete_podcast_episode_pairs(r: &DeletePodcastEpisode)
    ensures
        fields_pairs(DeletePodcastEpisode::spec_schema(), r.spec_fields()) == text_pairs("id"@, r.id),
{
    let s = DeletePodcastEpisode::spec_schema();
    let f = r.spec_fields();
    assert(fields_pairs(s, f.take(0)) =~= Seq::<PairView>::empty());
    assert(fields_pairs(s, f.take(1)) == fields_pairs(s, f.take(0)) + text_pairs("id"@, r.id)) by {
        lemma_fields_pairs_take(s, f, 0);
    }
    assert(fields_pairs(s, f.take(1)) =~= text_pairs("id"@, r.id));
    assert(f.take(1) =~= f);
}

/// A [`DownloadPodcastEpisode`] is written as the pairs of its set fields, in the order
/// they are declared, each under the camelCase name of its struct field:
/// `id`.
pub proof fn lemma_download_podcast_episode_pairs(r: &DownloadPodcastEpisode)
    ensures
        fields_pairs(DownloadPodcastEpisode::spec_schema(), r.spec_fields()) == text_pairs("id"@, r.id),
{
    let s = DownloadPodcastEpisode::spec_schema();
    let f = r.spec_fields();
    assert(fields_pairs(s, f.take(0)) =~= Seq::<PairView>::empty());
    assert(fields_pairs(s, f.take(1)) == fields_pairs(s, f.take(0)) + text_pairs("id"@, r.id)) by {
        lemma_fields_pairs_take(s, f, 0);
    }
    assert(fields_pairs(s, f.take(1)) =~= text_pairs("id"@, r.id));
    assert(f.take(1) =~= f);
}

} // verus!
