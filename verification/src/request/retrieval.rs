//! Media retrieval requests.
use vstd::prelude::*;

use crate::codec::{fields_view, schema_view, FieldKind, FieldSpec, FieldSpecView, FieldValue, FieldValueView, ScalarKind};
use crate::common::{Seconds, Version, VideoBitrate, VideoSize};
use crate::request::values::{opt_bitrate_field, opt_bitrate_from, opt_bitrate_value, opt_flag_field, opt_flag_from, opt_flag_value, opt_secs_field, opt_secs_from, opt_secs_value, opt_size_field, opt_size_from, opt_size_value, opt_text_field, opt_text_from, opt_text_value, opt_u32_field, opt_u32_from, opt_u32_value, text_field, text_from, text_value};
use crate::request::SubsonicRequest;
use crate::roundtrip::{is_plain, lemma_plain_body_schema, lemma_reserved_keys, value_fits};

use crate::codec::{fields_pairs, lemma_fields_pairs_take};
use crate::query::PairView;
use crate::request::values::{opt_bitrate_pairs, opt_flag_pairs, opt_secs_pairs, opt_size_pairs, opt_text_pairs, opt_u32_pairs, text_pairs};

verus! {

#[derive(Debug, Clone, PartialEq)]
pub struct Stream {
    /// A string which uniquely identifies the file to stream. Obtained by calls to [`GetMusicDirectory`].
    pub id: String,
    /// Since 1.2.0
    /// If specified, the server will attempt to limit the bitrate to this value, in kilobits per second. If set to zero, no limit is imposed.
    pub max_bit_rate: Option<u32>,
    /// Since 1.6.0
    /// Specifies the preferred target format (e.g., "mp3" or "flv") in case there are multiple applicable transcodings. Starting with 1.9.0 you can use the special value "raw" to disable transcoding.
    pub format: Option<String>,
    /// Only applicable to video streaming.
    /// If specified, start streaming at the given offset (in seconds) into the video.
    /// Typically used to implement video skipping.
    pub time_offset: Option<Seconds>,
    /// Since 1.6.0
    /// Only applicable to video streaming.
    /// Requested video size specified as WxH, for instance "640x480".
    pub size: Option<VideoSize>,
    /// Since 1.8.0
    /// If set to "true", the Content-Length HTTP header will be set to an estimated value for transcoded or downsampled media.
    pub estimate_content_length: Option<bool>,
    /// Since 1.14.0
    /// Only applicable to video streaming.
    /// Subsonic can optimize videos for streaming by converting them to MP4.
    /// If a conversion exists for the video in question, then setting this parameter to "true" will cause the converted video to be returned instead of the original.
    pub converted: Option<bool>,
}

impl SubsonicRequest for Stream {
    open spec fn spec_schema() -> Seq<FieldSpecView> {
        seq![
            ("id"@, FieldKind::Required(ScalarKind::Text)),
            ("maxBitRate"@, FieldKind::Optional(ScalarKind::U32)),
            ("format"@, FieldKind::Optional(ScalarKind::Text)),
            ("timeOffset"@, FieldKind::Optional(ScalarKind::U64)),
            ("size"@, FieldKind::Optional(ScalarKind::Size)),
            ("estimateContentLength"@, FieldKind::OptionalFlag),
            ("converted"@, FieldKind::OptionalFlag),
        ]
    }

    open spec fn spec_fields(&self) -> Seq<FieldValueView> {
        seq![
            text_value(self.id),
            opt_u32_value(self.max_bit_rate),
            opt_text_value(self.format),
            opt_secs_value(self.time_offset),
            opt_size_value(self.size),
            opt_flag_value(self.estimate_content_length),
            opt_flag_value(self.converted),
        ]
    }

    open spec fn spec_schema_ok() -> bool {
        true
    }

    open spec fn spec_is_body() -> bool {
        true
    }

    open spec fn spec_path() -> Seq<char> {
        "/rest/getCoverArt"@
    }

    open spec fn spec_since() -> Version {
        Version { major: 1, minor: 0, patch: 0 }
    }

    fn path() -> (res: &'static str) {
        "/rest/getCoverArt"
    }

    fn since() -> (res: Version) {
        Version::new(1, 0, 0)
    }

    fn schema() -> (res: Vec<FieldSpec>) {
        let mut out: Vec<FieldSpec> = Vec::new();
        out.push(FieldSpec { key: "id", kind: FieldKind::Required(ScalarKind::Text) });
        out.push(FieldSpec { key: "maxBitRate", kind: FieldKind::Optional(ScalarKind::U32) });
        out.push(FieldSpec { key: "format", kind: FieldKind::Optional(ScalarKind::Text) });
        out.push(FieldSpec { key: "timeOffset", kind: FieldKind::Optional(ScalarKind::U64) });
        out.push(FieldSpec { key: "size", kind: FieldKind::Optional(ScalarKind::Size) });
        out.push(FieldSpec { key: "estimateContentLength", kind: FieldKind::OptionalFlag });
        out.push(FieldSpec { key: "converted", kind: FieldKind::OptionalFlag });
        proof {
            assert(schema_view(out@) =~= Self::spec_schema());
        }
        out
    }

    fn fields(&self) -> (res: Vec<FieldValue>) {
        let mut out: Vec<FieldValue> = Vec::new();
        out.push(text_field(&self.id));
        out.push(opt_u32_field(&self.max_bit_rate));
        out.push(opt_text_field(&self.format));
        out.push(opt_secs_field(&self.time_offset));
        out.push(opt_size_field(&self.size));
        out.push(opt_flag_field(&self.estimate_content_length));
        out.push(opt_flag_field(&self.converted));
        proof {
            assert(fields_view(out@) =~= self.spec_fields());
        }
        out
    }

    fn from_fields(fields: Vec<FieldValue>) -> (res: Self) {
        let ghost all = fields_view(fields@);
        let mut fields = fields;
        proof {
            assert(value_fits(Self::spec_schema()[0].1, all[0]));
            assert(value_fits(Self::spec_schema()[1].1, all[1]));
            assert(value_fits(Self::spec_schema()[2].1, all[2]));
            assert(value_fits(Self::spec_schema()[3].1, all[3]));
            assert(value_fits(Self::spec_schema()[4].1, all[4]));
            assert(value_fits(Self::spec_schema()[5].1, all[5]));
            assert(value_fits(Self::spec_schema()[6].1, all[6]));
        }
        let v6 = fields.pop().unwrap();
        let v5 = fields.pop().unwrap();
        let v4 = fields.pop().unwrap();
        let v3 = fields.pop().unwrap();
        let v2 = fields.pop().unwrap();
        let v1 = fields.pop().unwrap();
        let v0 = fields.pop().unwrap();
        proof {
            assert(v0@ == all[0]);
            assert(v1@ == all[1]);
            assert(v2@ == all[2]);
            assert(v3@ == all[3]);
            assert(v4@ == all[4]);
            assert(v5@ == all[5]);
            assert(v6@ == all[6]);
        }
        let r = Stream {
            id: text_from(v0),
            max_bit_rate: opt_u32_from(v1),
            format: opt_text_from(v2),
            time_offset: opt_secs_from(v3),
            size: opt_size_from(v4),
            estimate_content_length: opt_flag_from(v5),
            converted: opt_flag_from(v6),
        };
        proof {
            assert(r.spec_fields() =~= all);
        }
        r
    }

    proof fn lemma_fields_fit(r: &Self) {
        assert(value_fits(Self::spec_schema()[0].1, r.spec_fields()[0]));
        assert(value_fits(Self::spec_schema()[1].1, r.spec_fields()[1]));
        assert(value_fits(Self::spec_schema()[2].1, r.spec_fields()[2]));
        assert(value_fits(Self::spec_schema()[3].1, r.spec_fields()[3]));
        assert(value_fits(Self::spec_schema()[4].1, r.spec_fields()[4]));
        assert(value_fits(Self::spec_schema()[5].1, r.spec_fields()[5]));
        assert(value_fits(Self::spec_schema()[6].1, r.spec_fields()[6]));
    }

    proof fn lemma_schema_valid() {
        reveal_strlit("id");
        reveal_strlit("maxBitRate");
        reveal_strlit("format");
        reveal_strlit("timeOffset");
        reveal_strlit("size");
        reveal_strlit("estimateContentLength");
        reveal_strlit("converted");
        assert(is_plain("id"@));
        assert(is_plain("maxBitRate"@));
        assert(is_plain("format"@));
        assert(is_plain("timeOffset"@));
        assert(is_plain("size"@));
        assert(is_plain("estimateContentLength"@));
        assert(is_plain("converted"@));
        lemma_reserved_keys();
        assert("maxBitRate"@[0] != "timeOffset"@[0]);
        lemma_plain_body_schema(Self::spec_schema());
    }
}

/// Downloads a given media file.
/// Similar to [`Stream`], but this method returns the original media data without transcoding or downsampling.
///
/// For more information, see <http://www.subsonic.org/pages/api.jsp#download>
#[derive(Debug, Clone, PartialEq)]
pub struct Download {
    /// A string which uniquely identifies the file to download.
    /// Obtained by calls to [`GetMusicDirectory`].
    pub id: String,
}

impl SubsonicRequest for Download {
    open spec fn spec_schema() -> Seq<FieldSpecView> {
        seq![
            ("id"@, FieldKind::Required(ScalarKind::Text)),
        ]
    }

    open spec fn spec_fields(&self) -> Seq<FieldValueView> {
        seq![
            text_value(self.id),
        ]
    }

    open spec fn spec_schema_ok() -> bool {
        true
    }

    open spec fn spec_is_body() -> bool {
        true
    }

    open spec fn spec_path() -> Seq<char> {
        "/rest/download"@
    }

    open spec fn spec_since() -> Version {
        Version { major: 1, minor: 0, patch: 0 }
    }

    fn path() -> (res: &'static str) {
        "/rest/download"
    }

    fn since() -> (res: Version) {
        Version::new(1, 0, 0)
    }

    fn schema() -> (res: Vec<FieldSpec>) {
        let mut out: Vec<FieldSpec> = Vec::new();
        out.push(FieldSpec { key: "id", kind: FieldKind::Required(ScalarKind::Text) });
        proof {
            assert(schema_view(out@) =~= Self::spec_schema());
        }
        out
    }

    fn fields(&self) -> (res: Vec<FieldValue>) {
        let mut out: Vec<FieldValue> = Vec::new();
        out.push(text_field(&self.id));
        proof {
            assert(fields_view(out@) =~= self.spec_fields());
        }
        out
    }

    fn from_fields(fields: Vec<FieldValue>) -> (res: Self) {
        let ghost all = fields_view(fields@);
        let mut fields = fields;
        proof {
            assert(value_fits(Self::spec_schema()[0].1, all[0]));
        }
        let v0 = fields.pop().unwrap();
        proof {
            assert(v0@ == all[0]);
        }
        let r = Download {
            id: text_from(v0),
        };
        proof {
            assert(r.spec_fields() =~= all);
        }
        r
    }

    proof fn lemma_fields_fit(r: &Self) {
        assert(value_fits(Self::spec_schema()[0].1, r.spec_fields()[0]));
    }

    proof fn lemma_schema_valid() {
        reveal_strlit("id");
        assert(is_plain("id"@));
        lemma_reserved_keys();
        lemma_plain_body_schema(Self::spec_schema());
    }
}

/// Creates an HLS (HTTP Live Streaming) playlist used for streaming video or audio.
/// HLS is a streaming protocol implemented by Apple and works by breaking the overall stream into a sequence of small HTTP-based file downloads.
/// It's supported by iOS and newer versions of Android.
/// This method also supports adaptive bitrate streaming, see the bitRate parameter.
///
/// For more information, see <http://www.subsonic.org/pages/api.jsp#hls>
#[derive(Debug, Clone, PartialEq)]
pub struct Hls {
    /// A string which uniquely identifies the file to stream. Obtained by calls to [`GetMusicDirectory`].
    pub id: String,
    /// If specified, the server will attempt to limit the bitrate to this value, in kilobits per second.
    /// If this parameter is specified more than once, the server will create a variant playlist, suitable for adaptive bitrate streaming.
    /// The playlist will support streaming at all the specified bitrates.
    /// The server will automatically choose video dimensions that are suitable for the given bitrates.
    /// Since 1.9.0 you may explicitly request a certain width (480) and height (360) like so: bitRate=1000@480x360
    pub bit_rate: Option<VideoBitrate>,
    /// The ID of the audio track to use. See [`GetVideoInfo`] for how to get the list of available audio tracks for a video.
    pub audio_track: Option<String>,
}

impl SubsonicRequest for Hls {
    open spec fn spec_schema() -> Seq<FieldSpecView> {
        seq![
            ("id"@, FieldKind::Required(ScalarKind::Text)),
            ("bitRate"@, FieldKind::Optional(ScalarKind::Bitrate)),
            ("audioTrack"@, FieldKind::Optional(ScalarKind::Text)),
        ]
    }

    open spec fn spec_fields(&self) -> Seq<FieldValueView> {
        seq![
            text_value(self.id),
            opt_bitrate_value(self.bit_rate),
            opt_text_value(self.audio_track),
        ]
    }

    open spec fn spec_schema_ok() -> bool {
        true
    }

    open spec fn spec_is_body() -> bool {
        true
    }

    open spec fn spec_path() -> Seq<char> {
        "/rest/hls"@
    }

    open spec fn spec_since() -> Version {
        Version { major: 1, minor: 8, patch: 0 }
    }

    fn path() -> (res: &'static str) {
        "/rest/hls"
    }

    fn since() -> (res: Version) {
        Version::new(1, 8, 0)
    }

    fn schema() -> (res: Vec<FieldSpec>) {
        let mut out: Vec<FieldSpec> = Vec::new();
        out.push(FieldSpec { key: "id", kind: FieldKind::Required(ScalarKind::Text) });
        out.push(FieldSpec { key: "bitRate", kind: FieldKind::Optional(ScalarKind::Bitrate) });
        out.push(FieldSpec { key: "audioTrack", kind: FieldKind::Optional(ScalarKind::Text) });
        proof {
            assert(schema_view(out@) =~= Self::spec_schema());
        }
        out
    }

    fn fields(&self) -> (res: Vec<FieldValue>) {
        let mut out: Vec<FieldValue> = Vec::new();
        out.push(text_field(&self.id));
        out.push(opt_bitrate_field(&self.bit_rate));
        out.push(opt_text_field(&self.audio_track));
        proof {
            assert(fields_view(out@) =~= self.spec_fields());
        }
        out
    }

    fn from_fields(fields: Vec<FieldValue>) -> (res: Self) {
        let ghost all = fields_view(fields@);
        let mut fields = fields;
        proof {
            assert(value_fits(Self::spec_schema()[0].1, all[0]));
            assert(value_fits(Self::spec_schema()[1].1, all[1]));
            assert(value_fits(Self::spec_schema()[2].1, all[2]));
        }
        let v2 = fields.pop().unwrap();
        let v1 = fields.pop().unwrap();
        let v0 = fields.pop().unwrap();
        proof {
            assert(v0@ == all[0]);
            assert(v1@ == all[1]);
            assert(v2@ == all[2]);
        }
        let r = Hls {
            id: text_from(v0),
            bit_rate: opt_bitrate_from(v1),
            audio_track: opt_text_from(v2),
        };
        proof {
            assert(r.spec_fields() =~= all);
        }
        r
    }

    proof fn lemma_fields_fit(r: &Self) {
        assert(value_fits(Self::spec_schema()[0].1, r.spec_fields()[0]));
        assert(value_fits(Self::spec_schema()[1].1, r.spec_fields()[1]));
        assert(value_fits(Self::spec_schema()[2].1, r.spec_fields()[2]));
    }

    proof fn lemma_schema_valid() {
        reveal_strlit("id");
        reveal_strlit("bitRate");
        reveal_strlit("audioTrack");
        assert(is_plain("id"@));
        assert(is_plain("bitRate"@));
        assert(is_plain("audioTrack"@));
        lemma_reserved_keys();
        lemma_plain_body_schema(Self::spec_schema());
    }
}

/// Returns captions (subtitles) for a video. Use getVideoInfo to get a list of available captions.
///
/// For more information, see <http://www.subsonic.org/pages/api.jsp#getCaptions>
#[derive(Debug, Clone, PartialEq)]
pub struct GetCaptions {
    /// The ID of the video.
    pub id: String,
    /// Preferred captions format ("srt" or "vtt").
    pub format: Option<String>,
}

impl SubsonicRequest for GetCaptions {
    open spec fn spec_schema() -> Seq<FieldSpecView> {
        seq![
            ("id"@, FieldKind::Required(ScalarKind::Text)),
            ("format"@, FieldKind::Optional(ScalarKind::Text)),
        ]
    }

    open spec fn spec_fields(&self) -> Seq<FieldValueView> {
        seq![
            text_value(self.id),
            opt_text_value(self.format),
        ]
    }

    open spec fn spec_schema_ok() -> bool {
        true
    }

    open spec fn spec_is_body() -> bool {
        true
    }

    open spec fn spec_path() -> Seq<char> {
        "/rest/getCaptions"@
    }

    open spec fn spec_since() -> Version {
        Version { major: 1, minor: 14, patch: 0 }
    }

    fn path() -> (res: &'static str) {
        "/rest/getCaptions"
    }

    fn since() -> (res: Version) {
        Version::new(1, 14, 0)
    }

    fn schema() -> (res: Vec<FieldSpec>) {
        let mut out: Vec<FieldSpec> = Vec::new();
        out.push(FieldSpec { key: "id", kind: FieldKind::Required(ScalarKind::Text) });
        out.push(FieldSpec { key: "format", kind: FieldKind::Optional(ScalarKind::Text) });
        proof {
            assert(schema_view(out@) =~= Self::spec_schema());
        }
        out
    }

    fn fields(&self) -> (res: Vec<FieldValue>) {
        let mut out: Vec<FieldValue> = Vec::new();
        out.push(text_field(&self.id));
        out.push(opt_text_field(&self.format));
        proof {
            assert(fields_view(out@) =~= self.spec_fields());
        }
        out
    }

    fn from_fields(fields: Vec<FieldValue>) -> (res: Self) {
        let ghost all = fields_view(fields@);
        let mut fields = fields;
        proof {
            assert(value_fits(Self::spec_schema()[0].1, all[0]));
            assert(value_fits(Self::spec_schema()[1].1, all[1]));
        }
        let v1 = fields.pop().unwrap();
        let v0 = fields.pop().unwrap();
        proof {
            assert(v0@ == all[0]);
            assert(v1@ == all[1]);
        }
        let r = GetCaptions {
            id: text_from(v0),
            format: opt_text_from(v1),
        };
        proof {
            assert(r.spec_fields() =~= all);
        }
        r
    }

    proof fn lemma_fields_fit(r: &Self) {
        assert(value_fits(Self::spec_schema()[0].1, r.spec_fields()[0]));
        assert(value_fits(Self::spec_schema()[1].1, r.spec_fields()[1]));
    }

    proof fn lemma_schema_valid() {
        reveal_strlit("id");
        reveal_strlit("format");
        assert(is_plain("id"@));
        assert(is_plain("format"@));
        lemma_reserved_keys();
        lemma_plain_body_schema(Self::spec_schema());
    }
}

/// Returns a cover art image.
///
/// For more information, see <http://www.subsonic.org/pages/api.jsp#getCoverArt>
#[derive(Debug, Clone, PartialEq)]
pub struct GetCoverArt {
    /// The ID of a song, album or artist.
    pub id: String,
    /// If specified, scale image to this size.
    pub size: Option<String>,
}

impl SubsonicRequest for GetCoverArt {
    open spec fn spec_schema() -> Seq<FieldSpecView> {
        seq![
            ("id"@, FieldKind::Required(ScalarKind::Text)),
            ("size"@, FieldKind::Optional(ScalarKind::Text)),
        ]
    }

    open spec fn spec_fields(&self) -> Seq<FieldValueView> {
        seq![
            text_value(self.id),
            opt_text_value(self.size),
        ]
    }

    open spec fn spec_schema_ok() -> bool {
        true
    }

    open spec fn spec_is_body() -> bool {
        true
    }

    open spec fn spec_path() -> Seq<char> {
        "/rest/getCoverArt"@
    }

    open spec fn spec_since() -> Version {
        Version { major: 1, minor: 0, patch: 0 }
    }

    fn path() -> (res: &'static str) {
        "/rest/getCoverArt"
    }

    fn since() -> (res: Version) {
        Version::new(1, 0, 0)
    }

    fn schema() -> (res: Vec<FieldSpec>) {
        let mut out: Vec<FieldSpec> = Vec::new();
        out.push(FieldSpec { key: "id", kind: FieldKind::Required(ScalarKind::Text) });
        out.push(FieldSpec { key: "size", kind: FieldKind::Optional(ScalarKind::Text) });
        proof {
            assert(schema_view(out@) =~= Self::spec_schema());
        }
        out
    }

    fn fields(&self) -> (res: Vec<FieldValue>) {
        let mut out: Vec<FieldValue> = Vec::new();
        out.push(text_field(&self.id));
        out.push(opt_text_field(&self.size));
        proof {
            assert(fields_view(out@) =~= self.spec_fields());
        }
        out
    }

    fn from_fields(fields: Vec<FieldValue>) -> (res: Self) {
        let ghost all = fields_view(fields@);
        let mut fields = fields;
        proof {
            assert(value_fits(Self::spec_schema()[0].1, all[0]));
            assert(value_fits(Self::spec_schema()[1].1, all[1]));
        }
        let v1 = fields.pop().unwrap();
        let v0 = fields.pop().unwrap();
        proof {
            assert(v0@ == all[0]);
            assert(v1@ == all[1]);
        }
        let r = GetCoverArt {
            id: text_from(v0),
            size: opt_text_from(v1),
        };
        proof {
            assert(r.spec_fields() =~= all);
        }
        r
    }

    proof fn lemma_fields_fit(r: &Self) {
        assert(value_fits(Self::spec_schema()[0].1, r.spec_fields()[0]));
        assert(value_fits(Self::spec_schema()[1].1, r.spec_fields()[1]));
    }

    proof fn lemma_schema_valid() {
        reveal_strlit("id");
        reveal_strlit("size");
        assert(is_plain("id"@));
        assert(is_plain("size"@));
        lemma_reserved_keys();
        lemma_plain_body_schema(Self::spec_schema());
    }
}

/// Searches for and returns lyrics for a given song.
///
/// For more information, see <http://www.subsonic.org/pages/api.jsp#getLyrics>
#[derive(Debug, Clone, PartialEq)]
pub struct GetLyrics {
    /// The artist name.
    pub artist: Option<String>,
    /// The song title.
    pub title: Option<String>,
}

impl SubsonicRequest for GetLyrics {
    open spec fn spec_schema() -> Seq<FieldSpecView> {
        seq![
            ("artist"@, FieldKind::Optional(ScalarKind::Text)),
            ("title"@, FieldKind::Optional(ScalarKind::Text)),
        ]
    }

    open spec fn spec_fields(&self) -> Seq<FieldValueView> {
        seq![
            opt_text_value(self.artist),
            opt_text_value(self.title),
        ]
    }

    open spec fn spec_schema_ok() -> bool {
        true
    }

    open spec fn spec_is_body() -> bool {
        true
    }

    open spec fn spec_path() -> Seq<char> {
        "/rest/getLyrics"@
    }

    open spec fn spec_since() -> Version {
        Version { major: 1, minor: 2, patch: 0 }
    }

    fn path() -> (res: &'static str) {
        "/rest/getLyrics"
    }

    fn since() -> (res: Version) {
        Version::new(1, 2, 0)
    }

    fn schema() -> (res: Vec<FieldSpec>) {
        let mut out: Vec<FieldSpec> = Vec::new();
        out.push(FieldSpec { key: "artist", kind: FieldKind::Optional(ScalarKind::Text) });
        out.push(FieldSpec { key: "title", kind: FieldKind::Optional(ScalarKind::Text) });
        proof {
            assert(schema_view(out@) =~= Self::spec_schema());
        }
        out
    }

    fn fields(&self) -> (res: Vec<FieldValue>) {
        let mut out: Vec<FieldValue> = Vec::new();
        out.push(opt_text_field(&self.artist));
        out.push(opt_text_field(&self.title));
        proof {
            assert(fields_view(out@) =~= self.spec_fields());
        }
        out
    }

    fn from_fields(fields: Vec<FieldValue>) -> (res: Self) {
        let ghost all = fields_view(fields@);
        let mut fields = fields;
        proof {
            assert(value_fits(Self::spec_schema()[0].1, all[0]));
            assert(value_fits(Self::spec_schema()[1].1, all[1]));
        }
        let v1 = fields.pop().unwrap();
        let v0 = fields.pop().unwrap();
        proof {
            assert(v0@ == all[0]);
            assert(v1@ == all[1]);
        }
        let r = GetLyrics {
            artist: opt_text_from(v0),
            title: opt_text_from(v1),
        };
        proof {
            assert(r.spec_fields() =~= all);
        }
        r
    }

    proof fn lemma_fields_fit(r: &Self) {
        assert(value_fits(Self::spec_schema()[0].1, r.spec_fields()[0]));
        assert(value_fits(Self::spec_schema()[1].1, r.spec_fields()[1]));
    }

    proof fn lemma_schema_valid() {
        reveal_strlit("artist");
        reveal_strlit("title");
        assert(is_plain("artist"@));
        assert(is_plain("title"@));
        lemma_reserved_keys();
        lemma_plain_body_schema(Self::spec_schema());
    }
}

/// Returns the avatar (personal image) for a user.
///
/// For more information, see <http://www.subsonic.org/pages/api.jsp#getAvatar>
#[derive(Debug, Clone, PartialEq)]
pub struct GetAvatar {
    /// The user in question.
    pub username: String,
}

impl SubsonicRequest for GetAvatar {
    open spec fn spec_schema() -> Seq<FieldSpecView> {
        seq![
            ("username"@, FieldKind::Required(ScalarKind::Text)),
        ]
    }

    open spec fn spec_fields(&self) -> Seq<FieldValueView> {
        seq![
            text_value(self.username),
        ]
    }

    open spec fn spec_schema_ok() -> bool {
        true
    }

    open spec fn spec_is_body() -> bool {
        true
    }

    open spec fn spec_path() -> Seq<char> {
        "/rest/getAvatar"@
    }

    open spec fn spec_since() -> Version {
        Version { major: 1, minor: 8, patch: 0 }
    }

    fn path() -> (res: &'static str) {
        "/rest/getAvatar"
    }

    fn since() -> (res: Version) {
        Version::new(1, 8, 0)
    }

    fn schema() -> (res: Vec<FieldSpec>) {
        let mut out: Vec<FieldSpec> = Vec::new();
        out.push(FieldSpec { key: "username", kind: FieldKind::Required(ScalarKind::Text) });
        proof {
            assert(schema_view(out@) =~= Self::spec_schema());
        }
        out
    }

    fn fields(&self) -> (res: Vec<FieldValue>) {
        let mut out: Vec<FieldValue> = Vec::new();
        out.push(text_field(&self.username));
        proof {
            assert(fields_view(out@) =~= self.spec_fields());
        }
        out
    }

    fn from_fields(fields: Vec<FieldValue>) -> (res: Self) {
        let ghost all = fields_view(fields@);
        let mut fields = fields;
        proof {
            assert(value_fits(Self::spec_schema()[0].1, all[0]));
        }
        let v0 = fields.pop().unwrap();
        proof {
            assert(v0@ == all[0]);
        }
        let r = GetAvatar {
            username: text_from(v0),
        };
        proof {
            assert(r.spec_fields() =~= all);
        }
        r
    }

    proof fn lemma_fields_fit(r: &Self) {
        assert(value_fits(Self::spec_schema()[0].1, r.spec_fields()[0]));
    }

    proof fn lemma_schema_valid() {
        reveal_strlit("username");
        assert(is_plain("username"@));
        lemma_reserved_keys();
        lemma_plain_body_schema(Self::spec_schema());
    }
}

/// A [`Stream`] is written as the pairs of its set fields, in the order
/// they are declared, each under the camelCase name of its struct field:
/// `id`, `maxBitRate`, `format`, `timeOffset`, `size`, `estimateContentLength`,
/// `converted`.
pub proof fn lemma_stream_pairs(r: &Stream)
    ensures
        fields_pairs(Stream::spec_schema(), r.spec_fields()) == text_pairs("id"@, r.id)
            + opt_u32_pairs("maxBitRate"@, r.max_bit_rate)
            + opt_text_pairs("format"@, r.format)
            + opt_secs_pairs("timeOffset"@, r.time_offset)
            + opt_size_pairs("size"@, r.size)
            + opt_flag_pairs("estimateContentLength"@, r.estimate_content_length)
            + opt_flag_pairs("converted"@, r.converted),
{
    let s = Stream::spec_schema();
    let f = r.spec_fields();
    assert(fields_pairs(s, f.take(0)) =~= Seq::<PairView>::empty());
    assert(fields_pairs(s, f.take(1)) == fields_pairs(s, f.take(0)) + text_pairs("id"@, r.id)) by {
        lemma_fields_pairs_take(s, f, 0);
    }
    assert(fields_pairs(s, f.take(2)) == fields_pairs(s, f.take(1)) + opt_u32_pairs("maxBitRate"@, r.max_bit_rate)) by {
        lemma_fields_pairs_take(s, f, 1);
    }
    assert(fields_pairs(s, f.take(3)) == fields_pairs(s, f.take(2)) + opt_text_pairs("format"@, r.format)) by {
        lemma_fields_pairs_take(s, f, 2);
    }
    assert(fields_pairs(s, f.take(4)) == fields_pairs(s, f.take(3)) + opt_secs_pairs("timeOffset"@, r.time_offset)) by {
        lemma_fields_pairs_take(s, f, 3);
    }
    assert(fields_pairs(s, f.take(5)) == fields_pairs(s, f.take(4)) + opt_size_pairs("size"@, r.size)) by {
        lemma_fields_pairs_take(s, f, 4);
    }
    assert(fields_pairs(s, f.take(6)) == fields_pairs(s, f.take(5)) + opt_flag_pairs("estimateContentLength"@, r.estimate_content_length)) by {
        lemma_fields_pairs_take(s, f, 5);
    }
    assert(fields_pairs(s, f.take(7)) == fields_pairs(s, f.take(6)) + opt_flag_pairs("converted"@, r.converted)) by {
        lemma_fields_pairs_take(s, f, 6);
    }
    assert(fields_pairs(s, f.take(1)) =~= text_pairs("id"@, r.id));
    assert(f.take(7) =~= f);
}

/// A [`Download`] is written as the pairs of its set fields, in the order
/// they are declared, each under the camelCase name of its struct field:
/// `id`.
pub proof fn lemma_download_pairs(r: &Download)
    ensures
        fields_pairs(Download::spec_schema(), r.spec_fields()) == text_pairs("id"@, r.id),
{
    let s = Download::spec_schema();
    let f = r.spec_fields();
    assert(fields_pairs(s, f.take(0)) =~= Seq::<PairView>::empty());
    assert(fields_pairs(s, f.take(1)) == fields_pairs(s, f.take(0)) + text_pairs("id"@, r.id)) by {
        lemma_fields_pairs_take(s, f, 0);
    }
    assert(fields_pairs(s, f.take(1)) =~= text_pairs("id"@, r.id));
    assert(f.take(1) =~= f);
}

/// A [`Hls`] is written as the pairs of its set fields, in the order
/// they are declared, each under the camelCase name of its struct field:
/// `id`, `bitRate`, `audioTrack`.
pub proof fn lemma_hls_pairs(r: &Hls)
    ensures
        fields_pairs(Hls::spec_schema(), r.spec_fields()) == text_pairs("id"@, r.id)
            + opt_bitrate_pairs("bitRate"@, r.bit_rate)
            + opt_text_pairs("audioTrack"@, r.audio_track),
{
    let s = Hls::spec_schema();
    let f = r.spec_fields();
    assert(fields_pairs(s, f.take(0)) =~= Seq::<PairView>::empty());
    assert(fields_pairs(s, f.take(1)) == fields_pairs(s, f.take(0)) + text_pairs("id"@, r.id)) by {
        lemma_fields_pairs_take(s, f, 0);
    }
    assert(fields_pairs(s, f.take(2)) == fields_pairs(s, f.take(1)) + opt_bitrate_pairs("bitRate"@, r.bit_rate)) by {
        lemma_fields_pairs_take(s, f, 1);
    }
    assert(fields_pairs(s, f.take(3)) == fields_pairs(s, f.take(2)) + opt_text_pairs("audioTrack"@, r.audio_track)) by {
        lemma_fields_pairs_take(s, f, 2);
    }
    assert(fields_pairs(s, f.take(1)) =~= text_pairs("id"@, r.id));
    assert(f.take(3) =~= f);
}

/// A [`GetCaptions`] is written as the pairs of its set fields, in the order
/// they are declared, each under the camelCase name of its struct field:
/// `id`, `format`.
pub proof fn lemma_get_captions_pairs(r: &GetCaptions)
    ensures
        fields_pairs(GetCaptions::spec_schema(), r.spec_fields()) == text_pairs("id"@, r.id)
            + opt_text_pairs("format"@, r.format),
{
    let s = GetCaptions::spec_schema();
    let f = r.spec_fields();
    assert(fields_pairs(s, f.take(0)) =~= Seq::<PairView>::empty());
    assert(fields_pairs(s, f.take(1)) == fields_pairs(s, f.take(0)) + text_pairs("id"@, r.id)) by {
        lemma_fields_pairs_take(s, f, 0);
    }
    assert(fields_pairs(s, f.take(2)) == fields_pairs(s, f.take(1)) + opt_text_pairs("format"@, r.format)) by {
        lemma_fields_pairs_take(s, f, 1);
    }
    assert(fields_pairs(s, f.take(1)) =~= text_pairs("id"@, r.id));
    assert(f.take(2) =~= f);
}

/// A [`GetCoverArt`] is written as the pairs of its set fields, in the order
/// they are declared, each under the camelCase name of its struct field:
/// `id`, `size`.
pub proof fn lemma_get_cover_art_pairs(r: &GetCoverArt)
    ensures
        fields_pairs(GetCoverArt::spec_schema(), r.spec_fields()) == text_pairs("id"@, r.id)
            + opt_text_pairs("size"@, r.size),
{
    let s = GetCoverArt::spec_schema();
    let f = r.spec_fields();
    assert(fields_pairs(s, f.take(0)) =~= Seq::<PairView>::empty());
    assert(fields_pairs(s, f.take(1)) == fields_pairs(s, f.take(0)) + text_pairs("id"@, r.id)) by {
        lemma_fields_pairs_take(s, f, 0);
    }
    assert(fields_pairs(s, f.take(2)) == fields_pairs(s, f.take(1)) + opt_text_pairs("size"@, r.size)) by {
        lemma_fields_pairs_take(s, f, 1);
    }
    assert(fields_pairs(s, f.take(1)) =~= text_pairs("id"@, r.id));
    assert(f.take(2) =~= f);
}

/// A [`GetLyrics`] is written as the pairs of its set fields, in the order
/// they are declared, each under the camelCase name of its struct field:
/// `artist`, `title`.
pub proof fn lemma_get_lyrics_pairs(r: &GetLyrics)
    ensures
        fields_pairs(GetLyrics::spec_schema(), r.spec_fields()) == opt_text_pairs("artist"@, r.artist)
            + opt_text_pairs("title"@, r.title),
{
    let s = GetLyrics::spec_schema();
    let f = r.spec_fields();
    assert(fields_pairs(s, f.take(0)) =~= Seq::<PairView>::empty());
    assert(fields_pairs(s, f.take(1)) == fields_pairs(s, f.take(0)) + opt_text_pairs("artist"@, r.artist)) by {
        lemma_fields_pairs_take(s, f, 0);
    }
    assert(fields_pairs(s, f.take(2)) == fields_pairs(s, f.take(1)) + opt_text_pairs("title"@, r.title)) by {
        lemma_fields_pairs_take(s, f, 1);
    }
    assert(fields_pairs(s, f.take(1)) =~= opt_text_pairs("artist"@, r.artist));
    assert(f.take(2) =~= f);
}

/// A [`GetAvatar`] is written as the pairs of its set fields, in the order
/// they are declared, each under the camelCase name of its struct field:
/// `username`.
pub proof fn lemma_get_avatar_pairs(r: &GetAvatar)
    ensures
        fields_pairs(GetAvatar::spec_schema(), r.spec_fields()) == text_pairs("username"@, r.username),
{
    let s = GetAvatar::spec_schema();
    let f = r.spec_fields();
    assert(fields_pairs(s, f.take(0)) =~= Seq::<PairView>::empty());
    assert(fields_pairs(s, f.take(1)) == fields_pairs(s, f.take(0)) + text_pairs("username"@, r.username)) by {
        lemma_fields_pairs_take(s, f, 0);
    }
    assert(fields_pairs(s, f.take(1)) =~= text_pairs("username"@, r.username));
    assert(f.take(1) =~= f);
}

} // verus!
