//! Value types shared by requests and responses, with their text forms.
use std::time::Duration;

use vstd::prelude::*;

use crate::text::{
    chars_of, decimal_text, lemma_decimal_excludes, lemma_parses_decimal,
    lemma_split_on_none, lemma_split_on_sep, parse_u32, parse_u64, parses_unsigned, push_text,
    split_chars, split_on, str_eq, string_of, to_owned_string, u32_text, u64_parse_error_text, u64_text,
    unsigned_literal_value,
};

verus! {

/// The duration that `Duration::from_millis` gives for a number of milliseconds.
pub uninterp spec fn millis_duration(ms: u64) -> Duration;

/// The duration that `Duration::from_secs` gives for a number of seconds.
pub uninterp spec fn secs_duration(s: u64) -> Duration;

/// Calls `Duration::from_millis`, a function of its argument alone.
#[verifier::external_body]
fn duration_from_millis(ms: u64) -> (res: Duration)
    ensures
        res == millis_duration(ms),
{
    Duration::from_millis(ms)
}

/// Calls `Duration::from_secs`, a function of its argument alone.
#[verifier::external_body]
fn duration_from_secs(s: u64) -> (res: Duration)
    ensures
        res == secs_duration(s),
{
    Duration::from_secs(s)
}

/// A duration in milliseconds.
/// When used to represent an instant in time, it is relative to the Unix epoch.
#[derive(Debug, Clone, Copy, PartialEq, Eq, PartialOrd, Ord, Hash, Structural)]
pub struct Milliseconds(pub u64);

impl Milliseconds {
    pub fn new(milliseconds: u64) -> (res: Self)
        ensures
            res.0 == milliseconds,
    {
        Self(milliseconds)
    }

    pub fn to_duration(&self) -> (res: Duration)
        ensures
            res == millis_duration(self.0),
    {
        self.into_duration()
    }

    pub fn into_duration(self) -> (res: Duration)
        ensures
            res == millis_duration(self.0),
    {
        duration_from_millis(self.0)
    }

    /// The decimal number of milliseconds.
    pub fn to_string(&self) -> (res: String)
        ensures
            res@ == decimal_text(self.0 as nat),
    {
        u64_text(self.0)
    }

    /// Reads a decimal number of milliseconds (an optional `+` and digits).
    pub fn parse(s: &str) -> (res: Result<Self, String>)
        ensures
            res is Ok <==> parses_unsigned(s@, u64::MAX as nat),
            res matches Ok(v) ==> v.0 as nat == unsigned_literal_value(s@),
            res matches Err(e) ==> e@ == u64_parse_error_text(s@),
    {
        match parse_u64(s) {
            Ok(v) => Ok(Self(v)),
            Err(e) => Err(e),
        }
    }
}

impl std::str::FromStr for Milliseconds {
    type Err = String;

    fn from_str(s: &str) -> Result<Self, Self::Err> {
        Self::parse(s)
    }
}

/// A duration in seconds.
/// When used to represent an instant in time, it is relative to the Unix epoch.
#[derive(Debug, Clone, Copy, PartialEq, Eq, PartialOrd, Ord, Hash, Structural)]
pub struct Seconds(pub u64);

impl Seconds {
    pub fn new(seconds: u64) -> (res: Self)
        ensures
            res.0 == seconds,
    {
        Self(seconds)
    }

    pub fn to_duration(&self) -> (res: Duration)
        ensures
            res == secs_duration(self.0),
    {
        self.into_duration()
    }

    pub fn into_duration(self) -> (res: Duration)
        ensures
            res == secs_duration(self.0),
    {
        duration_from_secs(self.0)
    }

    /// The decimal number of seconds.
    pub fn to_string(&self) -> (res: String)
        ensures
            res@ == decimal_text(self.0 as nat),
    {
        u64_text(self.0)
    }

    /// Reads a decimal number of seconds (an optional `+` and digits).
    pub fn parse(s: &str) -> (res: Result<Self, String>)
        ensures
            res is Ok <==> parses_unsigned(s@, u64::MAX as nat),
            res matches Ok(v) ==> v.0 as nat == unsigned_literal_value(s@),
            res matches Err(e) ==> e@ == u64_parse_error_text(s@),
    {
        match parse_u64(s) {
            Ok(v) => Ok(Self(v)),
            Err(e) => Err(e),
        }
    }
}

impl std::str::FromStr for Seconds {
    type Err = String;

    fn from_str(s: &str) -> Result<Self, Self::Err> {
        Self::parse(s)
    }
}

/// The identifier of a music folder.
#[derive(Debug, Clone, Copy, PartialEq, Eq, PartialOrd, Ord, Hash, Structural)]
pub struct MusicFolderId(pub u32);

impl MusicFolderId {
    pub fn new(id: u32) -> (res: Self)
        ensures
            res.0 == id,
    {
        Self(id)
    }
}

/// The error of reading a video size.
#[derive(Debug, Clone, Copy, PartialEq, Eq, Structural)]
pub struct InvalidVideoSize;

impl InvalidVideoSize {
    pub fn to_string(&self) -> (res: String)
        ensures
            res@ == "invalid video size"@,
    {
        to_owned_string("invalid video size")
    }
}

/// A video size in pixels containing a width and a height.
#[derive(Debug, Clone, Copy, PartialEq, Eq, Hash, Structural)]
pub struct VideoSize {
    pub width: u32,
    pub height: u32,
}

/// `WIDTHxHEIGHT`.
pub open spec fn video_size_text(v: VideoSize) -> Seq<char> {
    decimal_text(v.width as nat) + seq!['x'] + decimal_text(v.height as nat)
}

/// A video size is read from exactly two decimal numbers separated by `x`.
pub open spec fn video_size_parse(s: Seq<char>) -> Option<VideoSize> {
    let p = split_on(s, 'x');
    if p.len() == 2 && parses_unsigned(p[0], u32::MAX as nat) && parses_unsigned(p[1], u32::MAX as nat) {
        Some(
            VideoSize {
                width: unsigned_literal_value(p[0]) as u32,
                height: unsigned_literal_value(p[1]) as u32,
            },
        )
    } else {
        None
    }
}

impl VideoSize {
    pub fn new(width: u32, height: u32) -> (res: Self)
        ensures
            res.width == width,
            res.height == height,
    {
        Self { width, height }
    }

    /// `WIDTHxHEIGHT`, as `Display` writes it.
    pub fn to_string(&self) -> (res: String)
        ensures
            res@ == video_size_text(*self),
    {
        let mut out: Vec<char> = Vec::new();
        push_text(&mut out, u32_text(self.width).as_str());
        out.push('x');
        push_text(&mut out, u32_text(self.height).as_str());
        string_of(out.as_slice())
    }

    /// Reads `WIDTHxHEIGHT`.
    pub fn parse(s: &str) -> (res: Result<Self, InvalidVideoSize>)
        ensures
            match res {
                Ok(v) => video_size_parse(s@) == Some(v),
                Err(_) => video_size_parse(s@) is None,
            },
    {
        let cs = chars_of(s);
        let parts = split_chars(&cs, 'x');
        if parts.len() != 2 {
            return Err(InvalidVideoSize);
        }
        let w = string_of(parts[0].as_slice());
        let h = string_of(parts[1].as_slice());
        let width = match parse_u32(w.as_str()) {
            Ok(v) => v,
            Err(_) => return Err(InvalidVideoSize),
        };
        let height = match parse_u32(h.as_str()) {
            Ok(v) => v,
            Err(_) => return Err(InvalidVideoSize),
        };
        Ok(Self { width, height })
    }
}

impl std::str::FromStr for VideoSize {
    type Err = InvalidVideoSize;

    fn from_str(s: &str) -> Result<Self, Self::Err> {
        Self::parse(s)
    }
}

/// Reading the text of a video size gives it back.
pub proof fn lemma_video_size_roundtrip(v: VideoSize)
    ensures
        video_size_parse(video_size_text(v)) == Some(v),
        !video_size_text(v).contains('@'),
        !video_size_text(v).contains('&'),
        !video_size_text(v).contains('%'),
{
    let a = decimal_text(v.width as nat);
    let b = decimal_text(v.height as nat);
    lemma_decimal_excludes(v.width as nat, 'x');
    lemma_decimal_excludes(v.height as nat, 'x');
    lemma_split_on_none(a, 'x');
    lemma_split_on_sep(a, b, 'x');
    lemma_parses_decimal(v.width as nat, u32::MAX as nat);
    lemma_parses_decimal(v.height as nat, u32::MAX as nat);
    assert(split_on(video_size_text(v), 'x') =~= seq![a, b]);
    let t = video_size_text(v);
    lemma_decimal_excludes(v.width as nat, '@');
    lemma_decimal_excludes(v.height as nat, '@');
    lemma_decimal_excludes(v.width as nat, '&');
    lemma_decimal_excludes(v.height as nat, '&');
    lemma_decimal_excludes(v.width as nat, '%');
    lemma_decimal_excludes(v.height as nat, '%');
    assert forall|c: char| c == '@' || c == '&' || c == '%' implies !t.contains(c) by {
        if t.contains(c) {
            let i = choose|i: int| 0 <= i < t.len() && t[i] == c;
            if i < a.len() {
                assert(a[i] == c);
            } else if i > a.len() {
                assert(b[i - a.len() - 1] == c);
            }
        }
    }
}

/// The error of reading a video bitrate.
#[derive(Debug, Clone, Copy, PartialEq, Eq, Structural)]
pub struct InvalidVideoBitrate;

impl InvalidVideoBitrate {
    pub fn to_string(&self) -> (res: String)
        ensures
            res@ == "invalid video bitrate"@,
    {
        to_owned_string("invalid video bitrate")
    }
}

/// A video bitrate, in kilobits per second, optionally containing a video size.
#[derive(Debug, Clone, Copy, PartialEq, Eq, Hash, Structural)]
pub struct VideoBitrate {
    pub bitrate: u32,
    pub size: Option<VideoSize>,
}

/// `BITRATE` or `BITRATE@WIDTHxHEIGHT`.
pub open spec fn video_bitrate_text(v: VideoBitrate) -> Seq<char> {
    match v.size {
        Some(size) => decimal_text(v.bitrate as nat) + seq!['@'] + video_size_text(size),
        None => decimal_text(v.bitrate as nat),
    }
}

/// A video bitrate is read from a decimal number, optionally followed by `@`
/// and a video size.
pub open spec fn video_bitrate_parse(s: Seq<char>) -> Option<VideoBitrate> {
    let p = split_on(s, '@');
    if !parses_unsigned(p[0], u32::MAX as nat) {
        None
    } else if p.len() == 1 {
        Some(VideoBitrate { bitrate: unsigned_literal_value(p[0]) as u32, size: None })
    } else if p.len() == 2 {
        match video_size_parse(p[1]) {
            Some(size) => Some(VideoBitrate { bitrate: unsigned_literal_value(p[0]) as u32, size: Some(size) }),
            None => None,
        }
    } else {
        None
    }
}

impl VideoBitrate {
    pub fn new(bitrate: u32, size: Option<VideoSize>) -> (res: Self)
        ensures
            res.bitrate == bitrate,
            res.size == size,
    {
        Self { bitrate, size }
    }

    pub fn without_size(bitrate: u32) -> (res: Self)
        ensures
            res.bitrate == bitrate,
            res.size is None,
    {
        Self::new(bitrate, None)
    }

    /// `BITRATE` or `BITRATE@WIDTHxHEIGHT`, as `Display` writes it.
    pub fn to_string(&self) -> (res: String)
        ensures
            res@ == video_bitrate_text(*self),
    {
        let mut out: Vec<char> = Vec::new();
        push_text(&mut out, u32_text(self.bitrate).as_str());
        match self.size {
            Some(size) => {
                out.push('@');
                push_text(&mut out, size.to_string().as_str());
            },
            None => {},
        }
        string_of(out.as_slice())
    }

    /// Reads `BITRATE` or `BITRATE@WIDTHxHEIGHT`.
    pub fn parse(s: &str) -> (res: Result<Self, InvalidVideoBitrate>)
        ensures
            match res {
                Ok(v) => video_bitrate_parse(s@) == Some(v),
                Err(_) => video_bitrate_parse(s@) is None,
            },
    {
        let cs = chars_of(s);
        let parts = split_chars(&cs, '@');
        proof {
            crate::text::lemma_split_on_len(s@, '@');
        }
        let b = string_of(parts[0].as_slice());
        let bitrate = match parse_u32(b.as_str()) {
            Ok(v) => v,
            Err(_) => return Err(InvalidVideoBitrate),
        };
        if parts.len() == 1 {
            return Ok(Self { bitrate, size: None });
        }
        if parts.len() > 2 {
            return Err(InvalidVideoBitrate);
        }
        let z = string_of(parts[1].as_slice());
        match VideoSize::parse(z.as_str()) {
            Ok(size) => Ok(Self { bitrate, size: Some(size) }),
            Err(_) => Err(InvalidVideoBitrate),
        }
    }
}

impl std::str::FromStr for VideoBitrate {
    type Err = InvalidVideoBitrate;

    fn from_str(s: &str) -> Result<Self, Self::Err> {
        Self::parse(s)
    }
}

/// Reading the text of a video bitrate gives it back.
pub proof fn lemma_video_bitrate_roundtrip(v: VideoBitrate)
    ensures
        video_bitrate_parse(video_bitrate_text(v)) == Some(v),
        !video_bitrate_text(v).contains('&'),
        !video_bitrate_text(v).contains('%'),
{
    let a = decimal_text(v.bitrate as nat);
    lemma_decimal_excludes(v.bitrate as nat, '@');
    lemma_decimal_excludes(v.bitrate as nat, '&');
    lemma_decimal_excludes(v.bitrate as nat, '%');
    lemma_split_on_none(a, '@');
    lemma_parses_decimal(v.bitrate as nat, u32::MAX as nat);
    match v.size {
        Some(size) => {
            lemma_video_size_roundtrip(size);
            let b = video_size_text(size);
            lemma_split_on_sep(a, b, '@');
            assert(split_on(video_bitrate_text(v), '@') =~= seq![a, b]);
            let t = video_bitrate_text(v);
            assert forall|c: char| c == '&' || c == '%' implies !t.contains(c) by {
                if t.contains(c) {
                    let i = choose|i: int| 0 <= i < t.len() && t[i] == c;
                    if i < a.len() {
                        assert(a[i] == c);
                    } else if i > a.len() {
                        assert(b[i - a.len() - 1] == c);
                    }
                }
            }
        },
        None => {},
    }
}

/// An audio bitrate in kbit/s.
#[derive(Debug, Clone, Copy, PartialEq, Eq, PartialOrd, Ord, Hash, Structural)]
pub enum AudioBitrate {
    /// No limit.
    NoLimit,
    /// 32 kbit/s.
    Kbps32,
    /// 40 kbit/s.
    Kbps40,
    /// 48 kbit/s.
    Kbps48,
    /// 56 kbit/s.
    Kbps56,
    /// 64 kbit/s.
    Kbps64,
    /// 80 kbit/s.
    Kbps80,
    /// 96 kbit/s.
    Kbps96,
    /// 112 kbit/s.
    Kbps112,
    /// 128 kbit/s.
    Kbps128,
    /// 160 kbit/s.
    Kbps160,
    /// 192 kbit/s.
    Kbps192,
    /// 224 kbit/s.
    Kbps224,
    /// 256 kbit/s.
    Kbps256,
    /// 320 kbit/s.
    Kbps320,
    /// Other bitrate.
    Other(u32),
}

/// The bitrate in kbit/s that a variant stands for.
pub open spec fn audio_bitrate_kbps(b: AudioBitrate) -> u32 {
    match b {
        AudioBitrate::NoLimit => 0,
        AudioBitrate::Kbps32 => 32,
        AudioBitrate::Kbps40 => 40,
        AudioBitrate::Kbps48 => 48,
        AudioBitrate::Kbps56 => 56,
        AudioBitrate::Kbps64 => 64,
        AudioBitrate::Kbps80 => 80,
        AudioBitrate::Kbps96 => 96,
        AudioBitrate::Kbps112 => 112,
        AudioBitrate::Kbps128 => 128,
        AudioBitrate::Kbps160 => 160,
        AudioBitrate::Kbps192 => 192,
        AudioBitrate::Kbps224 => 224,
        AudioBitrate::Kbps256 => 256,
        AudioBitrate::Kbps320 => 320,
        AudioBitrate::Other(k) => k,
    }
}

/// The variant of a bitrate: a named one for the standard rates, `Other`
/// for the rest.
pub open spec fn audio_bitrate_of(k: u32) -> AudioBitrate {
    if k == 0 { AudioBitrate::NoLimit }
    else if k == 32 { AudioBitrate::Kbps32 }
    else if k == 40 { AudioBitrate::Kbps40 }
    else if k == 48 { AudioBitrate::Kbps48 }
    else if k == 56 { AudioBitrate::Kbps56 }
    else if k == 64 { AudioBitrate::Kbps64 }
    else if k == 80 { AudioBitrate::Kbps80 }
    else if k == 96 { AudioBitrate::Kbps96 }
    else if k == 112 { AudioBitrate::Kbps112 }
    else if k == 128 { AudioBitrate::Kbps128 }
    else if k == 160 { AudioBitrate::Kbps160 }
    else if k == 192 { AudioBitrate::Kbps192 }
    else if k == 224 { AudioBitrate::Kbps224 }
    else if k == 256 { AudioBitrate::Kbps256 }
    else if k == 320 { AudioBitrate::Kbps320 }
    else { AudioBitrate::Other(k) }
}

/// A bitrate in its one canonical form: `Other` only for a rate that has no
/// variant of its own.
pub open spec fn audio_bitrate_is_canonical(b: AudioBitrate) -> bool {
    audio_bitrate_of(audio_bitrate_kbps(b)) == b
}

/// The error of reading an audio bitrate.
#[derive(Debug, Clone, Copy, PartialEq, Eq, Structural)]
pub struct InvalidAudioBitrate;

impl InvalidAudioBitrate {
    pub fn to_string(&self) -> (res: String)
        ensures
            res@ == "invalid audio bitrate"@,
    {
        to_owned_string("invalid audio bitrate")
    }
}

impl AudioBitrate {
    pub fn new(bitrate: u32) -> (res: Self)
        ensures
            res == audio_bitrate_of(bitrate),
    {
        match bitrate {
            0 => Self::NoLimit,
            32 => Self::Kbps32,
            40 => Self::Kbps40,
            48 => Self::Kbps48,
            56 => Self::Kbps56,
            64 => Self::Kbps64,
            80 => Self::Kbps80,
            96 => Self::Kbps96,
            112 => Self::Kbps112,
            128 => Self::Kbps128,
            160 => Self::Kbps160,
            192 => Self::Kbps192,
            224 => Self::Kbps224,
            256 => Self::Kbps256,
            320 => Self::Kbps320,
            _ => Self::Other(bitrate),
        }
    }

    pub fn to_kbps(&self) -> (res: u32)
        ensures
            res == audio_bitrate_kbps(*self),
    {
        match self {
            Self::NoLimit => 0,
            Self::Kbps32 => 32,
            Self::Kbps40 => 40,
            Self::Kbps48 => 48,
            Self::Kbps56 => 56,
            Self::Kbps64 => 64,
            Self::Kbps80 => 80,
            Self::Kbps96 => 96,
            Self::Kbps112 => 112,
            Self::Kbps128 => 128,
            Self::Kbps160 => 160,
            Self::Kbps192 => 192,
            Self::Kbps224 => 224,
            Self::Kbps256 => 256,
            Self::Kbps320 => 320,
            Self::Other(bitrate) => *bitrate,
        }
    }

    /// The decimal number of kbit/s.
    pub fn to_string(&self) -> (res: String)
        ensures
            res@ == decimal_text(audio_bitrate_kbps(*self) as nat),
    {
        u32_text(self.to_kbps())
    }

    /// Reads a decimal number of kbit/s.
    pub fn parse(s: &str) -> (res: Result<Self, InvalidAudioBitrate>)
        ensures
            res is Ok <==> parses_unsigned(s@, u32::MAX as nat),
            res matches Ok(b) ==> b == audio_bitrate_of(unsigned_literal_value(s@) as u32),
    {
        match parse_u32(s) {
            Ok(v) => Ok(Self::new(v)),
            Err(_) => Err(InvalidAudioBitrate),
        }
    }
}

impl std::str::FromStr for AudioBitrate {
    type Err = InvalidAudioBitrate;

    fn from_str(s: &str) -> Result<Self, Self::Err> {
        Self::parse(s)
    }
}

/// The rate of the variant that `new` picks is the rate asked for.
pub proof fn lemma_audio_bitrate_kbps_of(k: u32)
    ensures
        audio_bitrate_kbps(audio_bitrate_of(k)) == k,
        audio_bitrate_is_canonical(audio_bitrate_of(k)),
{
}

/// A bitrate made from its rate is itself exactly when it is canonical; every
/// variant other than `Other` is canonical.
pub proof fn lemma_audio_bitrate_of_kbps(b: AudioBitrate)
    ensures
        audio_bitrate_of(audio_bitrate_kbps(b)) == b <==> audio_bitrate_is_canonical(b),
        !(b is Other) ==> audio_bitrate_is_canonical(b),
{
}

/// Each named variant stands for the rate in its name, in kbit/s (`NoLimit`
/// for 0), and making a bitrate from any rate gives the variant named by that
/// rate, and `Other` exactly for the rates that have no variant of their own.
pub proof fn lemma_audio_bitrate_rates(k: u32)
    ensures
        audio_bitrate_kbps(AudioBitrate::NoLimit) == 0,
        audio_bitrate_kbps(AudioBitrate::Kbps32) == 32,
        audio_bitrate_kbps(AudioBitrate::Kbps40) == 40,
        audio_bitrate_kbps(AudioBitrate::Kbps48) == 48,
        audio_bitrate_kbps(AudioBitrate::Kbps56) == 56,
        audio_bitrate_kbps(AudioBitrate::Kbps64) == 64,
        audio_bitrate_kbps(AudioBitrate::Kbps80) == 80,
        audio_bitrate_kbps(AudioBitrate::Kbps96) == 96,
        audio_bitrate_kbps(AudioBitrate::Kbps112) == 112,
        audio_bitrate_kbps(AudioBitrate::Kbps128) == 128,
        audio_bitrate_kbps(AudioBitrate::Kbps160) == 160,
        audio_bitrate_kbps(AudioBitrate::Kbps192) == 192,
        audio_bitrate_kbps(AudioBitrate::Kbps224) == 224,
        audio_bitrate_kbps(AudioBitrate::Kbps256) == 256,
        audio_bitrate_kbps(AudioBitrate::Kbps320) == 320,
        (audio_bitrate_of(k) == AudioBitrate::NoLimit) <==> k == 0,
        (audio_bitrate_of(k) == AudioBitrate::Kbps32) <==> k == 32,
        (audio_bitrate_of(k) == AudioBitrate::Kbps40) <==> k == 40,
        (audio_bitrate_of(k) == AudioBitrate::Kbps48) <==> k == 48,
        (audio_bitrate_of(k) == AudioBitrate::Kbps56) <==> k == 56,
        (audio_bitrate_of(k) == AudioBitrate::Kbps64) <==> k == 64,
        (audio_bitrate_of(k) == AudioBitrate::Kbps80) <==> k == 80,
        (audio_bitrate_of(k) == AudioBitrate::Kbps96) <==> k == 96,
        (audio_bitrate_of(k) == AudioBitrate::Kbps112) <==> k == 112,
        (audio_bitrate_of(k) == AudioBitrate::Kbps128) <==> k == 128,
        (audio_bitrate_of(k) == AudioBitrate::Kbps160) <==> k == 160,
        (audio_bitrate_of(k) == AudioBitrate::Kbps192) <==> k == 192,
        (audio_bitrate_of(k) == AudioBitrate::Kbps224) <==> k == 224,
        (audio_bitrate_of(k) == AudioBitrate::Kbps256) <==> k == 256,
        (audio_bitrate_of(k) == AudioBitrate::Kbps320) <==> k == 320,
        (audio_bitrate_of(k) == AudioBitrate::Other(k)) <==> !(k == 0 || k == 32 || k == 40 || k == 48 || k
            == 56 || k == 64 || k == 80 || k == 96 || k == 112 || k == 128 || k == 160 || k == 192 || k == 224
            || k == 256 || k == 320),
{
}

/// The kind of a media file.
#[derive(Debug, Clone, Copy, PartialEq, Eq, Hash, Structural)]
pub enum MediaType {
    Music,
    Podcast,
    AudioBook,
    Video,
}

/// The error of making a user rating out of range.
#[derive(Debug, Clone, Copy, PartialEq, Eq, Structural)]
pub struct InvalidUserRating;

impl InvalidUserRating {
    pub fn to_string(&self) -> (res: String)
        ensures
            res@ == "Invalid user rating"@,
    {
        to_owned_string("Invalid user rating")
    }
}

/// A rating from 1 to 5.
#[derive(Debug, Clone, Copy, PartialEq, Eq, Hash, Structural)]
pub struct UserRating(u32);

impl UserRating {
    #[verifier::type_invariant]
    spec fn in_range(self) -> bool {
        1 <= self.0 <= 5
    }

    /// The rating.
    pub closed spec fn rating(self) -> u32 {
        self.0
    }

    pub fn new(value: u32) -> (res: Result<Self, InvalidUserRating>)
        ensures
            res is Ok <==> 1 <= value <= 5,
            res matches Ok(r) ==> r.rating() == value,
    {
        if value > 5 || value < 1 {
            Err(InvalidUserRating)
        } else {
            Ok(UserRating(value))
        }
    }

    pub fn value(self) -> (res: u32)
        ensures
            res == self.rating(),
            1 <= res <= 5,
    {
        proof {
            use_type_invariant(&self);
        }
        self.0
    }

    /// The decimal rating.
    pub fn to_string(&self) -> (res: String)
        ensures
            res@ == decimal_text(self.rating() as nat),
    {
        u32_text(self.0)
    }

    /// Reads a decimal rating from 1 to 5.
    pub fn parse(s: &str) -> (res: Result<Self, InvalidUserRating>)
        ensures
            res is Ok <==> parses_unsigned(s@, u32::MAX as nat) && 1 <= unsigned_literal_value(s@)
                <= 5,
            res matches Ok(r) ==> r.rating() == unsigned_literal_value(s@),
    {
        match parse_u32(s) {
            Ok(v) => Self::new(v),
            Err(_) => Err(InvalidUserRating),
        }
    }
}

impl std::str::FromStr for UserRating {
    type Err = InvalidUserRating;

    fn from_str(s: &str) -> Result<Self, Self::Err> {
        Self::parse(s)
    }
}

/// The error of making an average rating out of range.
#[derive(Debug, Clone, Copy, PartialEq, Eq, Structural)]
pub struct InvalidAverageRating;

impl InvalidAverageRating {
    pub fn to_string(&self) -> (res: String)
        ensures
            res@ == "Invalid average rating"@,
    {
        to_owned_string("Invalid average rating")
    }
}

/// The error of reading a version.
#[derive(Debug, Clone, Copy, PartialEq, Eq, Structural)]
pub struct InvalidVersion;

impl InvalidVersion {
    pub fn to_string(&self) -> (res: String)
        ensures
            res@ == "Invalid version"@,
    {
        to_owned_string("Invalid version")
    }
}

/// A version of the Subsonic API.
#[derive(Debug, Clone, Copy, PartialEq, Eq, Hash, Default, Structural)]
pub struct Version {
    pub major: u64,
    pub minor: u64,
    pub patch: u64,
}

/// `MAJOR.MINOR.PATCH`.
pub open spec fn version_text(v: Version) -> Seq<char> {
    decimal_text(v.major as nat) + seq!['.'] + decimal_text(v.minor as nat) + seq!['.'] + decimal_text(
        v.patch as nat,
    )
}

/// A version is read from the first three `.`-separated parts, each a
/// decimal number; further parts are not looked at.
pub open spec fn version_parse(s: Seq<char>) -> Option<Version> {
    let p = split_on(s, '.');
    if p.len() >= 3 && parses_unsigned(p[0], u64::MAX as nat) && parses_unsigned(p[1], u64::MAX as nat)
        && parses_unsigned(p[2], u64::MAX as nat) {
        Some(
            Version {
                major: unsigned_literal_value(p[0]) as u64,
                minor: unsigned_literal_value(p[1]) as u64,
                patch: unsigned_literal_value(p[2]) as u64,
            },
        )
    } else {
        None
    }
}

/// `a` is the same version as `b` or a later one.
pub open spec fn version_at_least(a: Version, b: Version) -> bool {
    a.major > b.major || (a.major == b.major && (a.minor > b.minor || (a.minor == b.minor && a.patch
        >= b.patch)))
}

impl Version {
    /// The latest version of the API that these types describe, 1.16.1.
    pub fn latest() -> (res: Self)
        ensures
            res == (Version { major: 1, minor: 16, patch: 1 }),
    {
        Self { major: 1, minor: 16, patch: 1 }
    }

    pub fn new(major: u64, minor: u64, patch: u64) -> (res: Self)
        ensures
            res.major == major,
            res.minor == minor,
            res.patch == patch,
    {
        Self { major, minor, patch }
    }

    /// `MAJOR.MINOR.PATCH`, as `Display` writes it.
    pub fn to_string(&self) -> (res: String)
        ensures
            res@ == version_text(*self),
    {
        let mut out: Vec<char> = Vec::new();
        push_text(&mut out, u64_text(self.major).as_str());
        out.push('.');
        push_text(&mut out, u64_text(self.minor).as_str());
        out.push('.');
        push_text(&mut out, u64_text(self.patch).as_str());
        string_of(out.as_slice())
    }

    /// Reads `MAJOR.MINOR.PATCH`; text after a third `.` is not looked at.
    pub fn parse(s: &str) -> (res: Result<Self, InvalidVersion>)
        ensures
            match res {
                Ok(v) => version_parse(s@) == Some(v),
                Err(_) => version_parse(s@) is None,
            },
    {
        let cs = chars_of(s);
        let parts = split_chars(&cs, '.');
        if parts.len() < 3 {
            return Err(InvalidVersion);
        }
        let a = string_of(parts[0].as_slice());
        let major = match parse_u64(a.as_str()) {
            Ok(v) => v,
            Err(_) => return Err(InvalidVersion),
        };
        let b = string_of(parts[1].as_slice());
        let minor = match parse_u64(b.as_str()) {
            Ok(v) => v,
            Err(_) => return Err(InvalidVersion),
        };
        let c = string_of(parts[2].as_slice());
        let patch = match parse_u64(c.as_str()) {
            Ok(v) => v,
            Err(_) => return Err(InvalidVersion),
        };
        Ok(Self { major, minor, patch })
    }

    /// This version is `other` or a later one.
    pub fn at_least(&self, other: &Version) -> (res: bool)
        ensures
            res == version_at_least(*self, *other),
    {
        self.major > other.major || (self.major == other.major && (self.minor > other.minor || (
        self.minor == other.minor && self.patch >= other.patch)))
    }
}

impl std::str::FromStr for Version {
    type Err = InvalidVersion;

    fn from_str(s: &str) -> Result<Self, Self::Err> {
        Self::parse(s)
    }
}

/// Reading the text of a version gives it back.
pub proof fn lemma_version_roundtrip(v: Version)
    ensures
        version_parse(version_text(v)) == Some(v),
        !version_text(v).contains('&'),
        !version_text(v).contains('%'),
{
    let a = decimal_text(v.major as nat);
    let b = decimal_text(v.minor as nat);
    let c = decimal_text(v.patch as nat);
    lemma_decimal_excludes(v.major as nat, '.');
    lemma_decimal_excludes(v.minor as nat, '.');
    lemma_decimal_excludes(v.patch as nat, '.');
    lemma_split_on_none(a, '.');
    lemma_split_on_sep(a, b, '.');
    lemma_split_on_sep(a + seq!['.'] + b, c, '.');
    assert(split_on(version_text(v), '.') =~= seq![a, b, c]);
    lemma_parses_decimal(v.major as nat, u64::MAX as nat);
    lemma_parses_decimal(v.minor as nat, u64::MAX as nat);
    lemma_parses_decimal(v.patch as nat, u64::MAX as nat);
    let t = version_text(v);
    assert forall|x: char| x == '&' || x == '%' implies !t.contains(x) by {
        lemma_decimal_excludes(v.major as nat, x);
        lemma_decimal_excludes(v.minor as nat, x);
        lemma_decimal_excludes(v.patch as nat, x);
        if t.contains(x) {
            let i = choose|i: int| 0 <= i < t.len() && t[i] == x;
            if i < a.len() {
                assert(a[i] == x);
            } else if a.len() < i < a.len() + 1 + b.len() {
                assert(b[i - a.len() - 1] == x);
            } else if i > a.len() + 1 + b.len() {
                assert(c[i - a.len() - 2 - b.len()] == x);
            }
        }
    }
}

/// Versioning is an order: every version is at least itself, and being at
/// least another is transitive.
pub proof fn lemma_version_order(a: Version, b: Version, c: Version)
    ensures
        version_at_least(a, a),
        version_at_least(a, b) && version_at_least(b, c) ==> version_at_least(a, c),
        version_at_least(a, b) && version_at_least(b, a) ==> a == b,
        version_at_least(a, b) || version_at_least(b, a),
{
}

/// Versions are ordered by major number, then by minor number, then by
/// patch: a later major number is later whatever the rest, an equal major
/// number and a later minor number is later whatever the patches, and with
/// equal major and minor numbers the patches decide.
pub proof fn lemma_version_lexicographic(a: Version, b: Version)
    ensures
        a.major > b.major ==> version_at_least(a, b),
        a.major < b.major ==> !version_at_least(a, b),
        a.major == b.major && a.minor > b.minor ==> version_at_least(a, b),
        a.major == b.major && a.minor < b.minor ==> !version_at_least(a, b),
        a.major == b.major && a.minor == b.minor ==> (version_at_least(a, b) <==> a.patch >= b.patch),
{
}

/// The error of reading a format name.
#[derive(Debug, Clone, Copy, PartialEq, Eq, Structural)]
pub struct InvalidFormat;

impl InvalidFormat {
    pub fn to_string(&self) -> (res: String)
        ensures
            res@ == "Invalid format"@,
    {
        to_owned_string("Invalid format")
    }
}

/// The format of a response.
#[derive(Debug, Clone, Copy, PartialEq, Eq, Hash, Structural)]
pub enum Format {
    Json,
    Xml,
}

pub open spec fn format_text(f: Format) -> Seq<char> {
    match f {
        Format::Json => "json"@,
        Format::Xml => "xml"@,
    }
}

/// The formats are written as `json` and `xml`.
pub proof fn lemma_format_names()
    ensures
        format_text(Format::Json) == "json"@,
        format_text(Format::Xml) == "xml"@,
{
}

impl Format {
    /// `json` or `xml`.
    pub fn as_str(&self) -> (res: &'static str)
        ensures
            res@ == format_text(*self),
    {
        match self {
            Format::Json => "json",
            Format::Xml => "xml",
        }
    }

    pub fn to_string(&self) -> (res: String)
        ensures
            res@ == format_text(*self),
    {
        to_owned_string(self.as_str())
    }

    /// Reads `json` or `xml`.
    pub fn parse(s: &str) -> (res: Result<Self, InvalidFormat>)
        ensures
            match res {
                Ok(f) => format_text(f) == s@,
                Err(_) => s@ != format_text(Format::Json) && s@ != format_text(Format::Xml),
            },
    {
        if str_eq(s, "json") {
            Ok(Format::Json)
        } else if str_eq(s, "xml") {
            Ok(Format::Xml)
        } else {
            Err(InvalidFormat)
        }
    }
}

impl std::str::FromStr for Format {
    type Err = InvalidFormat;

    fn from_str(s: &str) -> Result<Self, Self::Err> {
        Self::parse(s)
    }
}


impl From<u64> for Milliseconds {
    fn from(ms: u64) -> (res: Self) {
        Milliseconds(ms)
    }
}

impl vstd::std_specs::convert::FromSpecImpl<u64> for Milliseconds {
    open spec fn obeys_from_spec() -> bool {
        true
    }

    open spec fn from_spec(ms: u64) -> Milliseconds {
        Milliseconds(ms)
    }
}

impl From<Milliseconds> for Duration {
    fn from(ms: Milliseconds) -> (res: Self) {
        ms.into_duration()
    }
}

impl vstd::std_specs::convert::FromSpecImpl<Milliseconds> for Duration {
    open spec fn obeys_from_spec() -> bool {
        true
    }

    open spec fn from_spec(ms: Milliseconds) -> Duration {
        millis_duration(ms.0)
    }
}

impl From<u64> for Seconds {
    fn from(s: u64) -> (res: Self) {
        Seconds(s)
    }
}

impl vstd::std_specs::convert::FromSpecImpl<u64> for Seconds {
    open spec fn obeys_from_spec() -> bool {
        true
    }

    open spec fn from_spec(s: u64) -> Seconds {
        Seconds(s)
    }
}

impl From<Seconds> for Duration {
    fn from(s: Seconds) -> (res: Self) {
        s.into_duration()
    }
}

impl vstd::std_specs::convert::FromSpecImpl<Seconds> for Duration {
    open spec fn obeys_from_spec() -> bool {
        true
    }

    open spec fn from_spec(s: Seconds) -> Duration {
        secs_duration(s.0)
    }
}

impl From<u32> for MusicFolderId {
    fn from(id: u32) -> (res: Self) {
        MusicFolderId(id)
    }
}

impl vstd::std_specs::convert::FromSpecImpl<u32> for MusicFolderId {
    open spec fn obeys_from_spec() -> bool {
        true
    }

    open spec fn from_spec(id: u32) -> MusicFolderId {
        MusicFolderId(id)
    }
}

impl From<MusicFolderId> for u32 {
    fn from(id: MusicFolderId) -> (res: Self) {
        id.0
    }
}

impl vstd::std_specs::convert::FromSpecImpl<MusicFolderId> for u32 {
    open spec fn obeys_from_spec() -> bool {
        true
    }

    open spec fn from_spec(id: MusicFolderId) -> u32 {
        id.0
    }
}

impl From<(u32, u32)> for VideoSize {
    fn from(size: (u32, u32)) -> (res: Self) {
        VideoSize { width: size.0, height: size.1 }
    }
}

impl vstd::std_specs::convert::FromSpecImpl<(u32, u32)> for VideoSize {
    open spec fn obeys_from_spec() -> bool {
        true
    }

    open spec fn from_spec(size: (u32, u32)) -> VideoSize {
        VideoSize { width: size.0, height: size.1 }
    }
}

impl From<VideoSize> for (u32, u32) {
    fn from(size: VideoSize) -> (res: Self) {
        (size.width, size.height)
    }
}

impl vstd::std_specs::convert::FromSpecImpl<VideoSize> for (u32, u32) {
    open spec fn obeys_from_spec() -> bool {
        true
    }

    open spec fn from_spec(size: VideoSize) -> (u32, u32) {
        (size.width, size.height)
    }
}

impl From<u32> for AudioBitrate {
    fn from(bitrate: u32) -> (res: Self) {
        AudioBitrate::new(bitrate)
    }
}

impl vstd::std_specs::convert::FromSpecImpl<u32> for AudioBitrate {
    open spec fn obeys_from_spec() -> bool {
        true
    }

    open spec fn from_spec(bitrate: u32) -> AudioBitrate {
        audio_bitrate_of(bitrate)
    }
}

impl From<AudioBitrate> for u32 {
    fn from(bitrate: AudioBitrate) -> (res: Self) {
        bitrate.to_kbps()
    }
}

impl vstd::std_specs::convert::FromSpecImpl<AudioBitrate> for u32 {
    open spec fn obeys_from_spec() -> bool {
        true
    }

    open spec fn from_spec(bitrate: AudioBitrate) -> u32 {
        audio_bitrate_kbps(bitrate)
    }
}

impl From<UserRating> for u32 {
    fn from(rating: UserRating) -> (res: Self) {
        rating.value()
    }
}

impl vstd::std_specs::convert::FromSpecImpl<UserRating> for u32 {
    open spec fn obeys_from_spec() -> bool {
        true
    }

    open spec fn from_spec(rating: UserRating) -> u32 {
        rating.rating()
    }
}

} // verus!
