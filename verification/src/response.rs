//! Responses of the Subsonic API: their status, the error a failed response
//! carries, and the plain records that responses hold.
use vstd::prelude::*;

use crate::text::{decimal_text, push_text, string_of, u32_text};

verus! {

/// Whether a request succeeded (written `ok`) or failed (written `failed`).
#[derive(Debug, Clone, Copy, PartialEq, Eq, Structural)]
pub enum ResponseStatus {
    Succeeded,
    Failed,
}

/// The code of an error, as the API numbers them. A number with no name of its
/// own is kept as `Other`.
#[derive(Debug, Clone, Copy, PartialEq, Eq, Hash, Structural)]
pub enum ErrorCode {
    Generic,
    RequiredParameterMissing,
    IncompatibleClient,
    IncompatibleServer,
    WrongUsernameOrPassword,
    TokenAuthenticationNotSupported,
    UserNotAuthorizedForTheGivenOperation,
    TrialExpired,
    DataNotFound,
    Other(u32),
}

/// The number of a code.
pub open spec fn error_code_number(c: ErrorCode) -> u32 {
    match c {
        ErrorCode::Generic => 0,
        ErrorCode::RequiredParameterMissing => 10,
        ErrorCode::IncompatibleClient => 20,
        ErrorCode::IncompatibleServer => 30,
        ErrorCode::WrongUsernameOrPassword => 40,
        ErrorCode::TokenAuthenticationNotSupported => 41,
        ErrorCode::UserNotAuthorizedForTheGivenOperation => 50,
        ErrorCode::TrialExpired => 60,
        ErrorCode::DataNotFound => 70,
        ErrorCode::Other(n) => n,
    }
}

/// The code of a number: the named code that has it, or `Other`.
pub open spec fn error_code_of(n: u32) -> ErrorCode {
    if n == 0 {
        ErrorCode::Generic
    } else if n == 10 {
        ErrorCode::RequiredParameterMissing
    } else if n == 20 {
        ErrorCode::IncompatibleClient
    } else if n == 30 {
        ErrorCode::IncompatibleServer
    } else if n == 40 {
        ErrorCode::WrongUsernameOrPassword
    } else if n == 41 {
        ErrorCode::TokenAuthenticationNotSupported
    } else if n == 50 {
        ErrorCode::UserNotAuthorizedForTheGivenOperation
    } else if n == 60 {
        ErrorCode::TrialExpired
    } else if n == 70 {
        ErrorCode::DataNotFound
    } else {
        ErrorCode::Other(n)
    }
}

/// A code as reading its number gives it: `Other` only for a number that no
/// named code has.
pub open spec fn error_code_is_canonical(c: ErrorCode) -> bool {
    match c {
        ErrorCode::Other(n) => !(n == 0 || n == 10 || n == 20 || n == 30 || n == 40 || n == 41 || n == 50
            || n == 60 || n == 70),
        _ => true,
    }
}

impl ErrorCode {
    /// The code of a number.
    pub fn from_u32(code: u32) -> (res: Self)
        ensures
            res == error_code_of(code),
    {
        match code {
            0 => ErrorCode::Generic,
            10 => ErrorCode::RequiredParameterMissing,
            20 => ErrorCode::IncompatibleClient,
            30 => ErrorCode::IncompatibleServer,
            40 => ErrorCode::WrongUsernameOrPassword,
            41 => ErrorCode::TokenAuthenticationNotSupported,
            50 => ErrorCode::UserNotAuthorizedForTheGivenOperation,
            60 => ErrorCode::TrialExpired,
            70 => ErrorCode::DataNotFound,
            _ => ErrorCode::Other(code),
        }
    }

    /// The number of the code.
    pub fn to_u32(self) -> (res: u32)
        ensures
            res == error_code_number(self),
    {
        match self {
            ErrorCode::Generic => 0,
            ErrorCode::RequiredParameterMissing => 10,
            ErrorCode::IncompatibleClient => 20,
            ErrorCode::IncompatibleServer => 30,
            ErrorCode::WrongUsernameOrPassword => 40,
            ErrorCode::TokenAuthenticationNotSupported => 41,
            ErrorCode::UserNotAuthorizedForTheGivenOperation => 50,
            ErrorCode::TrialExpired => 60,
            ErrorCode::DataNotFound => 70,
            ErrorCode::Other(code) => code,
        }
    }
}

impl Default for ErrorCode {
    fn default() -> (res: Self)
        ensures
            res == ErrorCode::Generic,
    {
        ErrorCode::Generic
    }
}

impl From<u32> for ErrorCode {
    fn from(code: u32) -> (res: Self) {
        ErrorCode::from_u32(code)
    }
}

impl vstd::std_specs::convert::FromSpecImpl<u32> for ErrorCode {
    open spec fn obeys_from_spec() -> bool {
        true
    }

    open spec fn from_spec(code: u32) -> ErrorCode {
        error_code_of(code)
    }
}

impl From<ErrorCode> for u32 {
    fn from(code: ErrorCode) -> (res: Self) {
        code.to_u32()
    }
}

impl vstd::std_specs::convert::FromSpecImpl<ErrorCode> for u32 {
    open spec fn obeys_from_spec() -> bool {
        true
    }

    open spec fn from_spec(code: ErrorCode) -> u32 {
        error_code_number(code)
    }
}

/// Reading the number of a code gives back the number, for every number.
pub proof fn lemma_error_code_number_roundtrip(n: u32)
    ensures
        error_code_number(error_code_of(n)) == n,
{
}

/// Taking the number of a code and reading it back gives the code, for every
/// code that reading a number can give.
pub proof fn lemma_error_code_roundtrip(c: ErrorCode)
    requires
        error_code_is_canonical(c),
    ensures
        error_code_of(error_code_number(c)) == c,
{
}

/// Every code read from a number is canonical.
pub proof fn lemma_error_code_of_canonical(n: u32)
    ensures
        error_code_is_canonical(error_code_of(n)),
{
}

/// Each named code stands for the number that the API gives it: 0 for a
/// generic error, 10 for a missing parameter, 20 for a client that must
/// upgrade, 30 for a server that must upgrade, 40 for a wrong user name or
/// password, 41 where token authentication is not supported, 50 for an
/// operation the user may not perform, 60 for an expired trial and 70 for data
/// that was not found. Reading any number gives the named code with that
/// number, and `Other` exactly for the numbers that no named code has.
pub proof fn lemma_error_code_numbers(n: u32)
    ensures
        error_code_number(ErrorCode::Generic) == 0,
        error_code_number(ErrorCode::RequiredParameterMissing) == 10,
        error_code_number(ErrorCode::IncompatibleClient) == 20,
        error_code_number(ErrorCode::IncompatibleServer) == 30,
        error_code_number(ErrorCode::WrongUsernameOrPassword) == 40,
        error_code_number(ErrorCode::TokenAuthenticationNotSupported) == 41,
        error_code_number(ErrorCode::UserNotAuthorizedForTheGivenOperation) == 50,
        error_code_number(ErrorCode::TrialExpired) == 60,
        error_code_number(ErrorCode::DataNotFound) == 70,
        (error_code_of(n) == ErrorCode::Generic) <==> n == 0,
        (error_code_of(n) == ErrorCode::RequiredParameterMissing) <==> n == 10,
        (error_code_of(n) == ErrorCode::IncompatibleClient) <==> n == 20,
        (error_code_of(n) == ErrorCode::IncompatibleServer) <==> n == 30,
        (error_code_of(n) == ErrorCode::WrongUsernameOrPassword) <==> n == 40,
        (error_code_of(n) == ErrorCode::TokenAuthenticationNotSupported) <==> n == 41,
        (error_code_of(n) == ErrorCode::UserNotAuthorizedForTheGivenOperation) <==> n == 50,
        (error_code_of(n) == ErrorCode::TrialExpired) <==> n == 60,
        (error_code_of(n) == ErrorCode::DataNotFound) <==> n == 70,
        (error_code_of(n) == ErrorCode::Other(n)) <==> !(n == 0 || n == 10 || n == 20 || n == 30 || n == 40
            || n == 41 || n == 50 || n == 60 || n == 70),
{
}

/// The error of a failed response: its code and an optional message.
#[derive(Debug, Clone, PartialEq, Eq)]
pub struct Error {
    pub code: ErrorCode,
    pub message: Option<String>,
}

/// The text of an error, as `Display` writes it: the number of its code, then
/// `: ` and the message when there is one.
pub open spec fn error_text(code: ErrorCode, message: Option<Seq<char>>) -> Seq<char> {
    match message {
        Some(m) => decimal_text(error_code_number(code) as nat) + ": "@ + m,
        None => decimal_text(error_code_number(code) as nat),
    }
}

impl Error {
    /// An error with a code and no message.
    pub fn new(code: ErrorCode) -> (res: Self)
        ensures
            res.code == code,
            res.message is None,
    {
        Error { code, message: None }
    }

    /// An error with a code and a message.
    pub fn with_message(code: ErrorCode, message: &str) -> (res: Self)
        ensures
            res.code == code,
            res.message matches Some(m) && m@ == message@,
    {
        Error { code, message: Some(message.to_owned()) }
    }

    /// A generic error whose message is the text of another error.
    pub fn custom(err: &str) -> (res: Self)
        ensures
            res.code == ErrorCode::Generic,
            res.message matches Some(m) && m@ == err@,
    {
        Error { code: ErrorCode::Generic, message: Some(err.to_owned()) }
    }

    /// An error with a code whose message is the text of another error.
    pub fn custom_with_code(code: ErrorCode, err: &str) -> (res: Self)
        ensures
            res.code == code,
            res.message matches Some(m) && m@ == err@,
    {
        Error { code, message: Some(err.to_owned()) }
    }

    /// The text of the error, as `Display` writes it.
    pub fn to_string(&self) -> (res: String)
        ensures
            res@ == error_text(
                self.code,
                match self.message {
                    Some(m) => Some(m@),
                    None => None,
                },
            ),
    {
        let mut out: Vec<char> = Vec::new();
        push_text(&mut out, u32_text(self.code.to_u32()).as_str());
        match &self.message {
            Some(m) => {
                push_text(&mut out, ": ");
                push_text(&mut out, m.as_str());
            },
            None => {},
        }
        string_of(out.as_slice())
    }
}

/// The music folders of the server.
#[derive(Debug, Clone, PartialEq, Eq, Default)]
pub struct MusicFolders {
    pub music_folder: Vec<MusicFolder>,
}

/// A top-level music folder.
#[derive(Debug, Clone, PartialEq, Eq, Default)]
pub struct MusicFolder {
    pub id: u32,
    pub name: Option<String>,
}

/// The genres of the library.
#[derive(Debug, Clone, PartialEq, Eq, Default)]
pub struct Genres {
    pub genre: Vec<Genre>,
}

/// A genre, with how many songs and albums have it (since 1.10.2).
#[derive(Debug, Clone, PartialEq, Eq, Default)]
pub struct Genre {
    pub song_count: u32,
    pub album_count: u32,
    pub name: String,
}

/// What is known of a video: captions, audio tracks and conversions.
#[derive(Debug, Clone, PartialEq, Eq, Default)]
pub struct VideoInfo {
    pub id: String,
    pub captions: Vec<Captions>,
    pub audio_track: Vec<AudioTrack>,
    pub conversion: Vec<VideoConversion>,
}

/// The captions of a video.
#[derive(Debug, Clone, PartialEq, Eq, Default)]
pub struct Captions {
    pub id: String,
    pub format: Option<String>,
}

/// An audio track of a video.
#[derive(Debug, Clone, PartialEq, Eq, Default)]
pub struct AudioTrack {
    pub id: String,
    pub name: Option<String>,
    pub language_code: Option<String>,
}

/// A conversion of a video.
#[derive(Debug, Clone, PartialEq, Eq, Default)]
pub struct VideoConversion {
    pub id: String,
    pub bit_rate: Option<u32>,
    pub audio_track_id: Option<u32>,
}

/// The lyrics of a song.
#[derive(Debug, Clone, PartialEq, Eq, Default)]
pub struct Lyrics {
    pub artist: Option<String>,
    pub title: Option<String>,
}

/// The state of a podcast episode or channel.
#[derive(Debug, Clone, Copy, PartialEq, Eq, Structural)]
pub enum PodcastStatus {
    New,
    Downloading,
    Completed,
    Skipped,
    Error,
}

impl Default for PodcastStatus {
    fn default() -> (res: Self)
        ensures
            res == PodcastStatus::Error,
    {
        PodcastStatus::Error
    }
}

/// The internet radio stations of the server.
#[derive(Debug, Clone, PartialEq, Eq, Default)]
pub struct InternetRadioStations {
    pub internet_radio_station: Vec<InternetRadioStation>,
}

/// An internet radio station.
#[derive(Debug, Clone, PartialEq, Eq, Default)]
pub struct InternetRadioStation {
    pub id: String,
    pub name: String,
    pub stream_url: String,
    pub home_page_url: Option<String>,
}

/// Notes, identifiers and images of an album.
#[derive(Debug, Clone, PartialEq, Eq, Default)]
pub struct AlbumInfo {
    pub notes: Vec<String>,
    pub music_brainz_id: Vec<String>,
    pub last_fm_url: Vec<String>,
    pub small_image_url: Vec<String>,
    pub medium_image_url: Vec<String>,
    pub large_image_url: Vec<String>,
}

/// Biography, identifiers and images of an artist.
#[derive(Debug, Clone, PartialEq, Eq, Default)]
pub struct ArtistInfoBase {
    pub biography: Vec<String>,
    pub music_brainz_id: Vec<String>,
    pub last_fm_url: Vec<String>,
    pub small_image_url: Vec<String>,
    pub medium_image_url: Vec<String>,
    pub large_image_url: Vec<String>,
}

/// Whether the library is being scanned, and how many files were scanned.
#[derive(Debug, Clone, PartialEq, Eq, Default)]
pub struct ScanStatus {
    pub scanning: bool,
    pub count: Option<u64>,
}

} // verus!
