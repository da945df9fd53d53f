use subsonic_types::common::{
    AudioBitrate, Format, Milliseconds, MusicFolderId, Seconds, UserRating, Version, VideoBitrate,
    VideoSize,
};
use subsonic_types::request::jukebox::JukeboxAction;
use subsonic_types::request::lists::ListType;

#[test]
fn video_size_text_roundtrip() {
    let v = VideoSize::new(1920, 1080);
    assert_eq!(v.to_string(), "1920x1080");
    assert_eq!(VideoSize::parse(&v.to_string()), Ok(v));
    assert!(VideoSize::parse("1920").is_err());
    assert!(VideoSize::parse("1920x").is_err());
    assert!(VideoSize::parse("x1080").is_err());
    let t: (u32, u32) = v.into();
    assert_eq!(t, (1920, 1080));
    assert_eq!(VideoSize::from((3, 4)), VideoSize::new(3, 4));
}

#[test]
fn video_bitrate_text_roundtrip() {
    let b = VideoBitrate::new(1000, Some(VideoSize::new(640, 480)));
    assert_eq!(b.to_string(), "1000@640x480");
    assert_eq!(VideoBitrate::parse(&b.to_string()), Ok(b));
    let b = VideoBitrate::without_size(64);
    assert_eq!(b.to_string(), "64");
    assert_eq!(VideoBitrate::parse("64"), Ok(b));
    assert!(VideoBitrate::parse("64@").is_err());
    assert!(VideoBitrate::parse("abc").is_err());
}

#[test]
fn audio_bitrates() {
    assert_eq!(AudioBitrate::new(128), AudioBitrate::Kbps128);
    assert_eq!(AudioBitrate::new(0), AudioBitrate::NoLimit);
    assert_eq!(AudioBitrate::new(100), AudioBitrate::Other(100));
    for k in [0u32, 32, 40, 48, 56, 64, 80, 96, 112, 128, 160, 192, 224, 256, 320, 7] {
        assert_eq!(AudioBitrate::new(k).to_kbps(), k);
        let b: AudioBitrate = k.into();
        let back: u32 = b.into();
        assert_eq!(back, k);
    }
    assert_eq!(AudioBitrate::parse("320"), Ok(AudioBitrate::Kbps320));
    assert_eq!(AudioBitrate::Kbps64.to_string(), "64");
}

#[test]
fn user_ratings() {
    assert!(UserRating::new(0).is_err());
    assert!(UserRating::new(6).is_err());
    assert_eq!(UserRating::new(3).unwrap().value(), 3);
    assert_eq!(UserRating::parse("5").unwrap().value(), 5);
    assert!(UserRating::parse("9").is_err());
    assert!(UserRating::parse("x").is_err());
    let n: u32 = UserRating::new(4).unwrap().into();
    assert_eq!(n, 4);
    assert_eq!(UserRating::new(2).unwrap().to_string(), "2");
}

#[test]
fn versions() {
    let v = Version::new(1, 16, 1);
    assert_eq!(v.to_string(), "1.16.1");
    assert_eq!(Version::parse("1.16.1"), Ok(v));
    assert_eq!(Version::latest(), v);
    assert_eq!(Version::parse("1.2.3.4"), Ok(Version::new(1, 2, 3)));
    assert!(Version::parse("1.2").is_err());
    assert!(Version::parse("a.b.c").is_err());
    assert!(Version::new(1, 16, 1).at_least(&Version::new(1, 9, 0)));
    assert!(!Version::new(1, 8, 0).at_least(&Version::new(1, 9, 0)));
    assert_eq!("1.2.3".parse::<Version>(), Ok(Version::new(1, 2, 3)));
}

#[test]
fn formats_and_names() {
    assert_eq!(Format::parse("json"), Ok(Format::Json));
    assert_eq!(Format::Xml.to_string(), "xml");
    assert!(Format::parse("yaml").is_err());
    for l in [
        ListType::Random,
        ListType::Newest,
        ListType::Highest,
        ListType::Frequent,
        ListType::Recent,
        ListType::AlphabeticalByName,
        ListType::AlphabeticalByArtist,
        ListType::Starred,
        ListType::ByYear,
        ListType::ByGenre,
    ] {
        assert_eq!(ListType::parse(l.as_str()), Ok(l));
    }
    assert_eq!(ListType::AlphabeticalByArtist.as_str(), "alphabeticalByArtist");
    assert!(ListType::parse("bogus").is_err());
    assert_eq!(JukeboxAction::SetPlaylist.as_str(), "set");
    assert_eq!(JukeboxAction::parse("setGain"), Ok(JukeboxAction::SetGain));
    assert!(JukeboxAction::parse("Set").is_err());
}

#[test]
fn numbers_and_ids() {
    assert_eq!(Milliseconds::parse("+42"), Ok(Milliseconds::new(42)));
    assert!(Milliseconds::parse("-1").is_err());
    assert_eq!(Seconds::new(9).to_string(), "9");
    assert_eq!(Seconds::from(5u64), Seconds::new(5));
    let id: u32 = MusicFolderId::new(12).into();
    assert_eq!(id, 12);
    assert_eq!(MusicFolderId::from(3u32), MusicFolderId::new(3));
}
