use subsonic_types::common::{Format, Milliseconds, Version};
use subsonic_types::query::QueryParseError;
use subsonic_types::request::browsing::{GetArtistInfo, GetSong};
use subsonic_types::request::lists::{GetAlbumList, ListType};
use subsonic_types::request::playlists::UpdatePlaylist;
use subsonic_types::request::system::Ping;
use subsonic_types::request::user::UpdateUser;
use subsonic_types::request::{Authentication, Request, SubsonicRequest};

fn invalid_value(e: QueryParseError) -> (String, String) {
    match e {
        QueryParseError::InvalidValue { key, error } => (key, error.to_string()),
        other => panic!("expected an invalid value, got {:?}", other),
    }
}

#[test]
fn request_with_format_and_space_in_client() {
    let request = Request {
        username: "admin".to_string(),
        authentication: Authentication::Password("admin".to_string()),
        version: Version::latest(),
        client: "Rust Example".to_string(),
        format: Some(Format::Json.to_string()),
        body: GetSong {
            id: "123".to_string(),
        },
    };
    let query = request.to_query();
    assert_eq!(
        "u=admin&p=admin&v=1.16.1&c=Rust%20Example&f=json&id=123",
        query
    );
    let parsed: Request<GetSong> =
        Request::from_query("u=admin&p=admin&v=1.16.1&c=Rust%20Example&f=json&id=123").unwrap();
    assert_eq!(request, parsed);
}

#[test]
fn ping_url_parts() {
    let ping = Request {
        username: "admin".to_string(),
        authentication: Authentication::Password("admin".to_string()),
        version: Version::latest(),
        client: "ping-example".to_string(),
        format: None,
        body: Ping,
    };
    let url = format!("http://localhost:3000{}?{}", Ping::path(), ping.to_query());
    assert_eq!(
        url,
        "http://localhost:3000/rest/ping?u=admin&p=admin&v=1.16.1&c=ping-example"
    );
    assert_eq!(Request::<Ping>::path(), "/rest/ping");
}

#[test]
fn artist_info_path_since_and_query() {
    assert_eq!("/rest/getArtistInfo", GetArtistInfo::path());
    assert_eq!(Version::new(1, 11, 0), GetArtistInfo::since());
    let request = GetArtistInfo {
        id: "123".to_string(),
        count: Some(10),
        include_not_present: Some(true),
    };
    let query = request.to_query();
    assert_eq!("id=123&count=10&includeNotPresent", query);
    let parsed = GetArtistInfo::from_query(&query).unwrap();
    assert_eq!(request, parsed);
}

#[test]
fn token_authentication_roundtrip() {
    let request = Request {
        username: "u1".to_string(),
        authentication: Authentication::Token {
            token: "abc".to_string(),
            salt: "xyz".to_string(),
        },
        version: Version::new(1, 13, 0),
        client: "c".to_string(),
        format: None,
        body: Ping,
    };
    let query = request.to_query();
    assert_eq!(query, "u=u1&t=abc&s=xyz&v=1.13.0&c=c");
    assert_eq!(Request::<Ping>::from_query(&query).unwrap(), request);
}

#[test]
fn token_wins_over_password_and_last_password_wins() {
    let r = Request::<Ping>::from_query("u=a&p=1&t=tok&s=salt&v=1.2.3&c=x").unwrap();
    assert_eq!(
        r.authentication,
        Authentication::Token {
            token: "tok".to_string(),
            salt: "salt".to_string()
        }
    );
    let r = Request::<Ping>::from_query("u=a&p=1&p=2&v=1.2.3&c=x").unwrap();
    assert_eq!(r.authentication, Authentication::Password("2".to_string()));
    let r = Request::<Ping>::from_query("u=a&p=1&t=tok&v=1.2.3&c=x").unwrap();
    assert_eq!(r.authentication, Authentication::Password("1".to_string()));
}

#[test]
fn missing_credentials_is_an_error() {
    let e = Request::<Ping>::from_query("u=a&v=1.2.3&c=x").unwrap_err();
    assert_eq!(
        invalid_value(e),
        (
            "p/t/s".to_string(),
            "one of p, t, s must be present".to_string()
        )
    );
}

#[test]
fn unknown_key_is_an_error() {
    let e = GetSong::from_query("id=1&foo=2").unwrap_err();
    match e {
        QueryParseError::UnknownKey { key } => assert_eq!(key, "foo"),
        other => panic!("unexpected {:?}", other),
    }
    assert_eq!(
        GetSong::from_query("foo").unwrap_err().to_string(),
        "unknown key: foo"
    );
}

#[test]
fn missing_required_value_is_an_error() {
    let e = GetSong::from_query("").unwrap_err();
    assert_eq!(
        invalid_value(e),
        ("id".to_string(), "empty value".to_string())
    );
    let e = GetSong::from_query("id").unwrap_err();
    assert_eq!(
        invalid_value(e),
        ("id".to_string(), "empty value".to_string())
    );
}

#[test]
fn duplicate_value_is_an_error() {
    let e = GetSong::from_query("id=1&id=2").unwrap_err();
    assert_eq!(
        invalid_value(e),
        ("id".to_string(), "duplicate value".to_string())
    );
}

#[test]
fn invalid_number_and_boolean() {
    let e = GetArtistInfo::from_query("id=1&count=x").unwrap_err();
    let (key, msg) = invalid_value(e);
    assert_eq!(key, "count");
    assert_eq!(msg, "x".parse::<u32>().unwrap_err().to_string());
    let e = GetArtistInfo::from_query("id=1&includeNotPresent=yes").unwrap_err();
    assert_eq!(
        invalid_value(e),
        (
            "includeNotPresent".to_string(),
            "invalid boolean value".to_string()
        )
    );
    let r = GetArtistInfo::from_query("id=1&includeNotPresent=0").unwrap();
    assert_eq!(r.include_not_present, Some(false));
    let r = GetArtistInfo::from_query("id=1&includeNotPresent=1").unwrap();
    assert_eq!(r.include_not_present, Some(true));
}

#[test]
fn invalid_list_type() {
    let e = GetAlbumList::from_query("type=nope").unwrap_err();
    assert_eq!(
        invalid_value(e),
        ("type".to_string(), "Invalid list type".to_string())
    );
}

#[test]
fn false_flag_is_written_as_nothing() {
    let request = GetArtistInfo {
        id: "123".to_string(),
        count: None,
        include_not_present: Some(false),
    };
    let query = request.to_query();
    assert_eq!(query, "id=123");
    assert_eq!(
        GetArtistInfo::from_query(&query).unwrap().include_not_present,
        None
    );
}

#[test]
fn reading_stops_at_an_empty_part() {
    let r = GetSong::from_query("id=5&&foo=bar").unwrap();
    assert_eq!(r.id, "5");
}

#[test]
fn values_are_percent_decoded_and_encoded() {
    let r = GetSong::from_query("id=a%20b%3C").unwrap();
    assert_eq!(r.id, "a b<");
    assert_eq!(r.to_query(), "id=a%20b%3C");
    let r = GetSong::from_query("id=x=y").unwrap();
    assert_eq!(r.id, "x=y");
}

#[test]
fn repeated_fields_keep_their_order() {
    let request = UpdatePlaylist {
        playlist_id: "7".to_string(),
        name: Some("n".to_string()),
        comment: None,
        public: Some(true),
        song_id_to_add: vec!["a".to_string(), "b".to_string()],
        song_index_to_remove: vec![3, 1],
    };
    let query = request.to_query();
    assert_eq!(
        query,
        "playlistId=7&name=n&public&songIdToAdd=a&songIdToAdd=b&songIndexToRemove=3&songIndexToRemove=1"
    );
    assert_eq!(UpdatePlaylist::from_query(&query).unwrap(), request);
}

#[test]
fn audio_bitrate_field() {
    let q = "username=bob&maxBitRate=128";
    let r = UpdateUser::from_query(q).unwrap();
    assert_eq!(r.max_bit_rate.unwrap().to_kbps(), 128);
    assert_eq!(r.to_query(), q);
}

#[test]
fn album_list_all_fields() {
    let request = GetAlbumList {
        list_type: ListType::ByYear,
        size: Some(5),
        offset: None,
        from_year: Some(1990),
        to_year: Some(2000),
        genre: None,
        music_folder_id: Some("m".to_string()),
    };
    let query = request.to_query();
    assert_eq!(
        query,
        "type=byYear&size=5&fromYear=1990&toYear=2000&musicFolderId=m"
    );
    assert_eq!(GetAlbumList::from_query(&query).unwrap(), request);
    assert_eq!(GetAlbumList::since(), Version::new(1, 2, 0));
}

#[test]
fn milliseconds_field() {
    let r = subsonic_types::request::bookmark::CreateBookmark::from_query("id=1&position=77").unwrap();
    assert_eq!(r.position, Milliseconds::new(77));
}
