use subsonic_types::common::{Milliseconds, Version};
use subsonic_types::request::bookmark::{
    CreateBookmark, DeleteBookmark, GetBookmarks, GetPlayQueue, SavePlayQueue,
};
use subsonic_types::request::browsing::{
    GetAlbum, GetAlbumInfo2, GetArtist, GetArtistInfo, GetArtistInfo2, GetArtists, GetGenres,
    GetIndexes, GetMusicDirectory, GetMusicFolders, GetSimilarSongs, GetSong, GetTopSongs,
    GetVideoInfo, GetVideos,
};
use subsonic_types::request::chat::{AddChatMessage, GetChatMessages};
use subsonic_types::request::jukebox::{JukeboxAction, JukeboxControl};
use subsonic_types::request::lists::{GetAlbumList, ListType};
use subsonic_types::request::system::Ping;
use subsonic_types::request::{Authentication, Request, SubsonicRequest};

fn test_request_encode<T>(req: &T) -> String
where
    T: SubsonicRequest + PartialEq + std::fmt::Debug,
{
    let query = req.to_query();
    match T::from_query(&query) {
        Ok(req2) => assert_eq!(req, &req2, "query: {}", query),
        Err(e) => panic!(
            "failed to parse from query: '{}' error: '{}'",
            query,
            e.to_string()
        ),
    }
    query
}

#[test]
fn test_get_bookmarks() {
    let request = GetBookmarks;
    let query = test_request_encode(&request);
    assert_eq!("", query);
}

#[test]
fn test_create_bookmark() {
    let request = CreateBookmark {
        id: "1".to_string(),
        position: Milliseconds::new(1000),
        comment: None,
    };
    let query = test_request_encode(&request);
    assert_eq!("id=1&position=1000", query);

    let request = CreateBookmark {
        id: "1".to_string(),
        position: Milliseconds::new(1000),
        comment: Some("test".to_string()),
    };
    let query = test_request_encode(&request);
    assert_eq!("id=1&position=1000&comment=test", query);
}

#[test]
fn test_delete_bookmarks() {
    let request = DeleteBookmark {
        id: "1".to_string(),
    };
    let query = test_request_encode(&request);
    assert_eq!("id=1", query);
}

#[test]
fn test_get_play_queue() {
    let request = GetPlayQueue;
    let query = test_request_encode(&request);
    assert_eq!("", query);
}

#[test]
fn test_save_play_queue() {
    let request = SavePlayQueue {
        id: vec!["1".to_string(), "2".to_string()],
        current: Some("1".to_string()),
        position: Some(Milliseconds::new(1000)),
    };
    let query = test_request_encode(&request);
    assert_eq!("id=1&id=2&current=1&position=1000", query);

    let request = SavePlayQueue {
        id: vec!["1".to_string(), "2".to_string()],
        current: None,
        position: Some(Milliseconds::new(1000)),
    };
    let query = test_request_encode(&request);
    assert_eq!("id=1&id=2&position=1000", query);

    let request = SavePlayQueue {
        id: vec!["1".to_string(), "2".to_string()],
        current: Some("1".to_string()),
        position: None,
    };
    let query = test_request_encode(&request);
    assert_eq!("id=1&id=2&current=1", query);
}

#[test]
fn test_get_music_folders() {
    let request = GetMusicFolders;
    let query = test_request_encode(&request);
    assert_eq!(query, "");
}

#[test]
fn test_get_indexes() {
    let request = GetIndexes {
        music_folder_id: None,
        if_modified_since: None,
    };
    let query = test_request_encode(&request);
    assert_eq!(query, "");

    let request = GetIndexes {
        music_folder_id: Some("123".to_string()),
        if_modified_since: Some(Milliseconds::new(123)),
    };
    let query = test_request_encode(&request);
    assert_eq!(query, "musicFolderId=123&ifModifiedSince=123");
}

#[test]
fn test_get_music_directory() {
    let request = GetMusicDirectory {
        id: "123".to_string(),
    };
    let query = test_request_encode(&request);
    assert_eq!(query, "id=123");
}

#[test]
fn test_get_genres() {
    let request = GetGenres;
    let query = test_request_encode(&request);
    assert_eq!(query, "");
}

#[test]
fn tet_get_artists() {
    let request = GetArtists {
        music_folder_id: None,
    };
    let query = test_request_encode(&request);
    assert_eq!(query, "");

    let request = GetArtists {
        music_folder_id: Some(20),
    };
    let query = test_request_encode(&request);
    assert_eq!(query, "musicFolderId=20");
}

#[test]
fn test_get_artist() {
    let request = GetArtist {
        id: "123".to_string(),
    };
    let query = test_request_encode(&request);
    assert_eq!(query, "id=123");
}

#[test]
fn test_get_album() {
    let request = GetAlbum {
        id: "123".to_string(),
    };
    let query = test_request_encode(&request);
    assert_eq!(query, "id=123");
}

#[test]
fn test_get_song() {
    let request = GetSong {
        id: "123".to_string(),
    };
    let query = test_request_encode(&request);
    assert_eq!(query, "id=123");
}

#[test]
fn test_get_videos() {
    let request = GetVideos;
    let query = test_request_encode(&request);
    assert_eq!(query, "");
}

#[test]
fn test_get_video_info() {
    let request = GetVideoInfo {
        id: "123".to_string(),
    };
    let query = test_request_encode(&request);
    assert_eq!(query, "id=123");
}

#[test]
fn test_get_artist_info() {
    let request = GetArtistInfo {
        id: "123".to_string(),
        count: None,
        include_not_present: None,
    };
    let query = test_request_encode(&request);
    assert_eq!(query, "id=123");

    let request = GetArtistInfo {
        id: "123".to_string(),
        count: Some(123),
        include_not_present: Some(true),
    };
    let query = test_request_encode(&request);
    assert_eq!(query, "id=123&count=123&includeNotPresent");
}

#[test]
fn test_get_artist_info_2() {
    let request = GetArtistInfo2 {
        id: "123".to_string(),
        count: None,
        include_not_present: None,
    };
    let query = test_request_encode(&request);
    assert_eq!(query, "id=123");

    let request = GetArtistInfo2 {
        id: "123".to_string(),
        count: Some(123),
        include_not_present: Some(true),
    };
    let query = test_request_encode(&request);
    assert_eq!(query, "id=123&count=123&includeNotPresent");
}

#[test]
fn test_get_album_info_2() {
    let request = GetAlbumInfo2 {
        id: "123".to_string(),
    };
    let query = test_request_encode(&request);
    assert_eq!(query, "id=123");
}

#[test]
fn test_get_similar_songs() {
    let request = GetSimilarSongs {
        id: "123".to_string(),
        count: None,
    };
    let query = test_request_encode(&request);
    assert_eq!(query, "id=123");

    let request = GetSimilarSongs {
        id: "123".to_string(),
        count: Some(123),
    };
    let query = test_request_encode(&request);
    assert_eq!(query, "id=123&count=123");
}

#[test]
fn test_get_top_songs() {
    let request = GetTopSongs {
        id: "123".to_string(),
        count: None,
    };
    let query = test_request_encode(&request);
    assert_eq!(query, "id=123");

    let request = GetTopSongs {
        id: "123".to_string(),
        count: Some(123),
    };
    let query = test_request_encode(&request);
    assert_eq!(query, "id=123&count=123");
}

#[test]
fn test_get_chat_messages() {
    let request = GetChatMessages { since: None };
    let query = test_request_encode(&request);
    assert_eq!("", query);

    let request = GetChatMessages {
        since: Some(Milliseconds::new(1000)),
    };
    let query = test_request_encode(&request);
    assert_eq!("since=1000", query);
}

#[test]
fn test_add_chat_message() {
    let request = AddChatMessage {
        message: "test".to_string(),
    };
    let query = test_request_encode(&request);
    assert_eq!("message=test", query);
}

#[test]
fn test_get_album_list() {
    let request = GetAlbumList {
        list_type: ListType::ByGenre,
        size: Some(10),
        offset: Some(0),
        genre: Some("Rock".to_string()),
        from_year: None,
        to_year: None,
        music_folder_id: None,
    };
    let query = test_request_encode(&request);
    assert_eq!(query, "type=byGenre&size=10&offset=0&genre=Rock");
}

#[test]
fn test_ping_request() {
    let req = Request {
        username: "user".to_string(),
        authentication: Authentication::Password("password".to_string()),
        version: Version::new(1, 16, 1),
        client: "test".to_string(),
        format: None,
        body: Ping,
    };
    let query = test_request_encode(&req);
    assert_eq!(query, "u=user&p=password&v=1.16.1&c=test");
}

#[test]
fn test_jukebox_control() {
    let request = JukeboxControl {
        action: JukeboxAction::Get,
        index: None,
        offset: None,
        id: vec![],
        gain: None,
    };
    let query = test_request_encode(&request);
    assert_eq!(query, "action=get");

    let request = JukeboxControl {
        action: JukeboxAction::Status,
        index: None,
        offset: None,
        id: vec![],
        gain: None,
    };
    let query = test_request_encode(&request);
    assert_eq!(query, "action=status");

    let request = JukeboxControl {
        action: JukeboxAction::SetPlaylist,
        index: Some(1),
        offset: Some(20),
        id: vec!["1".to_string(), "2".to_string()],
        gain: None,
    };
    let query = test_request_encode(&request);
    assert_eq!(query, "action=set&index=1&offset=20&id=1&id=2");

    let request = JukeboxControl {
        action: JukeboxAction::Start,
        index: None,
        offset: None,
        id: vec![],
        gain: Some(13.0f32.to_string()),
    };
    let query = test_request_encode(&request);
    assert_eq!(query, "action=start&gain=13");
}
