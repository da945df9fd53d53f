//! Album and song list requests.
use vstd::prelude::*;

use crate::text::{str_eq, to_owned_string};
use crate::codec::{
    fields_view, schema_view, FieldKind, FieldSpec, FieldSpecView, FieldValue, FieldValueView, ScalarKind,
};
use crate::common::Version;
use crate::request::values::{list_type_field, list_type_from, list_type_value, opt_text_field, opt_text_from, opt_text_value, opt_u32_field, opt_u32_from, opt_u32_value, text_field, text_from, text_value};
use crate::request::SubsonicRequest;
use crate::roundtrip::{is_plain, lemma_plain_body_schema, lemma_reserved_keys, value_fits};

use crate::codec::{fields_pairs, lemma_fields_pairs_take};
use crate::query::PairView;
use crate::request::values::{list_type_pairs, opt_text_pairs, opt_u32_pairs, text_pairs};

verus! {

/// The kind of list that `getAlbumList` returns.
#[derive(Debug, Clone, Copy, PartialEq, Eq, Hash, Structural)]
pub enum ListType {
    Random,
    Newest,
    Highest,
    Frequent,
    Recent,
    AlphabeticalByName,
    AlphabeticalByArtist,
    Starred,
    ByYear,
    ByGenre,
}

/// The error of reading a list type.
#[derive(Debug, Clone, Copy, PartialEq, Eq, Structural)]
pub struct InvalidListType;

impl InvalidListType {
    pub fn to_string(&self) -> (res: String)
        ensures
            res@ == "Invalid list type"@,
    {
        to_owned_string("Invalid list type")
    }
}

/// The name of a list type in a query.
pub open spec fn list_type_text(t: ListType) -> Seq<char> {
    match t {
        ListType::Random => "random"@,
        ListType::Newest => "newest"@,
        ListType::Highest => "highest"@,
        ListType::Frequent => "frequent"@,
        ListType::Recent => "recent"@,
        ListType::AlphabeticalByName => "alphabeticalByName"@,
        ListType::AlphabeticalByArtist => "alphabeticalByArtist"@,
        ListType::Starred => "starred"@,
        ListType::ByYear => "byYear"@,
        ListType::ByGenre => "byGenre"@,
    }
}

/// The list type that a name stands for.
pub open spec fn list_type_parse(s: Seq<char>) -> Option<ListType> {
    if s == "random"@ {
        Some(ListType::Random)
    } else if s == "newest"@ {
        Some(ListType::Newest)
    } else if s == "highest"@ {
        Some(ListType::Highest)
    } else if s == "frequent"@ {
        Some(ListType::Frequent)
    } else if s == "recent"@ {
        Some(ListType::Recent)
    } else if s == "alphabeticalByName"@ {
        Some(ListType::AlphabeticalByName)
    } else if s == "alphabeticalByArtist"@ {
        Some(ListType::AlphabeticalByArtist)
    } else if s == "starred"@ {
        Some(ListType::Starred)
    } else if s == "byYear"@ {
        Some(ListType::ByYear)
    } else if s == "byGenre"@ {
        Some(ListType::ByGenre)
    } else {
        None
    }
}

impl ListType {
    pub fn as_str(&self) -> (res: &'static str)
        ensures
            res@ == list_type_text(*self),
    {
        match self {
            ListType::Random => "random",
            ListType::Newest => "newest",
            ListType::Highest => "highest",
            ListType::Frequent => "frequent",
            ListType::Recent => "recent",
            ListType::AlphabeticalByName => "alphabeticalByName",
            ListType::AlphabeticalByArtist => "alphabeticalByArtist",
            ListType::Starred => "starred",
            ListType::ByYear => "byYear",
            ListType::ByGenre => "byGenre",
        }
    }

    pub fn to_string(&self) -> (res: String)
        ensures
            res@ == list_type_text(*self),
    {
        to_owned_string(self.as_str())
    }

    /// Reads the name of a list type.
    pub fn parse(s: &str) -> (res: Result<Self, InvalidListType>)
        ensures
            match res {
                Ok(t) => list_type_parse(s@) == Some(t),
                Err(_) => list_type_parse(s@) is None,
            },
    {
        if str_eq(s, "random") {
            Ok(ListType::Random)
        } else if str_eq(s, "newest") {
            Ok(ListType::Newest)
        } else if str_eq(s, "highest") {
            Ok(ListType::Highest)
        } else if str_eq(s, "frequent") {
            Ok(ListType::Frequent)
        } else if str_eq(s, "recent") {
            Ok(ListType::Recent)
        } else if str_eq(s, "alphabeticalByName") {
            Ok(ListType::AlphabeticalByName)
        } else if str_eq(s, "alphabeticalByArtist") {
            Ok(ListType::AlphabeticalByArtist)
        } else if str_eq(s, "starred") {
            Ok(ListType::Starred)
        } else if str_eq(s, "byYear") {
            Ok(ListType::ByYear)
        } else if str_eq(s, "byGenre") {
            Ok(ListType::ByGenre)
        } else {
            Err(InvalidListType)
        }
    }
}

impl std::str::FromStr for ListType {
    type Err = InvalidListType;

    fn from_str(s: &str) -> Result<Self, Self::Err> {
        Self::parse(s)
    }
}

/// Each list type is written under its name in the API: `random`, `newest`,
/// `highest`, `frequent`, `recent`, `alphabeticalByName`,
/// `alphabeticalByArtist`, `starred`, `byYear` and `byGenre`.
pub proof fn lemma_list_type_names()
    ensures
        list_type_text(ListType::Random) == "random"@,
        list_type_text(ListType::Newest) == "newest"@,
        list_type_text(ListType::Highest) == "highest"@,
        list_type_text(ListType::Frequent) == "frequent"@,
        list_type_text(ListType::Recent) == "recent"@,
        list_type_text(ListType::AlphabeticalByName) == "alphabeticalByName"@,
        list_type_text(ListType::AlphabeticalByArtist) == "alphabeticalByArtist"@,
        list_type_text(ListType::Starred) == "starred"@,
        list_type_text(ListType::ByYear) == "byYear"@,
        list_type_text(ListType::ByGenre) == "byGenre"@,
{
}

/// Reading the name of a list type gives it back.
pub proof fn lemma_list_type_roundtrip(t: ListType)
    ensures
        list_type_parse(list_type_text(t)) == Some(t),
{
    reveal_strlit("random");
    reveal_strlit("newest");
    reveal_strlit("highest");
    reveal_strlit("frequent");
    reveal_strlit("recent");
    reveal_strlit("alphabeticalByName");
    reveal_strlit("alphabeticalByArtist");
    reveal_strlit("starred");
    reveal_strlit("byYear");
    reveal_strlit("byGenre");
    match t {
        ListType::Random => {
        },
        ListType::Newest => {
            assert("newest"@[0] != "random"@[0]);
        },
        ListType::Highest => {
            assert("highest"@.len() != "random"@.len());
            assert("highest"@.len() != "newest"@.len());
        },
        ListType::Frequent => {
            assert("frequent"@.len() != "random"@.len());
            assert("frequent"@.len() != "newest"@.len());
            assert("frequent"@.len() != "highest"@.len());
        },
        ListType::Recent => {
            assert("recent"@[1] != "random"@[1]);
            assert("recent"@[0] != "newest"@[0]);
            assert("recent"@.len() != "highest"@.len());
            assert("recent"@.len() != "frequent"@.len());
        },
        ListType::AlphabeticalByName => {
            assert("alphabeticalByName"@.len() != "random"@.len());
            assert("alphabeticalByName"@.len() != "newest"@.len());
            assert("alphabeticalByName"@.len() != "highest"@.len());
            assert("alphabeticalByName"@.len() != "frequent"@.len());
            assert("alphabeticalByName"@.len() != "recent"@.len());
        },
        ListType::AlphabeticalByArtist => {
            assert("alphabeticalByArtist"@.len() != "random"@.len());
            assert("alphabeticalByArtist"@.len() != "newest"@.len());
            assert("alphabeticalByArtist"@.len() != "highest"@.len());
            assert("alphabeticalByArtist"@.len() != "frequent"@.len());
            assert("alphabeticalByArtist"@.len() != "recent"@.len());
            assert("alphabeticalByArtist"@.len() != "alphabeticalByName"@.len());
        },
        ListType::Starred => {
            assert("starred"@.len() != "random"@.len());
            assert("starred"@.len() != "newest"@.len());
            assert("starred"@[0] != "highest"@[0]);
            assert("starred"@.len() != "frequent"@.len());
            assert("starred"@.len() != "recent"@.len());
            assert("starred"@.len() != "alphabeticalByName"@.len());
            assert("starred"@.len() != "alphabeticalByArtist"@.len());
        },
        ListType::ByYear => {
            assert("byYear"@[0] != "random"@[0]);
            assert("byYear"@[0] != "newest"@[0]);
            assert("byYear"@.len() != "highest"@.len());
            assert("byYear"@.len() != "frequent"@.len());
            assert("byYear"@[0] != "recent"@[0]);
            assert("byYear"@.len() != "alphabeticalByName"@.len());
            assert("byYear"@.len() != "alphabeticalByArtist"@.len());
            assert("byYear"@.len() != "starred"@.len());
        },
        ListType::ByGenre => {
            assert("byGenre"@.len() != "random"@.len());
            assert("byGenre"@.len() != "newest"@.len());
            assert("byGenre"@[0] != "highest"@[0]);
            assert("byGenre"@.len() != "frequent"@.len());
            assert("byGenre"@.len() != "recent"@.len());
            assert("byGenre"@.len() != "alphabeticalByName"@.len());
            assert("byGenre"@.len() != "alphabeticalByArtist"@.len());
            assert("byGenre"@[0] != "starred"@[0]);
            assert("byGenre"@.len() != "byYear"@.len());
        },
    }
}


/// Returns a list of random, newest, highest rated etc. albums. Similar to the album lists on the home page of the Subsonic web interface.
///
/// For more information, see <http://www.subsonic.org/pages/api.jsp#getAlbumList>
#[derive(Debug, Clone, PartialEq)]
pub struct GetAlbumList {
    /// See [`ListType`].
    pub list_type: ListType,
    /// The number of albums to return. Max 500.
    pub size: Option<u32>,
    /// The list offset. Useful if you for example want to page through the list of newest albums.
    pub offset: Option<u32>,
    /// The first year in the range. If 'fromYear > toYear' a reverse chronological list is returned.
    /// Required if [`GetAlbumList::list_type`] is [`ListType::ByYear`].
    pub from_year: Option<u32>,
    /// The last year in the range.
    /// Required if [`GetAlbumList::list_type`] is [`ListType::ByYear`].
    pub to_year: Option<u32>,
    /// The name of the genre, e.g., "Rock".
    /// Required if [`GetAlbumList::list_type`] is [`ListType::ByGenre`].
    pub genre: Option<String>,
    /// Since 1.11.0
    /// Only return albums in the music folder with the given ID. See [`GetMusicFolders`].
    pub music_folder_id: Option<String>,
}

impl SubsonicRequest for GetAlbumList {
    open spec fn spec_schema() -> Seq<FieldSpecView> {
        seq![
            ("type"@, FieldKind::Required(ScalarKind::List)),
            ("size"@, FieldKind::Optional(ScalarKind::U32)),
            ("offset"@, FieldKind::Optional(ScalarKind::U32)),
            ("fromYear"@, FieldKind::Optional(ScalarKind::U32)),
            ("toYear"@, FieldKind::Optional(ScalarKind::U32)),
            ("genre"@, FieldKind::Optional(ScalarKind::Text)),
            ("musicFolderId"@, FieldKind::Optional(ScalarKind::Text)),
        ]
    }

    open spec fn spec_fields(&self) -> Seq<FieldValueView> {
        seq![
            list_type_value(self.list_type),
            opt_u32_value(self.size),
            opt_u32_value(self.offset),
            opt_u32_value(self.from_year),
            opt_u32_value(self.to_year),
            opt_text_value(self.genre),
            opt_text_value(self.music_folder_id),
        ]
    }

    open spec fn spec_schema_ok() -> bool {
        true
    }

    open spec fn spec_is_body() -> bool {
        true
    }

    open spec fn spec_path() -> Seq<char> {
        "/rest/getAlbumList"@
    }

    open spec fn spec_since() -> Version {
        Version { major: 1, minor: 2, patch: 0 }
    }

    fn path() -> (res: &'static str) {
        "/rest/getAlbumList"
    }

    fn since() -> (res: Version) {
        Version::new(1, 2, 0)
    }

    fn schema() -> (res: Vec<FieldSpec>) {
        let mut out: Vec<FieldSpec> = Vec::new();
        out.push(FieldSpec { key: "type", kind: FieldKind::Required(ScalarKind::List) });
        out.push(FieldSpec { key: "size", kind: FieldKind::Optional(ScalarKind::U32) });
        out.push(FieldSpec { key: "offset", kind: FieldKind::Optional(ScalarKind::U32) });
        out.push(FieldSpec { key: "fromYear", kind: FieldKind::Optional(ScalarKind::U32) });
        out.push(FieldSpec { key: "toYear", kind: FieldKind::Optional(ScalarKind::U32) });
        out.push(FieldSpec { key: "genre", kind: FieldKind::Optional(ScalarKind::Text) });
        out.push(FieldSpec { key: "musicFolderId", kind: FieldKind::Optional(ScalarKind::Text) });
        proof {
            assert(schema_view(out@) =~= Self::spec_schema());
        }
        out
    }

    fn fields(&self) -> (res: Vec<FieldValue>) {
        let mut out: Vec<FieldValue> = Vec::new();
        out.push(list_type_field(&self.list_type));
        out.push(opt_u32_field(&self.size));
        out.push(opt_u32_field(&self.offset));
        out.push(opt_u32_field(&self.from_year));
        out.push(opt_u32_field(&self.to_year));
        out.push(opt_text_field(&self.genre));
        out.push(opt_text_field(&self.music_folder_id));
        proof {
            assert(fields_view(out@) =~= self.spec_fields());
        }
        out
    }

    fn from_fields(fields: Vec<FieldValue>) -> (res: Self) {
        let ghost all = fields_view(fields@);
        let mut fields = fields;
        proof {
            assert(value_fits(Self::spec_schema()[0].1, all[0]));
            assert(value_fits(Self::spec_schema()[1].1, all[1]));
            assert(value_fits(Self::spec_schema()[2].1, all[2]));
            assert(value_fits(Self::spec_schema()[3].1, all[3]));
            assert(value_fits(Self::spec_schema()[4].1, all[4]));
            assert(value_fits(Self::spec_schema()[5].1, all[5]));
            assert(value_fits(Self::spec_schema()[6].1, all[6]));
        }
        let v6 = fields.pop().unwrap();
        let v5 = fields.pop().unwrap();
        let v4 = fields.pop().unwrap();
        let v3 = fields.pop().unwrap();
        let v2 = fields.pop().unwrap();
        let v1 = fields.pop().unwrap();
        let v0 = fields.pop().unwrap();
        proof {
            assert(v0@ == all[0]);
            assert(v1@ == all[1]);
            assert(v2@ == all[2]);
            assert(v3@ == all[3]);
            assert(v4@ == all[4]);
            assert(v5@ == all[5]);
            assert(v6@ == all[6]);
        }
        let r = GetAlbumList {
            list_type: list_type_from(v0),
            size: opt_u32_from(v1),
            offset: opt_u32_from(v2),
            from_year: opt_u32_from(v3),
            to_year: opt_u32_from(v4),
            genre: opt_text_from(v5),
            music_folder_id: opt_text_from(v6),
        };
        proof {
            assert(r.spec_fields() =~= all);
        }
        r
    }

    proof fn lemma_fields_fit(r: &Self) {
        assert(value_fits(Self::spec_schema()[0].1, r.spec_fields()[0]));
        assert(value_fits(Self::spec_schema()[1].1, r.spec_fields()[1]));
        assert(value_fits(Self::spec_schema()[2].1, r.spec_fields()[2]));
        assert(value_fits(Self::spec_schema()[3].1, r.spec_fields()[3]));
        assert(value_fits(Self::spec_schema()[4].1, r.spec_fields()[4]));
        assert(value_fits(Self::spec_schema()[5].1, r.spec_fields()[5]));
        assert(value_fits(Self::spec_schema()[6].1, r.spec_fields()[6]));
    }

    proof fn lemma_schema_valid() {
        reveal_strlit("type");
        reveal_strlit("size");
        reveal_strlit("offset");
        reveal_strlit("fromYear");
        reveal_strlit("toYear");
        reveal_strlit("genre");
        reveal_strlit("musicFolderId");
        assert(is_plain("type"@));
        assert(is_plain("size"@));
        assert(is_plain("offset"@));
        assert(is_plain("fromYear"@));
        assert(is_plain("toYear"@));
        assert(is_plain("genre"@));
        assert(is_plain("musicFolderId"@));
        lemma_reserved_keys();
        assert("type"@[0] != "size"@[0]);
        assert("offset"@[0] != "toYear"@[0]);
        lemma_plain_body_schema(Self::spec_schema());
    }
}

/// Similar to [`GetAlbumList`], but organizes music according to ID3 tags.
///
/// For more information, see <http://www.subsonic.org/pages/api.jsp#getAlbumList2>
#[derive(Debug, Clone, PartialEq)]
pub struct GetAlbumList2 {
    /// See [`ListType`].
    pub list_type: ListType,
    /// The number of albums to return. Max 500.
    pub size: Option<u32>,
    /// The list offset. Useful if you for example want to page through the list of newest albums.
    pub offset: Option<u32>,
    /// The first year in the range. If 'fromYear > toYear' a reverse chronological list is returned.
    /// Required if [`GetAlbumList2::list_type`] is [`ListType::ByYear`].
    pub from_year: Option<u32>,
    /// The last year in the range.
    /// Required if [`GetAlbumList2::list_type`] is [`ListType::ByYear`].
    pub to_year: Option<u32>,
    /// The name of the genre, e.g., "Rock".
    /// Required if [`GetAlbumList2::list_type`] is [`ListType::ByGenre`].
    pub genre: Option<String>,
    /// Since 1.11.0
    /// Only return albums in the music folder with the given ID. See [`GetMusicFolders`].
    pub music_folder_id: Option<String>,
}

impl SubsonicRequest for GetAlbumList2 {
    open spec fn spec_schema() -> Seq<FieldSpecView> {
        seq![
            ("type"@, FieldKind::Required(ScalarKind::List)),
            ("size"@, FieldKind::Optional(ScalarKind::U32)),
            ("offset"@, FieldKind::Optional(ScalarKind::U32)),
            ("fromYear"@, FieldKind::Optional(ScalarKind::U32)),
            ("toYear"@, FieldKind::Optional(ScalarKind::U32)),
            ("genre"@, FieldKind::Optional(ScalarKind::Text)),
            ("musicFolderId"@, FieldKind::Optional(ScalarKind::Text)),
        ]
    }

    open spec fn spec_fields(&self) -> Seq<FieldValueView> {
        seq![
            list_type_value(self.list_type),
            opt_u32_value(self.size),
            opt_u32_value(self.offset),
            opt_u32_value(self.from_year),
            opt_u32_value(self.to_year),
            opt_text_value(self.genre),
            opt_text_value(self.music_folder_id),
        ]
    }

    open spec fn spec_schema_ok() -> bool {
        true
    }

    open spec fn spec_is_body() -> bool {
        true
    }

    open spec fn spec_path() -> Seq<char> {
        "/rest/getAlbumList2"@
    }

    open spec fn spec_since() -> Version {
        Version { major: 1, minor: 8, patch: 0 }
    }

    fn path() -> (res: &'static str) {
        "/rest/getAlbumList2"
    }

    fn since() -> (res: Version) {
        Version::new(1, 8, 0)
    }

    fn schema() -> (res: Vec<FieldSpec>) {
        let mut out: Vec<FieldSpec> = Vec::new();
        out.push(FieldSpec { key: "type", kind: FieldKind::Required(ScalarKind::List) });
        out.push(FieldSpec { key: "size", kind: FieldKind::Optional(ScalarKind::U32) });
        out.push(FieldSpec { key: "offset", kind: FieldKind::Optional(ScalarKind::U32) });
        out.push(FieldSpec { key: "fromYear", kind: FieldKind::Optional(ScalarKind::U32) });
        out.push(FieldSpec { key: "toYear", kind: FieldKind::Optional(ScalarKind::U32) });
        out.push(FieldSpec { key: "genre", kind: FieldKind::Optional(ScalarKind::Text) });
        out.push(FieldSpec { key: "musicFolderId", kind: FieldKind::Optional(ScalarKind::Text) });
        proof {
            assert(schema_view(out@) =~= Self::spec_schema());
        }
        out
    }

    fn fields(&self) -> (res: Vec<FieldValue>) {
        let mut out: Vec<FieldValue> = Vec::new();
        out.push(list_type_field(&self.list_type));
        out.push(opt_u32_field(&self.size));
        out.push(opt_u32_field(&self.offset));
        out.push(opt_u32_field(&self.from_year));
        out.push(opt_u32_field(&self.to_year));
        out.push(opt_text_field(&self.genre));
        out.push(opt_text_field(&self.music_folder_id));
        proof {
            assert(fields_view(out@) =~= self.spec_fields());
        }
        out
    }

    fn from_fields(fields: Vec<FieldValue>) -> (res: Self) {
        let ghost all = fields_view(fields@);
        let mut fields = fields;
        proof {
            assert(value_fits(Self::spec_schema()[0].1, all[0]));
            assert(value_fits(Self::spec_schema()[1].1, all[1]));
            assert(value_fits(Self::spec_schema()[2].1, all[2]));
            assert(value_fits(Self::spec_schema()[3].1, all[3]));
            assert(value_fits(Self::spec_schema()[4].1, all[4]));
            assert(value_fits(Self::spec_schema()[5].1, all[5]));
            assert(value_fits(Self::spec_schema()[6].1, all[6]));
        }
        let v6 = fields.pop().unwrap();
        let v5 = fields.pop().unwrap();
        let v4 = fields.pop().unwrap();
        let v3 = fields.pop().unwrap();
        let v2 = fields.pop().unwrap();
        let v1 = fields.pop().unwrap();
        let v0 = fields.pop().unwrap();
        proof {
            assert(v0@ == all[0]);
            assert(v1@ == all[1]);
            assert(v2@ == all[2]);
            assert(v3@ == all[3]);
            assert(v4@ == all[4]);
            assert(v5@ == all[5]);
            assert(v6@ == all[6]);
        }
        let r = GetAlbumList2 {
            list_type: list_type_from(v0),
            size: opt_u32_from(v1),
            offset: opt_u32_from(v2),
            from_year: opt_u32_from(v3),
            to_year: opt_u32_from(v4),
            genre: opt_text_from(v5),
            music_folder_id: opt_text_from(v6),
        };
        proof {
            assert(r.spec_fields() =~= all);
        }
        r
    }

    proof fn lemma_fields_fit(r: &Self) {
        assert(value_fits(Self::spec_schema()[0].1, r.spec_fields()[0]));
        assert(value_fits(Self::spec_schema()[1].1, r.spec_fields()[1]));
        assert(value_fits(Self::spec_schema()[2].1, r.spec_fields()[2]));
        assert(value_fits(Self::spec_schema()[3].1, r.spec_fields()[3]));
        assert(value_fits(Self::spec_schema()[4].1, r.spec_fields()[4]));
        assert(value_fits(Self::spec_schema()[5].1, r.spec_fields()[5]));
        assert(value_fits(Self::spec_schema()[6].1, r.spec_fields()[6]));
    }

    proof fn lemma_schema_valid() {
        reveal_strlit("type");
        reveal_strlit("size");
        reveal_strlit("offset");
        reveal_strlit("fromYear");
        reveal_strlit("toYear");
        reveal_strlit("genre");
        reveal_strlit("musicFolderId");
        assert(is_plain("type"@));
        assert(is_plain("size"@));
        assert(is_plain("offset"@));
        assert(is_plain("fromYear"@));
        assert(is_plain("toYear"@));
        assert(is_plain("genre"@));
        assert(is_plain("musicFolderId"@));
        lemma_reserved_keys();
        assert("type"@[0] != "size"@[0]);
        assert("offset"@[0] != "toYear"@[0]);
        lemma_plain_body_schema(Self::spec_schema());
    }
}

/// Returns random songs matching the given criteria.
///
/// For more information, see <http://www.subsonic.org/pages/api.jsp#getRandomSongs>
#[derive(Debug, Clone, PartialEq)]
pub struct GetRandomSongs {
    /// The maximum number of songs to return. Max 500.
    pub size: Option<u32>,
    /// Only returns songs belonging to this genre.
    pub genre: Option<String>,
    /// Only return songs published after or in this year.
    pub from_year: Option<u32>,
    /// Only return songs published before or in this year.
    pub to_year: Option<u32>,
    /// Only return songs in the music folder with the given ID. See [`GetMusicFolders`].
    pub music_folder_id: Option<String>,
}

impl SubsonicRequest for GetRandomSongs {
    open spec fn spec_schema() -> Seq<FieldSpecView> {
        seq![
            ("size"@, FieldKind::Optional(ScalarKind::U32)),
            ("genre"@, FieldKind::Optional(ScalarKind::Text)),
            ("fromYear"@, FieldKind::Optional(ScalarKind::U32)),
            ("toYear"@, FieldKind::Optional(ScalarKind::U32)),
            ("musicFolderId"@, FieldKind::Optional(ScalarKind::Text)),
        ]
    }

    open spec fn spec_fields(&self) -> Seq<FieldValueView> {
        seq![
            opt_u32_value(self.size),
            opt_text_value(self.genre),
            opt_u32_value(self.from_year),
            opt_u32_value(self.to_year),
            opt_text_value(self.music_folder_id),
        ]
    }

    open spec fn spec_schema_ok() -> bool {
        true
    }

    open spec fn spec_is_body() -> bool {
        true
    }

    open spec fn spec_path() -> Seq<char> {
        "/rest/getRandomSongs"@
    }

    open spec fn spec_since() -> Version {
        Version { major: 1, minor: 2, patch: 0 }
    }

    fn path() -> (res: &'static str) {
        "/rest/getRandomSongs"
    }

    fn since() -> (res: Version) {
        Version::new(1, 2, 0)
    }

    fn schema() -> (res: Vec<FieldSpec>) {
        let mut out: Vec<FieldSpec> = Vec::new();
        out.push(FieldSpec { key: "size", kind: FieldKind::Optional(ScalarKind::U32) });
        out.push(FieldSpec { key: "genre", kind: FieldKind::Optional(ScalarKind::Text) });
        out.push(FieldSpec { key: "fromYear", kind: FieldKind::Optional(ScalarKind::U32) });
        out.push(FieldSpec { key: "toYear", kind: FieldKind::Optional(ScalarKind::U32) });
        out.push(FieldSpec { key: "musicFolderId", kind: FieldKind::Optional(ScalarKind::Text) });
        proof {
            assert(schema_view(out@) =~= Self::spec_schema());
        }
        out
    }

    fn fields(&self) -> (res: Vec<FieldValue>) {
        let mut out: Vec<FieldValue> = Vec::new();
        out.push(opt_u32_field(&self.size));
        out.push(opt_text_field(&self.genre));
        out.push(opt_u32_field(&self.from_year));
        out.push(opt_u32_field(&self.to_year));
        out.push(opt_text_field(&self.music_folder_id));
        proof {
            assert(fields_view(out@) =~= self.spec_fields());
        }
        out
    }

    fn from_fields(fields: Vec<FieldValue>) -> (res: Self) {
        let ghost all = fields_view(fields@);
        let mut fields = fields;
        proof {
            assert(value_fits(Self::spec_schema()[0].1, all[0]));
            assert(value_fits(Self::spec_schema()[1].1, all[1]));
            assert(value_fits(Self::spec_schema()[2].1, all[2]));
            assert(value_fits(Self::spec_schema()[3].1, all[3]));
            assert(value_fits(Self::spec_schema()[4].1, all[4]));
        }
        let v4 = fields.pop().unwrap();
        let v3 = fields.pop().unwrap();
        let v2 = fields.pop().unwrap();
        let v1 = fields.pop().unwrap();
        let v0 = fields.pop().unwrap();
        proof {
            assert(v0@ == all[0]);
            assert(v1@ == all[1]);
            assert(v2@ == all[2]);
            assert(v3@ == all[3]);
            assert(v4@ == all[4]);
        }
        let r = GetRandomSongs {
            size: opt_u32_from(v0),
            genre: opt_text_from(v1),
            from_year: opt_u32_from(v2),
            to_year: opt_u32_from(v3),
            music_folder_id: opt_text_from(v4),
        };
        proof {
            assert(r.spec_fields() =~= all);
        }
        r
    }

    proof fn lemma_fields_fit(r: &Self) {
        assert(value_fits(Self::spec_schema()[0].1, r.spec_fields()[0]));
        assert(value_fits(Self::spec_schema()[1].1, r.spec_fields()[1]));
        assert(value_fits(Self::spec_schema()[2].1, r.spec_fields()[2]));
        assert(value_fits(Self::spec_schema()[3].1, r.spec_fields()[3]));
        assert(value_fits(Self::spec_schema()[4].1, r.spec_fields()[4]));
    }

    proof fn lemma_schema_valid() {
        reveal_strlit("size");
        reveal_strlit("genre");
        reveal_strlit("fromYear");
        reveal_strlit("toYear");
        reveal_strlit("musicFolderId");
        assert(is_plain("size"@));
        assert(is_plain("genre"@));
        assert(is_plain("fromYear"@));
        assert(is_plain("toYear"@));
        assert(is_plain("musicFolderId"@));
        lemma_reserved_keys();
        lemma_plain_body_schema(Self::spec_schema());
    }
}

/// Returns songs in a given genre.
///
/// For more information, see <http://www.subsonic.org/pages/api.jsp#getSongsByGenre>
#[derive(Debug, Clone, PartialEq)]
pub struct GetSongsByGenre {
    /// The genre, as returned by [`GetGenres`].
    pub genre: String,
    /// The number of songs to return. Max 500.
    pub count: Option<u32>,
    /// The offset. Useful if you for example want to page through the list of songs.
    pub offset: Option<u32>,
    /// Since 1.12.0
    /// Only return albums in the music folder with the given ID. See [`GetMusicFolders`].
    pub music_folder_id: Option<String>,
}

impl SubsonicRequest for GetSongsByGenre {
    open spec fn spec_schema() -> Seq<FieldSpecView> {
        seq![
            ("genre"@, FieldKind::Required(ScalarKind::Text)),
            ("count"@, FieldKind::Optional(ScalarKind::U32)),
            ("offset"@, FieldKind::Optional(ScalarKind::U32)),
            ("musicFolderId"@, FieldKind::Optional(ScalarKind::Text)),
        ]
    }

    open spec fn spec_fields(&self) -> Seq<FieldValueView> {
        seq![
            text_value(self.genre),
            opt_u32_value(self.count),
            opt_u32_value(self.offset),
            opt_text_value(self.music_folder_id),
        ]
    }

    open spec fn spec_schema_ok() -> bool {
        true
    }

    open spec fn spec_is_body() -> bool {
        true
    }

    open spec fn spec_path() -> Seq<char> {
        "/rest/getSongsByGenre"@
    }

    open spec fn spec_since() -> Version {
        Version { major: 1, minor: 9, patch: 0 }
    }

    fn path() -> (res: &'static str) {
        "/rest/getSongsByGenre"
    }

    fn since() -> (res: Version) {
        Version::new(1, 9, 0)
    }

    fn schema() -> (res: Vec<FieldSpec>) {
        let mut out: Vec<FieldSpec> = Vec::new();
        out.push(FieldSpec { key: "genre", kind: FieldKind::Required(ScalarKind::Text) });
        out.push(FieldSpec { key: "count", kind: FieldKind::Optional(ScalarKind::U32) });
        out.push(FieldSpec { key: "offset", kind: FieldKind::Optional(ScalarKind::U32) });
        out.push(FieldSpec { key: "musicFolderId", kind: FieldKind::Optional(ScalarKind::Text) });
        proof {
            assert(schema_view(out@) =~= Self::spec_schema());
        }
        out
    }

    fn fields(&self) -> (res: Vec<FieldValue>) {
        let mut out: Vec<FieldValue> = Vec::new();
        out.push(text_field(&self.genre));
        out.push(opt_u32_field(&self.count));
        out.push(opt_u32_field(&self.offset));
        out.push(opt_text_field(&self.music_folder_id));
        proof {
            assert(fields_view(out@) =~= self.spec_fields());
        }
        out
    }

    fn from_fields(fields: Vec<FieldValue>) -> (res: Self) {
        let ghost all = fields_view(fields@);
        let mut fields = fields;
        proof {
            assert(value_fits(Self::spec_schema()[0].1, all[0]));
            assert(value_fits(Self::spec_schema()[1].1, all[1]));
            assert(value_fits(Self::spec_schema()[2].1, all[2]));
            assert(value_fits(Self::spec_schema()[3].1, all[3]));
        }
        let v3 = fields.pop().unwrap();
        let v2 = fields.pop().unwrap();
        let v1 = fields.pop().unwrap();
        let v0 = fields.pop().unwrap();
        proof {
            assert(v0@ == all[0]);
            assert(v1@ == all[1]);
            assert(v2@ == all[2]);
            assert(v3@ == all[3]);
        }
        let r = GetSongsByGenre {
            genre: text_from(v0),
            count: opt_u32_from(v1),
            offset: opt_u32_from(v2),
            music_folder_id: opt_text_from(v3),
        };
        proof {
            assert(r.spec_fields() =~= all);
        }
        r
    }

    proof fn lemma_fields_fit(r: &Self) {
        assert(value_fits(Self::spec_schema()[0].1, r.spec_fields()[0]));
        assert(value_fits(Self::spec_schema()[1].1, r.spec_fields()[1]));
        assert(value_fits(Self::spec_schema()[2].1, r.spec_fields()[2]));
        assert(value_fits(Self::spec_schema()[3].1, r.spec_fields()[3]));
    }

    proof fn lemma_schema_valid() {
        reveal_strlit("genre");
        reveal_strlit("count");
        reveal_strlit("offset");
        reveal_strlit("musicFolderId");
        assert(is_plain("genre"@));
        assert(is_plain("count"@));
        assert(is_plain("offset"@));
        assert(is_plain("musicFolderId"@));
        lemma_reserved_keys();
        assert("genre"@[0] != "count"@[0]);
        lemma_plain_body_schema(Self::spec_schema());
    }
}

/// Returns what is currently being played by all users. Takes no extra parameters.
///
/// For more information, see <http://www.subsonic.org/pages/api.jsp#getNowPlaying>
#[derive(Debug, Clone, PartialEq)]
pub struct GetNowPlaying;

impl SubsonicRequest for GetNowPlaying {
    open spec fn spec_schema() -> Seq<FieldSpecView> {
        Seq::<FieldSpecView>::empty()
    }

    open spec fn spec_fields(&self) -> Seq<FieldValueView> {
        Seq::<FieldValueView>::empty()
    }

    open spec fn spec_schema_ok() -> bool {
        true
    }

    open spec fn spec_is_body() -> bool {
        true
    }

    open spec fn spec_path() -> Seq<char> {
        "/rest/getNowPlaying"@
    }

    open spec fn spec_since() -> Version {
        Version { major: 1, minor: 0, patch: 0 }
    }

    fn path() -> (res: &'static str) {
        "/rest/getNowPlaying"
    }

    fn since() -> (res: Version) {
        Version::new(1, 0, 0)
    }

    fn schema() -> (res: Vec<FieldSpec>) {
        let mut out: Vec<FieldSpec> = Vec::new();
        proof {
            assert(schema_view(out@) =~= Self::spec_schema());
        }
        out
    }

    fn fields(&self) -> (res: Vec<FieldValue>) {
        let mut out: Vec<FieldValue> = Vec::new();
        proof {
            assert(fields_view(out@) =~= self.spec_fields());
        }
        out
    }

    fn from_fields(fields: Vec<FieldValue>) -> (res: Self) {
        proof {
            assert(fields_view(fields@) =~= Seq::<FieldValueView>::empty());
        }
        GetNowPlaying
    }

    proof fn lemma_fields_fit(r: &Self) {
    }

    proof fn lemma_schema_valid() {
        lemma_plain_body_schema(Self::spec_schema());
    }
}

/// Returns starred songs, albums and artists.
///
/// For more information, see <http://www.subsonic.org/pages/api.jsp#getStarred>
#[derive(Debug, Clone, PartialEq)]
pub struct GetStarred {
    /// Since 1.12.0
    /// Only return albums in the music folder with the given ID. See [`GetMusicFolders`].
    pub music_folder_id: Option<String>,
}

impl SubsonicRequest for GetStarred {
    open spec fn spec_schema() -> Seq<FieldSpecView> {
        seq![
            ("musicFolderId"@, FieldKind::Optional(ScalarKind::Text)),
        ]
    }

    open spec fn spec_fields(&self) -> Seq<FieldValueView> {
        seq![
            opt_text_value(self.music_folder_id),
        ]
    }

    open spec fn spec_schema_ok() -> bool {
        true
    }

    open spec fn spec_is_body() -> bool {
        true
    }

    open spec fn spec_path() -> Seq<char> {
        "/rest/getStarred"@
    }

    open spec fn spec_since() -> Version {
        Version { major: 1, minor: 8, patch: 0 }
    }

    fn path() -> (res: &'static str) {
        "/rest/getStarred"
    }

    fn since() -> (res: Version) {
        Version::new(1, 8, 0)
    }

    fn schema() -> (res: Vec<FieldSpec>) {
        let mut out: Vec<FieldSpec> = Vec::new();
        out.push(FieldSpec { key: "musicFolderId", kind: FieldKind::Optional(ScalarKind::Text) });
        proof {
            assert(schema_view(out@) =~= Self::spec_schema());
        }
        out
    }

    fn fields(&self) -> (res: Vec<FieldValue>) {
        let mut out: Vec<FieldValue> = Vec::new();
        out.push(opt_text_field(&self.music_folder_id));
        proof {
            assert(fields_view(out@) =~= self.spec_fields());
        }
        out
    }

    fn from_fields(fields: Vec<FieldValue>) -> (res: Self) {
        let ghost all = fields_view(fields@);
        let mut fields = fields;
        proof {
            assert(value_fits(Self::spec_schema()[0].1, all[0]));
        }
        let v0 = fields.pop().unwrap();
        proof {
            assert(v0@ == all[0]);
        }
        let r = GetStarred {
            music_folder_id: opt_text_from(v0),
        };
        proof {
            assert(r.spec_fields() =~= all);
        }
        r
    }

    proof fn lemma_fields_fit(r: &Self) {
        assert(value_fits(Self::spec_schema()[0].1, r.spec_fields()[0]));
    }

    proof fn lemma_schema_valid() {
        reveal_strlit("musicFolderId");
        assert(is_plain("musicFolderId"@));
        lemma_reserved_keys();
        lemma_plain_body_schema(Self::spec_schema());
    }
}

/// Returns starred songs, albums and artists.
///
/// For more information, see <http://www.subsonic.org/pages/api.jsp#getStarred2>
#[derive(Debug, Clone, PartialEq)]
pub struct GetStarred2 {
    /// Since 1.12.0
    /// Only return albums in the music folder with the given ID. See [`GetMusicFolders`].
    pub music_folder_id: Option<String>,
}

impl SubsonicRequest for GetStarred2 {
    open spec fn spec_schema() -> Seq<FieldSpecView> {
        seq![
            ("musicFolderId"@, FieldKind::Optional(ScalarKind::Text)),
        ]
    }

    open spec fn spec_fields(&self) -> Seq<FieldValueView> {
        seq![
            opt_text_value(self.music_folder_id),
        ]
    }

    open spec fn spec_schema_ok() -> bool {
        true
    }

    open spec fn spec_is_body() -> bool {
        true
    }

    open spec fn spec_path() -> Seq<char> {
        "/rest/getStarred2"@
    }

    open spec fn spec_since() -> Version {
        Version { major: 1, minor: 12, patch: 0 }
    }

    fn path() -> (res: &'static str) {
        "/rest/getStarred2"
    }

    fn since() -> (res: Version) {
        Version::new(1, 12, 0)
    }

    fn schema() -> (res: Vec<FieldSpec>) {
        let mut out: Vec<FieldSpec> = Vec::new();
        out.push(FieldSpec { key: "musicFolderId", kind: FieldKind::Optional(ScalarKind::Text) });
        proof {
            assert(schema_view(out@) =~= Self::spec_schema());
        }
        out
    }

    fn fields(&self) -> (res: Vec<FieldValue>) {
        let mut out: Vec<FieldValue> = Vec::new();
        out.push(opt_text_field(&self.music_folder_id));
        proof {
            assert(fields_view(out@) =~= self.spec_fields());
        }
        out
    }

    fn from_fields(fields: Vec<FieldValue>) -> (res: Self) {
        let ghost all = fields_view(fields@);
        let mut fields = fields;
        proof {
            assert(value_fits(Self::spec_schema()[0].1, all[0]));
        }
        let v0 = fields.pop().unwrap();
        proof {
            assert(v0@ == all[0]);
        }
        let r = GetStarred2 {
            music_folder_id: opt_text_from(v0),
        };
        proof {
            assert(r.spec_fields() =~= all);
        }
        r
    }

    proof fn lemma_fields_fit(r: &Self) {
        assert(value_fits(Self::spec_schema()[0].1, r.spec_fields()[0]));
    }

    proof fn lemma_schema_valid() {
        reveal_strlit("musicFolderId");
        assert(is_plain("musicFolderId"@));
        lemma_reserved_keys();
        lemma_plain_body_schema(Self::spec_schema());
    }
}

/// A [`GetAlbumList`] is written as the pairs of its set fields, in the order
/// they are declared, each under the camelCase name of its struct field (the list
/// type under `type`):
/// `type`, `size`, `offset`, `fromYear`, `toYear`, `genre`, `musicFolderId`.
pub proof fn lemma_get_album_list_pairs(r: &GetAlbumList)
    ensures
        fields_pairs(GetAlbumList::spec_schema(), r.spec_fields()) == list_type_pairs("type"@, r.list_type)
            + opt_u32_pairs("size"@, r.size)
            + opt_u32_pairs("offset"@, r.offset)
            + opt_u32_pairs("fromYear"@, r.from_year)
            + opt_u32_pairs("toYear"@, r.to_year)
            + opt_text_pairs("genre"@, r.genre)
            + opt_text_pairs("musicFolderId"@, r.music_folder_id),
{
    let s = GetAlbumList::spec_schema();
    let f = r.spec_fields();
    assert(fields_pairs(s, f.take(0)) =~= Seq::<PairView>::empty());
    assert(fields_pairs(s, f.take(1)) == fields_pairs(s, f.take(0)) + list_type_pairs("type"@, r.list_type)) by {
        lemma_fields_pairs_take(s, f, 0);
    }
    assert(fields_pairs(s, f.take(2)) == fields_pairs(s, f.take(1)) + opt_u32_pairs("size"@, r.size)) by {
        lemma_fields_pairs_take(s, f, 1);
    }
    assert(fields_pairs(s, f.take(3)) == fields_pairs(s, f.take(2)) + opt_u32_pairs("offset"@, r.offset)) by {
        lemma_fields_pairs_take(s, f, 2);
    }
    assert(fields_pairs(s, f.take(4)) == fields_pairs(s, f.take(3)) + opt_u32_pairs("fromYear"@, r.from_year)) by {
        lemma_fields_pairs_take(s, f, 3);
    }
    assert(fields_pairs(s, f.take(5)) == fields_pairs(s, f.take(4)) + opt_u32_pairs("toYear"@, r.to_year)) by {
        lemma_fields_pairs_take(s, f, 4);
    }
    assert(fields_pairs(s, f.take(6)) == fields_pairs(s, f.take(5)) + opt_text_pairs("genre"@, r.genre)) by {
        lemma_fields_pairs_take(s, f, 5);
    }
    assert(fields_pairs(s, f.take(7)) == fields_pairs(s, f.take(6)) + opt_text_pairs("musicFolderId"@, r.music_folder_id)) by {
        lemma_fields_pairs_take(s, f, 6);
    }
    assert(fields_pairs(s, f.take(1)) =~= list_type_pairs("type"@, r.list_type));
    assert(f.take(7) =~= f);
}

/// A [`GetAlbumList2`] is written as the pairs of its set fields, in the order
/// they are declared, each under the camelCase name of its struct field (the list
/// type under `type`):
/// `type`, `size`, `offset`, `fromYear`, `toYear`, `genre`, `musicFolderId`.
pub proof fn lemma_get_album_list2_pairs(r: &GetAlbumList2)
    ensures
        fields_pairs(GetAlbumList2::spec_schema(), r.spec_fields()) == list_type_pairs("type"@, r.list_type)
            + opt_u32_pairs("size"@, r.size)
            + opt_u32_pairs("offset"@, r.offset)
            + opt_u32_pairs("fromYear"@, r.from_year)
            + opt_u32_pairs("toYear"@, r.to_year)
            + opt_text_pairs("genre"@, r.genre)
            + opt_text_pairs("musicFolderId"@, r.music_folder_id),
{
    let s = GetAlbumList2::spec_schema();
    let f = r.spec_fields();
    assert(fields_pairs(s, f.take(0)) =~= Seq::<PairView>::empty());
    assert(fields_pairs(s, f.take(1)) == fields_pairs(s, f.take(0)) + list_type_pairs("type"@, r.list_type)) by {
        lemma_fields_pairs_take(s, f, 0);
    }
    assert(fields_pairs(s, f.take(2)) == fields_pairs(s, f.take(1)) + opt_u32_pairs("size"@, r.size)) by {
        lemma_fields_pairs_take(s, f, 1);
    }
    assert(fields_pairs(s, f.take(3)) == fields_pairs(s, f.take(2)) + opt_u32_pairs("offset"@, r.offset)) by {
        lemma_fields_pairs_take(s, f, 2);
    }
    assert(fields_pairs(s, f.take(4)) == fields_pairs(s, f.take(3)) + opt_u32_pairs("fromYear"@, r.from_year)) by {
        lemma_fields_pairs_take(s, f, 3);
    }
    assert(fields_pairs(s, f.take(5)) == fields_pairs(s, f.take(4)) + opt_u32_pairs("toYear"@, r.to_year)) by {
        lemma_fields_pairs_take(s, f, 4);
    }
    assert(fields_pairs(s, f.take(6)) == fields_pairs(s, f.take(5)) + opt_text_pairs("genre"@, r.genre)) by {
        lemma_fields_pairs_take(s, f, 5);
    }
    assert(fields_pairs(s, f.take(7)) == fields_pairs(s, f.take(6)) + opt_text_pairs("musicFolderId"@, r.music_folder_id)) by {
        lemma_fields_pairs_take(s, f, 6);
    }
    assert(fields_pairs(s, f.take(1)) =~= list_type_pairs("type"@, r.list_type));
    assert(f.take(7) =~= f);
}

/// A [`GetRandomSongs`] is written as the pairs of its set fields, in the order
/// they are declared, each under the camelCase name of its struct field:
/// `size`, `genre`, `fromYear`, `toYear`, `musicFolderId`.
pub proof fn lemma_get_random_songs_pairs(r: &GetRandomSongs)
    ensures
        fields_pairs(GetRandomSongs::spec_schema(), r.spec_fields()) == opt_u32_pairs("size"@, r.size)
            + opt_text_pairs("genre"@, r.genre)
            + opt_u32_pairs("fromYear"@, r.from_year)
            + opt_u32_pairs("toYear"@, r.to_year)
            + opt_text_pairs("musicFolderId"@, r.music_folder_id),
{
    let s = GetRandomSongs::spec_schema();
    let f = r.spec_fields();
    assert(fields_pairs(s, f.take(0)) =~= Seq::<PairView>::empty());
    assert(fields_pairs(s, f.take(1)) == fields_pairs(s, f.take(0)) + opt_u32_pairs("size"@, r.size)) by {
        lemma_fields_pairs_take(s, f, 0);
    }
    assert(fields_pairs(s, f.take(2)) == fields_pairs(s, f.take(1)) + opt_text_pairs("genre"@, r.genre)) by {
        lemma_fields_pairs_take(s, f, 1);
    }
    assert(fields_pairs(s, f.take(3)) == fields_pairs(s, f.take(2)) + opt_u32_pairs("fromYear"@, r.from_year)) by {
        lemma_fields_pairs_take(s, f, 2);
    }
    assert(fields_pairs(s, f.take(4)) == fields_pairs(s, f.take(3)) + opt_u32_pairs("toYear"@, r.to_year)) by {
        lemma_fields_pairs_take(s, f, 3);
    }
    assert(fields_pairs(s, f.take(5)) == fields_pairs(s, f.take(4)) + opt_text_pairs("musicFolderId"@, r.music_folder_id)) by {
        lemma_fields_pairs_take(s, f, 4);
    }
    assert(fields_pairs(s, f.take(1)) =~= opt_u32_pairs("size"@, r.size));
    assert(f.take(5) =~= f);
}

/// A [`GetSongsByGenre`] is written as the pairs of its set fields, in the order
/// they are declared, each under the camelCase name of its struct field:
/// `genre`, `count`, `offset`, `musicFolderId`.
pub proof fn lemma_get_songs_by_genre_pairs(r: &GetSongsByGenre)
    ensures
        fields_pairs(GetSongsByGenre::spec_schema(), r.spec_fields()) == text_pairs("genre"@, r.genre)
            + opt_u32_pairs("count"@, r.count)
            + opt_u32_pairs("offset"@, r.offset)
            + opt_text_pairs("musicFolderId"@, r.music_folder_id),
{
    let s = GetSongsByGenre::spec_schema();
    let f = r.spec_fields();
    assert(fields_pairs(s, f.take(0)) =~= Seq::<PairView>::empty());
    assert(fields_pairs(s, f.take(1)) == fields_pairs(s, f.take(0)) + text_pairs("genre"@, r.genre)) by {
        lemma_fields_pairs_take(s, f, 0);
    }
    assert(fields_pairs(s, f.take(2)) == fields_pairs(s, f.take(1)) + opt_u32_pairs("count"@, r.count)) by {
        lemma_fields_pairs_take(s, f, 1);
    }
    assert(fields_pairs(s, f.take(3)) == fields_pairs(s, f.take(2)) + opt_u32_pairs("offset"@, r.offset)) by {
        lemma_fields_pairs_take(s, f, 2);
    }
    assert(fields_pairs(s, f.take(4)) == fields_pairs(s, f.take(3)) + opt_text_pairs("musicFolderId"@, r.music_folder_id)) by {
        lemma_fields_pairs_take(s, f, 3);
    }
    assert(fields_pairs(s, f.take(1)) =~= text_pairs("genre"@, r.genre));
    assert(f.take(4) =~= f);
}

/// A [`GetStarred`] is written as the pairs of its set fields, in the order
/// they are declared, each under the camelCase name of its struct field:
/// `musicFolderId`.
pub proof fn lemma_get_starred_pairs(r: &GetStarred)
    ensures
        fields_pairs(GetStarred::spec_schema(), r.spec_fields()) == opt_text_pairs("musicFolderId"@, r.music_folder_id),
{
    let s = GetStarred::spec_schema();
    let f = r.spec_fields();
    assert(fields_pairs(s, f.take(0)) =~= Seq::<PairView>::empty());
    assert(fields_pairs(s, f.take(1)) == fields_pairs(s, f.take(0)) + opt_text_pairs("musicFolderId"@, r.music_folder_id)) by {
        lemma_fields_pairs_take(s, f, 0);
    }
    assert(fields_pairs(s, f.take(1)) =~= opt_text_pairs("musicFolderId"@, r.music_folder_id));
    assert(f.take(1) =~= f);
}

/// A [`GetStarred2`] is written as the pairs of its set fields, in the order
/// they are declared, each under the camelCase name of its struct field:
/// `musicFolderId`.
pub proof fn lemma_get_starred2_pairs(r: &GetStarred2)
    ensures
        fields_pairs(GetStarred2::spec_schema(), r.spec_fields()) == opt_text_pairs("musicFolderId"@, r.music_folder_id),
{
    let s = GetStarred2::spec_schema();
    let f = r.spec_fields();
    assert(fields_pairs(s, f.take(0)) =~= Seq::<PairView>::empty());
    assert(fields_pairs(s, f.take(1)) == fields_pairs(s, f.take(0)) + opt_text_pairs("musicFolderId"@, r.music_folder_id)) by {
        lemma_fields_pairs_take(s, f, 0);
    }
    assert(fields_pairs(s, f.take(1)) =~= opt_text_pairs("musicFolderId"@, r.music_folder_id));
    assert(f.take(1) =~= f);
}

} // verus!
