//! Helpers of (de)serialization: its error, a value that is serialized only
//! when present, and how XML text is read as a string, a boolean or an
//! integer.
use vstd::prelude::*;

use crate::text::{i64_parse_error_text, parse_i64, parses_i64, signed_literal_value, str_eq, to_owned_string};

verus! {

/// An error of (de)serialization: its message.
#[derive(Debug, Clone, PartialEq, Eq)]
pub struct Error(String);

impl View for Error {
    type V = Seq<char>;

    closed spec fn view(&self) -> Seq<char> {
        self.0@
    }
}

impl Error {
    /// An error whose message is the text of another error.
    pub fn new(err: &str) -> (res: Self)
        ensures
            res@ == err@,
    {
        Error(to_owned_string(err))
    }

    /// The message, as `Display` writes it.
    pub fn to_string(&self) -> (res: String)
        ensures
            res@ == self@,
    {
        self.0.clone()
    }
}

/// The error of a value that does not hold in the version it is read for.
#[derive(Debug, Clone, Copy, PartialEq, Eq, Structural)]
pub struct ValidationError;

/// A value that is serialized only when present.
#[derive(Debug, Clone, PartialEq, Eq)]
pub struct MaybeSerialize<T>(Option<T>);

impl<T> View for MaybeSerialize<T> {
    type V = Option<T>;

    closed spec fn view(&self) -> Option<T> {
        self.0
    }
}

impl<T> MaybeSerialize<T> {
    /// A value to serialize.
    pub fn serialize(value: T) -> (res: Self)
        ensures
            res@ == Some(value),
    {
        MaybeSerialize(Some(value))
    }

    /// Nothing to serialize.
    pub fn none() -> (res: Self)
        ensures
            res@ is None,
    {
        MaybeSerialize(None)
    }

    /// Whether there is nothing to serialize.
    pub fn is_none(&self) -> (res: bool)
        ensures
            res == (self@ is None),
    {
        self.0.is_none()
    }
}

/// Whether an optional field is absent (and so not serialized).
pub fn is_none<U>(v: &Option<U>) -> (res: bool)
    ensures
        res == (*v is None),
{
    v.is_none()
}

/// The error of the serialization of a whole response: its message.
#[derive(Debug, Clone, PartialEq, Eq)]
pub struct SerdeError(String);

impl View for SerdeError {
    type V = Seq<char>;

    closed spec fn view(&self) -> Seq<char> {
        self.0@
    }
}

impl SerdeError {
    pub fn new(err: &str) -> (res: Self)
        ensures
            res@ == err@,
    {
        SerdeError(to_owned_string(err))
    }

    pub fn to_string(&self) -> (res: String)
        ensures
            res@ == self@,
    {
        self.0.clone()
    }
}

/// The message of a map that is not a single `$text` or `$value` entry.
pub open spec fn text_map_error() -> Seq<char> {
    "expected a map with a single key \"$text\" or \"$value\""@
}

/// The text of an XML element read as a map: its first entry, which must be
/// under `$text` or `$value`.
pub open spec fn xml_text_of(entry: Option<(Seq<char>, Seq<char>)>) -> Result<Seq<char>, Seq<char>> {
    match entry {
        Some((k, v)) => if k == "$text"@ || k == "$value"@ {
            Ok(v)
        } else {
            Err(text_map_error())
        },
        None => Err(text_map_error()),
    }
}

/// The message of a text that is not a boolean.
pub open spec fn bool_text_error() -> Seq<char> {
    "expected \"true\" or \"false\" or \"1\" or \"0\""@
}

/// A boolean written as text: `true` or `1`, `false` or `0`.
pub open spec fn xml_bool_of(s: Seq<char>) -> Result<bool, Seq<char>> {
    if s == "true"@ || s == "1"@ {
        Ok(true)
    } else if s == "false"@ || s == "0"@ {
        Ok(false)
    } else {
        Err(bool_text_error())
    }
}

/// An integer written as text, as `i64::from_str` reads it.
pub open spec fn xml_integer_of(s: Seq<char>) -> Result<i64, Seq<char>> {
    if parses_i64(s) {
        Ok(signed_literal_value(s) as i64)
    } else {
        Err(i64_parse_error_text(s))
    }
}

pub open spec fn entry_view(entry: Option<(String, String)>) -> Option<(Seq<char>, Seq<char>)> {
    match entry {
        Some((k, v)) => Some((k@, v@)),
        None => None,
    }
}

/// Reads a string from XML: a plain text, or an element whose text is under
/// `$text` or `$value`.
pub struct StringVisitor;

impl StringVisitor {
    pub fn visit_str(self, v: &str) -> (res: Result<String, String>)
        ensures
            res matches Ok(s) && s@ == v@,
    {
        Ok(to_owned_string(v))
    }

    /// Reads the text of an element from the first entry of its map.
    pub fn visit_map(self, entry: Option<(String, String)>) -> (res: Result<String, String>)
        ensures
            match res {
                Ok(s) => xml_text_of(entry_view(entry)) == Ok::<Seq<char>, Seq<char>>(s@),
                Err(e) => xml_text_of(entry_view(entry)) == Err::<Seq<char>, Seq<char>>(e@),
            },
    {
        match entry {
            Some((key, value)) => {
                if str_eq(key.as_str(), "$text") || str_eq(key.as_str(), "$value") {
                    Ok(value)
                } else {
                    Err(to_owned_string("expected a map with a single key \"$text\" or \"$value\""))
                }
            },
            None => Err(to_owned_string("expected a map with a single key \"$text\" or \"$value\"")),
        }
    }
}

/// Reads a boolean from XML: a boolean, or a text `true`, `false`, `1` or `0`,
/// plain or as the text of an element.
pub struct BoolVisitor;

impl BoolVisitor {
    pub fn visit_bool(self, v: bool) -> (res: Result<bool, String>)
        ensures
            res == Ok::<bool, String>(v),
    {
        Ok(v)
    }

    pub fn visit_str(self, v: &str) -> (res: Result<bool, String>)
        ensures
            match res {
                Ok(b) => xml_bool_of(v@) == Ok::<bool, Seq<char>>(b),
                Err(e) => xml_bool_of(v@) == Err::<bool, Seq<char>>(e@),
            },
    {
        if str_eq(v, "true") || str_eq(v, "1") {
            Ok(true)
        } else if str_eq(v, "false") || str_eq(v, "0") {
            Ok(false)
        } else {
            Err(to_owned_string("expected \"true\" or \"false\" or \"1\" or \"0\""))
        }
    }

    /// Reads the boolean that is the text of an element.
    pub fn visit_map(self, entry: Option<(String, String)>) -> (res: Result<bool, String>)
        ensures
            match xml_text_of(entry_view(entry)) {
                Ok(t) => match res {
                    Ok(b) => xml_bool_of(t) == Ok::<bool, Seq<char>>(b),
                    Err(e) => xml_bool_of(t) == Err::<bool, Seq<char>>(e@),
                },
                Err(m) => res matches Err(e) && e@ == m,
            },
    {
        match StringVisitor.visit_map(entry) {
            Ok(v) => self.visit_str(v.as_str()),
            Err(e) => Err(e),
        }
    }
}

/// Reads an integer from XML: an integer, or a text holding one, plain or as
/// the text of an element.
pub struct IntegerVisitor;

impl IntegerVisitor {
    pub fn visit_i64(self, v: i64) -> (res: Result<i64, String>)
        ensures
            res == Ok::<i64, String>(v),
    {
        Ok(v)
    }

    pub fn visit_str(self, v: &str) -> (res: Result<i64, String>)
        ensures
            match res {
                Ok(n) => xml_integer_of(v@) == Ok::<i64, Seq<char>>(n),
                Err(e) => xml_integer_of(v@) == Err::<i64, Seq<char>>(e@),
            },
    {
        parse_i64(v)
    }

    /// Reads the integer that is the text of an element.
    pub fn visit_map(self, entry: Option<(String, String)>) -> (res: Result<i64, String>)
        ensures
            match xml_text_of(entry_view(entry)) {
                Ok(t) => match res {
                    Ok(n) => xml_integer_of(t) == Ok::<i64, Seq<char>>(n),
                    Err(e) => xml_integer_of(t) == Err::<i64, Seq<char>>(e@),
                },
                Err(m) => res matches Err(e) && e@ == m,
            },
    {
        match StringVisitor.visit_map(entry) {
            Ok(v) => self.visit_str(v.as_str()),
            Err(e) => Err(e),
        }
    }
}

} // verus!
