//! Values of a response as they are encoded: the error of encoding or decoding
//! one, and the constraint under which a field is written at all.
use vstd::prelude::*;

use crate::common::{version_at_least, Format, Version};
use crate::text::{push_text, string_of, to_owned_string};

verus! {

/// An error in encoding or decoding a value: its message.
#[derive(Debug, Clone, PartialEq, Eq)]
pub struct Error(String);

impl View for Error {
    type V = Seq<char>;

    closed spec fn view(&self) -> Seq<char> {
        self.0@
    }
}

impl Error {
    /// An error whose message is the text of another error.
    pub fn new(err: &str) -> (res: Self)
        ensures
            res@ == err@,
    {
        Error(to_owned_string(err))
    }

    /// An error with a message.
    pub fn custom(msg: &str) -> (res: Self)
        ensures
            res@ == msg@,
    {
        Error(to_owned_string(msg))
    }

    /// The error of a value given for a key: `invalid value for KEY: MESSAGE`.
    pub fn invalid_value(key: &str, msg: &str) -> (res: Self)
        ensures
            res@ == "invalid value for "@ + key@ + ": "@ + msg@,
    {
        let mut out: Vec<char> = Vec::new();
        push_text(&mut out, "invalid value for ");
        push_text(&mut out, key);
        push_text(&mut out, ": ");
        push_text(&mut out, msg);
        Error(string_of(out.as_slice()))
    }

    /// The message, as `Display` writes it.
    pub fn to_string(&self) -> (res: String)
        ensures
            res@ == self@,
    {
        self.0.clone()
    }
}

/// When a field is written: only in one format, and only from some version of
/// the API on; unset parts do not restrict.
#[derive(Debug, Clone, Copy, PartialEq, Eq, Default, Structural)]
pub struct Constraint {
    version: Option<Version>,
    format: Option<Format>,
}

/// A field under the constraint is written in this format and version: the
/// format is the one required, if any, and the version is the one required or
/// a later one, if any is required.
pub open spec fn constraint_allows(c: Constraint, format: Format, version: Version) -> bool {
    &&& (c.spec_format() matches Some(f) ==> f == format)
    &&& (c.spec_version() matches Some(v) ==> version_at_least(version, v))
}

impl Constraint {
    /// The version required, if any.
    pub closed spec fn spec_version(&self) -> Option<Version> {
        self.version
    }

    /// The format required, if any.
    pub closed spec fn spec_format(&self) -> Option<Format> {
        self.format
    }

    /// No restriction.
    pub fn new() -> (res: Self)
        ensures
            res.spec_version() is None,
            res.spec_format() is None,
    {
        Constraint { version: None, format: None }
    }

    /// The constraint, with the field written only from `version` on.
    pub fn with_version(self, version: Version) -> (res: Self)
        ensures
            res.spec_version() == Some(version),
            res.spec_format() == self.spec_format(),
    {
        Constraint { version: Some(version), ..self }
    }

    /// The constraint, with the field written only in `format`.
    pub fn with_format(self, format: Format) -> (res: Self)
        ensures
            res.spec_format() == Some(format),
            res.spec_version() == self.spec_version(),
    {
        Constraint { format: Some(format), ..self }
    }

    /// Whether a field under the constraint is written in this format and
    /// version.
    pub fn allow(&self, format: Format, version: Version) -> (res: bool)
        ensures
            res == constraint_allows(*self, format, version),
    {
        match self.format {
            Some(f) => {
                if f != format {
                    return false;
                }
            },
            None => {},
        }
        match self.version {
            Some(v) => {
                if !version.at_least(&v) {
                    return false;
                }
            },
            None => {},
        }
        true
    }
}

/// A constraint that lets a field through in a version lets it through in
/// every later version too.
pub proof fn lemma_constraint_monotone(c: Constraint, format: Format, a: Version, b: Version)
    requires
        constraint_allows(c, format, a),
        version_at_least(b, a),
    ensures
        constraint_allows(c, format, b),
{
    match c.spec_version() {
        Some(v) => {
            crate::common::lemma_version_order(b, a, v);
        },
        None => {},
    }
}

/// Under a constraint with a required version and no other format required, a
/// version is let through exactly when it is not earlier than the required one
/// in the order of major number, then minor number, then patch.
pub proof fn lemma_constraint_version_order(c: Constraint, format: Format, w: Version)
    requires
        c.spec_format() is None || c.spec_format() == Some(format),
    ensures
        c.spec_version() matches Some(v) ==> (constraint_allows(c, format, w) <==> (w.major > v.major || (
        w.major == v.major && (w.minor > v.minor || (w.minor == v.minor && w.patch >= v.patch))))),
{
}

} // verus!
