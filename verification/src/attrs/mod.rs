//! The attributes that describe how the fields of a type are named and
//! written: field names turned into camelCase keys, attribute names, the
//! versions that attributes give, and the reading of a field's or a type's
//! attribute list.
use vstd::prelude::*;

pub mod query;

use crate::text::{
    ascii_lower, ascii_upper, chars_of, parse_u8, parses_unsigned, split_chars, split_on, str_eq,
    string_of, to_ascii_lower, to_ascii_upper, to_owned_string, unsigned_literal_value,
};

verus! {

/// The name of an attribute, such as `rename` or `since`.
#[derive(Debug, Clone, Copy)]
pub struct AttrName(&'static str);

impl View for AttrName {
    type V = Seq<char>;

    closed spec fn view(&self) -> Seq<char> {
        self.0@
    }
}

impl AttrName {
    pub fn new(name: &'static str) -> (res: Self)
        ensures
            res@ == name@,
    {
        AttrName(name)
    }

    /// Whether a path made of a single identifier names this attribute.
    pub fn matches(&self, ident: &str) -> (res: bool)
        ensures
            res == (ident@ == self@),
    {
        str_eq(ident, self.0)
    }
}

/// The state of turning a name into camelCase: the text so far, whether the
/// next letter is to be capitalized (an `_` was seen), and whether a letter
/// was written yet.
pub open spec fn camel_step(st: (Seq<char>, bool, bool), c: char) -> (Seq<char>, bool, bool) {
    if c == '_' {
        (st.0, true, st.2)
    } else if st.1 && st.2 {
        (st.0.push(ascii_upper(c)), false, st.2)
    } else if !st.2 {
        (st.0.push(ascii_lower(c)), st.1, true)
    } else {
        (st.0.push(c), st.1, true)
    }
}

pub open spec fn camel_state(s: Seq<char>) -> (Seq<char>, bool, bool)
    decreases s.len(),
{
    if s.len() == 0 {
        (Seq::<char>::empty(), false, false)
    } else {
        camel_step(camel_state(s.drop_last()), s.last())
    }
}

/// The camelCase form of a snake_case name: every `_` is dropped and the
/// letter after it (once a letter was written) is made uppercase; the first
/// letter written is made lowercase.
pub open spec fn camel_case(s: Seq<char>) -> Seq<char> {
    camel_state(s).0
}

/// Turns a snake_case name into camelCase.
pub fn string_to_camel_case(string: &str) -> (res: String)
    ensures
        res@ == camel_case(string@),
{
    let cs = chars_of(string);
    let mut out: Vec<char> = Vec::new();
    let mut capitalize_next = false;
    let mut first_pushed = false;
    let mut i: usize = 0;
    while i < cs.len()
        invariant
            0 <= i <= cs@.len(),
            cs@ == string@,
            (out@, capitalize_next, first_pushed) == camel_state(cs@.take(i as int)),
        decreases cs@.len() - i,
    {
        let c = cs[i];
        proof {
            assert(cs@.take(i + 1).drop_last() =~= cs@.take(i as int));
            assert(cs@.take(i + 1).last() == c);
        }
        if c == '_' {
            capitalize_next = true;
        } else if capitalize_next && first_pushed {
            out.push(to_ascii_upper(c));
            capitalize_next = false;
        } else {
            if !first_pushed {
                out.push(to_ascii_lower(c));
            } else {
                out.push(c);
            }
            first_pushed = true;
        }
        i = i + 1;
    }
    proof {
        assert(cs@.take(cs@.len() as int) =~= cs@);
    }
    string_of(out.as_slice())
}

/// The camelCase form of a name holds no `_`.
pub proof fn lemma_camel_case_no_underscore(s: Seq<char>)
    ensures
        !camel_case(s).contains('_'),
    decreases s.len(),
{
    if s.len() > 0 {
        lemma_camel_case_no_underscore(s.drop_last());
        let prev = camel_state(s.drop_last()).0;
        let now = camel_state(s).0;
        assert forall|i: int| 0 <= i < now.len() implies now[i] != '_' by {
            if i < prev.len() {
                assert(now[i] == prev[i]);
                assert(!prev.contains('_'));
                if prev[i] == '_' {
                    assert(prev.contains(prev[i]));
                }
            }
        }
    }
}

/// The letters written so far have been written once a letter was seen.
proof fn lemma_camel_state_first(s: Seq<char>)
    ensures
        camel_state(s).2 <==> camel_state(s).0.len() > 0,
        !camel_state(s).2 ==> camel_state(s).0 == Seq::<char>::empty(),
    decreases s.len(),
{
    if s.len() > 0 {
        lemma_camel_state_first(s.drop_last());
    }
}

/// A name with no `_` whose first character is not an ASCII uppercase letter
/// is its own camelCase form.
pub proof fn lemma_camel_case_plain(s: Seq<char>)
    requires
        !s.contains('_'),
        s.len() > 0 ==> !('A' <= s[0] && s[0] <= 'Z'),
    ensures
        camel_case(s) == s,
    decreases s.len(),
{
    if s.len() > 0 {
        let init = s.drop_last();
        assert(!init.contains('_')) by {
            if init.contains('_') {
                let i = choose|i: int| 0 <= i < init.len() && init[i] == '_';
                assert(s[i] == '_');
            }
        }
        if init.len() > 0 {
            assert(init[0] == s[0]);
        }
        lemma_camel_case_plain(init);
        lemma_camel_state_no_capital(init);
        lemma_camel_state_first(init);
        assert(s.last() != '_') by {
            assert(s[s.len() - 1] == s.last());
        }
        if init.len() == 0 {
            assert(s.last() == s[0]);
        }
        assert(init.push(s.last()) =~= s);
    }
}

/// Without an `_` nothing is ever to be capitalized.
proof fn lemma_camel_state_no_capital(s: Seq<char>)
    requires
        !s.contains('_'),
    ensures
        !camel_state(s).1,
    decreases s.len(),
{
    if s.len() > 0 {
        assert(!s.drop_last().contains('_')) by {
            if s.drop_last().contains('_') {
                let i = choose|i: int| 0 <= i < s.drop_last().len() && s.drop_last()[i] == '_';
                assert(s[i] == '_');
            }
        }
        lemma_camel_state_no_capital(s.drop_last());
        assert(s[s.len() - 1] == s.last());
    }
}

/// The format of a serialized value.
#[derive(Debug, Clone, Copy, PartialEq, Eq, Hash, Structural)]
pub enum Format {
    Json,
    Xml,
}

/// A version given in an attribute, such as `since = "1.8.0"`.
#[derive(Debug, Clone, Copy, PartialEq, Eq, Structural)]
pub struct Version {
    pub major: u8,
    pub minor: u8,
    pub patch: u8,
}

/// A version is read from the first three `.`-separated parts, each a
/// decimal number that fits in a byte; further parts are not looked at.
pub open spec fn attr_version_parse(s: Seq<char>) -> Option<Version> {
    let p = split_on(s, '.');
    if p.len() >= 3 && parses_unsigned(p[0], u8::MAX as nat) && parses_unsigned(p[1], u8::MAX as nat)
        && parses_unsigned(p[2], u8::MAX as nat) {
        Some(
            Version {
                major: unsigned_literal_value(p[0]) as u8,
                minor: unsigned_literal_value(p[1]) as u8,
                patch: unsigned_literal_value(p[2]) as u8,
            },
        )
    } else {
        None
    }
}

impl Version {
    /// Reads a version such as `1.16.1`.
    pub fn parse(v: &str) -> (res: Option<Self>)
        ensures
            res == attr_version_parse(v@),
    {
        let cs = chars_of(v);
        let parts = split_chars(&cs, '.');
        if parts.len() < 3 {
            return None;
        }
        let major = match parse_u8(string_of(parts[0].as_slice()).as_str()) {
            Some(n) => n,
            None => return None,
        };
        let minor = match parse_u8(string_of(parts[1].as_slice()).as_str()) {
            Some(n) => n,
            None => return None,
        };
        let patch = match parse_u8(string_of(parts[2].as_slice()).as_str()) {
            Some(n) => n,
            None => return None,
        };
        Some(Version { major, minor, patch })
    }
}

/// One entry of an attribute list, with its path written as text: a bare path
/// (`flatten`), a path with a value (`rename = "type"`; the value is kept
/// when it is a string literal), or a nested list.
#[derive(Debug, Clone, PartialEq, Eq)]
pub enum Meta {
    Path(String),
    NameValue { path: String, lit: Option<String> },
    List(String),
}

pub enum MetaView {
    Path(Seq<char>),
    NameValue(Seq<char>, Option<Seq<char>>),
    List(Seq<char>),
}

pub open spec fn opt_string_view(o: Option<String>) -> Option<Seq<char>> {
    match o {
        Some(s) => Some(s@),
        None => None,
    }
}

impl View for Meta {
    type V = MetaView;

    open spec fn view(&self) -> MetaView {
        match self {
            Meta::Path(p) => MetaView::Path(p@),
            Meta::NameValue { path, lit } => MetaView::NameValue(path@, opt_string_view(*lit)),
            Meta::List(p) => MetaView::List(p@),
        }
    }
}

pub open spec fn metas_view(ms: Seq<Meta>) -> Seq<MetaView> {
    ms.map_values(|m: Meta| m@)
}

/// How a field of a response is written.
#[derive(Debug, Clone, PartialEq, Eq)]
pub struct FieldAttr {
    /// The name to use for the field in the serialized format.
    pub rename: Option<String>,
    /// Whether the field is an XML attribute.
    pub attribute: bool,
    /// Whether the fields of the field are written in its place.
    pub flatten: bool,
    /// Whether the field is the text of its XML element.
    pub value: bool,
    /// Whether the field is one of several alternatives.
    pub choice: bool,
    /// The version since which the field exists.
    pub since: Option<Version>,
}

pub struct FieldAttrView {
    pub rename: Option<Seq<char>>,
    pub attribute: bool,
    pub flatten: bool,
    pub value: bool,
    pub choice: bool,
    pub since: Option<Version>,
}

impl View for FieldAttr {
    type V = FieldAttrView;

    open spec fn view(&self) -> FieldAttrView {
        FieldAttrView {
            rename: opt_string_view(self.rename),
            attribute: self.attribute,
            flatten: self.flatten,
            value: self.value,
            choice: self.choice,
            since: self.since,
        }
    }
}

/// Reads one entry of a field's attribute list, or gives the message of the
/// error.
pub open spec fn field_attr_step(a: FieldAttrView, m: MetaView) -> Result<FieldAttrView, Seq<char>> {
    match m {
        MetaView::NameValue(p, lit) => if p == "rename"@ {
            match lit {
                Some(s) => Ok(FieldAttrView { rename: Some(s), ..a }),
                None => Ok(a),
            }
        } else if p == "since"@ {
            match lit {
                Some(s) => match attr_version_parse(s) {
                    Some(v) => Ok(FieldAttrView { since: Some(v), ..a }),
                    None => Err("Invalid version"@),
                },
                None => Ok(a),
            }
        } else {
            Err("Invalid subsonic attribute"@)
        },
        MetaView::Path(p) => if p == "attribute"@ {
            Ok(FieldAttrView { attribute: true, ..a })
        } else if p == "flatten"@ {
            Ok(FieldAttrView { flatten: true, ..a })
        } else if p == "value"@ {
            Ok(FieldAttrView { value: true, ..a })
        } else if p == "choice"@ {
            Ok(FieldAttrView { choice: true, ..a })
        } else {
            Err("Invalid subsonic attribute"@)
        },
        MetaView::List(_) => Err("Invalid subsonic attribute"@),
    }
}

pub open spec fn field_attr_fold(ms: Seq<MetaView>) -> Result<FieldAttrView, Seq<char>>
    decreases ms.len(),
{
    if ms.len() == 0 {
        Ok(
            FieldAttrView {
                rename: None,
                attribute: false,
                flatten: false,
                value: false,
                choice: false,
                since: None,
            },
        )
    } else {
        match field_attr_fold(ms.drop_last()) {
            Ok(a) => field_attr_step(a, ms.last()),
            Err(e) => Err(e),
        }
    }
}

/// The attributes of a field: its entries read in order (the first error ends
/// the reading); a choice field may not also be flattened, an attribute, a
/// value or renamed.
pub open spec fn field_attr_of(ms: Seq<MetaView>) -> Result<FieldAttrView, Seq<char>> {
    match field_attr_fold(ms) {
        Ok(a) => if a.choice && (a.flatten || a.attribute || a.value || a.rename is Some) {
            Err("Choice fields cannot have flatten, attribute, value or rename attributes"@)
        } else {
            Ok(a)
        },
        Err(e) => Err(e),
    }
}

proof fn lemma_field_attr_err(ms: Seq<MetaView>, k: int)
    requires
        0 <= k <= ms.len(),
        field_attr_fold(ms.take(k)) is Err,
    ensures
        field_attr_fold(ms) == field_attr_fold(ms.take(k)),
    decreases ms.len() - k,
{
    if k < ms.len() {
        assert(ms.take(k + 1).drop_last() =~= ms.take(k));
        lemma_field_attr_err(ms, k + 1);
    } else {
        assert(ms.take(k) =~= ms);
    }
}

impl FieldAttr {
    /// Reads the attributes of a field from its attribute list.
    pub fn from_attrs(attrs: &Vec<Meta>) -> (res: Result<Self, String>)
        ensures
            match res {
                Ok(a) => field_attr_of(metas_view(attrs@)) == Ok::<FieldAttrView, Seq<char>>(a@),
                Err(e) => field_attr_of(metas_view(attrs@)) == Err::<FieldAttrView, Seq<char>>(e@),
            },
    {
        let ghost ms = metas_view(attrs@);
        let mut a = FieldAttr {
            rename: None,
            attribute: false,
            flatten: false,
            value: false,
            choice: false,
            since: None,
        };
        let mut i: usize = 0;
        while i < attrs.len()
            invariant
                0 <= i <= attrs@.len(),
                ms == metas_view(attrs@),
                field_attr_fold(ms.take(i as int)) == Ok::<FieldAttrView, Seq<char>>(a@),
            decreases attrs@.len() - i,
        {
            proof {
                assert(ms.take(i + 1).drop_last() =~= ms.take(i as int));
                assert(ms.take(i + 1).last() == attrs@[i as int]@);
            }
            match &attrs[i] {
                Meta::NameValue { path, lit } => {
                    if str_eq(path.as_str(), "rename") {
                        match lit {
                            Some(s) => {
                                a.rename = Some(s.clone());
                            },
                            None => {},
                        }
                    } else if str_eq(path.as_str(), "since") {
                        match lit {
                            Some(s) => match Version::parse(s.as_str()) {
                                Some(v) => {
                                    a.since = Some(v);
                                },
                                None => {
                                    proof {
                                        lemma_field_attr_err(ms, i + 1);
                                    }
                                    return Err(to_owned_string("Invalid version"));
                                },
                            },
                            None => {},
                        }
                    } else {
                        proof {
                            lemma_field_attr_err(ms, i + 1);
                        }
                        return Err(to_owned_string("Invalid subsonic attribute"));
                    }
                },
                Meta::Path(p) => {
                    if str_eq(p.as_str(), "attribute") {
                        a.attribute = true;
                    } else if str_eq(p.as_str(), "flatten") {
                        a.flatten = true;
                    } else if str_eq(p.as_str(), "value") {
                        a.value = true;
                    } else if str_eq(p.as_str(), "choice") {
                        a.choice = true;
                    } else {
                        proof {
                            lemma_field_attr_err(ms, i + 1);
                        }
                        return Err(to_owned_string("Invalid subsonic attribute"));
                    }
                },
                Meta::List(_) => {
                    proof {
                        lemma_field_attr_err(ms, i + 1);
                    }
                    return Err(to_owned_string("Invalid subsonic attribute"));
                },
            }
            i = i + 1;
        }
        proof {
            assert(ms.take(i as int) =~= ms);
        }
        if a.choice && (a.flatten || a.attribute || a.value || a.rename.is_some()) {
            return Err(
                to_owned_string("Choice fields cannot have flatten, attribute, value or rename attributes"),
            );
        }
        Ok(a)
    }
}

/// How a response type is written: `serde` when it has its own `Serialize`
/// and `Deserialize`, which are to be used.
#[derive(Debug, Clone, Copy, PartialEq, Eq, Structural)]
pub struct ContainerAttr {
    pub serde: bool,
}

impl ContainerAttr {
    /// Reads the attributes of a type: `serde` sets the flag, other entries
    /// are passed over.
    pub fn from_attrs(attrs: &Vec<Meta>) -> (res: Self)
        ensures
            res.serde == exists|i: int| 0 <= i < attrs@.len() && #[trigger] attrs@[i]@ == MetaView::Path("serde"@),
    {
        let mut serde = false;
        let mut i: usize = 0;
        while i < attrs.len()
            invariant
                0 <= i <= attrs@.len(),
                serde == exists|j: int| 0 <= j < i && #[trigger] attrs@[j]@ == MetaView::Path("serde"@),
            decreases attrs@.len() - i,
        {
            match &attrs[i] {
                Meta::Path(p) => {
                    if str_eq(p.as_str(), "serde") {
                        serde = true;
                        assert(attrs@[i as int]@ == MetaView::Path("serde"@));
                    }
                },
                _ => {},
            }
            i = i + 1;
        }
        ContainerAttr { serde }
    }
}

} // verus!
