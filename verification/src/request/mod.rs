//! Requests of the Subsonic API.
//!
//! Every request type is described by a schema (see [`crate::codec`]): the
//! keys its fields are written under and their shapes. Its fields, read in
//! schema order, are its model. A request is written as a query string and
//! read back from one through that schema.
use vstd::prelude::*;

pub mod annotation;
pub mod bookmark;
pub mod browsing;
pub mod chat;
pub mod jukebox;
pub mod lists;
pub mod playlists;
pub mod podcast;
pub mod query;
pub mod radio;
pub mod retrieval;
pub mod scan;
pub mod search;
pub mod sharing;
pub mod system;
pub mod user;
pub mod values;

use crate::codec::{
    fields_from, fields_from_pairs, fields_pairs, fields_to_pairs, fields_view,
    lemma_fields_pairs_concat, lemma_fields_pairs_take, schema_view, FieldKind, FieldSpec,
    FieldSpecView, FieldValue, FieldValueView, ScalarKind,
};
use crate::common::Version;
use crate::query::{
    built_query, parse_query, query_pairs, to_query_string, PairView, QueryErrorView,
    QueryParseError,
};
use crate::request::values::{
    auth_field, auth_from, auth_pairs, auth_value, opt_text_field, opt_text_from, opt_text_pairs,
    opt_text_value, text_field, text_from, text_pairs, text_value, version_field, version_from,
    version_pairs, version_value,
};
use crate::roundtrip::{
    fields_are_query_safe, fields_fit, is_body_schema, lemma_fields_from_fit, lemma_fields_roundtrip, is_credential_key, is_plain, is_plain_char, lemma_plain_safe,
    schema_is_valid, value_fits,
};

verus! {

/// The model of the credentials of a request.
pub enum AuthView {
    Password(Seq<char>),
    Token(Seq<char>, Seq<char>),
}

/// The credentials of a request: a password (`p`), or a token and its salt
/// (`t` and `s`).
#[derive(Debug, Clone, PartialEq, Eq)]
pub enum Authentication {
    Password(String),
    Token { token: String, salt: String },
}

impl View for Authentication {
    type V = AuthView;

    open spec fn view(&self) -> AuthView {
        match self {
            Authentication::Password(p) => AuthView::Password(p@),
            Authentication::Token { token, salt } => AuthView::Token(token@, salt@),
        }
    }
}

/// A request of the Subsonic API: its endpoint, the version that brought it,
/// and its fields as described by its schema.
pub trait SubsonicRequest: Sized {
    /// The schema of the request.
    spec fn spec_schema() -> Seq<FieldSpecView>;

    /// The fields of a request, in schema order.
    spec fn spec_fields(&self) -> Seq<FieldValueView>;

    /// Whether the schema is one a query string can carry.
    spec fn spec_schema_ok() -> bool;

    /// Whether the request is a body: a request that goes inside a [`Request`].
    spec fn spec_is_body() -> bool;

    /// The path of the endpoint, such as `/rest/ping`.
    spec fn spec_path() -> Seq<char>;

    /// The first version of the API that has the request.
    spec fn spec_since() -> Version;

    /// The path of the endpoint.
    fn path() -> (res: &'static str)
        ensures
            res@ == Self::spec_path(),
    ;

    /// The first version of the API that has the request.
    fn since() -> (res: Version)
        ensures
            res == Self::spec_since(),
    ;

    /// The schema, as field specifications.
    fn schema() -> (res: Vec<FieldSpec>)
        ensures
            schema_view(res@) == Self::spec_schema(),
    ;

    /// The fields of the request, in schema order.
    fn fields(&self) -> (res: Vec<FieldValue>)
        ensures
            fields_view(res@) == self.spec_fields(),
    ;

    /// The request with the given fields, one per field of the schema, each of
    /// its field's shape.
    fn from_fields(fields: Vec<FieldValue>) -> (res: Self)
        requires
            fields_fit(Self::spec_schema(), fields_view(fields@)),
        ensures
            res.spec_fields() == fields_view(fields@),
    ;

    /// The fields of a request fit the schema.
    proof fn lemma_fields_fit(r: &Self)
        ensures
            fields_fit(Self::spec_schema(), r.spec_fields()),
    ;

    /// A schema that is said to be carried by a query is valid, and the schema
    /// of a body is one.
    proof fn lemma_schema_valid()
        ensures
            Self::spec_schema_ok() ==> schema_is_valid(Self::spec_schema()),
            Self::spec_is_body() ==> is_body_schema(Self::spec_schema()),
    ;

    /// The request as a query string: the pairs of its fields in schema order.
    fn to_query(&self) -> (res: String)
        ensures
            res@ == built_query(fields_pairs(Self::spec_schema(), self.spec_fields())),
    {
        let schema = Self::schema();
        let fields = self.fields();
        proof {
            Self::lemma_fields_fit(self);
        }
        let pairs = fields_to_pairs(&schema, &fields);
        to_query_string(&pairs)
    }

    /// Reads a request from a query string.
    fn from_query(query: &str) -> (res: Result<Self, QueryParseError>)
        ensures
            match res {
                Ok(r) => fields_from(Self::spec_schema(), query_pairs(query@)) == Ok::<
                    Seq<FieldValueView>,
                    QueryErrorView,
                >(r.spec_fields()),
                Err(e) => fields_from(Self::spec_schema(), query_pairs(query@)) == Err::<
                    Seq<FieldValueView>,
                    QueryErrorView,
                >(e@),
            },
    {
        let schema = Self::schema();
        let pairs = parse_query(query);
        match fields_from_pairs(&schema, &pairs) {
            Ok(vs) => {
                proof {
                    lemma_fields_from_fit(Self::spec_schema(), query_pairs(query@));
                }
                Ok(Self::from_fields(vs))
            },
            Err(e) => Err(e),
        }
    }
}

/// A full request: who asks (`u` and the credentials), in which version of
/// the API (`v`), from which client (`c`), for which format of answer (`f`),
/// and the body of the request.
#[derive(Debug, Clone, PartialEq)]
pub struct Request<R: SubsonicRequest> {
    pub username: String,
    pub authentication: Authentication,
    pub version: Version,
    pub client: String,
    pub format: Option<String>,
    pub body: R,
}

/// The fields a request puts before those of its body.
pub open spec fn envelope_schema() -> Seq<FieldSpecView> {
    seq![
        ("u"@, FieldKind::Required(ScalarKind::Text)),
        ("p/t/s"@, FieldKind::Auth),
        ("v"@, FieldKind::Required(ScalarKind::Version)),
        ("c"@, FieldKind::Required(ScalarKind::Text)),
        ("f"@, FieldKind::Optional(ScalarKind::Text)),
    ]
}

proof fn lemma_envelope_schema_valid(body: Seq<FieldSpecView>)
    requires
        is_body_schema(body),
    ensures
        schema_is_valid(envelope_schema() + body),
{
    let e = envelope_schema();
    let s = e + body;
    reveal_strlit("u");
    reveal_strlit("v");
    reveal_strlit("c");
    reveal_strlit("f");
    reveal_strlit("p");
    reveal_strlit("t");
    reveal_strlit("s");
    assert(is_plain_char('u') && is_plain_char('v') && is_plain_char('c') && is_plain_char('f'));
    assert(is_plain("u"@));
    assert(is_plain("v"@));
    assert(is_plain("c"@));
    assert(is_plain("f"@));
    lemma_plain_safe("u"@);
    lemma_plain_safe("v"@);
    lemma_plain_safe("c"@);
    lemma_plain_safe("f"@);
    assert forall|i: int| 0 <= i < s.len() && !(#[trigger] s[i].1 is Auth) implies crate::query::key_is_query_safe(
        s[i].0,
    ) && s[i].0.len() > 0 && !is_credential_key(s[i].0) by {
        if i >= 5 {
            assert(s[i] == body[i - 5]);
        }
    }
    assert forall|i: int, j: int|
        0 <= i < s.len() && 0 <= j < s.len() && i != j && !(#[trigger] s[i].1 is Auth) && !(
        #[trigger] s[j].1 is Auth) implies s[i].0 != s[j].0 by {
        if i >= 5 {
            assert(s[i] == body[i - 5]);
        }
        if j >= 5 {
            assert(s[j] == body[j - 5]);
        }
    }
    assert forall|i: int, j: int| 0 <= i < s.len() && 0 <= j < s.len() && i != j implies !(
    #[trigger] s[i].1 is Auth && #[trigger] s[j].1 is Auth) by {
        if i >= 5 {
            assert(s[i] == body[i - 5]);
        }
        if j >= 5 {
            assert(s[j] == body[j - 5]);
        }
    }
}

impl<R: SubsonicRequest> SubsonicRequest for Request<R> {
    open spec fn spec_schema() -> Seq<FieldSpecView> {
        envelope_schema() + R::spec_schema()
    }

    open spec fn spec_fields(&self) -> Seq<FieldValueView> {
        seq![
            text_value(self.username),
            auth_value(self.authentication),
            version_value(self.version),
            text_value(self.client),
            opt_text_value(self.format),
        ] + self.body.spec_fields()
    }

    open spec fn spec_schema_ok() -> bool {
        R::spec_is_body()
    }

    open spec fn spec_is_body() -> bool {
        false
    }

    open spec fn spec_path() -> Seq<char> {
        R::spec_path()
    }

    open spec fn spec_since() -> Version {
        R::spec_since()
    }

    fn path() -> (res: &'static str) {
        R::path()
    }

    fn since() -> (res: Version) {
        R::since()
    }

    fn schema() -> (res: Vec<FieldSpec>) {
        let mut out: Vec<FieldSpec> = Vec::new();
        out.push(FieldSpec { key: "u", kind: FieldKind::Required(ScalarKind::Text) });
        out.push(FieldSpec { key: "p/t/s", kind: FieldKind::Auth });
        out.push(FieldSpec { key: "v", kind: FieldKind::Required(ScalarKind::Version) });
        out.push(FieldSpec { key: "c", kind: FieldKind::Required(ScalarKind::Text) });
        out.push(FieldSpec { key: "f", kind: FieldKind::Optional(ScalarKind::Text) });
        let ghost head = out@;
        let mut body = R::schema();
        out.append(&mut body);
        proof {
            assert(schema_view(head) =~= envelope_schema());
            assert(schema_view(out@) =~= schema_view(head) + R::spec_schema());
        }
        out
    }

    fn fields(&self) -> (res: Vec<FieldValue>) {
        let mut out: Vec<FieldValue> = Vec::new();
        out.push(text_field(&self.username));
        out.push(auth_field(&self.authentication));
        out.push(version_field(&self.version));
        out.push(text_field(&self.client));
        out.push(opt_text_field(&self.format));
        let ghost head = out@;
        let mut body = self.body.fields();
        out.append(&mut body);
        proof {
            assert(fields_view(out@) =~= fields_view(head) + self.body.spec_fields());
        }
        out
    }

    fn from_fields(fields: Vec<FieldValue>) -> (res: Self) {
        let ghost all = fields_view(fields@);
        let ghost schema = Self::spec_schema();
        let mut fields = fields;
        proof {
            assert(fields@.len() >= 5);
            assert forall|i: int| 0 <= i < 5 implies #[trigger] value_fits(schema[i].1, all[i]) by {}
        }
        let rest = fields.split_off(5);
        proof {
            assert(fields_view(rest@) =~= all.skip(5));
            assert(R::spec_schema() =~= schema.skip(5));
            assert forall|i: int| 0 <= i < fields_view(rest@).len() implies #[trigger] value_fits(
                R::spec_schema()[i].1,
                fields_view(rest@)[i],
            ) by {
                assert(value_fits(schema[i + 5].1, all[i + 5]));
            }
        }
        let body = R::from_fields(rest);
        let f = fields.pop().unwrap();
        let c = fields.pop().unwrap();
        let v = fields.pop().unwrap();
        let a = fields.pop().unwrap();
        let u = fields.pop().unwrap();
        proof {
            assert(u@ == all[0]);
            assert(a@ == all[1]);
            assert(v@ == all[2]);
            assert(c@ == all[3]);
            assert(f@ == all[4]);
            assert(value_fits(schema[0].1, all[0]));
            assert(value_fits(schema[1].1, all[1]));
            assert(value_fits(schema[2].1, all[2]));
            assert(value_fits(schema[3].1, all[3]));
            assert(value_fits(schema[4].1, all[4]));
        }
        let r = Request {
            username: text_from(u),
            authentication: auth_from(a),
            version: version_from(v),
            client: text_from(c),
            format: opt_text_from(f),
            body,
        };
        proof {
            assert(r.spec_fields() =~= all);
        }
        r
    }

    proof fn lemma_fields_fit(r: &Self) {
        R::lemma_fields_fit(&r.body);
        let s = Self::spec_schema();
        let vs = r.spec_fields();
        assert forall|i: int| 0 <= i < vs.len() implies #[trigger] value_fits(s[i].1, vs[i]) by {
            if i >= 5 {
                assert(vs[i] == r.body.spec_fields()[i - 5]);
                assert(s[i] == R::spec_schema()[i - 5]);
            }
        }
    }

    proof fn lemma_schema_valid() {
        R::lemma_schema_valid();
        if R::spec_is_body() {
            lemma_envelope_schema_valid(R::spec_schema());
        }
    }
}


/// Writing a request as a query string and reading it back gives a request
/// with the same fields: for a request type whose schema a query can carry,
/// and fields that a query carries faithfully (texts with no `&` and no `%`
/// followed by two hex digits, no flag set to `false`, audio bitrates in their
/// canonical variant).
pub proof fn lemma_request_roundtrip<R: SubsonicRequest>(r: &R)
    requires
        R::spec_schema_ok(),
        fields_are_query_safe(r.spec_fields()),
    ensures
        fields_from(R::spec_schema(), query_pairs(built_query(fields_pairs(R::spec_schema(), r.spec_fields()))))
            == Ok::<Seq<FieldValueView>, QueryErrorView>(r.spec_fields()),
{
    R::lemma_schema_valid();
    R::lemma_fields_fit(r);
    lemma_fields_roundtrip(R::spec_schema(), r.spec_fields());
}

/// A full request is written as the user name under `u`, the credentials
/// (`p`, or `t` and `s`), the version of the API under `v`, the client under
/// `c` and the format under `f` when there is one, then the pairs of its body.
pub proof fn lemma_request_pairs<R: SubsonicRequest>(r: &Request<R>)
    ensures
        fields_pairs(Request::<R>::spec_schema(), r.spec_fields()) == text_pairs("u"@, r.username)
            + auth_pairs(r.authentication) + version_pairs("v"@, r.version) + text_pairs(
            "c"@,
            r.client,
        ) + opt_text_pairs("f"@, r.format) + fields_pairs(R::spec_schema(), r.body.spec_fields()),
{
    let e = envelope_schema();
    let ev = seq![
        text_value(r.username),
        auth_value(r.authentication),
        version_value(r.version),
        text_value(r.client),
        opt_text_value(r.format),
    ];
    R::lemma_fields_fit(&r.body);
    lemma_fields_pairs_concat(e, R::spec_schema(), ev, r.body.spec_fields());
    assert(fields_pairs(e, ev.take(0)) =~= Seq::<PairView>::empty());
    lemma_fields_pairs_take(e, ev, 0);
    assert(fields_pairs(e, ev.take(1)) =~= text_pairs("u"@, r.username));
    assert(fields_pairs(e, ev.take(2)) =~= text_pairs("u"@, r.username) + auth_pairs(r.authentication)) by {
        lemma_fields_pairs_take(e, ev, 1);
    }
    lemma_fields_pairs_take(e, ev, 2);
    lemma_fields_pairs_take(e, ev, 3);
    lemma_fields_pairs_take(e, ev, 4);
    assert(ev.take(5) =~= ev);
}

} // verus!
