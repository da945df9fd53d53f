//! The attributes of the fields of a request: the key a field is written
//! under, and whether its own fields are written in its place.
use vstd::prelude::*;

use crate::attrs::{metas_view, opt_string_view, Meta, MetaView};
use crate::text::{str_eq, to_owned_string};

verus! {

/// How a request type is written; it takes no attributes.
#[derive(Debug, Clone, Copy, PartialEq, Eq, Structural)]
pub struct ContainerAttr;

impl ContainerAttr {
    pub fn from_attrs(attrs: &Vec<Meta>) -> (res: Result<Self, String>)
        ensures
            res is Ok,
    {
        Ok(ContainerAttr)
    }
}

/// How a field of a request is written.
#[derive(Debug, Clone, PartialEq, Eq)]
pub struct FieldAttr {
    /// The key to use for the field in the query.
    pub rename: Option<String>,
    /// Whether the fields of the field are written in its place.
    pub flatten: bool,
}

pub struct QueryFieldAttrView {
    pub rename: Option<Seq<char>>,
    pub flatten: bool,
}

impl View for FieldAttr {
    type V = QueryFieldAttrView;

    open spec fn view(&self) -> QueryFieldAttrView {
        QueryFieldAttrView { rename: opt_string_view(self.rename), flatten: self.flatten }
    }
}

/// The attributes of a field, read in order: `rename = "..."` gives the key,
/// `flatten` sets the flag; any other entry is an error.
pub open spec fn query_field_attr_of(ms: Seq<MetaView>) -> Result<QueryFieldAttrView, Seq<char>>
    decreases ms.len(),
{
    if ms.len() == 0 {
        Ok(QueryFieldAttrView { rename: None, flatten: false })
    } else {
        match query_field_attr_of(ms.drop_last()) {
            Ok(a) => match ms.last() {
                MetaView::NameValue(p, lit) => if p == "rename"@ {
                    match lit {
                        Some(s) => Ok(QueryFieldAttrView { rename: Some(s), ..a }),
                        None => Ok(a),
                    }
                } else {
                    Err("Invalid subsonic attribute"@)
                },
                MetaView::Path(p) => if p == "flatten"@ {
                    Ok(QueryFieldAttrView { flatten: true, ..a })
                } else {
                    Err("Invalid subsonic attribute"@)
                },
                MetaView::List(_) => Err("Invalid subsonic attribute"@),
            },
            Err(e) => Err(e),
        }
    }
}

proof fn lemma_query_field_attr_err(ms: Seq<MetaView>, k: int)
    requires
        0 <= k <= ms.len(),
        query_field_attr_of(ms.take(k)) is Err,
    ensures
        query_field_attr_of(ms) == query_field_attr_of(ms.take(k)),
    decreases ms.len() - k,
{
    if k < ms.len() {
        assert(ms.take(k + 1).drop_last() =~= ms.take(k));
        lemma_query_field_attr_err(ms, k + 1);
    } else {
        assert(ms.take(k) =~= ms);
    }
}

impl FieldAttr {
    /// Reads the attributes of a field from its attribute list.
    pub fn from_attrs(attrs: &Vec<Meta>) -> (res: Result<Self, String>)
        ensures
            match res {
                Ok(a) => query_field_attr_of(metas_view(attrs@)) == Ok::<QueryFieldAttrView, Seq<char>>(a@),
                Err(e) => query_field_attr_of(metas_view(attrs@)) == Err::<QueryFieldAttrView, Seq<char>>(e@),
            },
    {
        let ghost ms = metas_view(attrs@);
        let mut a = FieldAttr { rename: None, flatten: false };
        let mut i: usize = 0;
        while i < attrs.len()
            invariant
                0 <= i <= attrs@.len(),
                ms == metas_view(attrs@),
                query_field_attr_of(ms.take(i as int)) == Ok::<QueryFieldAttrView, Seq<char>>(a@),
            decreases attrs@.len() - i,
        {
            proof {
                assert(ms.take(i + 1).drop_last() =~= ms.take(i as int));
                assert(ms.take(i + 1).last() == attrs@[i as int]@);
            }
            let ok = match &attrs[i] {
                Meta::NameValue { path, lit } => {
                    if str_eq(path.as_str(), "rename") {
                        match lit {
                            Some(s) => {
                                a.rename = Some(s.clone());
                            },
                            None => {},
                        }
                        true
                    } else {
                        false
                    }
                },
                Meta::Path(p) => {
                    if str_eq(p.as_str(), "flatten") {
                        a.flatten = true;
                        true
                    } else {
                        false
                    }
                },
                Meta::List(_) => false,
            };
            if !ok {
                proof {
                    lemma_query_field_attr_err(ms, i + 1);
                }
                return Err(to_owned_string("Invalid subsonic attribute"));
            }
            i = i + 1;
        }
        proof {
            assert(ms.take(i as int) =~= ms);
        }
        Ok(a)
    }
}

} // verus!
