//! Query strings read as a map from each key to the values given for it.
//!
//! Every `&`-separated component is read, empty ones included; a component is
//! split at its last `=`. A key given with values collects them in order; a
//! key given bare stays bare. Mixing the two for one key is an error.
use vstd::prelude::*;

pub mod ser;

use crate::percent::{alnum_encode, decode_component, lemma_alnum_encode_decode, query_decode};
use crate::text::{
    chars_of, last_index_of, lemma_last_index_of, lemma_last_index_of_sep, rfind_char, slice_chars, split_chars, split_on,
    push_text, str_eq, string_of, to_owned_string,
};

pub use crate::query::{QueryPair, QueryParseError, QueryValueParseError};

verus! {

/// An error in reading a query string: its message.
#[derive(Debug, Clone, PartialEq, Eq)]
pub struct QueryError {
    message: String,
}

impl View for QueryError {
    type V = Seq<char>;

    closed spec fn view(&self) -> Seq<char> {
        self.message@
    }
}

impl QueryError {
    pub fn new(message: &str) -> (res: Self)
        ensures
            res@ == message@,
    {
        QueryError { message: to_owned_string(message) }
    }

    /// The message, as `Display` writes it.
    pub fn to_string(&self) -> (res: String)
        ensures
            res@ == self@,
    {
        self.message.clone()
    }
}

/// The values given for one key: none (the key came bare), one, or several
/// in the order they came.
#[derive(Debug, Clone, PartialEq, Eq)]
pub enum QueryMapValue {
    Missing,
    Single(String),
    Many(Vec<String>),
}

pub enum MapValueView {
    Missing,
    Single(Seq<char>),
    Many(Seq<Seq<char>>),
}

pub open spec fn strings_view(v: Seq<String>) -> Seq<Seq<char>> {
    v.map_values(|s: String| s@)
}

impl View for QueryMapValue {
    type V = MapValueView;

    open spec fn view(&self) -> MapValueView {
        match self {
            QueryMapValue::Missing => MapValueView::Missing,
            QueryMapValue::Single(s) => MapValueView::Single(s@),
            QueryMapValue::Many(v) => MapValueView::Many(strings_view(v@)),
        }
    }
}

pub type MapEntryView = (Seq<char>, MapValueView);

pub open spec fn entries_view(m: Seq<(String, QueryMapValue)>) -> Seq<MapEntryView> {
    m.map_values(|e: (String, QueryMapValue)| (e.0@, e.1@))
}

/// A component as a key and its value: split at the last `=`, both sides
/// percent-decoded; without `=` the whole component is a bare key.
pub open spec fn component_entry(comp: Seq<char>) -> MapEntryView {
    match last_index_of(comp, '=') {
        Some(i) => (query_decode(comp.take(i)), MapValueView::Single(query_decode(comp.skip(i + 1)))),
        None => (query_decode(comp), MapValueView::Missing),
    }
}

/// A component written as the query writer writes a key and a value (each
/// percent-encoded, joined by `=`) is read back as that key with that value,
/// and a key written alone is read back as a bare key, whatever the key and
/// the value hold.
pub proof fn lemma_component_entry_roundtrip(k: Seq<char>, v: Seq<char>)
    ensures
        component_entry(alnum_encode(k) + seq!['='] + alnum_encode(v)) == (k, MapValueView::Single(v)),
        component_entry(alnum_encode(k)) == (k, MapValueView::Missing),
{
    let a = alnum_encode(k);
    let b = alnum_encode(v);
    lemma_alnum_encode_decode(k);
    lemma_alnum_encode_decode(v);
    lemma_last_index_of_sep(a, b, '=');
    let t = a + seq!['='] + b;
    assert(t.take(a.len() as int) =~= a);
    assert(t.skip(a.len() as int + 1) =~= b);
    lemma_last_index_of(a, '=');
}

/// Where the key stands in the map, if it is there.
pub open spec fn index_of_key(m: Seq<MapEntryView>, k: Seq<char>) -> Option<int>
    decreases m.len(),
{
    if m.len() == 0 {
        None
    } else if m.last().0 == k {
        Some(m.len() - 1)
    } else {
        index_of_key(m.drop_last(), k)
    }
}

/// Adds one component's key and value to the map, or gives the message of
/// the error.
pub open spec fn insert_entry(m: Seq<MapEntryView>, k: Seq<char>, v: MapValueView) -> Result<
    Seq<MapEntryView>,
    Seq<char>,
> {
    match index_of_key(m, k) {
        None => Ok(m.push((k, v))),
        Some(i) => match (m[i].1, v) {
            (MapValueView::Single(s0), MapValueView::Single(s)) => Ok(
                m.update(i, (k, MapValueView::Many(seq![s0, s]))),
            ),
            (MapValueView::Many(vs), MapValueView::Single(s)) => Ok(m.update(i, (k, MapValueView::Many(vs.push(s))))),
            (MapValueView::Missing, MapValueView::Missing) => Ok(m),
            (MapValueView::Missing, MapValueView::Single(_)) => Err("found kv when a key-only kv already exists"@),
            (_, MapValueView::Missing) => Err("found key-only kv when a kv already exists"@),
            (_, MapValueView::Many(_)) => Ok(m),
        },
    }
}

/// The map of a list of components, read in order; the first error ends the
/// reading.
pub open spec fn query_map_of(comps: Seq<Seq<char>>) -> Result<Seq<MapEntryView>, Seq<char>>
    decreases comps.len(),
{
    if comps.len() == 0 {
        Ok(Seq::<MapEntryView>::empty())
    } else {
        match query_map_of(comps.drop_last()) {
            Ok(m) => {
                let e = component_entry(comps.last());
                insert_entry(m, e.0, e.1)
            },
            Err(msg) => Err(msg),
        }
    }
}

/// No key stands twice in the map.
pub open spec fn keys_distinct(m: Seq<MapEntryView>) -> bool {
    forall|i: int, j: int| 0 <= i < j < m.len() ==> #[trigger] m[i].0 != #[trigger] m[j].0
}

proof fn lemma_index_of_key(m: Seq<MapEntryView>, k: Seq<char>)
    ensures
        match index_of_key(m, k) {
            Some(i) => 0 <= i < m.len() && m[i].0 == k,
            None => forall|j: int| 0 <= j < m.len() ==> #[trigger] m[j].0 != k,
        },
    decreases m.len(),
{
    if m.len() > 0 {
        lemma_index_of_key(m.drop_last(), k);
        if m.last().0 != k {
            match index_of_key(m.drop_last(), k) {
                Some(i) => {
                    assert(m[i] == m.drop_last()[i]);
                },
                None => {
                    assert forall|j: int| 0 <= j < m.len() implies #[trigger] m[j].0 != k by {
                        if j < m.len() - 1 {
                            assert(m[j] == m.drop_last()[j]);
                        }
                    }
                },
            }
        }
    }
}

proof fn lemma_insert_keeps_distinct(m: Seq<MapEntryView>, k: Seq<char>, v: MapValueView)
    requires
        keys_distinct(m),
    ensures
        insert_entry(m, k, v) matches Ok(m2) ==> keys_distinct(m2),
{
    lemma_index_of_key(m, k);
    match insert_entry(m, k, v) {
        Ok(m2) => {
            match index_of_key(m, k) {
                None => {
                    assert forall|i: int, j: int| 0 <= i < j < m2.len() implies #[trigger] m2[i].0
                        != #[trigger] m2[j].0 by {
                        if j == m.len() {
                            assert(m2[i] == m[i]);
                        } else {
                            assert(m2[i] == m[i]);
                            assert(m2[j] == m[j]);
                        }
                    }
                },
                Some(x) => {
                    assert forall|i: int, j: int| 0 <= i < j < m2.len() implies #[trigger] m2[i].0
                        != #[trigger] m2[j].0 by {
                        assert(m2[i].0 == m[i].0);
                        assert(m2[j].0 == m[j].0);
                    }
                },
            }
        },
        Err(_) => {},
    }
}

/// The map of a query holds each key once.
pub proof fn lemma_query_map_keys_distinct(comps: Seq<Seq<char>>)
    ensures
        query_map_of(comps) matches Ok(m) ==> keys_distinct(m),
    decreases comps.len(),
{
    if comps.len() > 0 {
        lemma_query_map_keys_distinct(comps.drop_last());
        match query_map_of(comps.drop_last()) {
            Ok(m) => {
                let e = component_entry(comps.last());
                lemma_insert_keeps_distinct(m, e.0, e.1);
            },
            Err(_) => {},
        }
    }
}

/// An error in the first components is the error of all of them.
proof fn lemma_query_map_err(comps: Seq<Seq<char>>, k: int)
    requires
        0 <= k <= comps.len(),
        query_map_of(comps.take(k)) is Err,
    ensures
        query_map_of(comps) == query_map_of(comps.take(k)),
    decreases comps.len() - k,
{
    if k < comps.len() {
        assert(comps.take(k + 1).drop_last() =~= comps.take(k));
        lemma_query_map_err(comps, k + 1);
    } else {
        assert(comps.take(k) =~= comps);
    }
}

/// Reads one component.
fn component_to_entry(comp: &Vec<char>) -> (res: (String, QueryMapValue))
    ensures
        (res.0@, res.1@) == component_entry(comp@),
{
    match rfind_char(comp, '=') {
        Some(i) => {
            assert(i < comp.len());
            proof {
                assert(comp@.take(i as int) =~= comp@.subrange(0, i as int));
                assert(comp@.skip(i + 1) =~= comp@.subrange(i + 1, comp@.len() as int));
            }
            let k = string_of(slice_chars(comp, 0, i).as_slice());
            let v = string_of(slice_chars(comp, i + 1, comp.len()).as_slice());
            (decode_component(k.as_str()), QueryMapValue::Single(decode_component(v.as_str())))
        },
        None => {
            let k = string_of(comp.as_slice());
            (decode_component(k.as_str()), QueryMapValue::Missing)
        },
    }
}

/// Where the key stands in the map, if it is there.
fn find_key(m: &Vec<(String, QueryMapValue)>, k: &str) -> (res: Option<usize>)
    ensures
        match res {
            Some(i) => index_of_key(entries_view(m@), k@) == Some(i as int) && i < m@.len(),
            None => index_of_key(entries_view(m@), k@) is None,
        },
{
    let ghost mv = entries_view(m@);
    let mut i: usize = m.len();
    proof {
        assert(mv.take(i as int) =~= mv);
    }
    while i > 0
        invariant
            0 <= i <= m@.len(),
            mv == entries_view(m@),
            index_of_key(mv, k@) == index_of_key(mv.take(i as int), k@),
        decreases i,
    {
        proof {
            assert(mv.take(i as int).drop_last() =~= mv.take(i - 1));
            assert(mv.take(i as int).last() == mv[i - 1]);
        }
        if str_eq(m[i - 1].0.as_str(), k) {
            return Some(i - 1);
        }
        i = i - 1;
    }
    None
}

/// Reads a query string as a map from each key to its values. Keys stand in
/// the order they first came.
pub fn query_to_query_map(query: &str) -> (res: Result<Vec<(String, QueryMapValue)>, QueryError>)
    ensures
        match res {
            Ok(m) => query_map_of(split_on(query@, '&')) == Ok::<Seq<MapEntryView>, Seq<char>>(
                entries_view(m@),
            ) && keys_distinct(entries_view(m@)),
            Err(e) => query_map_of(split_on(query@, '&')) == Err::<Seq<MapEntryView>, Seq<char>>(e@),
        },
{
    let cs = chars_of(query);
    let comps = split_chars(&cs, '&');
    let ghost all = split_on(query@, '&');
    let mut map: Vec<(String, QueryMapValue)> = Vec::new();
    let mut n: usize = 0;
    proof {
        assert(all.take(0) =~= Seq::<Seq<char>>::empty());
        assert(entries_view(map@) =~= Seq::<MapEntryView>::empty());
    }
    while n < comps.len()
        invariant
            0 <= n <= comps@.len(),
            all == split_on(query@, '&'),
            comps@.len() == all.len(),
            forall|j: int| 0 <= j < comps@.len() ==> #[trigger] comps@[j]@ == all[j],
            query_map_of(all.take(n as int)) == Ok::<Seq<MapEntryView>, Seq<char>>(entries_view(map@)),
        decreases comps@.len() - n,
    {
        let ghost before = entries_view(map@);
        proof {
            assert(all.take(n + 1).drop_last() =~= all.take(n as int));
            assert(all.take(n + 1).last() == all[n as int]);
            assert(comps@[n as int]@ == all[n as int]);
        }
        let (key, value) = component_to_entry(&comps[n]);
        let ghost kv = key@;
        let ghost vv = value@;
        proof {
            lemma_index_of_key(before, kv);
        }
        match find_key(&map, key.as_str()) {
            None => {
                map.push((key, value));
                proof {
                    assert(entries_view(map@) =~= before.push((kv, vv)));
                }
            },
            Some(i) => {
                let (k0, v0) = map.remove(i);
                proof {
                    assert(before[i as int] == (k0@, v0@));
                }
                match (v0, value) {
                    (QueryMapValue::Single(s0), QueryMapValue::Single(s)) => {
                        let ghost sv0 = s0@;
                        let ghost sv = s@;
                        let mut vs: Vec<String> = Vec::new();
                        vs.push(s0);
                        vs.push(s);
                        proof {
                            assert(strings_view(vs@) =~= seq![sv0, sv]);
                        }
                        map.insert(i, (key, QueryMapValue::Many(vs)));
                        proof {
                            assert(entries_view(map@) =~= before.update(
                                i as int,
                                (kv, MapValueView::Many(seq![sv0, sv])),
                            ));
                        }
                    },
                    (QueryMapValue::Many(vs), QueryMapValue::Single(s)) => {
                        let ghost old_vs = strings_view(vs@);
                        let ghost sv = s@;
                        let mut vs = vs;
                        vs.push(s);
                        proof {
                            assert(strings_view(vs@) =~= old_vs.push(sv));
                        }
                        map.insert(i, (key, QueryMapValue::Many(vs)));
                        proof {
                            assert(entries_view(map@) =~= before.update(
                                i as int,
                                (kv, MapValueView::Many(old_vs.push(sv))),
                            ));
                        }
                    },
                    (QueryMapValue::Missing, QueryMapValue::Missing) => {
                        map.insert(i, (k0, QueryMapValue::Missing));
                        proof {
                            assert(entries_view(map@) =~= before);
                        }
                    },
                    (QueryMapValue::Missing, QueryMapValue::Single(_)) => {
                        proof {
                            lemma_query_map_err(all, n + 1);
                        }
                        return Err(QueryError::new("found kv when a key-only kv already exists"));
                    },
                    (_, QueryMapValue::Missing) => {
                        proof {
                            lemma_query_map_err(all, n + 1);
                        }
                        return Err(QueryError::new("found key-only kv when a kv already exists"));
                    },
                    (v0, QueryMapValue::Many(_)) => {
                        proof {
                            assert(false);
                        }
                        map.insert(i, (k0, v0));
                    },
                }
            },
        }
        n = n + 1;
    }
    proof {
        assert(all.take(n as int) =~= all);
        lemma_query_map_keys_distinct(all);
    }
    Ok(map)
}


/// Hands out the values of one key, one at a time, as a sequence.
#[derive(Debug, Clone, PartialEq, Eq)]
pub struct ValueDeserializer {
    value: Option<QueryMapValue>,
}

pub open spec fn opt_map_value_view(v: Option<QueryMapValue>) -> Option<MapValueView> {
    match v {
        Some(x) => Some(x@),
        None => None,
    }
}

/// What is handed out next from the values left, and what is left after: a
/// bare key gives one absent value, a single value gives itself, several give
/// their first; nothing is handed out once all were; an empty list of several
/// values is an error (`None` here).
pub open spec fn next_element_of(left: Option<MapValueView>) -> Option<(Option<Option<Seq<char>>>, Option<MapValueView>)> {
    match left {
        None => Some((None, None)),
        Some(MapValueView::Missing) => Some((Some(None), None)),
        Some(MapValueView::Single(c)) => Some((Some(Some(c)), None)),
        Some(MapValueView::Many(vs)) => if vs.len() == 0 {
            None
        } else if vs.len() == 1 {
            Some((Some(Some(vs[0])), None))
        } else {
            Some((Some(Some(vs[0])), Some(MapValueView::Many(vs.drop_first()))))
        },
    }
}

impl ValueDeserializer {
    /// The values left to hand out.
    pub closed spec fn spec_left(&self) -> Option<MapValueView> {
        opt_map_value_view(self.value)
    }

    pub fn new(value: QueryMapValue) -> (res: Self)
        ensures
            res.spec_left() == Some(value@),
    {
        ValueDeserializer { value: Some(value) }
    }

    /// The next value to hand out: `Ok(Some(v))` with the value (absent for a
    /// bare key), `Ok(None)` once all were handed out.
    pub fn next_element(&mut self) -> (res: Result<Option<Option<String>>, QueryError>)
        ensures
            match next_element_of(old(self).spec_left()) {
                Some((out, left)) => res matches Ok(r) && final(self).spec_left() == left && match r {
                    Some(Some(s)) => out == Some(Some(s@)),
                    Some(None) => out == Some(None::<Seq<char>>),
                    None => out is None,
                },
                None => res matches Err(e) && e@ == "next_element_seed called with no more values"@
                    && final(self).spec_left() == old(self).spec_left(),
            },
    {
        let v = self.value.take();
        match v {
            None => Ok(None),
            Some(QueryMapValue::Missing) => Ok(Some(None)),
            Some(QueryMapValue::Single(c)) => Ok(Some(Some(c))),
            Some(QueryMapValue::Many(vs)) => {
                if vs.len() == 0 {
                    self.value = Some(QueryMapValue::Many(vs));
                    return Err(QueryError::new("next_element_seed called with no more values"));
                }
                let ghost before = strings_view(vs@);
                let mut vs = vs;
                let first = vs.remove(0);
                proof {
                    assert(strings_view(vs@) =~= before.drop_first());
                }
                if vs.len() > 0 {
                    self.value = Some(QueryMapValue::Many(vs));
                }
                Ok(Some(Some(first)))
            },
        }
    }
}

/// The values a sequence over several values hands out, in order.
pub open spec fn drained(vs: Seq<Seq<char>>) -> Seq<Option<Option<Seq<char>>>>
    decreases vs.len(),
{
    if vs.len() == 0 {
        seq![None]
    } else {
        seq![Some(Some(vs[0]))] + drained(vs.drop_first())
    }
}

/// The run of outputs when a sequence starts from what is left.
pub open spec fn run_from(left: Option<MapValueView>, fuel: nat) -> Seq<Option<Option<Seq<char>>>>
    decreases fuel,
{
    if fuel == 0 {
        Seq::empty()
    } else {
        match next_element_of(left) {
            Some((out, rest)) => if out is None {
                seq![None]
            } else {
                seq![out] + run_from(rest, (fuel - 1) as nat)
            },
            None => Seq::empty(),
        }
    }
}

/// Several values are handed out in order, each once, and then the sequence
/// ends.
pub proof fn lemma_many_values_in_order(vs: Seq<Seq<char>>)
    requires
        vs.len() > 0,
    ensures
        run_from(Some(MapValueView::Many(vs)), vs.len() + 1) == drained(vs),
    decreases vs.len(),
{
    if vs.len() == 1 {
        assert(drained(vs.drop_first()) =~= seq![None]);
        assert(run_from(None, 1) =~= seq![None]);
        assert(run_from(Some(MapValueView::Many(vs)), 2) =~= seq![Some(Some(vs[0]))] + run_from(None, 1));
    } else {
        lemma_many_values_in_order(vs.drop_first());
    }
}

/// A value as the query-map deserializer reads it as a boolean: a bare key is
/// `true`; `true` or `1`, `false` or `0`; anything else is an error naming the
/// text.
pub open spec fn cow_bool_of(cow: Option<Seq<char>>) -> Result<bool, Seq<char>> {
    match cow {
        None => Ok(true),
        Some(s) => if s == "true"@ || s == "1"@ {
            Ok(true)
        } else if s == "false"@ || s == "0"@ {
            Ok(false)
        } else {
            Err("invalid boolean: '"@ + s + "'"@)
        },
    }
}

/// One value of the query map, read as a plain value.
#[derive(Debug, Clone, PartialEq, Eq)]
pub struct CowDeserializer {
    cow: Option<String>,
}

impl CowDeserializer {
    pub closed spec fn spec_cow(&self) -> Option<Seq<char>> {
        match self.cow {
            Some(s) => Some(s@),
            None => None,
        }
    }

    pub fn new(cow: Option<String>) -> (res: Self)
        ensures
            res.spec_cow() == match cow {
                Some(s) => Some(s@),
                None => None::<Seq<char>>,
            },
    {
        CowDeserializer { cow }
    }

    /// Reads the value as a boolean.
    pub fn deserialize_bool(self) -> (res: Result<bool, QueryError>)
        ensures
            match cow_bool_of(self.spec_cow()) {
                Ok(b) => res == Ok::<bool, QueryError>(b),
                Err(m) => res matches Err(e) && e@ == m,
            },
    {
        match self.cow {
            Some(s) => {
                if str_eq(s.as_str(), "true") || str_eq(s.as_str(), "1") {
                    Ok(true)
                } else if str_eq(s.as_str(), "false") || str_eq(s.as_str(), "0") {
                    Ok(false)
                } else {
                    let mut out: Vec<char> = Vec::new();
                    push_text(&mut out, "invalid boolean: '");
                    push_text(&mut out, s.as_str());
                    push_text(&mut out, "'");
                    Err(QueryError { message: string_of(out.as_slice()) })
                }
            },
            None => Ok(true),
        }
    }
}

} // verus!
