//! Writing a query string event by event, as a serializer is driven: keys,
//! values, sequences of values under one key, and absent values, which take
//! back the key they were given for.
use vstd::prelude::*;

use crate::percent::{alnum_encode, encode_non_alphanumeric};
use crate::request::query::QueryError;
use crate::text::{decimal_text, push_text, string_of, u64_text};

verus! {

/// A plain value written under a key.
#[derive(Debug, Clone, PartialEq, Eq)]
pub enum SerValue {
    /// A text, percent-encoded with all but ASCII letters and digits escaped.
    Str(String),
    /// A number, written in decimal.
    Unsigned(u64),
    /// A boolean, written `true` or `false`.
    Bool(bool),
    /// No value: the key is taken back.
    Absent,
    /// A unit value, which writes nothing.
    Unit,
}

/// The model of a serializer: the query so far, whether a value is due
/// (`pending_value`) and whether its `=` is still to be written
/// (`pending_equal`), where the last key stands in the query, and how many
/// elements the current sequence has had.
pub struct SerView {
    pub query: Seq<char>,
    pub pending_value: bool,
    pub pending_equal: bool,
    pub last_key: Option<(int, int)>,
    pub sequence_count: nat,
}

/// The text a value writes (an absent value writes none of its own).
pub open spec fn value_text(x: SerValue) -> Seq<char> {
    match x {
        SerValue::Str(s) => alnum_encode(s@),
        SerValue::Unsigned(n) => decimal_text(n as nat),
        SerValue::Bool(b) => if b {
            "true"@
        } else {
            "false"@
        },
        _ => Seq::<char>::empty(),
    }
}

/// The serializer after a key: `&` first unless the query is empty, then the
/// encoded key, which becomes the last key; a value is then due.
pub open spec fn ser_key(v: SerView, key: Seq<char>) -> SerView {
    let q0 = if v.query.len() > 0 {
        v.query.push('&')
    } else {
        v.query
    };
    let k = alnum_encode(key);
    SerView {
        query: q0 + k,
        pending_value: true,
        pending_equal: true,
        last_key: Some((q0.len() as int, (q0.len() + k.len()) as int)),
        sequence_count: v.sequence_count,
    }
}

/// The serializer once the last key is taken back: the query is cut where
/// the key began, and the `&` before it is dropped.
pub open spec fn ser_erase(v: SerView) -> Result<SerView, Seq<char>> {
    match v.last_key {
        Some((s, _)) => {
            let q = v.query.take(s);
            Ok(
                SerView {
                    query: if q.len() > 0 {
                        q.drop_last()
                    } else {
                        q
                    },
                    pending_value: false,
                    pending_equal: false,
                    last_key: None,
                    sequence_count: v.sequence_count,
                },
            )
        },
        None => Err("no last key while erasing last key"@),
    }
}

/// The serializer after a value: `=` if it is still due, then the value; an
/// absent value takes the key back.
pub open spec fn ser_value(v: SerView, x: SerValue) -> Result<SerView, Seq<char>> {
    let v1 = if v.pending_equal {
        SerView { query: v.query.push('='), pending_equal: false, ..v }
    } else {
        v
    };
    match x {
        SerValue::Absent => match ser_erase(v1) {
            Ok(v2) => Ok(SerView { pending_value: false, ..v2 }),
            Err(e) => Err(e),
        },
        _ => Ok(SerView { query: v1.query + value_text(x), pending_value: false, ..v1 }),
    }
}

/// The serializer after the last key is written again for one more element
/// of a sequence.
pub open spec fn ser_last_key(v: SerView) -> Result<SerView, Seq<char>> {
    match v.last_key {
        Some((s, e)) => Ok(
            SerView {
                query: v.query.push('&') + v.query.subrange(s, e),
                pending_value: true,
                pending_equal: true,
                ..v
            },
        ),
        None => Err("no last key"@),
    }
}

/// The serializer after one element of a sequence: the key again unless a
/// value is due, then the value.
pub open spec fn ser_seq_value(v: SerView, x: SerValue) -> Result<SerView, Seq<char>> {
    if !v.pending_value {
        match ser_last_key(v) {
            Ok(v1) => ser_value(v1, x),
            Err(e) => Err(e),
        }
    } else {
        ser_value(v, x)
    }
}

/// Writes a query string from serialization events.
#[derive(Debug, Clone)]
pub struct QuerySerializer {
    sequence_count: usize,
    pending_value: bool,
    pending_equal: bool,
    last_key: Option<(usize, usize)>,
    query: Vec<char>,
}

impl View for QuerySerializer {
    type V = SerView;

    closed spec fn view(&self) -> SerView {
        SerView {
            query: self.query@,
            pending_value: self.pending_value,
            pending_equal: self.pending_equal,
            last_key: match self.last_key {
                Some((s, e)) => Some((s as int, e as int)),
                None => None,
            },
            sequence_count: self.sequence_count as nat,
        }
    }
}

/// The last key lies within the query, and `=` is due only with a value.
pub open spec fn ser_wf(v: SerView) -> bool {
    &&& (v.last_key matches Some((s, e)) ==> 0 <= s <= e <= v.query.len())
    &&& (v.pending_equal ==> v.pending_value)
}

impl QuerySerializer {
    /// A serializer that has written nothing.
    pub fn new() -> (res: Self)
        ensures
            res@ == (SerView {
                query: Seq::<char>::empty(),
                pending_value: false,
                pending_equal: false,
                last_key: None,
                sequence_count: 0,
            }),
            ser_wf(res@),
    {
        QuerySerializer {
            sequence_count: 0,
            pending_value: false,
            pending_equal: false,
            last_key: None,
            query: Vec::new(),
        }
    }

    /// Takes back the last key, or gives an error if there is none.
    pub fn erase_last_key(&mut self) -> (res: Result<(), QueryError>)
        requires
            ser_wf(old(self)@),
        ensures
            ser_wf(final(self)@),
            match ser_erase(old(self)@) {
                Ok(v) => res is Ok && final(self)@ == v,
                Err(m) => res matches Err(e) && e@ == m && final(self)@ == old(self)@,
            },
    {
        match self.last_key {
            Some((start, _)) => {
                let ghost before = self.query@;
                self.query.truncate(start);
                if self.query.len() > 0 {
                    self.query.pop();
                }
                proof {
                    assert(before.take(start as int) =~= before.subrange(0, start as int));
                }
                self.last_key = None;
                self.pending_equal = false;
                self.pending_value = false;
                Ok(())
            },
            None => Err(QueryError::new("no last key while erasing last key")),
        }
    }

    /// Writes a key.
    pub fn serialize_key(&mut self, key: &str)
        requires
            ser_wf(old(self)@),
            !old(self)@.pending_value,
            !old(self)@.pending_equal,
        ensures
            ser_wf(final(self)@),
            final(self)@ == ser_key(old(self)@, key@),
    {
        if self.query.len() > 0 {
            self.query.push('&');
        }
        self.pending_value = true;
        self.pending_equal = true;
        let start = self.query.len();
        let mut k = encode_non_alphanumeric(key);
        self.query.append(&mut k);
        let end = self.query.len();
        self.last_key = Some((start, end));
    }

    /// Writes the value due after a key.
    pub fn serialize_value(&mut self, value: &SerValue) -> (res: Result<(), QueryError>)
        requires
            ser_wf(old(self)@),
            old(self)@.pending_value,
        ensures
            ser_wf(final(self)@),
            match ser_value(old(self)@, *value) {
                Ok(v) => res is Ok && final(self)@ == v,
                Err(m) => res matches Err(e) && e@ == m,
            },
    {
        if self.pending_equal {
            self.query.push('=');
            self.pending_equal = false;
        }
        match value {
            SerValue::Absent => {
                match self.erase_last_key() {
                    Ok(()) => {},
                    Err(e) => {
                        return Err(e);
                    },
                }
            },
            SerValue::Str(s) => {
                let mut t = encode_non_alphanumeric(s.as_str());
                self.query.append(&mut t);
            },
            SerValue::Unsigned(n) => {
                push_text(&mut self.query, u64_text(*n).as_str());
            },
            SerValue::Bool(b) => {
                if *b {
                    push_text(&mut self.query, "true");
                } else {
                    push_text(&mut self.query, "false");
                }
            },
            SerValue::Unit => {
                proof {
                    assert(self.query@ + Seq::<char>::empty() =~= self.query@);
                }
            },
        }
        self.pending_value = false;
        Ok(())
    }

    /// Writes the last key again, for one more element of a sequence.
    pub fn serialize_last_key(&mut self) -> (res: Result<(), QueryError>)
        requires
            ser_wf(old(self)@),
            !old(self)@.pending_value,
            !old(self)@.pending_equal,
        ensures
            ser_wf(final(self)@),
            match ser_last_key(old(self)@) {
                Ok(v) => res is Ok && final(self)@ == v,
                Err(m) => res matches Err(e) && e@ == m && final(self)@ == old(self)@,
            },
    {
        match self.last_key {
            Some((start, end)) => {
                let ghost before = self.query@;
                self.pending_value = true;
                self.pending_equal = true;
                self.query.push('&');
                let mut i = start;
                while i < end
                    invariant
                        start <= i <= end <= before.len(),
                        self.query@ == before.push('&') + before.subrange(start as int, i as int),
                        self.last_key == Some((start, end)),
                        self.pending_value,
                        self.pending_equal,
                        self.sequence_count == old(self).sequence_count,
                    decreases end - i,
                {
                    let c = self.query[i];
                    proof {
                        assert(self.query@[i as int] == before[i as int]);
                    }
                    self.query.push(c);
                    proof {
                        assert(before.subrange(start as int, i + 1) =~= before.subrange(start as int, i as int).push(
                            before[i as int],
                        ));
                    }
                    i = i + 1;
                }
                proof {
                    assert(self.query@.len() == before.len() + 1 + (end - start));
                }
                Ok(())
            },
            None => Err(QueryError::new("no last key")),
        }
    }

    /// Writes one element of a sequence under the last key.
    pub fn serialize_seq_value(&mut self, value: &SerValue) -> (res: Result<(), QueryError>)
        requires
            ser_wf(old(self)@),
        ensures
            ser_wf(final(self)@),
            match ser_seq_value(old(self)@, *value) {
                Ok(v) => res is Ok && final(self)@ == v,
                Err(m) => res matches Err(e) && e@ == m,
            },
    {
        if !self.pending_value {
            match self.serialize_last_key() {
                Ok(()) => {},
                Err(e) => {
                    return Err(e);
                },
            }
        }
        self.serialize_value(value)
    }

    /// Writes a key and its value.
    pub fn serialize_key_value(&mut self, key: &str, value: &SerValue) -> (res: Result<(), QueryError>)
        requires
            ser_wf(old(self)@),
            !old(self)@.pending_value,
            !old(self)@.pending_equal,
        ensures
            ser_wf(final(self)@),
            match ser_value(ser_key(old(self)@, key@), *value) {
                Ok(v) => res is Ok && final(self)@ == v,
                Err(m) => res matches Err(e) && e@ == m,
            },
    {
        self.serialize_key(key);
        self.serialize_value(value)
    }

    /// Starts a sequence of values under the last key.
    pub fn serialize_seq(&mut self)
        requires
            ser_wf(old(self)@),
        ensures
            ser_wf(final(self)@),
            final(self)@ == (SerView { sequence_count: 0, ..old(self)@ }),
    {
        self.sequence_count = 0;
    }

    /// Writes one element of the current sequence.
    pub fn serialize_element(&mut self, value: &SerValue) -> (res: Result<(), QueryError>)
        requires
            ser_wf(old(self)@),
            old(self)@.sequence_count < usize::MAX,
        ensures
            ser_wf(final(self)@),
            match ser_seq_value(SerView { sequence_count: old(self)@.sequence_count + 1, ..old(self)@ }, *value) {
                Ok(v) => res is Ok && final(self)@ == v,
                Err(m) => res matches Err(e) && e@ == m,
            },
    {
        self.sequence_count = self.sequence_count + 1;
        self.serialize_seq_value(value)
    }

    /// Ends the current sequence: a sequence with no element takes its key
    /// back.
    pub fn end(&mut self) -> (res: Result<(), QueryError>)
        requires
            ser_wf(old(self)@),
        ensures
            ser_wf(final(self)@),
            old(self)@.sequence_count == 0 ==> match ser_erase(old(self)@) {
                Ok(v) => res is Ok && final(self)@ == v,
                Err(m) => res matches Err(e) && e@ == m && final(self)@ == old(self)@,
            },
            old(self)@.sequence_count != 0 ==> res is Ok && final(self)@ == old(self)@,
    {
        if self.sequence_count == 0 {
            self.erase_last_key()
        } else {
            Ok(())
        }
    }

    /// The query written.
    pub fn into_query(self) -> (res: String)
        ensures
            res@ == self@.query,
    {
        string_of(self.query.as_slice())
    }
}

/// Taking back a key that was just written leaves the query as it was.
pub proof fn lemma_erase_undoes_key(v: SerView, key: Seq<char>)
    ensures
        ser_erase(ser_key(v, key)) matches Ok(w) && w.query == v.query,
{
    let q0 = if v.query.len() > 0 {
        v.query.push('&')
    } else {
        v.query
    };
    let k = alnum_encode(key);
    assert((q0 + k).take(q0.len() as int) =~= q0);
    if v.query.len() > 0 {
        assert(q0.drop_last() =~= v.query);
    }
}

/// A key with a value written after a query that has pairs adds `&`, the key,
/// `=` and the value.
pub proof fn lemma_key_value_text(v: SerView, key: Seq<char>, x: SerValue)
    requires
        !(x is Absent),
        v.query.len() > 0,
    ensures
        ser_value(ser_key(v, key), x) matches Ok(w) && w.query == v.query + seq!['&'] + alnum_encode(key)
            + seq!['='] + value_text(x),
{
    let w0 = ser_key(v, key);
    assert(w0.query.push('=') + value_text(x) =~= v.query + seq!['&'] + alnum_encode(key) + seq!['=']
        + value_text(x));
}

} // verus!
