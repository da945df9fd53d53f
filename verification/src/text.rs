//! Character-level helpers: conversions between `str`/`String` and `Vec<char>`,
//! decimal rendering and parsing of integers, and splitting on a separator.
use vstd::prelude::*;

verus! {

/// The characters of `s`, in order.
#[verifier::external_body]
pub(crate) fn chars_of(s: &str) -> (res: Vec<char>)
    ensures
        res@ == s@,
{
    s.chars().collect()
}

/// A `String` holding exactly the given characters.
#[verifier::external_body]
pub(crate) fn string_of(cs: &[char]) -> (res: String)
    ensures
        res@ == cs@,
{
    cs.iter().collect()
}

/// Appends the characters of `s` to `out`.
pub fn push_text(out: &mut Vec<char>, s: &str)
    ensures
        final(out)@ == old(out)@ + s@,
{
    let mut cs = chars_of(s);
    out.append(&mut cs);
}

/// A `String` holding the characters of `s`.
pub fn to_owned_string(s: &str) -> (res: String)
    ensures
        res@ == s@,
{
    s.to_owned()
}

/// Calls `==` on two `str`s: it compares their characters.
#[verifier::external_body]
pub(crate) fn str_eq(a: &str, b: &str) -> (res: bool)
    ensures
        res == (a@ == b@),
{
    a == b
}

/// The ASCII digit of a value below ten.
pub open spec fn digit_char(d: nat) -> char {
    if d == 0 { '0' }
    else if d == 1 { '1' }
    else if d == 2 { '2' }
    else if d == 3 { '3' }
    else if d == 4 { '4' }
    else if d == 5 { '5' }
    else if d == 6 { '6' }
    else if d == 7 { '7' }
    else if d == 8 { '8' }
    else { '9' }
}

pub open spec fn is_digit(c: char) -> bool {
    '0' <= c && c <= '9'
}

/// The value of an ASCII digit.
pub open spec fn digit_value(c: char) -> nat {
    ((c as int) - ('0' as int)) as nat
}

/// The decimal rendering of `n`: no sign, no leading zero (but `"0"` for zero).
pub open spec fn decimal_text(n: nat) -> Seq<char>
    decreases n,
{
    if n < 10 {
        seq![digit_char(n)]
    } else {
        decimal_text(n / 10).push(digit_char(n % 10))
    }
}

/// The value of a non-empty run of decimal digits.
pub open spec fn digits_value(s: Seq<char>) -> nat
    decreases s.len(),
{
    if s.len() == 0 {
        0
    } else {
        digits_value(s.drop_last()) * 10 + digit_value(s.last())
    }
}

pub open spec fn all_digits(s: Seq<char>) -> bool {
    forall|i: int| 0 <= i < s.len() ==> #[trigger] is_digit(s[i])
}

/// The digits of an unsigned integer literal as std reads it: an optional `+`
/// sign is dropped.
pub open spec fn unsigned_digits(s: Seq<char>) -> Seq<char> {
    if s.len() > 0 && s[0] == '+' {
        s.drop_first()
    } else {
        s
    }
}

/// `s` is an optional `+` followed by at least one decimal digit.
pub open spec fn is_unsigned_literal(s: Seq<char>) -> bool {
    let d = unsigned_digits(s);
    d.len() > 0 && all_digits(d)
}

/// The value that an unsigned integer literal denotes.
pub open spec fn unsigned_literal_value(s: Seq<char>) -> nat {
    digits_value(unsigned_digits(s))
}

/// `s` is an unsigned integer literal whose value is at most `max`.
pub open spec fn parses_unsigned(s: Seq<char>, max: nat) -> bool {
    is_unsigned_literal(s) && unsigned_literal_value(s) <= max
}

/// The message of the error that `u32::from_str` gives on `s`.
pub uninterp spec fn u32_parse_error_text(s: Seq<char>) -> Seq<char>;

/// The message of the error that `u64::from_str` gives on `s`.
pub uninterp spec fn u64_parse_error_text(s: Seq<char>) -> Seq<char>;

/// Calls `u32::from_str` and renders its error with `to_string`.
/// std documents that the text must be an optional `+` followed by digits only,
/// and that a value out of range is an error; the error message is left to the
/// name `u32_parse_error_text`.
#[verifier::external_body]
pub(crate) fn parse_u32(s: &str) -> (res: Result<u32, String>)
    ensures
        match res {
            Ok(v) => parses_unsigned(s@, u32::MAX as nat) && v as nat == unsigned_literal_value(s@),
            Err(msg) => !parses_unsigned(s@, u32::MAX as nat) && msg@ == u32_parse_error_text(s@),
        },
{
    s.parse::<u32>().map_err(|e| e.to_string())
}

/// Calls `u64::from_str` and renders its error with `to_string`; as `parse_u32`,
/// for the range of `u64`.
#[verifier::external_body]
pub(crate) fn parse_u64(s: &str) -> (res: Result<u64, String>)
    ensures
        match res {
            Ok(v) => parses_unsigned(s@, u64::MAX as nat) && v as nat == unsigned_literal_value(s@),
            Err(msg) => !parses_unsigned(s@, u64::MAX as nat) && msg@ == u64_parse_error_text(s@),
        },
{
    s.parse::<u64>().map_err(|e| e.to_string())
}

/// Calls `u64::to_string`: std's `Display` for integers writes the decimal
/// digits with no sign and no leading zeros.
#[verifier::external_body]
pub(crate) fn u64_text(n: u64) -> (res: String)
    ensures
        res@ == decimal_text(n as nat),
{
    n.to_string()
}

/// Calls `u32::to_string`; as `u64_text`.
#[verifier::external_body]
pub(crate) fn u32_text(n: u32) -> (res: String)
    ensures
        res@ == decimal_text(n as nat),
{
    n.to_string()
}

pub proof fn lemma_digit_char(d: nat)
    requires
        d < 10,
    ensures
        is_digit(digit_char(d)),
        digit_value(digit_char(d)) == d,
        digit_char(d) != '+',
{
}

/// The decimal rendering of `n` is a literal that reads back as `n`.
pub proof fn lemma_decimal_text(n: nat)
    ensures
        decimal_text(n).len() > 0,
        all_digits(decimal_text(n)),
        digits_value(decimal_text(n)) == n,
        decimal_text(n)[0] != '+',
        is_unsigned_literal(decimal_text(n)),
        unsigned_literal_value(decimal_text(n)) == n,
    decreases n,
{
    if n < 10 {
        lemma_digit_char(n);
        assert(decimal_text(n).drop_last() =~= Seq::<char>::empty());
        assert(digits_value(decimal_text(n)) == digits_value(Seq::<char>::empty()) * 10 + digit_value(decimal_text(n).last()));
    } else {
        lemma_decimal_text(n / 10);
        lemma_digit_char(n % 10);
        let t = decimal_text(n);
        assert(t.drop_last() =~= decimal_text(n / 10));
        assert(t[0] == decimal_text(n / 10)[0]);
        assert(t.last() == digit_char(n % 10));
        assert(digits_value(t) == digits_value(t.drop_last()) * 10 + digit_value(t.last()));
        assert((n / 10) * 10 + n % 10 == n);
        assert forall|i: int| 0 <= i < t.len() implies #[trigger] is_digit(t[i]) by {
            if i < t.len() - 1 {
                assert(t[i] == decimal_text(n / 10)[i]);
            }
        }
    }
    assert(unsigned_digits(decimal_text(n)) == decimal_text(n));
}

/// Parsing the decimal rendering of a value within range gives the value back.
pub proof fn lemma_parses_decimal(n: nat, max: nat)
    requires
        n <= max,
    ensures
        parses_unsigned(decimal_text(n), max),
        unsigned_literal_value(decimal_text(n)) == n,
{
    lemma_decimal_text(n);
}

/// A decimal rendering holds only digits.
pub proof fn lemma_decimal_excludes(n: nat, c: char)
    requires
        !is_digit(c),
    ensures
        !decimal_text(n).contains(c),
{
    lemma_decimal_text(n);
    if decimal_text(n).contains(c) {
        let i = choose|i: int| 0 <= i < decimal_text(n).len() && decimal_text(n)[i] == c;
        assert(is_digit(decimal_text(n)[i]));
    }
}

/// Splits `s` at every occurrence of `sep`; there is always at least one part.
pub open spec fn split_on(s: Seq<char>, sep: char) -> Seq<Seq<char>>
    decreases s.len(),
{
    if s.len() == 0 {
        seq![Seq::<char>::empty()]
    } else {
        let prev = split_on(s.drop_last(), sep);
        if s.last() == sep {
            prev.push(Seq::<char>::empty())
        } else {
            prev.update(prev.len() - 1, prev.last().push(s.last()))
        }
    }
}

pub proof fn lemma_split_on_len(s: Seq<char>, sep: char)
    ensures
        split_on(s, sep).len() >= 1,
    decreases s.len(),
{
    if s.len() > 0 {
        lemma_split_on_len(s.drop_last(), sep);
    }
}

/// Splitting a text that holds no separator gives the text itself.
pub proof fn lemma_split_on_none(s: Seq<char>, sep: char)
    requires
        !s.contains(sep),
    ensures
        split_on(s, sep) == seq![s],
    decreases s.len(),
{
    if s.len() > 0 {
        assert(!s.drop_last().contains(sep)) by {
            if s.drop_last().contains(sep) {
                let i = choose|i: int| 0 <= i < s.drop_last().len() && s.drop_last()[i] == sep;
                assert(s[i] == sep);
            }
        }
        lemma_split_on_none(s.drop_last(), sep);
        assert(s.last() != sep) by {
            assert(s[s.len() - 1] == s.last());
        }
        assert(s.drop_last().push(s.last()) =~= s);
        assert(split_on(s, sep) =~= seq![s]);
    } else {
        assert(s =~= Seq::<char>::empty());
    }
}

/// Appending a separator-free text extends the last part.
pub proof fn lemma_split_on_extend(a: Seq<char>, b: Seq<char>, sep: char)
    requires
        !b.contains(sep),
    ensures
        split_on(a + b, sep).len() == split_on(a, sep).len(),
        split_on(a + b, sep) == split_on(a, sep).update(
            split_on(a, sep).len() - 1,
            split_on(a, sep).last() + b,
        ),
    decreases b.len(),
{
    lemma_split_on_len(a, sep);
    if b.len() == 0 {
        assert(a + b =~= a);
        assert(split_on(a, sep).last() + b =~= split_on(a, sep).last());
        assert(split_on(a, sep).update(split_on(a, sep).len() - 1, split_on(a, sep).last())
            =~= split_on(a, sep));
    } else {
        let b0 = b.drop_last();
        assert(!b0.contains(sep)) by {
            if b0.contains(sep) {
                let i = choose|i: int| 0 <= i < b0.len() && b0[i] == sep;
                assert(b[i] == sep);
            }
        }
        lemma_split_on_extend(a, b0, sep);
        assert((a + b).drop_last() =~= a + b0);
        assert((a + b).last() == b.last());
        assert(b.last() != sep) by {
            assert(b[b.len() - 1] == b.last());
        }
        let p = split_on(a, sep);
        let q = split_on(a + b0, sep);
        assert(q == p.update(p.len() - 1, p.last() + b0));
        assert(q.last() == p.last() + b0);
        assert(split_on(a + b, sep) == q.update(q.len() - 1, q.last().push(b.last())));
        assert(p.last() + b0 + seq![b.last()] =~= p.last() + b);
        assert(q.last().push(b.last()) =~= p.last() + b);
        assert(split_on(a + b, sep) =~= p.update(p.len() - 1, p.last() + b));
    }
}

/// Joining parts with a separator and splitting again gives the parts back,
/// when no part holds the separator.
pub proof fn lemma_split_on_sep(a: Seq<char>, b: Seq<char>, sep: char)
    requires
        !b.contains(sep),
    ensures
        split_on(a + seq![sep] + b, sep) == split_on(a, sep).push(b),
{
    let a1 = a + seq![sep];
    assert(a1.drop_last() =~= a);
    assert(a1.last() == sep);
    lemma_split_on_extend(a1, b, sep);
    let p = split_on(a, sep);
    assert(split_on(a1, sep) == p.push(Seq::<char>::empty()));
    assert(Seq::<char>::empty() + b =~= b);
    assert(split_on(a1 + b, sep) =~= p.push(b));
}

/// The index of the first occurrence of `c` in `s`, if any.
pub open spec fn first_index_of(s: Seq<char>, c: char) -> Option<int>
    decreases s.len(),
{
    if s.len() == 0 {
        None
    } else if s[0] == c {
        Some(0)
    } else {
        match first_index_of(s.drop_first(), c) {
            Some(i) => Some(i + 1),
            None => None,
        }
    }
}

pub proof fn lemma_first_index_of(s: Seq<char>, c: char)
    ensures
        match first_index_of(s, c) {
            Some(i) => 0 <= i < s.len() && s[i] == c && !s.take(i).contains(c),
            None => !s.contains(c),
        },
    decreases s.len(),
{
    if s.len() > 0 {
        lemma_first_index_of(s.drop_first(), c);
        match first_index_of(s.drop_first(), c) {
            Some(i) => {
                if s[0] != c {
                    assert forall|j: int| 0 <= j < s.take(i + 1).len() implies #[trigger] s.take(i + 1)[j] != c by {
                        if j > 0 {
                            assert(s.take(i + 1)[j] == s.drop_first().take(i)[j - 1]);
                        }
                    }
                }
            },
            None => {
                if s[0] != c {
                    assert forall|j: int| 0 <= j < s.len() implies #[trigger] s[j] != c by {
                        if j > 0 {
                            assert(s[j] == s.drop_first()[j - 1]);
                        }
                    }
                }
            },
        }
    }
}

/// The first occurrence of `c` in `a + seq![c] + b` is just after `a` when `a`
/// holds none.
pub proof fn lemma_first_index_of_after(a: Seq<char>, b: Seq<char>, c: char)
    requires
        !a.contains(c),
    ensures
        first_index_of(a + seq![c] + b, c) == Some(a.len() as int),
    decreases a.len(),
{
    if a.len() == 0 {
        assert((a + seq![c] + b)[0] == c);
    } else {
        assert(a[0] != c) by {
            assert(a.contains(a[0]) || true);
            if a[0] == c {
                assert(a.contains(c));
            }
        }
        assert(!a.drop_first().contains(c)) by {
            if a.drop_first().contains(c) {
                let i = choose|i: int| 0 <= i < a.drop_first().len() && a.drop_first()[i] == c;
                assert(a[i + 1] == c);
            }
        }
        lemma_first_index_of_after(a.drop_first(), b, c);
        assert((a + seq![c] + b).drop_first() =~= a.drop_first() + seq![c] + b);
    }
}

/// The index of the first `c` in `s`, if any.
pub fn find_char(s: &Vec<char>, c: char) -> (res: Option<usize>)
    ensures
        match res {
            Some(i) => first_index_of(s@, c) == Some(i as int) && i < s@.len(),
            None => first_index_of(s@, c) is None,
        },
{
    let mut i: usize = 0;
    while i < s.len()
        invariant
            0 <= i <= s.len(),
            forall|j: int| 0 <= j < i ==> s@[j] != c,
        decreases s.len() - i,
    {
        if s[i] == c {
            proof {
                lemma_first_index_of(s@, c);
                match first_index_of(s@, c) {
                    Some(k) => {
                        if k < i {
                            assert(s@[k] == c);
                        } else if k > i {
                            assert(s@.take(k)[i as int] == c);
                            assert(s@.take(k).contains(c));
                        }
                    },
                    None => {
                        assert(s@.contains(c));
                    },
                }
            }
            return Some(i);
        }
        i = i + 1;
    }
    proof {
        lemma_first_index_of(s@, c);
        match first_index_of(s@, c) {
            Some(k) => {
                assert(s@[k] == c);
            },
            None => {},
        }
    }
    None
}

/// The characters `s[start..end]`.
pub fn slice_chars(s: &Vec<char>, start: usize, end: usize) -> (res: Vec<char>)
    requires
        start <= end <= s.len(),
    ensures
        res@ == s@.subrange(start as int, end as int),
{
    let mut out: Vec<char> = Vec::new();
    let mut i = start;
    while i < end
        invariant
            start <= i <= end <= s.len(),
            out@ == s@.subrange(start as int, i as int),
        decreases end - i,
    {
        out.push(s[i]);
        assert(s@.subrange(start as int, i + 1) =~= s@.subrange(start as int, i as int).push(s@[i as int]));
        i = i + 1;
    }
    out
}

/// Splits `s` at every `sep`, as `str::split` does.
pub fn split_chars(s: &Vec<char>, sep: char) -> (res: Vec<Vec<char>>)
    ensures
        res@.len() == split_on(s@, sep).len(),
        forall|i: int| 0 <= i < res@.len() ==> #[trigger] res@[i]@ == split_on(s@, sep)[i],
{
    let mut parts: Vec<Vec<char>> = Vec::new();
    let mut cur: Vec<char> = Vec::new();
    let mut i: usize = 0;
    while i < s.len()
        invariant
            0 <= i <= s.len(),
            parts@.len() + 1 == split_on(s@.take(i as int), sep).len(),
            forall|j: int| 0 <= j < parts@.len() ==> #[trigger] parts@[j]@ == split_on(s@.take(i as int), sep)[j],
            cur@ == split_on(s@.take(i as int), sep).last(),
        decreases s.len() - i,
    {
        let c = s[i];
        proof {
            assert(s@.take(i + 1).drop_last() =~= s@.take(i as int));
            assert(s@.take(i + 1).last() == c);
        }
        if c == sep {
            parts.push(cur);
            cur = Vec::new();
            proof {
                assert(cur@ =~= Seq::<char>::empty());
            }
        } else {
            cur.push(c);
        }
        i = i + 1;
    }
    parts.push(cur);
    proof {
        assert(s@.take(s@.len() as int) =~= s@);
    }
    parts
}


/// The index of the last `c` in `s`, if any.
pub open spec fn last_index_of(s: Seq<char>, c: char) -> Option<int>
    decreases s.len(),
{
    if s.len() == 0 {
        None
    } else if s.last() == c {
        Some(s.len() - 1)
    } else {
        last_index_of(s.drop_last(), c)
    }
}

pub proof fn lemma_last_index_of(s: Seq<char>, c: char)
    ensures
        match last_index_of(s, c) {
            Some(i) => 0 <= i < s.len() && s[i] == c && !s.skip(i + 1).contains(c),
            None => !s.contains(c),
        },
    decreases s.len(),
{
    if s.len() > 0 {
        lemma_last_index_of(s.drop_last(), c);
        let n = s.len() - 1;
        if s.last() == c {
            assert(s.skip(n + 1) =~= Seq::<char>::empty());
        } else {
            match last_index_of(s.drop_last(), c) {
                Some(i) => {
                    assert forall|j: int| 0 <= j < s.skip(i + 1).len() implies #[trigger] s.skip(i + 1)[j] != c by {
                        if i + 1 + j < n {
                            assert(s.skip(i + 1)[j] == s.drop_last().skip(i + 1)[j]);
                        }
                    }
                },
                None => {
                    assert forall|j: int| 0 <= j < s.len() implies #[trigger] s[j] != c by {
                        if j < n {
                            assert(s[j] == s.drop_last()[j]);
                        }
                    }
                },
            }
        }
    }
}

/// In `a`, then `c`, then a `b` without `c`, the last `c` is the one between
/// them.
pub proof fn lemma_last_index_of_sep(a: Seq<char>, b: Seq<char>, c: char)
    requires
        !b.contains(c),
    ensures
        last_index_of(a + seq![c] + b, c) == Some(a.len() as int),
{
    let t = a + seq![c] + b;
    lemma_last_index_of(t, c);
    assert(t[a.len() as int] == c);
    match last_index_of(t, c) {
        Some(i) => {
            if i < a.len() {
                assert(t.skip(i + 1)[a.len() - i - 1] == c);
            } else if i > a.len() {
                assert(b[i - a.len() - 1] == c);
            }
        },
        None => {},
    }
}

/// The index of the last `c` in `s`, if any.
pub fn rfind_char(s: &Vec<char>, c: char) -> (res: Option<usize>)
    ensures
        match res {
            Some(i) => last_index_of(s@, c) == Some(i as int) && i < s@.len(),
            None => last_index_of(s@, c) is None,
        },
{
    let mut i: usize = s.len();
    proof {
        assert(s@.take(i as int) =~= s@);
    }
    while i > 0
        invariant
            0 <= i <= s.len(),
            last_index_of(s@, c) == last_index_of(s@.take(i as int), c),
        decreases i,
    {
        proof {
            assert(s@.take(i as int).drop_last() =~= s@.take(i - 1));
        }
        if s[i - 1] == c {
            return Some(i - 1);
        }
        i = i - 1;
    }
    None
}


/// Calls `u8::from_str` and keeps whether it succeeded: std documents that the
/// text must be an optional `+` followed by decimal digits only, of a value
/// that fits in a `u8`.
#[verifier::external_body]
pub(crate) fn parse_u8(s: &str) -> (res: Option<u8>)
    ensures
        match res {
            Some(v) => parses_unsigned(s@, u8::MAX as nat) && v as nat == unsigned_literal_value(s@),
            None => !parses_unsigned(s@, u8::MAX as nat),
        },
{
    s.parse::<u8>().ok()
}

/// `c` with an ASCII lowercase letter made uppercase; any other character is
/// kept.
pub open spec fn ascii_upper(c: char) -> char {
    if 'a' <= c && c <= 'z' {
        ((c as int) - 32) as char
    } else {
        c
    }
}

/// `c` with an ASCII uppercase letter made lowercase; any other character is
/// kept.
pub open spec fn ascii_lower(c: char) -> char {
    if 'A' <= c && c <= 'Z' {
        ((c as int) + 32) as char
    } else {
        c
    }
}

/// Calls `char::to_ascii_uppercase`: std documents that `a` to `z` become `A`
/// to `Z` and every other character is unchanged.
#[verifier::external_body]
pub(crate) fn to_ascii_upper(c: char) -> (res: char)
    ensures
        res == ascii_upper(c),
{
    c.to_ascii_uppercase()
}

/// Calls `char::to_ascii_lowercase`: std documents that `A` to `Z` become `a`
/// to `z` and every other character is unchanged.
#[verifier::external_body]
pub(crate) fn to_ascii_lower(c: char) -> (res: char)
    ensures
        res == ascii_lower(c),
{
    c.to_ascii_lowercase()
}


/// The digits of a signed integer literal as std reads it: an optional `+` or
/// `-` sign is dropped.
pub open spec fn signed_digits(s: Seq<char>) -> Seq<char> {
    if s.len() > 0 && (s[0] == '+' || s[0] == '-') {
        s.drop_first()
    } else {
        s
    }
}

/// `s` is an optional sign followed by at least one decimal digit.
pub open spec fn is_signed_literal(s: Seq<char>) -> bool {
    let d = signed_digits(s);
    d.len() > 0 && all_digits(d)
}

/// The value that a signed integer literal denotes.
pub open spec fn signed_literal_value(s: Seq<char>) -> int {
    if s.len() > 0 && s[0] == '-' {
        -(digits_value(signed_digits(s)) as int)
    } else {
        digits_value(signed_digits(s)) as int
    }
}

/// `s` is a signed integer literal whose value lies in the range of `i64`.
pub open spec fn parses_i64(s: Seq<char>) -> bool {
    is_signed_literal(s) && i64::MIN <= signed_literal_value(s) <= i64::MAX
}

/// The message of the error that `i64::from_str` gives on `s`.
pub uninterp spec fn i64_parse_error_text(s: Seq<char>) -> Seq<char>;

/// Calls `i64::from_str` and renders its error with `to_string`.
/// std documents that the text must be an optional `+` or `-` followed by
/// digits only, and that a value out of range is an error; the error message
/// is left to the name `i64_parse_error_text`.
#[verifier::external_body]
pub(crate) fn parse_i64(s: &str) -> (res: Result<i64, String>)
    ensures
        match res {
            Ok(v) => parses_i64(s@) && v as int == signed_literal_value(s@),
            Err(msg) => !parses_i64(s@) && msg@ == i64_parse_error_text(s@),
        },
{
    s.parse::<i64>().map_err(|e| e.to_string())
}

} // verus!
