//! Percent-encoding of query components, on top of the `percent_encoding` crate.
//!
//! A component is encoded byte by byte over its UTF-8 form: the bytes of the
//! query percent-encode set (controls, non-ASCII, space, `"`, `#`, `<`, `>`)
//! become `%XX` with upper-case hex digits, the others stay as they are.
use vstd::prelude::*;
use vstd::utf8::*;


verus! {

/// The bytes that a query component carries percent-encoded: the C0 controls,
/// DEL, every non-ASCII byte, and space, `"`, `#`, `<`, `>`.
pub open spec fn should_encode(b: u8) -> bool {
    b < 0x20 || b >= 0x7F || b == 0x20 || b == 0x22 || b == 0x23 || b == 0x3C || b == 0x3E
}

/// The upper-case hex digit (as an ASCII byte) of a value below 16.
pub open spec fn hex_digit_byte(d: u8) -> u8 {
    if d < 10 {
        (0x30 + d) as u8
    } else {
        (0x41 + d - 10) as u8
    }
}

/// `%` followed by the two upper-case hex digits of `b`.
pub open spec fn escape_bytes(b: u8) -> Seq<u8> {
    seq![0x25u8, hex_digit_byte(b / 16), hex_digit_byte(b % 16)]
}

/// The encoding of one byte.
pub open spec fn encode_unit(b: u8) -> Seq<u8> {
    if should_encode(b) {
        escape_bytes(b)
    } else {
        seq![b]
    }
}

/// The percent-encoding of a byte sequence, as ASCII bytes.
pub open spec fn percent_encode_bytes(b: Seq<u8>) -> Seq<u8>
    decreases b.len(),
{
    if b.len() == 0 {
        Seq::<u8>::empty()
    } else {
        encode_unit(b[0]) + percent_encode_bytes(b.drop_first())
    }
}

/// ASCII bytes read as characters.
pub open spec fn ascii_chars(b: Seq<u8>) -> Seq<char> {
    b.map_values(|x: u8| x as char)
}

/// The encoded form of a query component (a key or a value).
pub open spec fn query_encode(s: Seq<char>) -> Seq<char> {
    ascii_chars(percent_encode_bytes(encode_utf8(s)))
}

/// Calls `percent_encoding::percent_encode_byte`, which returns `%` and the two
/// upper-case hex digits of the byte (its source is a table of `%00` .. `%FF`).
#[verifier::external_body]
fn escape_byte(b: u8) -> (res: Vec<char>)
    ensures
        res@ == ascii_chars(escape_bytes(b)),
{
    percent_encoding::percent_encode_byte(b).chars().collect()
}

/// Percent-encodes a query component.
pub fn encode_component(s: &str) -> (res: Vec<char>)
    ensures
        res@ == query_encode(s@),
{
    let bytes = s.as_bytes();
    let ghost all = bytes@;
    let mut out: Vec<char> = Vec::new();
    let mut i: usize = 0;
    proof {
        assert(all.skip(0) =~= all);
        assert(ascii_chars(percent_encode_bytes(all)) =~= out@ + ascii_chars(
            percent_encode_bytes(all.skip(0)),
        ));
    }
    while i < bytes.len()
        invariant
            0 <= i <= bytes@.len(),
            bytes@ == all,
            all == encode_utf8(s@),
            ascii_chars(percent_encode_bytes(all)) == out@ + ascii_chars(
                percent_encode_bytes(all.skip(i as int)),
            ),
        decreases bytes@.len() - i,
    {
        let b = bytes[i];
        let ghost rest = all.skip(i as int);
        proof {
            assert(rest[0] == b);
            assert(rest.drop_first() =~= all.skip(i + 1));
            assert(percent_encode_bytes(rest) == encode_unit(b) + percent_encode_bytes(all.skip(i + 1)));
            assert(ascii_chars(percent_encode_bytes(rest)) =~= ascii_chars(encode_unit(b)) + ascii_chars(
                percent_encode_bytes(all.skip(i + 1)),
            ));
        }
        if b < 0x20 || b >= 0x7F || b == 0x20 || b == 0x22 || b == 0x23 || b == 0x3C || b == 0x3E {
            let mut e = escape_byte(b);
            out.append(&mut e);
        } else {
            out.push(b as char);
            proof {
                assert(ascii_chars(encode_unit(b)) =~= seq![b as char]);
            }
        }
        i = i + 1;
    }
    proof {
        assert(all.skip(i as int) =~= Seq::<u8>::empty());
        assert(out@ + ascii_chars(Seq::<u8>::empty()) =~= out@);
    }
    out
}

/// Whether `b` is an ASCII letter or digit: the bytes that the
/// `NON_ALPHANUMERIC` set of `percent_encoding` leaves as they are.
pub open spec fn is_ascii_alphanumeric(b: u8) -> bool {
    (0x30 <= b && b <= 0x39) || (0x41 <= b && b <= 0x5A) || (0x61 <= b && b <= 0x7A)
}

/// The encoding of one byte under `NON_ALPHANUMERIC`.
pub open spec fn alnum_encode_unit(b: u8) -> Seq<u8> {
    if is_ascii_alphanumeric(b) {
        seq![b]
    } else {
        escape_bytes(b)
    }
}

pub open spec fn alnum_encode_bytes(b: Seq<u8>) -> Seq<u8>
    decreases b.len(),
{
    if b.len() == 0 {
        Seq::<u8>::empty()
    } else {
        alnum_encode_unit(b[0]) + alnum_encode_bytes(b.drop_first())
    }
}

/// A text percent-encoded with every byte of its UTF-8 form but the ASCII
/// letters and digits escaped.
pub open spec fn alnum_encode(s: Seq<char>) -> Seq<char> {
    ascii_chars(alnum_encode_bytes(encode_utf8(s)))
}

/// Percent-encodes a text, escaping all but ASCII letters and digits.
pub fn encode_non_alphanumeric(s: &str) -> (res: Vec<char>)
    ensures
        res@ == alnum_encode(s@),
{
    let bytes = s.as_bytes();
    let ghost all = bytes@;
    let mut out: Vec<char> = Vec::new();
    let mut i: usize = 0;
    proof {
        assert(all.skip(0) =~= all);
        assert(ascii_chars(alnum_encode_bytes(all)) =~= out@ + ascii_chars(alnum_encode_bytes(all.skip(0))));
    }
    while i < bytes.len()
        invariant
            0 <= i <= bytes@.len(),
            bytes@ == all,
            all == encode_utf8(s@),
            ascii_chars(alnum_encode_bytes(all)) == out@ + ascii_chars(alnum_encode_bytes(all.skip(i as int))),
        decreases bytes@.len() - i,
    {
        let b = bytes[i];
        let ghost rest = all.skip(i as int);
        proof {
            assert(rest[0] == b);
            assert(rest.drop_first() =~= all.skip(i + 1));
            assert(alnum_encode_bytes(rest) == alnum_encode_unit(b) + alnum_encode_bytes(all.skip(i + 1)));
            assert(ascii_chars(alnum_encode_bytes(rest)) =~= ascii_chars(alnum_encode_unit(b)) + ascii_chars(
                alnum_encode_bytes(all.skip(i + 1)),
            ));
        }
        if (0x30 <= b && b <= 0x39) || (0x41 <= b && b <= 0x5A) || (0x61 <= b && b <= 0x7A) {
            out.push(b as char);
            proof {
                assert(ascii_chars(alnum_encode_unit(b)) =~= seq![b as char]);
            }
        } else {
            let mut e = escape_byte(b);
            out.append(&mut e);
        }
        i = i + 1;
    }
    proof {
        assert(all.skip(i as int) =~= Seq::<u8>::empty());
        assert(out@ + ascii_chars(Seq::<u8>::empty()) =~= out@);
    }
    out
}

/// A hex digit as `char::to_digit(16)` accepts it: `0-9`, `a-f`, `A-F`.
pub open spec fn is_hex_byte(b: u8) -> bool {
    (0x30 <= b && b <= 0x39) || (0x61 <= b && b <= 0x66) || (0x41 <= b && b <= 0x46)
}

/// The value of a hex digit.
pub open spec fn hex_value(b: u8) -> u8 {
    if 0x30 <= b && b <= 0x39 {
        (b - 0x30) as u8
    } else if 0x61 <= b && b <= 0x66 {
        (b - 0x61 + 10) as u8
    } else {
        (b - 0x41 + 10) as u8
    }
}

/// Percent-decoding of bytes: `%` followed by two hex digits becomes the byte
/// they denote; every other byte, a lone `%` included, stays.
pub open spec fn percent_decode_bytes(b: Seq<u8>) -> Seq<u8>
    decreases b.len(),
{
    if b.len() == 0 {
        Seq::<u8>::empty()
    } else if b[0] == 0x25 && b.len() >= 3 && is_hex_byte(b[1]) && is_hex_byte(b[2]) {
        seq![(hex_value(b[1]) * 16 + hex_value(b[2])) as u8] + percent_decode_bytes(b.skip(3))
    } else {
        seq![b[0]] + percent_decode_bytes(b.drop_first())
    }
}

/// What `decode_utf8_lossy` gives for a text whose percent-decoded bytes are
/// not valid UTF-8 (there, invalid sequences become U+FFFD).
pub uninterp spec fn lossy_decoded(s: Seq<char>) -> Seq<char>;

/// The decoded form of a query component.
pub open spec fn query_decode(s: Seq<char>) -> Seq<char> {
    let d = percent_decode_bytes(encode_utf8(s));
    if valid_utf8(d) {
        decode_utf8(d)
    } else {
        lossy_decoded(s)
    }
}

/// Calls `percent_encoding::percent_decode_str(s).decode_utf8_lossy()`: the
/// bytes of `s` are percent-decoded (`%` and two hex digits give one byte, a
/// lone `%` stays), and the result is read as UTF-8. When it is valid UTF-8 the
/// text is exactly those characters; otherwise the result is left to the name
/// `lossy_decoded`.
#[verifier::external_body]
pub(crate) fn decode_component(s: &str) -> (res: String)
    ensures
        res@ == (if valid_utf8(percent_decode_bytes(encode_utf8(s@))) {
            decode_utf8(percent_decode_bytes(encode_utf8(s@)))
        } else {
            lossy_decoded(s@)
        }),
{
    percent_encoding::percent_decode_str(s).decode_utf8_lossy().into_owned()
}

/// No `%` in `b` is followed by two hex digits.
pub open spec fn has_no_escape(b: Seq<u8>) -> bool {
    forall|i: int|
        0 <= i && i + 2 < b.len() && #[trigger] b[i] == 0x25 ==> !(is_hex_byte(b[i + 1]) && is_hex_byte(
            b[i + 2],
        ))
}

proof fn lemma_hex_digit(d: u8)
    requires
        d < 16,
    ensures
        is_hex_byte(hex_digit_byte(d)),
        hex_value(hex_digit_byte(d)) == d,
        hex_digit_byte(d) != 0x25,
        hex_digit_byte(d) < 0x80,
{
}

proof fn lemma_escape_value(x: u8)
    ensures
        (hex_value(hex_digit_byte(x / 16)) * 16 + hex_value(hex_digit_byte(x % 16))) as u8 == x,
{
    lemma_hex_digit(x / 16);
    lemma_hex_digit(x % 16);
}

/// Percent-encoding has every byte below 0x80, and no `%` other than those that
/// start an escape.
pub proof fn lemma_encode_ascii(b: Seq<u8>)
    ensures
        forall|i: int| 0 <= i < percent_encode_bytes(b).len() ==> #[trigger] percent_encode_bytes(b)[i] < 0x80,
        percent_encode_bytes(b).len() >= b.len(),
    decreases b.len(),
{
    if b.len() > 0 {
        lemma_encode_ascii(b.drop_first());
        lemma_hex_digit(b[0] / 16);
        lemma_hex_digit(b[0] % 16);
        let u = encode_unit(b[0]);
        let r = percent_encode_bytes(b.drop_first());
        assert forall|i: int| 0 <= i < percent_encode_bytes(b).len() implies #[trigger] percent_encode_bytes(b)[i] < 0x80 by {
            if i < u.len() {
                assert(percent_encode_bytes(b)[i] == u[i]);
            } else {
                assert(percent_encode_bytes(b)[i] == r[i - u.len()]);
            }
        }
    }
}

/// A byte that is left as it is and cannot appear in an escape is absent from
/// the encoding when it is absent from the input.
pub proof fn lemma_encode_excludes(b: Seq<u8>, c: u8)
    requires
        !should_encode(c),
        c != 0x25,
        !is_hex_byte(c),
        !b.contains(c),
    ensures
        !percent_encode_bytes(b).contains(c),
    decreases b.len(),
{
    if b.len() > 0 {
        assert(!b.drop_first().contains(c)) by {
            if b.drop_first().contains(c) {
                let i = choose|i: int| 0 <= i < b.drop_first().len() && b.drop_first()[i] == c;
                assert(b[i + 1] == c);
            }
        }
        lemma_encode_excludes(b.drop_first(), c);
        lemma_hex_digit(b[0] / 16);
        lemma_hex_digit(b[0] % 16);
        assert(b[0] != c) by {
            if b[0] == c {
                assert(b.contains(c));
            }
        }
        let u = encode_unit(b[0]);
        let r = percent_encode_bytes(b.drop_first());
        assert(!u.contains(c));
        if percent_encode_bytes(b).contains(c) {
            let i = choose|i: int| 0 <= i < percent_encode_bytes(b).len() && percent_encode_bytes(b)[i] == c;
            if i < u.len() {
                assert(u[i] == c);
            } else {
                assert(r[i - u.len()] == c);
            }
        }
    }
}

proof fn lemma_no_escape_tail(b: Seq<u8>)
    requires
        b.len() > 0,
        has_no_escape(b),
    ensures
        has_no_escape(b.drop_first()),
{
    let r = b.drop_first();
    assert forall|i: int| 0 <= i && i + 2 < r.len() && #[trigger] r[i] == 0x25 implies !(is_hex_byte(r[i + 1])
        && is_hex_byte(r[i + 2])) by {
        assert(b[i + 1] == 0x25);
        assert(b[i + 2] == r[i + 1]);
        assert(b[i + 3] == r[i + 2]);
    }
}

/// Decoding an encoded byte sequence gives it back, when it holds no `%`
/// followed by two hex digits.
pub proof fn lemma_decode_encoded(b: Seq<u8>)
    requires
        has_no_escape(b),
    ensures
        percent_decode_bytes(percent_encode_bytes(b)) == b,
    decreases b.len(),
{
    if b.len() > 0 {
        let x = b[0];
        let r = b.drop_first();
        lemma_no_escape_tail(b);
        lemma_decode_encoded(r);
        let e = percent_encode_bytes(b);
        let er = percent_encode_bytes(r);
        assert(e == encode_unit(x) + er);
        lemma_hex_digit(x / 16);
        lemma_hex_digit(x % 16);
        if should_encode(x) {
            lemma_escape_value(x);
            assert(e[0] == 0x25);
            assert(e[1] == hex_digit_byte(x / 16));
            assert(e[2] == hex_digit_byte(x % 16));
            assert(e.skip(3) =~= er);
            assert(percent_decode_bytes(e) == seq![x] + percent_decode_bytes(er));
        } else {
            assert(e[0] == x);
            assert(e.drop_first() =~= er);
            if x == 0x25 && e.len() >= 3 && is_hex_byte(e[1]) && is_hex_byte(e[2]) {
                // e[1] is the first byte of the encoding of r, e[2] the second
                assert(r.len() > 0);
                let y = r[0];
                let r2 = r.drop_first();
                lemma_hex_digit(y / 16);
                assert(er == encode_unit(y) + percent_encode_bytes(r2));
                assert(e[1] == er[0]);
                if should_encode(y) {
                    assert(er[0] == 0x25);
                } else {
                    assert(er[0] == y);
                    assert(er.len() >= 2);
                    assert(r2.len() > 0);
                    let z = r2[0];
                    lemma_hex_digit(z / 16);
                    let er2 = percent_encode_bytes(r2);
                    assert(er2 == encode_unit(z) + percent_encode_bytes(r2.drop_first()));
                    assert(e[2] == er2[0]);
                    if should_encode(z) {
                        assert(er2[0] == 0x25);
                    } else {
                        assert(er2[0] == z);
                        assert(b[1] == y);
                        assert(b[2] == z);
                        assert(b[0] == 0x25);
                    }
                }
            }
            assert(percent_decode_bytes(e) == seq![x] + percent_decode_bytes(er));
        }
        assert(seq![x] + r =~= b);
    }
}

/// UTF-8 of ASCII characters is their codes.
pub proof fn lemma_ascii_chars_utf8(b: Seq<u8>)
    requires
        forall|i: int| 0 <= i < b.len() ==> #[trigger] b[i] < 0x80,
    ensures
        encode_utf8(ascii_chars(b)) == b,
{
    let cs = ascii_chars(b);
    assert(is_ascii_chars(cs)) by {
        assert forall|i: int| 0 <= i < cs.len() implies '\0' <= #[trigger] cs[i] <= '\u{7f}' by {
            assert(cs[i] == b[i] as char);
        }
    }
    is_ascii_chars_encode_utf8(cs);
    assert forall|i: int| 0 <= i < b.len() implies #[trigger] encode_utf8(cs)[i] == b[i] by {
        assert(cs[i] == b[i] as char);
        assert(cs[i] as u8 == encode_utf8(cs)[i]);
        let x = b[i];
        assert((x as char) as u8 == x);
    }
    assert(encode_utf8(cs) =~= b);
}

/// The characters of an encoded component are ASCII, and its UTF-8 form is the
/// encoded byte sequence.
pub proof fn lemma_query_encode_bytes(s: Seq<char>)
    ensures
        encode_utf8(query_encode(s)) == percent_encode_bytes(encode_utf8(s)),
        query_encode(s).len() == percent_encode_bytes(encode_utf8(s)).len(),
{
    lemma_encode_ascii(encode_utf8(s));
    lemma_ascii_chars_utf8(percent_encode_bytes(encode_utf8(s)));
}

/// A text whose UTF-8 form holds no `%` followed by two hex digits.
pub open spec fn has_no_escape_text(s: Seq<char>) -> bool {
    has_no_escape(encode_utf8(s))
}

/// Decoding the encoding of a component gives the component back, unless it
/// holds `%` followed by two hex digits.
pub proof fn lemma_query_decode_encode(s: Seq<char>)
    requires
        has_no_escape_text(s),
    ensures
        query_decode(query_encode(s)) == s,
{
    lemma_query_encode_bytes(s);
    lemma_decode_encoded(encode_utf8(s));
    encode_utf8_valid_utf8(s);
    encode_utf8_decode_utf8(s);
}

/// `query_encode` keeps a byte-level character out when the input lacks it.
pub proof fn lemma_query_encode_excludes(s: Seq<char>, c: u8)
    requires
        !should_encode(c),
        c != 0x25,
        !is_hex_byte(c),
        !encode_utf8(s).contains(c),
    ensures
        !query_encode(s).contains(c as char),
{
    lemma_encode_excludes(encode_utf8(s), c);
    lemma_encode_ascii(encode_utf8(s));
    let e = percent_encode_bytes(encode_utf8(s));
    if query_encode(s).contains(c as char) {
        let i = choose|i: int| 0 <= i < query_encode(s).len() && query_encode(s)[i] == c as char;
        assert(query_encode(s)[i] == e[i] as char);
        assert(e[i] < 0x80);
        let y = e[i];
        assert((y as char) as u8 == y);
        assert((c as char) as u8 == c);
        assert(e[i] == c);
    }
}

/// Encoding keeps a non-empty text non-empty.
pub proof fn lemma_query_encode_nonempty(s: Seq<char>)
    requires
        s.len() > 0,
    ensures
        query_encode(s).len() > 0,
{
    lemma_query_encode_bytes(s);
    lemma_encode_ascii(encode_utf8(s));
    lemma_utf8_nonempty(s);
}

pub proof fn lemma_utf8_nonempty(s: Seq<char>)
    requires
        s.len() > 0,
    ensures
        encode_utf8(s).len() > 0,
{
    assert(encode_utf8(s) == encode_scalar(s[0] as u32) + encode_utf8(s.drop_first()));
}

/// Every byte of a `NON_ALPHANUMERIC` encoding is an ASCII letter or digit
/// or the `%` of an escape.
proof fn lemma_alnum_encode_bytes_shape(b: Seq<u8>)
    ensures
        forall|i: int|
            0 <= i < alnum_encode_bytes(b).len() ==> is_ascii_alphanumeric(
                #[trigger] alnum_encode_bytes(b)[i],
            ) || alnum_encode_bytes(b)[i] == 0x25,
    decreases b.len(),
{
    if b.len() > 0 {
        let x = b[0];
        lemma_alnum_encode_bytes_shape(b.drop_first());
        lemma_hex_digit(x / 16);
        lemma_hex_digit(x % 16);
        let u = alnum_encode_unit(x);
        let r = alnum_encode_bytes(b.drop_first());
        assert forall|i: int| 0 <= i < u.len() implies is_ascii_alphanumeric(#[trigger] u[i]) || u[i]
            == 0x25 by {
            if !is_ascii_alphanumeric(x) {
                assert(u == escape_bytes(x));
            }
        }
        assert forall|i: int| 0 <= i < alnum_encode_bytes(b).len() implies is_ascii_alphanumeric(
            #[trigger] alnum_encode_bytes(b)[i],
        ) || alnum_encode_bytes(b)[i] == 0x25 by {
            assert(alnum_encode_bytes(b) == u + r);
            if i >= u.len() {
                assert(alnum_encode_bytes(b)[i] == r[i - u.len()]);
            }
        }
    }
}

/// Percent-decoding undoes the `NON_ALPHANUMERIC` encoding, for every byte
/// sequence.
pub proof fn lemma_alnum_decode_encoded(b: Seq<u8>)
    ensures
        percent_decode_bytes(alnum_encode_bytes(b)) == b,
    decreases b.len(),
{
    if b.len() > 0 {
        let x = b[0];
        let r = b.drop_first();
        lemma_alnum_decode_encoded(r);
        let e = alnum_encode_bytes(b);
        let er = alnum_encode_bytes(r);
        assert(e == alnum_encode_unit(x) + er);
        if is_ascii_alphanumeric(x) {
            assert(e[0] == x);
            assert(e.drop_first() =~= er);
            assert(percent_decode_bytes(e) == seq![x] + percent_decode_bytes(er));
        } else {
            lemma_hex_digit(x / 16);
            lemma_hex_digit(x % 16);
            lemma_escape_value(x);
            assert(e[0] == 0x25);
            assert(e[1] == hex_digit_byte(x / 16));
            assert(e[2] == hex_digit_byte(x % 16));
            assert(e.skip(3) =~= er);
            assert(percent_decode_bytes(e) == seq![x] + percent_decode_bytes(er));
        }
        assert(seq![x] + r =~= b);
    }
}

/// A text encoded with `NON_ALPHANUMERIC` and decoded again is the text
/// itself, whatever it holds; the encoding holds no `=` and no `&`.
pub proof fn lemma_alnum_encode_decode(s: Seq<char>)
    ensures
        query_decode(alnum_encode(s)) == s,
        !alnum_encode(s).contains('='),
        !alnum_encode(s).contains('&'),
{
    let e = alnum_encode_bytes(encode_utf8(s));
    lemma_alnum_encode_bytes_shape(encode_utf8(s));
    assert forall|i: int| 0 <= i < e.len() implies #[trigger] e[i] < 0x80 by {
    }
    lemma_ascii_chars_utf8(e);
    lemma_alnum_decode_encoded(encode_utf8(s));
    encode_utf8_valid_utf8(s);
    encode_utf8_decode_utf8(s);
    let t = alnum_encode(s);
    assert forall|i: int| 0 <= i < t.len() implies #[trigger] t[i] != '=' && t[i] != '&' by {
        let y = e[i];
        assert(t[i] == y as char);
        assert(is_ascii_alphanumeric(y) || y == 0x25);
    }
}

} // verus!
