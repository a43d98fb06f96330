//! Hexadecimal text of byte strings, and its parser.

use vstd::prelude::*;
use vstd::string::StringSliceAdditionalSpecFns;

verus! {

/// ASCII code of the lowercase hexadecimal digit for `n < 16`.
pub open spec fn hex_digit(n: u8) -> u8 {
    if n < 10 {
        (48 + n) as u8
    } else {
        (87 + n) as u8
    }
}

/// The two ASCII digits of a byte.
pub open spec fn hex_pair(b: u8) -> Seq<u8> {
    seq![hex_digit(b / 16), hex_digit(b % 16)]
}

/// ASCII hexadecimal digits of `s`, two per byte, no separators.
pub open spec fn hex_ascii(s: Seq<u8>) -> Seq<u8>
    decreases s.len(),
{
    if s.len() == 0 {
        seq![]
    } else {
        hex_ascii(s.drop_last()) + hex_pair(s.last())
    }
}

/// ASCII hexadecimal digits of `s`, two per byte, a space between bytes.
pub open spec fn hex_ascii_spaced(s: Seq<u8>) -> Seq<u8>
    decreases s.len(),
{
    if s.len() == 0 {
        seq![]
    } else if s.len() == 1 {
        hex_pair(s[0])
    } else {
        hex_ascii_spaced(s.drop_last()) + seq![0x20u8] + hex_pair(s.last())
    }
}

/// The characters of an ASCII byte string.
pub open spec fn ascii_chars(s: Seq<u8>) -> Seq<char> {
    s.map_values(|b: u8| b as char)
}

/// Text of `s` as compact lowercase hexadecimal.
pub open spec fn hex_text(s: Seq<u8>) -> Seq<char> {
    ascii_chars(hex_ascii(s))
}

/// Text of `s` as lowercase hexadecimal with spaces between bytes.
pub open spec fn hex_text_spaced(s: Seq<u8>) -> Seq<char> {
    ascii_chars(hex_ascii_spaced(s))
}

/// Whether an ASCII byte string holds only 7-bit values.
pub open spec fn all_ascii(s: Seq<u8>) -> bool {
    forall|i: int| 0 <= i < s.len() ==> s[i] < 128
}

/// Relies on `String::from_utf8`: a string of 7-bit bytes is valid UTF-8
/// and holds one character per byte.
#[verifier::external_body]
pub(crate) fn ascii_string(bytes: Vec<u8>) -> (r: String)
    requires
        all_ascii(bytes@),
    ensures
        r@ == ascii_chars(bytes@),
{
    String::from_utf8(bytes).unwrap_or_default()
}

fn digit_of(n: u8) -> (r: u8)
    requires
        n < 16,
    ensures
        r == hex_digit(n),
        r < 128,
{
    if n < 10 {
        48 + n
    } else {
        87 + n
    }
}

proof fn lemma_hex_ascii_is_ascii(s: Seq<u8>)
    ensures
        all_ascii(hex_ascii(s)),
        all_ascii(hex_ascii_spaced(s)),
    decreases s.len(),
{
    if s.len() > 0 {
        lemma_hex_ascii_is_ascii(s.drop_last());
        assert(hex_digit(s.last() / 16) < 128);
        assert(hex_digit(s.last() % 16) < 128);
    }
}

/// Lowercase hexadecimal text of `bytes`, without separators.
pub fn bytes_to_hex(bytes: &[u8]) -> (r: String)
    ensures
        r@ == hex_text(bytes@),
{
    let mut out: Vec<u8> = Vec::new();
    let mut i: usize = 0;
    while i < bytes.len()
        invariant
            i <= bytes@.len(),
            out@ == hex_ascii(bytes@.subrange(0, i as int)),
        decreases bytes.len() - i,
    {
        let b = bytes[i];
        out.push(digit_of(b / 16));
        out.push(digit_of(b % 16));
        proof {
            assert(bytes@.subrange(0, i + 1).drop_last() =~= bytes@.subrange(0, i as int));
            assert(out@ =~= hex_ascii(bytes@.subrange(0, i + 1)));
        }
        i += 1;
    }
    proof {
        assert(bytes@.subrange(0, bytes@.len() as int) =~= bytes@);
        lemma_hex_ascii_is_ascii(bytes@);
    }
    ascii_string(out)
}

/// Lowercase hexadecimal text of `bytes`, with one space between bytes.
pub fn bytes_to_hex_spaced(bytes: &[u8]) -> (r: String)
    ensures
        r@ == hex_text_spaced(bytes@),
{
    let mut out: Vec<u8> = Vec::new();
    let mut i: usize = 0;
    while i < bytes.len()
        invariant
            i <= bytes@.len(),
            out@ == hex_ascii_spaced(bytes@.subrange(0, i as int)),
        decreases bytes.len() - i,
    {
        let b = bytes[i];
        if i != 0 {
            out.push(0x20);
        }
        out.push(digit_of(b / 16));
        out.push(digit_of(b % 16));
        proof {
            assert(bytes@.subrange(0, i + 1).drop_last() =~= bytes@.subrange(0, i as int));
            assert(out@ =~= hex_ascii_spaced(bytes@.subrange(0, i + 1)));
        }
        i += 1;
    }
    proof {
        assert(bytes@.subrange(0, bytes@.len() as int) =~= bytes@);
        lemma_hex_ascii_is_ascii(bytes@);
    }
    ascii_string(out)
}

/// Whether `b` is ASCII whitespace (space, tab, line feed, form feed,
/// carriage return).
pub open spec fn is_ascii_space(b: u8) -> bool {
    b == 0x20 || b == 0x09 || b == 0x0a || b == 0x0c || b == 0x0d
}

/// Value of a hexadecimal digit (either case), if `b` is one.
pub open spec fn hex_value(b: u8) -> Option<u8> {
    if 48 <= b <= 57 {
        Some((b - 48) as u8)
    } else if 97 <= b <= 102 {
        Some((b - 87) as u8)
    } else if 65 <= b <= 70 {
        Some((b - 55) as u8)
    } else {
        None
    }
}

/// The bytes of `s` without ASCII whitespace.
pub open spec fn strip_spaces(s: Seq<u8>) -> Seq<u8> {
    s.filter(not_space())
}

/// The test that keeps a byte that is not ASCII whitespace.
pub open spec fn not_space() -> spec_fn(u8) -> bool {
    |b: u8| !is_ascii_space(b)
}

/// The bytes that a string of hexadecimal digit pairs denotes, or `None`
/// when its length is odd or a character is not a digit.
pub open spec fn hex_decode(d: Seq<u8>) -> Option<Seq<u8>>
    decreases d.len(),
{
    if d.len() == 0 {
        Some(seq![])
    } else if d.len() == 1 {
        None
    } else {
        match (hex_decode(d.subrange(0, d.len() - 2)), hex_value(d[d.len() - 2]), hex_value(d.last())) {
            (Some(front), Some(hi), Some(lo)) => Some(front.push((hi * 16 + lo) as u8)),
            _ => None,
        }
    }
}

fn value_of(b: u8) -> (r: Option<u8>)
    ensures
        r == hex_value(b),
{
    if 48 <= b && b <= 57 {
        Some(b - 48)
    } else if 97 <= b && b <= 102 {
        Some(b - 87)
    } else if 65 <= b && b <= 70 {
        Some(b - 55)
    } else {
        None
    }
}

/// Parses hexadecimal text, ignoring ASCII whitespace. Fails with a message
/// when the digits are odd in number or a character is not a digit.
pub fn parse_hex(s: &str) -> (r: core::result::Result<Vec<u8>, String>)
    ensures
        hex_decode(strip_spaces(s.spec_bytes())) matches Some(v) ==> (r matches Ok(out) && out@ == v),
        hex_decode(strip_spaces(s.spec_bytes())) is None ==> r is Err,
{
    let bytes = s.as_bytes();
    let mut digits: Vec<u8> = Vec::new();
    let mut i: usize = 0;
    while i < bytes.len()
        invariant
            i <= bytes@.len(),
            bytes@ == s.spec_bytes(),
            digits@ == strip_spaces(bytes@.subrange(0, i as int)),
        decreases bytes.len() - i,
    {
        let b = bytes[i];
        proof {
            let next = bytes@.subrange(0, i + 1);
            assert(next.drop_last() =~= bytes@.subrange(0, i as int));
            reveal(Seq::filter);
        }
        if !(b == 0x20 || b == 0x09 || b == 0x0a || b == 0x0c || b == 0x0d) {
            digits.push(b);
        }
        i += 1;
    }
    proof {
        assert(bytes@.subrange(0, bytes@.len() as int) =~= bytes@);
    }
    if digits.len() % 2 != 0 {
        proof {
            lemma_odd_fails(digits@);
        }
        return Err("hex string has odd length".to_string());
    }
    let mut out: Vec<u8> = Vec::new();
    let mut j: usize = 0;
    while j < digits.len()
        invariant
            j <= digits@.len(),
            j % 2 == 0,
            digits@.len() % 2 == 0,
            digits@ == strip_spaces(s.spec_bytes()),
            hex_decode(digits@.subrange(0, j as int)) == Some(out@),
        decreases digits.len() - j,
    {
        let hi = value_of(digits[j]);
        let lo = value_of(digits[j + 1]);
        proof {
            let next = digits@.subrange(0, j + 2);
            assert(next.subrange(0, next.len() - 2) =~= digits@.subrange(0, j as int));
        }
        match (hi, lo) {
            (Some(h), Some(l)) => {
                out.push(h * 16 + l);
            },
            _ => {
                proof {
                    let next = digits@.subrange(0, j + 2);
                    assert(next[next.len() - 2] == digits@[j as int]);
                    assert(next.last() == digits@[j + 1]);
                    assert(hex_decode(next) is None);
                    lemma_bad_prefix_fails(digits@, j as int + 2);
                }
                return Err("invalid hex pair".to_string());
            },
        }
        j += 2;
    }
    proof {
        assert(digits@.subrange(0, digits@.len() as int) =~= digits@);
    }
    Ok(out)
}

proof fn lemma_odd_fails(d: Seq<u8>)
    requires
        d.len() % 2 == 1,
    ensures
        hex_decode(d) is None,
    decreases d.len(),
{
    if d.len() > 1 {
        lemma_odd_fails(d.subrange(0, d.len() - 2));
    }
}

proof fn lemma_bad_prefix_fails(d: Seq<u8>, k: int)
    requires
        0 <= k <= d.len(),
        k % 2 == 0,
        d.len() % 2 == 0,
        hex_decode(d.subrange(0, k)) is None,
    ensures
        hex_decode(d) is None,
    decreases d.len() - k,
{
    if k < d.len() {
        let next = d.subrange(0, k + 2);
        assert(next.subrange(0, next.len() - 2) =~= d.subrange(0, k));
        lemma_bad_prefix_fails(d, k + 2);
    } else {
        assert(d.subrange(0, k) =~= d);
    }
}

proof fn lemma_strip_single(x: u8)
    ensures
        strip_spaces(seq![x]) == (if is_ascii_space(x) {
            Seq::<u8>::empty()
        } else {
            seq![x]
        }),
{
    reveal_with_fuel(Seq::filter, 2);
    assert(seq![x].drop_last() =~= Seq::<u8>::empty());
    assert(seq![x].last() == x);
    if !is_ascii_space(x) {
        assert(Seq::<u8>::empty().push(x) =~= seq![x]);
    }
}

proof fn lemma_strip_pair(b: u8)
    ensures
        strip_spaces(hex_pair(b)) == hex_pair(b),
{
    let d1 = hex_digit(b / 16);
    let d2 = hex_digit(b % 16);
    assert(hex_pair(b) =~= seq![d1] + seq![d2]);
    Seq::filter_distributes_over_add(seq![d1], seq![d2], not_space());
    lemma_strip_single(d1);
    lemma_strip_single(d2);
}

proof fn lemma_hex_ascii_len(s: Seq<u8>)
    ensures
        hex_ascii(s).len() == 2 * s.len(),
    decreases s.len(),
{
    if s.len() > 0 {
        lemma_hex_ascii_len(s.drop_last());
    }
}

proof fn lemma_strip_hex(s: Seq<u8>)
    ensures
        strip_spaces(hex_ascii(s)) == hex_ascii(s),
    decreases s.len(),
{
    if s.len() == 0 {
        assert(hex_ascii(s).len() == 0);
        assert(strip_spaces(hex_ascii(s)) =~= hex_ascii(s));
    } else {
        lemma_strip_hex(s.drop_last());
        lemma_strip_pair(s.last());
        Seq::filter_distributes_over_add(hex_ascii(s.drop_last()), hex_pair(s.last()), not_space());
    }
}

proof fn lemma_strip_spaced(s: Seq<u8>)
    ensures
        strip_spaces(hex_ascii_spaced(s)) == hex_ascii(s),
    decreases s.len(),
{
    if s.len() == 0 {
        assert(strip_spaces(hex_ascii_spaced(s)) =~= hex_ascii(s));
    } else if s.len() == 1 {
        lemma_strip_pair(s[0]);
        assert(s.drop_last().len() == 0);
        assert(hex_ascii(s.drop_last()) =~= Seq::<u8>::empty());
        assert(s.last() == s[0]);
        assert(hex_ascii(s) =~= hex_pair(s[0]));
    } else {
        let prev = s.drop_last();
        lemma_strip_spaced(prev);
        lemma_strip_pair(s.last());
        lemma_strip_single(0x20u8);
        Seq::filter_distributes_over_add(
            hex_ascii_spaced(prev) + seq![0x20u8],
            hex_pair(s.last()),
            not_space(),
        );
        Seq::filter_distributes_over_add(hex_ascii_spaced(prev), seq![0x20u8], not_space());
        assert(hex_ascii(prev) + Seq::<u8>::empty() =~= hex_ascii(prev));
    }
}

proof fn lemma_digit_value(n: u8)
    requires
        n < 16,
    ensures
        hex_value(hex_digit(n)) == Some(n),
{
}

proof fn lemma_decode_hex(s: Seq<u8>)
    ensures
        hex_decode(hex_ascii(s)) == Some(s),
    decreases s.len(),
{
    if s.len() > 0 {
        let prev = s.drop_last();
        let b = s.last();
        lemma_decode_hex(prev);
        lemma_hex_ascii_len(prev);
        let d = hex_ascii(s);
        assert(d.subrange(0, d.len() - 2) =~= hex_ascii(prev));
        assert(d[d.len() - 2] == hex_digit(b / 16));
        assert(d.last() == hex_digit(b % 16));
        lemma_digit_value(b / 16);
        lemma_digit_value(b % 16);
        assert(((b / 16) * 16 + b % 16) as u8 == b);
        assert(prev.push(b) =~= s);
    }
}

/// Printing bytes as hexadecimal text, with or without spaces, and parsing
/// the text back gives the bytes.
pub proof fn hex_round_trip(s: Seq<u8>)
    ensures
        hex_decode(strip_spaces(hex_ascii(s))) == Some(s),
        hex_decode(strip_spaces(hex_ascii_spaced(s))) == Some(s),
{
    lemma_strip_hex(s);
    lemma_strip_spaced(s);
    lemma_decode_hex(s);
}

} // verus!
