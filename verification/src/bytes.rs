//! Bytes and their hexadecimal and printable forms.

use crate::numbers::{
    decimal, decimal_text, digit_char, digit_value, equal_but_for_case, read_digit, write_digit,
};
use crate::text::{chars_of, is_white, white};
use vstd::prelude::*;
use vstd::utf8::{encode_scalar, encode_utf8};

verus! {

// ---------------------------------------------------------------------------
// Writing
// ---------------------------------------------------------------------------

/// The two hexadecimal digits of a byte.
pub open spec fn hex_pair(b: u8) -> Seq<char> {
    seq![digit_char(b as nat / 16), digit_char(b as nat % 16)]
}

/// The bytes in hexadecimal, two digits each.
pub open spec fn hex_encoded(bytes: Seq<u8>) -> Seq<char>
    decreases bytes.len(),
{
    if bytes.len() == 0 {
        seq![]
    } else {
        hex_encoded(bytes.drop_last()) + hex_pair(bytes.last())
    }
}

/// The bytes in hexadecimal, two digits each.
pub fn hex_encode(bytes: &Vec<u8>) -> (r: String)
    ensures
        r@ == hex_encoded(bytes@),
{
    let mut out = String::new();
    let mut i: usize = 0;
    while i < bytes.len()
        invariant
            i <= bytes.len(),
            out@ == hex_encoded(bytes@.take(i as int)),
        decreases bytes.len() - i,
    {
        let b: u8 = bytes[i];
        let high: u64 = (b / 16) as u64;
        let low: u64 = (b % 16) as u64;
        out.push(write_digit(high));
        out.push(write_digit(low));
        i = i + 1;
        proof {
            let now = bytes@.take(i as int);
            assert(now.drop_last() =~= bytes@.take(i - 1));
            assert(out@ =~= hex_encoded(now));
        }
    }
    assert(bytes@.take(bytes.len() as int) =~= bytes@);
    out
}

/// Whether the byte is a printable ASCII character, the blank among them.
pub open spec fn is_printable(b: u8) -> bool {
    0x20 <= b <= 0x7e
}

/// The bytes as text: printable ASCII as it is, a dot for every other byte.
pub open spec fn ascii_of(bytes: Seq<u8>) -> Seq<char> {
    bytes.map_values(
        |b: u8|
            if is_printable(b) {
                b as char
            } else {
                '.'
            },
    )
}

/// The bytes as text: printable ASCII as it is, a dot for every other byte.
pub fn bytes_to_ascii(bytes: &Vec<u8>) -> (r: String)
    ensures
        r@ == ascii_of(bytes@),
{
    let mut out = String::new();
    let mut i: usize = 0;
    while i < bytes.len()
        invariant
            i <= bytes.len(),
            out@ =~= ascii_of(bytes@).take(i as int),
        decreases bytes.len() - i,
    {
        let b: u8 = bytes[i];
        if 0x20 <= b && b <= 0x7e {
            out.push(b as char);
        } else {
            out.push('.');
        }
        i = i + 1;
    }
    assert(ascii_of(bytes@).take(bytes.len() as int) =~= ascii_of(bytes@));
    out
}

// ---------------------------------------------------------------------------
// Words as bytes
// ---------------------------------------------------------------------------

/// The `n` low bytes of `v`, the lowest first.
pub open spec fn le_bytes(v: nat, n: nat) -> Seq<u8>
    decreases n,
{
    if n == 0 {
        seq![]
    } else {
        seq![(v % 256) as u8] + le_bytes(v / 256, (n - 1) as nat)
    }
}

/// The number that bytes stand for, the lowest first.
pub open spec fn le_value(bytes: Seq<u8>) -> nat
    decreases bytes.len(),
{
    if bytes.len() == 0 {
        0
    } else {
        bytes[0] as nat + 256 * le_value(bytes.drop_first())
    }
}

/// The eight bytes of a word, the lowest first.
pub fn word_bytes(v: u64) -> (r: Vec<u8>)
    ensures
        r@ == le_bytes(v as nat, 8),
{
    let mut out: Vec<u8> = Vec::new();
    let mut rest: u64 = v;
    let mut i: usize = 0;
    assert(out@ + le_bytes(rest as nat, (8 - i) as nat) =~= le_bytes(v as nat, 8));
    while i < 8
        invariant
            i <= 8,
            out@ + le_bytes(rest as nat, (8 - i) as nat) == le_bytes(v as nat, 8),
        decreases 8 - i,
    {
        let ghost before = out@;
        let b: u8 = (rest % 256) as u8;
        out.push(b);
        assert(out@ + le_bytes((rest / 256) as nat, (8 - i - 1) as nat) =~= before + le_bytes(
            rest as nat,
            (8 - i) as nat,
        ));
        rest = rest / 256;
        i = i + 1;
    }
    assert(out@ =~= le_bytes(v as nat, 8));
    out
}

/// The bytes in the opposite order.
pub fn reversed(bytes: &Vec<u8>) -> (r: Vec<u8>)
    ensures
        r@ == bytes@.reverse(),
{
    let mut out: Vec<u8> = Vec::new();
    let mut i: usize = bytes.len();
    while i > 0
        invariant
            i <= bytes.len(),
            out.len() == bytes.len() - i,
            forall|j: int| 0 <= j < out.len() ==> out[j] == bytes@[bytes.len() - 1 - j],
        decreases i,
    {
        i = i - 1;
        out.push(bytes[i]);
    }
    assert(out@ =~= bytes@.reverse());
    out
}

/// The bytes without the zeros at their end; one byte at least stays.
pub open spec fn without_last_zeros(bytes: Seq<u8>) -> Seq<u8>
    decreases bytes.len(),
{
    if bytes.len() > 1 && bytes.last() == 0 {
        without_last_zeros(bytes.drop_last())
    } else {
        bytes
    }
}

/// The bytes without the zeros at their start; one byte at least stays.
pub open spec fn without_first_zeros(bytes: Seq<u8>) -> Seq<u8>
    decreases bytes.len(),
{
    if bytes.len() > 1 && bytes[0] == 0 {
        without_first_zeros(bytes.drop_first())
    } else {
        bytes
    }
}

/// The bytes without the zeros at their end; one byte at least stays.
pub fn trim_bytes_le(bytes: &Vec<u8>) -> (r: Vec<u8>)
    ensures
        r@ == without_last_zeros(bytes@),
{
    let mut out: Vec<u8> = Vec::new();
    let mut i: usize = 0;
    while i < bytes.len()
        invariant
            i <= bytes.len(),
            out@ =~= bytes@.take(i as int),
        decreases bytes.len() - i,
    {
        out.push(bytes[i]);
        i = i + 1;
    }
    assert(out@ =~= bytes@);
    while out.len() > 1 && out[out.len() - 1] == 0
        invariant
            without_last_zeros(out@) == without_last_zeros(bytes@),
        decreases out.len(),
    {
        let ghost before = out@;
        let _ = out.pop();
        assert(out@ =~= before.drop_last());
    }
    out
}

/// The bytes without the zeros at their start; one byte at least stays.
pub fn trim_bytes_be(bytes: &Vec<u8>) -> (r: Vec<u8>)
    ensures
        r@ == without_first_zeros(bytes@),
{
    let mut start: usize = 0;
    assert(bytes@.skip(0) =~= bytes@);
    while bytes.len() - start > 1 && bytes[start] == 0
        invariant
            start <= bytes.len(),
            without_first_zeros(bytes@.skip(start as int)) == without_first_zeros(bytes@),
        decreases bytes.len() - start,
    {
        proof {
            let now = bytes@.skip(start as int);
            assert(now.drop_first() =~= bytes@.skip(start + 1));
        }
        start = start + 1;
    }
    let mut out: Vec<u8> = Vec::new();
    let mut i: usize = start;
    while i < bytes.len()
        invariant
            start <= i <= bytes.len(),
            out@ =~= bytes@.subrange(start as int, i as int),
        decreases bytes.len() - i,
    {
        out.push(bytes[i]);
        i = i + 1;
    }
    assert(out@ =~= bytes@.skip(start as int));
    out
}

/// The bytes of a word, lowest first, stand for that word, with or without the zeros at their end.
pub proof fn lemma_word_read_back(v: u64)
    ensures
        le_value(le_bytes(v as nat, 8)) == v,
        le_value(without_last_zeros(le_bytes(v as nat, 8))) == v,
{
    assert(pow256(8) == 0x1_0000_0000_0000_0000nat) by {
        reveal_with_fuel(pow256, 9);
    }
    lemma_le_bytes(v as nat, 8);
    lemma_trim_keeps_value(le_bytes(v as nat, 8));
}

spec fn pow256(n: nat) -> nat
    decreases n,
{
    if n == 0 {
        1
    } else {
        256 * pow256((n - 1) as nat)
    }
}

proof fn lemma_le_bytes(v: nat, n: nat)
    requires
        v < pow256(n),
    ensures
        le_bytes(v, n).len() == n,
        le_value(le_bytes(v, n)) == v,
    decreases n,
{
    if n > 0 {
        lemma_le_bytes(v / 256, (n - 1) as nat);
        assert(le_bytes(v, n).drop_first() =~= le_bytes(v / 256, (n - 1) as nat));
    }
}

proof fn lemma_trim_keeps_value(bytes: Seq<u8>)
    ensures
        le_value(without_last_zeros(bytes)) == le_value(bytes),
    decreases bytes.len(),
{
    if bytes.len() > 1 && bytes.last() == 0 {
        lemma_trim_keeps_value(bytes.drop_last());
        lemma_last_zero(bytes);
    }
}

proof fn lemma_last_zero(bytes: Seq<u8>)
    requires
        bytes.len() > 0,
        bytes.last() == 0,
    ensures
        le_value(bytes.drop_last()) == le_value(bytes),
    decreases bytes.len(),
{
    if bytes.len() == 1 {
        assert(bytes.drop_first() =~= seq![]);
        assert(le_value(seq![]) == 0);
    } else {
        lemma_last_zero(bytes.drop_first());
        assert(bytes.drop_first().drop_last() =~= bytes.drop_last().drop_first());
    }
}

// ---------------------------------------------------------------------------
// Reading
// ---------------------------------------------------------------------------

/// The number of bytes that a character takes in UTF-8.
pub open spec fn width(c: char) -> nat {
    let n = c as u32;
    if n < 0x80 {
        1
    } else if n < 0x800 {
        2
    } else if n < 0x1_0000 {
        3
    } else {
        4
    }
}

/// The number of bytes that a text takes in UTF-8.
pub open spec fn byte_len(s: Seq<char>) -> nat
    decreases s.len(),
{
    if s.len() == 0 {
        0
    } else {
        byte_len(s.drop_last()) + width(s.last())
    }
}

/// The byte that two hexadecimal digits stand for; the first may be a `+` instead.
pub open spec fn pair_value(a: char, b: char) -> Option<u8> {
    match (digit_value(a, 16), digit_value(b, 16)) {
        (Some(x), Some(y)) => Some((x * 16 + y) as u8),
        (None, Some(y)) => if a == '+' {
            Some(y as u8)
        } else {
            None
        },
        _ => None,
    }
}

/// The bytes that pairs of digits from position `at` on stand for, or the position of the first
/// pair that stands for none.
pub open spec fn pair_bytes(s: Seq<char>, at: int) -> Result<Seq<u8>, int>
    decreases s.len() - at,
{
    if at < 0 || at >= s.len() {
        Ok(seq![])
    } else if at + 1 < s.len() && pair_value(s[at], s[at + 1]) is Some {
        match pair_bytes(s, at + 2) {
            Ok(rest) => Ok(seq![pair_value(s[at], s[at + 1])->0] + rest),
            Err(e) => Err(e),
        }
    } else {
        Err(at)
    }
}

/// The text without its white space.
pub open spec fn without_white(s: Seq<char>) -> Seq<char> {
    s.filter(|c: char| !is_white(c))
}

/// The characters of a text that are no white space.
fn drop_white(s: &str) -> (r: Vec<char>)
    ensures
        r@ == without_white(s@),
{
    let chars = chars_of(s);
    let mut out: Vec<char> = Vec::new();
    let mut i: usize = 0;
    let ghost keep = |c: char| !is_white(c);
    assert(chars@.take(0).filter(keep) =~= seq![]) by {
        reveal(Seq::filter);
    }
    while i < chars.len()
        invariant
            i <= chars.len(),
            keep == (|c: char| !is_white(c)),
            out@ == chars@.take(i as int).filter(keep),
        decreases chars.len() - i,
    {
        proof {
            let next = chars@.take(i + 1);
            assert(next.drop_last() =~= chars@.take(i as int));
            reveal(Seq::filter);
        }
        if !white(chars[i]) {
            out.push(chars[i]);
        }
        i = i + 1;
    }
    assert(chars@.take(chars.len() as int) =~= s@);
    out
}

/// Whether the characters take an odd number of bytes in UTF-8.
fn odd_byte_len(chars: &Vec<char>) -> (r: bool)
    ensures
        r == (byte_len(chars@) % 2 == 1),
{
    let mut odd = false;
    let mut i: usize = 0;
    while i < chars.len()
        invariant
            i <= chars.len(),
            odd == (byte_len(chars@.take(i as int)) % 2 == 1),
        decreases chars.len() - i,
    {
        let n: u32 = chars[i] as u32;
        if n < 0x80 || (0x800 <= n && n < 0x1_0000) {
            odd = !odd;
        }
        i = i + 1;
        proof {
            let now = chars@.take(i as int);
            assert(now.drop_last() =~= chars@.take(i - 1));
            assert(now.last() == chars[i - 1]);
        }
    }
    assert(chars@.take(chars.len() as int) =~= chars@);
    odd
}

/// The byte that two hexadecimal digits stand for; the first may be a `+` instead.
fn read_pair(a: char, b: char) -> (r: Option<u8>)
    ensures
        r == pair_value(a, b),
{
    match read_digit(b, 16) {
        None => None,
        Some(y) => {
            let low: u8 = y as u8;
            match read_digit(a, 16) {
                Some(x) => {
                    let high: u8 = x as u8;
                    Some(high * 16 + low)
                },
                None => if a == '+' {
                    Some(low)
                } else {
                    None
                },
            }
        },
    }
}

/// The bytes of a text of hexadecimal digits, two for each byte, with white space anywhere.
///
/// A pair that does not stand for a byte is named by its position among the bytes of the text
/// without white space. A wide character makes the pair that it falls into such a pair.
pub fn parse_hex_bytes(s: &str) -> (r: Result<Vec<u8>, String>)
    ensures
        ({
            let t = without_white(s@);
            &&& byte_len(t) % 2 == 1 ==> (r matches Err(e) && e@
                == "Hex bytes string has odd length"@)
            &&& byte_len(t) % 2 == 0 ==> match pair_bytes(t, 0) {
                Ok(bytes) => r matches Ok(v) && v@ == bytes,
                Err(at) => r matches Err(e) && e@ == "Invalid hex byte at position "@ + decimal(
                    at as nat,
                ),
            }
        }),
{
    let chars = drop_white(s);
    let ghost t = without_white(s@);
    if odd_byte_len(&chars) {
        return Err("Hex bytes string has odd length".to_owned());
    }
    let mut out: Vec<u8> = Vec::new();
    let mut i: usize = 0;
    proof {
        if pair_bytes(t, 0) is Ok {
            assert(out@ + pair_bytes(t, 0)->Ok_0 =~= pair_bytes(t, 0)->Ok_0);
        }
    }
    while i < chars.len()
        invariant
            i <= chars.len(),
            chars@ == t,
            t == without_white(s@),
            byte_len(t) % 2 == 0,
            pair_bytes(t, 0) is Err <==> pair_bytes(t, i as int) is Err,
            pair_bytes(t, 0) is Err ==> pair_bytes(t, 0) == pair_bytes(t, i as int),
            pair_bytes(t, 0) is Ok ==> out@ + pair_bytes(t, i as int)->Ok_0 == pair_bytes(
                t,
                0,
            )->Ok_0,
        decreases chars.len() - i,
    {
        let found: Option<u8> = if chars.len() - i >= 2 {
            read_pair(chars[i], chars[i + 1])
        } else {
            None
        };
        match found {
            None => {
                let mut e = "Invalid hex byte at position ".to_owned();
                e.push_str(decimal_text(i as u64).as_str());
                return Err(e);
            },
            Some(b) => {
                let ghost before = out@;
                out.push(b);
                proof {
                    if pair_bytes(t, 0) is Ok {
                        assert(out@ + pair_bytes(t, i + 2)->Ok_0 =~= before + pair_bytes(
                            t,
                            i as int,
                        )->Ok_0);
                    }
                }
                i = i + 2;
            },
        }
    }
    assert(pair_bytes(t, 0) is Ok);
    assert(out@ =~= pair_bytes(t, 0)->Ok_0);
    Ok(out)
}

proof fn lemma_encoded_shape(bytes: Seq<u8>)
    ensures
        hex_encoded(bytes).len() == 2 * bytes.len(),
        forall|i: int|
            0 <= i < bytes.len() ==> hex_encoded(bytes)[2 * i] == hex_pair(#[trigger] bytes[i])[0]
                && hex_encoded(bytes)[2 * i + 1] == hex_pair(bytes[i])[1],
    decreases bytes.len(),
{
    if bytes.len() > 0 {
        lemma_encoded_shape(bytes.drop_last());
        let front = hex_encoded(bytes.drop_last());
        assert forall|i: int| 0 <= i < bytes.len() implies hex_encoded(bytes)[2 * i] == hex_pair(
            #[trigger] bytes[i],
        )[0] && hex_encoded(bytes)[2 * i + 1] == hex_pair(bytes[i])[1] by {
            if i < bytes.len() - 1 {
                assert(bytes.drop_last()[i] == bytes[i]);
            }
        }
    }
}

proof fn lemma_pair_read_back(b: u8)
    ensures
        pair_value(hex_pair(b)[0], hex_pair(b)[1]) == Some(b),
        digit_value(hex_pair(b)[0], 16) is Some,
        digit_value(hex_pair(b)[1], 16) is Some,
{
}

proof fn lemma_pairs_read_back(bytes: Seq<u8>, k: int)
    requires
        0 <= k <= bytes.len(),
    ensures
        pair_bytes(hex_encoded(bytes), 2 * k) == Ok::<Seq<u8>, int>(bytes.skip(k)),
    decreases bytes.len() - k,
{
    lemma_encoded_shape(bytes);
    if k < bytes.len() {
        lemma_pairs_read_back(bytes, k + 1);
        lemma_pair_read_back(bytes[k]);
        assert(2 * (k + 1) == 2 * k + 2);
        assert(seq![bytes[k]] + bytes.skip(k + 1) =~= bytes.skip(k));
    } else {
        assert(bytes.skip(k) =~= seq![]);
    }
}

proof fn lemma_plain_digits(s: Seq<char>)
    requires
        forall|i: int| 0 <= i < s.len() ==> digit_value(#[trigger] s[i], 16) is Some,
    ensures
        without_white(s) == s,
        byte_len(s) == s.len(),
    decreases s.len(),
{
    reveal(Seq::filter);
    if s.len() > 0 {
        assert(digit_value(s[s.len() - 1], 16) is Some);
        lemma_plain_digits(s.drop_last());
        assert(s.drop_last().push(s.last()) =~= s);
    }
}

/// Every digit of an encoded text is a hexadecimal digit, in lower case.
pub proof fn lemma_encoded_digits(bytes: Seq<u8>)
    ensures
        hex_encoded(bytes).len() == 2 * bytes.len(),
        forall|i: int|
            0 <= i < hex_encoded(bytes).len() ==> digit_value(
                #[trigger] hex_encoded(bytes)[i],
                16,
            ) is Some,
{
    lemma_encoded_shape(bytes);
    let s = hex_encoded(bytes);
    assert forall|i: int| 0 <= i < s.len() implies digit_value(#[trigger] s[i], 16) is Some by {
        let k = i / 2;
        lemma_pair_read_back(bytes[k]);
        assert(i == 2 * k || i == 2 * k + 1);
    }
}

/// Bytes that are written in hexadecimal read back as the same bytes: the text has an even number
/// of bytes, no white space, and its pairs stand for the bytes in order.
pub proof fn lemma_hex_read_back(bytes: Seq<u8>)
    ensures
        without_white(hex_encoded(bytes)) == hex_encoded(bytes),
        byte_len(hex_encoded(bytes)) % 2 == 0,
        pair_bytes(hex_encoded(bytes), 0) == Ok::<Seq<u8>, int>(bytes),
{
    lemma_encoded_digits(bytes);
    lemma_plain_digits(hex_encoded(bytes));
    lemma_pairs_read_back(bytes, 0);
    assert(bytes.skip(0) =~= bytes);
}

// ---------------------------------------------------------------------------
// What bytes are shown as and read from
// ---------------------------------------------------------------------------

/// Bytes that are written with capital digits, or with some of each kind, read
/// as the same bytes.
pub proof fn lemma_capital_bytes_read_back(bytes: Seq<u8>, capital: Seq<char>)
    requires
        equal_but_for_case(capital, hex_encoded(bytes)),
    ensures
        without_white(capital) == capital,
        byte_len(capital) % 2 == 0,
        pair_bytes(capital, 0) == Ok::<Seq<u8>, int>(bytes),
{
    lemma_encoded_digits(bytes);
    let small = hex_encoded(bytes);
    assert forall|i: int| 0 <= i < capital.len() implies digit_value(#[trigger] capital[i], 16) is Some
        && digit_value(capital[i], 16) == digit_value(small[i], 16) by {
        lemma_same_digit(capital[i], small[i]);
        assert(digit_value(small[i], 16) is Some);
    }
    lemma_plain_digits(capital);
    lemma_capital_pairs(bytes, capital, 0);
    assert(bytes.skip(0) =~= bytes);
}

proof fn lemma_same_digit(capital: char, small: char)
    requires
        capital == small || 'a' <= small <= 'z' && capital as u32 + 32 == small as u32,
    ensures
        digit_value(capital, 16) == digit_value(small, 16),
{
}

proof fn lemma_capital_pairs(bytes: Seq<u8>, capital: Seq<char>, k: int)
    requires
        equal_but_for_case(capital, hex_encoded(bytes)),
        0 <= k <= bytes.len(),
    ensures
        pair_bytes(capital, 2 * k) == Ok::<Seq<u8>, int>(bytes.skip(k)),
    decreases bytes.len() - k,
{
    lemma_encoded_shape(bytes);
    let small = hex_encoded(bytes);
    if k < bytes.len() {
        lemma_capital_pairs(bytes, capital, k + 1);
        lemma_pair_read_back(bytes[k]);
        assert(small[2 * k] == hex_pair(bytes[k])[0] && small[2 * k + 1] == hex_pair(bytes[k])[1]);
        lemma_same_digit(capital[2 * k], small[2 * k]);
        lemma_same_digit(capital[2 * k + 1], small[2 * k + 1]);
        assert(2 * (k + 1) == 2 * k + 2);
        assert(seq![bytes[k]] + bytes.skip(k + 1) =~= bytes.skip(k));
    } else {
        assert(bytes.skip(k) =~= seq![]);
    }
}

/// Whether `b` is sixteen times the digit `high` and the digit `low`; a plus
/// sign may stand for a first digit of zero.
pub open spec fn is_byte_of(high: char, low: char, b: u8) -> bool {
    &&& digit_value(low, 16) is Some
    &&& digit_value(high, 16) is Some ==> b == 16 * digit_value(high, 16)->0 + digit_value(
        low,
        16,
    )->0
    &&& digit_value(high, 16) is None ==> high == '+' && b == digit_value(low, 16)->0
}

/// Where a text of hexadecimal digits reads as bytes, it has two characters
/// for each byte, and each byte is sixteen times its first digit and its
/// second. Where it does not, the first pair that is none is reported.
pub proof fn lemma_pairs_are_bytes(s: Seq<char>)
    ensures
        pair_bytes(s, 0) matches Ok(bytes) ==> s.len() == 2 * bytes.len(),
        pair_bytes(s, 0) matches Ok(bytes) ==> forall|i: int|
            0 <= i < bytes.len() ==> is_byte_of(s[2 * i], s[2 * i + 1], #[trigger] bytes[i]),
        pair_bytes(s, 0) matches Err(at) ==> 0 <= at < s.len() && at % 2 == 0 && (at + 1 >= s.len()
            || forall|b: u8| !#[trigger] is_byte_of(s[at], s[at + 1], b)),
{
    lemma_pairs_from(s, 0);
    if let Ok(bytes) = pair_bytes(s, 0) {
        assert forall|i: int| 0 <= i < bytes.len() implies is_byte_of(
            s[2 * i],
            s[2 * i + 1],
            #[trigger] bytes[i],
        ) by {
            assert(pair_value(s[0 + 2 * i], s[0 + 2 * i + 1]) == Some(bytes[i]));
        }
    }
}

proof fn lemma_pairs_from(s: Seq<char>, at: int)
    requires
        0 <= at,
        at % 2 == 0,
    ensures
        pair_bytes(s, at) matches Ok(bytes) ==> (at <= s.len() ==> s.len() - at == 2 * bytes.len())
            && forall|i: int|
            0 <= i < bytes.len() ==> pair_value(s[at + 2 * i], s[at + 2 * i + 1]) == Some(
                #[trigger] bytes[i],
            ),
        pair_bytes(s, at) matches Err(e) ==> at <= e < s.len() && e % 2 == 0 && (e + 1 >= s.len()
            || pair_value(s[e], s[e + 1]) is None),
    decreases s.len() - at,
{
    if at < s.len() && at + 1 < s.len() && pair_value(s[at], s[at + 1]) is Some {
        lemma_pairs_from(s, at + 2);
        if let Ok(bytes) = pair_bytes(s, at) {
            let rest = pair_bytes(s, at + 2)->Ok_0;
            assert forall|i: int| 0 <= i < bytes.len() implies pair_value(
                s[at + 2 * i],
                s[at + 2 * i + 1],
            ) == Some(#[trigger] bytes[i]) by {
                if i > 0 {
                    assert(bytes[i] == rest[i - 1]);
                    assert(at + 2 + 2 * (i - 1) == at + 2 * i);
                }
            }
        }
    }
}

/// A byte is written as two digits, the higher first, without capitals.
pub proof fn lemma_byte_in_digits(b: u8)
    ensures
        hex_pair(b).len() == 2,
        digit_value(hex_pair(b)[0], 16) == Some((b as nat) / 16),
        digit_value(hex_pair(b)[1], 16) == Some((b as nat) % 16),
        !('A' <= hex_pair(b)[0] <= 'Z') && !('A' <= hex_pair(b)[1] <= 'Z'),
{
}

/// A byte from the blank to the tilde shows as its character, and every other
/// byte as a dot: one character for each byte.
pub proof fn lemma_ascii_shows_each_byte(bytes: Seq<u8>)
    ensures
        ascii_of(bytes).len() == bytes.len(),
        forall|i: int|
            0 <= i < bytes.len() ==> #[trigger] ascii_of(bytes)[i] as u32 == (if bytes[i] < 32
                || bytes[i] > 126 {
                46
            } else {
                bytes[i] as u32
            }),
{
}

/// A word is eight bytes, the lowest first.
pub proof fn lemma_word_is_eight_bytes(v: u64)
    ensures
        le_bytes(v as nat, 8).len() == 8,
        le_bytes(v as nat, 8)[0] == v % 256,
        le_bytes(v as nat, 8)[7] == v / 0x100_0000_0000_0000,
{
    reveal_with_fuel(le_bytes, 9);
}

/// Zeros are cut off the end, and nothing else: what is left ends in a byte
/// that is not zero, or is one byte.
pub proof fn lemma_last_zeros_cut(bytes: Seq<u8>)
    ensures
        without_last_zeros(bytes).len() <= bytes.len(),
        without_last_zeros(bytes) == bytes.take(without_last_zeros(bytes).len() as int),
        forall|i: int| without_last_zeros(bytes).len() <= i < bytes.len() ==> #[trigger] bytes[i] == 0,
        without_last_zeros(bytes).len() > 1 ==> without_last_zeros(bytes).last() != 0,
        bytes.len() > 0 ==> without_last_zeros(bytes).len() > 0,
    decreases bytes.len(),
{
    if bytes.len() > 1 && bytes.last() == 0 {
        let front = bytes.drop_last();
        lemma_last_zeros_cut(front);
        let n = without_last_zeros(bytes).len() as int;
        assert(front.take(n) =~= bytes.take(n));
        assert forall|i: int| n <= i < bytes.len() implies #[trigger] bytes[i] == 0 by {
            if i < front.len() {
                assert(front[i] == bytes[i]);
            }
        }
    } else {
        assert(bytes.take(bytes.len() as int) =~= bytes);
    }
}

/// Zeros are cut off the front, and nothing else: what is left begins with a
/// byte that is not zero, or is one byte.
pub proof fn lemma_first_zeros_cut(bytes: Seq<u8>)
    ensures
        without_first_zeros(bytes).len() <= bytes.len(),
        without_first_zeros(bytes) == bytes.skip(bytes.len() - without_first_zeros(bytes).len()),
        forall|i: int|
            0 <= i < bytes.len() - without_first_zeros(bytes).len() ==> #[trigger] bytes[i] == 0,
        without_first_zeros(bytes).len() > 1 ==> without_first_zeros(bytes)[0] != 0,
        bytes.len() > 0 ==> without_first_zeros(bytes).len() > 0,
    decreases bytes.len(),
{
    if bytes.len() > 1 && bytes[0] == 0 {
        let rest = bytes.drop_first();
        lemma_first_zeros_cut(rest);
        let n = without_first_zeros(bytes).len() as int;
        assert(rest.skip(rest.len() - n) =~= bytes.skip(bytes.len() - n));
        assert forall|i: int| 0 <= i < bytes.len() - n implies #[trigger] bytes[i] == 0 by {
            if i > 0 {
                assert(rest[i - 1] == bytes[i]);
            }
        }
    } else {
        assert(bytes.skip(0) =~= bytes);
    }
}

/// The length of a text in bytes is the length of its UTF-8 encoding.
pub proof fn lemma_byte_len_is_utf8_len(s: Seq<char>)
    ensures
        byte_len(s) == encode_utf8(s).len(),
    decreases s.len(),
{
    if s.len() > 0 {
        let rest = s.drop_first();
        lemma_byte_len_is_utf8_len(rest);
        lemma_first_width(s);
        lemma_scalar_width(s[0]);
    }
}

proof fn lemma_scalar_width(c: char)
    ensures
        encode_scalar(c as u32).len() == width(c),
{
}

proof fn lemma_first_width(s: Seq<char>)
    requires
        s.len() > 0,
    ensures
        byte_len(s) == width(s[0]) + byte_len(s.drop_first()),
    decreases s.len(),
{
    if s.len() > 1 {
        lemma_first_width(s.drop_last());
        assert(s.drop_last().drop_first() =~= s.drop_first().drop_last());
        assert(s.drop_first().last() == s.last());
    } else {
        assert(s.drop_last() =~= s.drop_first());
    }
}

/// White space between the digits does not count, and only white space does
/// not: what is left holds every other character.
pub proof fn lemma_white_between_digits(a: Seq<char>, w: char, b: Seq<char>)
    requires
        is_white(w),
    ensures
        without_white(a + seq![w] + b) == without_white(a + b),
        forall|c: char| !is_white(c) && (a + b).contains(c) ==> without_white(a + b).contains(c),
        forall|i: int|
            0 <= i < without_white(a + b).len() ==> !is_white(#[trigger] without_white(a + b)[i]),
{
    broadcast use vstd::seq_lib::group_filter_ensures;

    let keep = |c: char| !is_white(c);
    Seq::filter_distributes_over_add(a + seq![w], b, keep);
    Seq::filter_distributes_over_add(a, seq![w], keep);
    Seq::filter_distributes_over_add(a, b, keep);
    assert(seq![w].filter(keep) =~= Seq::empty()) by {
        reveal_with_fuel(Seq::filter, 3);
        assert(seq![w].drop_last() =~= Seq::<char>::empty());
    }
    assert(a.filter(keep) + Seq::empty() =~= a.filter(keep));
    assert forall|c: char| !is_white(c) && (a + b).contains(c) implies without_white(a + b).contains(
        c,
    ) by {
        let i = choose|i: int| 0 <= i < (a + b).len() && (a + b)[i] == c;
        assert(keep((a + b)[i]));
    }
    assert forall|i: int| 0 <= i < without_white(a + b).len() implies !is_white(
        #[trigger] without_white(a + b)[i],
    ) by {
        assert(keep((a + b).filter(keep)[i]));
    }
}

} // verus!
