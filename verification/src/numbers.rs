//! Numbers in text: digits in any radix, addresses, and bytes in hexadecimal.

use crate::text::{
    chars_of, is_white, lemma_trim_padding, lemma_trimmed_is_inside, trim, trimmed,
};
use vstd::prelude::*;

verus! {

// ---------------------------------------------------------------------------
// Digits
// ---------------------------------------------------------------------------

/// The character for the digit `d`: `0` to `9`, then `a` onwards.
pub open spec fn digit_char(d: nat) -> char {
    if d < 10 {
        ('0' as u32 + d) as char
    } else {
        ('a' as u32 + d - 10) as char
    }
}

/// The value of a digit in either letter case.
pub open spec fn digit_value(c: char, radix: nat) -> Option<nat> {
    let d: int = if '0' <= c && c <= '9' {
        c as u32 - '0' as u32
    } else if 'a' <= c && c <= 'z' {
        c as u32 - 'a' as u32 + 10
    } else if 'A' <= c && c <= 'Z' {
        c as u32 - 'A' as u32 + 10
    } else {
        radix as int
    };
    if d < radix {
        Some(d as nat)
    } else {
        None
    }
}

/// `n` written in `radix`, without leading zeros.
pub open spec fn digits(n: nat, radix: nat) -> Seq<char>
    decreases n,
    via digits_terminates
{
    if radix < 2 || n < radix {
        seq![digit_char(n)]
    } else {
        digits(n / radix, radix).push(digit_char(n % radix))
    }
}

#[via_fn]
proof fn digits_terminates(n: nat, radix: nat) {
    if radix >= 2 && n >= radix {
        assert(n / radix < n) by (nonlinear_arith)
            requires
                n >= radix,
                radix >= 2,
        ;
    }
}

/// The number that a run of digits stands for; a run without digits stands for zero.
pub open spec fn digits_value(s: Seq<char>, radix: nat) -> Option<nat>
    decreases s.len(),
{
    if s.len() == 0 {
        Some(0)
    } else {
        match (digits_value(s.drop_last(), radix), digit_value(s.last(), radix)) {
            (Some(v), Some(d)) => Some(v * radix + d),
            _ => None,
        }
    }
}

/// The text without one leading `+`.
pub open spec fn unsigned_part(s: Seq<char>) -> Seq<char> {
    if s.len() > 0 && s[0] == '+' {
        s.drop_first()
    } else {
        s
    }
}

/// The number in a text of at least one digit, with an optional `+` before it, if it fits 64 bits.
pub open spec fn parsed(s: Seq<char>, radix: nat) -> Option<u64> {
    let body = unsigned_part(s);
    match digits_value(body, radix) {
        Some(v) => if body.len() > 0 && v <= u64::MAX {
            Some(v as u64)
        } else {
            None
        },
        None => None,
    }
}

/// The value of a digit in either letter case.
pub fn read_digit(c: char, radix: u64) -> (r: Option<u64>)
    requires
        2 <= radix <= 36,
    ensures
        r matches Some(d) ==> digit_value(c, radix as nat) == Some(d as nat) && d < radix,
        r is None ==> digit_value(c, radix as nat) is None,
{
    let n: u64 = c as u64;
    let d: u64 = if '0' <= c && c <= '9' {
        n - 48
    } else if 'a' <= c && c <= 'z' {
        n - 97 + 10
    } else if 'A' <= c && c <= 'Z' {
        n - 65 + 10
    } else {
        radix
    };
    if d < radix {
        Some(d)
    } else {
        None
    }
}

/// The character for a digit below sixteen.
pub fn write_digit(d: u64) -> (r: char)
    requires
        d < 16,
    ensures
        r == digit_char(d as nat),
{
    if d < 10 {
        (48 + d as u8) as char
    } else {
        (97 + (d as u8 - 10)) as char
    }
}

/// Appends `n` in `radix`.
pub fn push_digits(out: &mut String, n: u128, radix: u128)
    requires
        2 <= radix <= 16,
    ensures
        final(out)@ == old(out)@ + digits(n as nat, radix as nat),
    decreases n,
{
    if n >= radix {
        assert(n / radix < n) by (nonlinear_arith)
            requires
                n >= radix,
                radix >= 2,
        ;
        push_digits(out, n / radix, radix);
    }
    assert(n % radix < radix);
    let low: u64 = (n % radix) as u64;
    out.push(write_digit(low));
    assert(n < radix ==> n % radix == n) by (nonlinear_arith)
        requires
            radix >= 2,
    ;
    assert(out@ =~= old(out)@ + digits(n as nat, radix as nat));
}

/// `n` in `radix`, without leading zeros.
pub fn digits_text(n: u64, radix: u64) -> (r: String)
    requires
        2 <= radix <= 16,
    ensures
        r@ == digits(n as nat, radix as nat),
{
    let mut out = String::new();
    push_digits(&mut out, n as u128, radix as u128);
    assert(out@ =~= digits(n as nat, radix as nat));
    out
}

/// `n` in decimal.
pub open spec fn decimal(n: nat) -> Seq<char> {
    digits(n, 10)
}

/// `n` in decimal.
pub fn decimal_text(n: u64) -> (r: String)
    ensures
        r@ == decimal(n as nat),
{
    digits_text(n, 10)
}

/// A signed number in decimal.
pub open spec fn signed_decimal(n: int) -> Seq<char> {
    if n < 0 {
        seq!['-'] + decimal((-n) as nat)
    } else {
        decimal(n as nat)
    }
}

/// A signed number in decimal.
pub fn signed_text(n: i64) -> (r: String)
    ensures
        r@ == signed_decimal(n as int),
{
    let mut out = String::new();
    if n < 0 {
        out.push('-');
        let magnitude: u64 = if n == i64::MIN {
            0x8000_0000_0000_0000
        } else {
            (-n) as u64
        };
        push_digits(&mut out, magnitude as u128, 10);
    } else {
        push_digits(&mut out, n as u128, 10);
    }
    assert(out@ =~= signed_decimal(n as int));
    out
}

/// `n` in hexadecimal behind `0x`.
pub open spec fn hex(n: nat) -> Seq<char> {
    "0x"@ + digits(n, 16)
}

/// `n` in hexadecimal behind `0x`.
pub fn hex_text(n: u64) -> (r: String)
    ensures
        r@ == hex(n as nat),
{
    let mut out = "0x".to_owned();
    push_digits(&mut out, n as u128, 16);
    out
}

/// `s` behind as many zeros as it takes to reach `width` characters.
pub open spec fn zero_padded(s: Seq<char>, width: nat) -> Seq<char> {
    if s.len() >= width {
        s
    } else {
        Seq::new((width - s.len()) as nat, |i: int| '0') + s
    }
}

/// Appends `n` in `radix`, behind zeros where it has fewer than `width` digits.
pub fn push_padded(out: &mut String, n: u128, radix: u128, width: usize)
    requires
        2 <= radix <= 16,
    ensures
        final(out)@ == old(out)@ + zero_padded(digits(n as nat, radix as nat), width as nat),
{
    let mut body = String::new();
    push_digits(&mut body, n, radix);
    let ghost shown = digits(n as nat, radix as nat);
    assert(body@ =~= shown);
    let len: usize = chars_of(body.as_str()).len();
    let mut zeros: usize = 0;
    while len < width && zeros < width - len
        invariant
            len < width ==> zeros <= width - len,
            len >= width ==> zeros == 0,
            out@ =~= old(out)@ + Seq::new(zeros as nat, |i: int| '0'),
        decreases width - zeros,
    {
        out.push('0');
        zeros = zeros + 1;
    }
    out.push_str(body.as_str());
    assert(out@ =~= old(out)@ + zero_padded(shown, width as nat));
}

proof fn lemma_prefix_value(s: Seq<char>, radix: nat, k: int)
    requires
        radix >= 1,
        0 <= k <= s.len(),
    ensures
        digits_value(s.take(k), radix) is None ==> digits_value(s, radix) is None,
        digits_value(s, radix) is Some ==> digits_value(s.take(k), radix) is Some
            && digits_value(s.take(k), radix)->0 <= digits_value(s, radix)->0,
    decreases s.len(),
{
    if k == s.len() {
        assert(s.take(k) =~= s);
    } else {
        lemma_prefix_value(s.drop_last(), radix, k);
        assert(s.drop_last().take(k) =~= s.take(k));
        if digits_value(s, radix) is Some {
            let v = digits_value(s.drop_last(), radix)->0;
            assert(v <= v * radix) by (nonlinear_arith)
                requires
                    radix >= 1,
            ;
        }
    }
}

/// The number in a text of digits in `radix`, with an optional `+` before them.
pub fn parse_digits(s: &str, radix: u64) -> (r: Option<u64>)
    requires
        2 <= radix <= 36,
    ensures
        r == parsed(s@, radix as nat),
{
    let chars = chars_of(s);
    parse_chars(&chars, 0, chars.len(), radix, Ghost(s@))
}

fn parse_chars(
    chars: &Vec<char>,
    from: usize,
    to: usize,
    radix: u64,
    Ghost(part): Ghost<Seq<char>>,
) -> (r: Option<u64>)
    requires
        from <= to <= chars.len(),
        part =~= chars@.subrange(from as int, to as int),
        2 <= radix <= 36,
    ensures
        r == parsed(part, radix as nat),
{
    let start: usize = if from < to && chars[from] == '+' {
        from + 1
    } else {
        from
    };
    let ghost body = unsigned_part(part);
    assert(body =~= chars@.subrange(start as int, to as int));
    if start == to {
        return None;
    }
    let mut acc: u64 = 0;
    let mut i: usize = start;
    while i < to
        invariant
            start <= i <= to <= chars.len(),
            2 <= radix <= 36,
            body == chars@.subrange(start as int, to as int),
            digits_value(body.take(i - start), radix as nat) == Some(acc as nat),
            body == unsigned_part(part),
            body.len() > 0,
        decreases to - i,
    {
        proof {
            let next = body.take(i + 1 - start);
            assert(next.drop_last() =~= body.take(i - start));
            assert(next.last() == chars[i as int]);
            lemma_prefix_value(body, radix as nat, i + 1 - start);
        }
        match read_digit(chars[i], radix) {
            None => {
                return None;
            },
            Some(d) => {
                assert(acc * radix <= 0xffff_ffff_ffff_ffff * 36) by (nonlinear_arith)
                    requires
                        acc <= 0xffff_ffff_ffff_ffff,
                        radix <= 36,
                ;
                let wide: u128 = (acc as u128) * (radix as u128) + (d as u128);
                assert(wide == acc * radix + d);
                if wide > 0xffff_ffff_ffff_ffff {
                    return None;
                }
                acc = wide as u64;
            },
        }
        i = i + 1;
    }
    assert(body.take(to - start) =~= body);
    Some(acc)
}

/// What is written in a radix reads back in that radix.
pub proof fn lemma_digits_read_back(n: nat, radix: nat)
    requires
        2 <= radix <= 16,
    ensures
        digits(n, radix).len() > 0,
        digits_value(digits(n, radix), radix) == Some(n),
        forall|i: int|
            0 <= i < digits(n, radix).len() ==> digit_value(
                #[trigger] digits(n, radix)[i],
                radix,
            ) is Some,
    decreases n,
{
    lemma_digit_chars(radix);
    if n < radix {
        let s = digits(n, radix);
        assert(s.drop_last() =~= seq![]);
        assert(digits_value(s.drop_last(), radix) == Some(0nat));
        assert(0 * radix + n == n) by (nonlinear_arith);
    } else {
        assert(n / radix < n) by (nonlinear_arith)
            requires
                n >= radix,
                radix >= 2,
        ;
        lemma_digits_read_back(n / radix, radix);
        let s = digits(n, radix);
        assert(s.drop_last() =~= digits(n / radix, radix));
        assert((n / radix) * radix + n % radix == n) by (nonlinear_arith)
            requires
                radix >= 2,
        ;
        assert(n % radix < radix) by (nonlinear_arith)
            requires
                radix >= 2,
        ;
        assert forall|i: int| 0 <= i < s.len() implies digit_value(#[trigger] s[i], radix) is Some by {
            if i < s.len() - 1 {
                assert(s[i] == digits(n / radix, radix)[i]);
            }
        }
    }
}

proof fn lemma_digit_chars(radix: nat)
    requires
        2 <= radix <= 16,
    ensures
        forall|d: nat| d < radix ==> digit_value(#[trigger] digit_char(d), radix) == Some(d),
{
}

/// A number written in a radix is the number that a parse in that radix returns.
pub proof fn lemma_parse_written(n: u64, radix: nat)
    requires
        2 <= radix <= 16,
    ensures
        parsed(digits(n as nat, radix), radix) == Some(n),
{
    lemma_digits_read_back(n as nat, radix);
    let s = digits(n as nat, radix);
    assert(digit_value(s[0], radix) is Some);
    assert(s[0] != '+');
}

// ---------------------------------------------------------------------------
// Addresses
// ---------------------------------------------------------------------------

/// Whether the text begins with a zero and one of two letters.
pub open spec fn has_prefix(s: Seq<char>, small: char, big: char) -> bool {
    s.len() >= 2 && s[0] == '0' && (s[1] == small || s[1] == big)
}

/// The address in a text: hexadecimal behind `0x`, else decimal, white space around it ignored.
pub open spec fn address(s: Seq<char>) -> Option<u64> {
    let t = trimmed(s);
    if has_prefix(t, 'x', 'X') {
        parsed(t.skip(2), 16)
    } else {
        parsed(t, 10)
    }
}

/// The number of a command-line or daemon argument that holds an address.
pub fn parse_addr(s: &str) -> (r: Result<u64, String>)
    ensures
        r matches Ok(a) ==> address(s@) == Some(a),
        r matches Err(e) ==> address(s@) is None && e@ == "Invalid address: "@ + trimmed(s@),
{
    let t = trim(s);
    let chars = chars_of(t.as_str());
    let found: Option<u64> = if chars.len() >= 2 && chars[0] == '0' && (chars[1] == 'x' || chars[1]
        == 'X') {
        parse_chars(&chars, 2, chars.len(), 16, Ghost(t@.skip(2)))
    } else {
        parse_chars(&chars, 0, chars.len(), 10, Ghost(t@))
    };
    match found {
        Some(a) => Ok(a),
        None => {
            let mut e = "Invalid address: ".to_owned();
            e.push_str(t.as_str());
            Err(e)
        },
    }
}

/// The text without the underscores in it.
pub open spec fn without_underscores(s: Seq<char>) -> Seq<char> {
    s.filter(|c: char| c != '_')
}

/// What is left of the text of a number: no white space around it, no underscores in it.
pub open spec fn number_body(s: Seq<char>) -> Seq<char> {
    without_underscores(trimmed(s))
}

/// The number that a text is, with an optional radix prefix: `0x`, `0b` or `0o`.
pub open spec fn in_its_radix(t: Seq<char>) -> Option<u64> {
    if has_prefix(t, 'x', 'X') {
        parsed(t.skip(2), 16)
    } else if has_prefix(t, 'b', 'B') {
        parsed(t.skip(2), 2)
    } else if has_prefix(t, 'o', 'O') {
        parsed(t.skip(2), 8)
    } else {
        parsed(t, 10)
    }
}

/// The number in the text of a tool argument: white space around it and underscores in it are
/// ignored.
pub open spec fn any_radix(s: Seq<char>) -> Option<u64> {
    in_its_radix(number_body(s))
}

/// The number in the text of a daemon argument: white space around it is ignored.
pub open spec fn integer(s: Seq<char>) -> Option<u64> {
    in_its_radix(trimmed(s))
}

/// The text without the underscores in it.
fn drop_underscores(s: &str) -> (r: String)
    ensures
        r@ == without_underscores(s@),
{
    let chars = chars_of(s);
    let mut out = String::new();
    let mut i: usize = 0;
    let ghost keep = |c: char| c != '_';
    assert(chars@.take(0).filter(keep) =~= seq![]) by {
        reveal(Seq::filter);
    }
    while i < chars.len()
        invariant
            i <= chars.len(),
            keep == (|c: char| c != '_'),
            out@ == chars@.take(i as int).filter(keep),
        decreases chars.len() - i,
    {
        proof {
            let next = chars@.take(i + 1);
            assert(next.drop_last() =~= chars@.take(i as int));
            reveal(Seq::filter);
        }
        if chars[i] != '_' {
            out.push(chars[i]);
        }
        i = i + 1;
    }
    assert(chars@.take(chars.len() as int) =~= s@);
    out
}

/// The number that a text is, with an optional radix prefix.
fn read_in_its_radix(t: &str) -> (r: Option<u64>)
    ensures
        r == in_its_radix(t@),
{
    let chars = chars_of(t);
    let prefixed = chars.len() >= 2 && chars[0] == '0';
    if prefixed && (chars[1] == 'x' || chars[1] == 'X') {
        parse_chars(&chars, 2, chars.len(), 16, Ghost(t@.skip(2)))
    } else if prefixed && (chars[1] == 'b' || chars[1] == 'B') {
        parse_chars(&chars, 2, chars.len(), 2, Ghost(t@.skip(2)))
    } else if prefixed && (chars[1] == 'o' || chars[1] == 'O') {
        parse_chars(&chars, 2, chars.len(), 8, Ghost(t@.skip(2)))
    } else {
        parse_chars(&chars, 0, chars.len(), 10, Ghost(t@))
    }
}

/// The number in a tool argument; the error is the text that could not be read.
pub fn read_any_radix(s: &str) -> (r: Result<u64, String>)
    ensures
        r matches Ok(a) ==> any_radix(s@) == Some(a),
        r matches Err(e) ==> any_radix(s@) is None && e@ == number_body(s@),
{
    let t = drop_underscores(trim(s).as_str());
    match read_in_its_radix(t.as_str()) {
        Some(a) => Ok(a),
        None => Err(t),
    }
}

/// The number in a daemon argument: hexadecimal behind `0x`, octal behind `0o`, binary behind `0b`,
/// else decimal.
pub fn parse_integer(s: &str) -> (r: Result<u64, String>)
    ensures
        r matches Ok(a) ==> integer(s@) == Some(a),
        r matches Err(e) ==> integer(s@) is None && e@ == "Invalid address: "@ + trimmed(s@),
{
    let t = trim(s);
    match read_in_its_radix(t.as_str()) {
        Some(a) => Ok(a),
        None => {
            let mut e = "Invalid address: ".to_owned();
            e.push_str(t.as_str());
            Err(e)
        },
    }
}

proof fn lemma_clean_text(s: Seq<char>)
    requires
        forall|i: int| 0 <= i < s.len() ==> !is_white(#[trigger] s[i]) && s[i] != '_',
    ensures
        trimmed(s) == s,
        number_body(s) == s,
{
    let keep = |c: char| c != '_';
    assert(s.filter(keep) =~= s) by {
        lemma_filter_all(s, keep);
    }
}

proof fn lemma_filter_all(s: Seq<char>, keep: spec_fn(char) -> bool)
    requires
        forall|i: int| 0 <= i < s.len() ==> keep(#[trigger] s[i]),
    ensures
        s.filter(keep) == s,
    decreases s.len(),
{
    reveal(Seq::filter);
    if s.len() > 0 {
        lemma_filter_all(s.drop_last(), keep);
        assert(s.drop_last().push(s.last()) =~= s);
    }
}

/// What is written in a radix holds no white space and none of the letters that name a radix; in
/// decimal it holds digits only.
pub(crate) proof fn lemma_written_chars(n: nat, radix: nat)
    requires
        2 <= radix <= 16,
    ensures
        digits(n, radix).len() > 0,
        forall|i: int|
            0 <= i < digits(n, radix).len() ==> !is_white(#[trigger] digits(n, radix)[i])
                && digits(n, radix)[i] != '_' && digits(n, radix)[i] != 'x' && digits(n, radix)[i]
                != 'X' && digits(n, radix)[i] != 'o' && digits(n, radix)[i] != 'O',
        radix == 10 ==> forall|i: int|
            0 <= i < digits(n, radix).len() ==> '0' <= #[trigger] digits(n, radix)[i] <= '9',
{
    lemma_digits_read_back(n, radix);
    let s = digits(n, radix);
    assert forall|i: int| 0 <= i < s.len() implies !is_white(#[trigger] s[i]) && s[i] != '_' && s[i]
        != 'x' && s[i] != 'X' && s[i] != 'o' && s[i] != 'O' by {
        assert(digit_value(s[i], radix) is Some);
    }
    if radix == 10 {
        assert forall|i: int| 0 <= i < s.len() implies '0' <= #[trigger] s[i] <= '9' by {
            assert(digit_value(s[i], radix) is Some);
        }
    }
}

/// A number behind a radix prefix has nothing to trim, and what follows the prefix reads back.
proof fn lemma_prefixed(prefix: Seq<char>, n: u64, radix: nat)
    requires
        2 <= radix <= 16,
        prefix.len() == 2,
        !is_white(prefix[0]) && prefix[0] != '_',
        !is_white(prefix[1]) && prefix[1] != '_',
    ensures
        trimmed(prefix + digits(n as nat, radix)) == prefix + digits(n as nat, radix),
        number_body(prefix + digits(n as nat, radix)) == prefix + digits(n as nat, radix),
        parsed((prefix + digits(n as nat, radix)).skip(2), radix) == Some(n),
{
    lemma_parse_written(n, radix);
    lemma_written_chars(n as nat, radix);
    let s = prefix + digits(n as nat, radix);
    assert forall|i: int| 0 <= i < s.len() implies !is_white(#[trigger] s[i]) && s[i] != '_' by {
        if i >= 2 {
            assert(s[i] == digits(n as nat, radix)[i - 2]);
        }
    }
    lemma_clean_text(s);
    assert(s.skip(2) =~= digits(n as nat, radix));
}

/// An address written in hexadecimal behind `0x`, or in decimal, reads back as itself, both as a
/// daemon argument and as a tool argument.
pub proof fn lemma_address_read_back(n: u64)
    ensures
        address(hex(n as nat)) == Some(n),
        address(decimal(n as nat)) == Some(n),
        any_radix(hex(n as nat)) == Some(n),
        any_radix(decimal(n as nat)) == Some(n),
{
    reveal_strlit("0x");
    lemma_prefixed("0x"@, n, 16);
    lemma_parse_written(n, 10);
    let d = decimal(n as nat);
    lemma_written_chars(n as nat, 10);
    lemma_clean_text(d);
    if d.len() >= 2 {
        assert('0' <= d[1] <= '9');
    }
}

/// White space around an address does not count.
proof fn lemma_padded_address(s: Seq<char>, before: Seq<char>, after: Seq<char>)
    requires
        forall|i: int| 0 <= i < before.len() ==> is_white(#[trigger] before[i]),
        forall|i: int| 0 <= i < after.len() ==> is_white(#[trigger] after[i]),
        s.len() > 0,
        !is_white(s[0]),
        !is_white(s.last()),
        trimmed(s) == s,
    ensures
        address(before + s + after) == address(s),
{
    lemma_trim_padding(before, s, after);
}

/// A number behind `0x` or `0X` is an address, and has no white space at its ends.
proof fn lemma_hex_address(prefix: Seq<char>, n: u64)
    requires
        prefix.len() == 2,
        prefix[0] == '0',
        prefix[1] == 'x' || prefix[1] == 'X',
    ensures
        ({
            let s = prefix + digits(n as nat, 16);
            &&& s.len() > 0 && !is_white(s[0]) && !is_white(s.last())
            &&& trimmed(s) == s
            &&& address(s) == Some(n)
        }),
{
    lemma_prefixed(prefix, n, 16);
    lemma_written_chars(n as nat, 16);
    let d = digits(n as nat, 16);
    let s = prefix + d;
    assert(s.last() == d[d.len() - 1]);
}

/// An address written in hexadecimal behind `0x` or `0X`, or in decimal, with any white space around
/// it, reads back as itself.
pub proof fn lemma_padded_address_reads_back(n: u64, before: Seq<char>, after: Seq<char>)
    requires
        forall|i: int| 0 <= i < before.len() ==> is_white(#[trigger] before[i]),
        forall|i: int| 0 <= i < after.len() ==> is_white(#[trigger] after[i]),
    ensures
        address(before + hex(n as nat) + after) == Some(n),
        address(before + ("0X"@ + digits(n as nat, 16)) + after) == Some(n),
        address(before + decimal(n as nat) + after) == Some(n),
{
    assert(address(before + hex(n as nat) + after) == Some(n)) by {
        reveal_strlit("0x");
        lemma_hex_address("0x"@, n);
        lemma_padded_address(hex(n as nat), before, after);
    }
    assert(address(before + ("0X"@ + digits(n as nat, 16)) + after) == Some(n)) by {
        reveal_strlit("0X");
        lemma_hex_address("0X"@, n);
        lemma_padded_address("0X"@ + digits(n as nat, 16), before, after);
    }
    assert(address(before + decimal(n as nat) + after) == Some(n)) by {
        let d = decimal(n as nat);
        lemma_address_read_back(n);
        lemma_written_chars(n as nat, 10);
        assert(!is_white(d[0]) && !is_white(d[d.len() - 1]));
        assert(trimmed(d) == d) by {
            assert forall|i: int| 0 <= i < d.len() implies !is_white(#[trigger] d[i]) && d[i]
                != '_' by {}
            lemma_clean_text(d);
        }
        lemma_padded_address(d, before, after);
    }
}

/// What follows a radix prefix is read in that radix.
proof fn lemma_any_prefixed(s: Seq<char>, n: u64, radix: nat)
    requires
        number_body(s) == s,
        s.len() >= 2 && s[0] == '0',
        s[1] == 'b' && radix == 2 || s[1] == 'o' && radix == 8,
        parsed(s.skip(2), radix) == Some(n),
    ensures
        in_its_radix(s) == Some(n),
        any_radix(s) == Some(n),
{
}

/// A number in binary behind `0b` or in octal behind `0o` reads back as itself, both as a daemon
/// argument and as a tool argument; as a daemon argument also in the other two bases.
pub proof fn lemma_prefixed_read_back(n: u64)
    ensures
        any_radix("0b"@ + digits(n as nat, 2)) == Some(n),
        any_radix("0o"@ + digits(n as nat, 8)) == Some(n),
        integer("0b"@ + digits(n as nat, 2)) == Some(n),
        integer("0o"@ + digits(n as nat, 8)) == Some(n),
        integer(hex(n as nat)) == Some(n),
        integer(decimal(n as nat)) == Some(n),
{
    reveal_strlit("0b");
    reveal_strlit("0o");
    assert(any_radix("0b"@ + digits(n as nat, 2)) == Some(n) && integer(
        "0b"@ + digits(n as nat, 2),
    ) == Some(n)) by {
        lemma_prefixed("0b"@, n, 2);
        lemma_any_prefixed("0b"@ + digits(n as nat, 2), n, 2);
    }
    assert(any_radix("0o"@ + digits(n as nat, 8)) == Some(n) && integer(
        "0o"@ + digits(n as nat, 8),
    ) == Some(n)) by {
        lemma_prefixed("0o"@, n, 8);
        lemma_any_prefixed("0o"@ + digits(n as nat, 8), n, 8);
    }
    assert(integer(hex(n as nat)) == Some(n)) by {
        reveal_strlit("0x");
        lemma_hex_address("0x"@, n);
    }
    assert(integer(decimal(n as nat)) == Some(n)) by {
        let d = decimal(n as nat);
        lemma_address_read_back(n);
        lemma_written_chars(n as nat, 10);
        lemma_clean_text(d);
        if d.len() >= 2 {
            assert('0' <= d[1] <= '9');
        }
    }
}

// ---------------------------------------------------------------------------
// What a text of digits stands for
// ---------------------------------------------------------------------------

/// The ten digits count from zero, the letters go on from ten, a capital letter
/// counts as its small one, and no other character is a digit in any radix.
pub proof fn lemma_digit_values(c: char, radix: nat)
    requires
        radix <= 36,
    ensures
        '0' <= c <= '9' && c as int - 48 < radix ==> digit_value(c, radix) == Some(
            (c as int - 48) as nat,
        ),
        'a' <= c <= 'z' && c as int - 87 < radix ==> digit_value(c, radix) == Some(
            (c as int - 87) as nat,
        ),
        'a' <= c <= 'z' ==> digit_value((c as u32 - 32) as char, radix) == digit_value(c, radix),
        digit_value(c, radix) matches Some(d) ==> d < radix && ('0' <= c <= '9' || 'a' <= c <= 'z'
            || 'A' <= c <= 'Z'),
{
}

/// Two texts that differ at most in that one has capital letters where the
/// other has the same small ones.
pub open spec fn equal_but_for_case(capital: Seq<char>, small: Seq<char>) -> bool {
    &&& capital.len() == small.len()
    &&& forall|i: int|
        0 <= i < small.len() ==> {
            ||| capital[i] == #[trigger] small[i]
            ||| 'a' <= small[i] <= 'z' && capital[i] as u32 + 32 == small[i] as u32
        }
}

/// Capital letters and small ones stand for the same number, whatever the
/// radix and wherever they stand in the text.
pub proof fn lemma_case_does_not_count(capital: Seq<char>, small: Seq<char>, radix: nat)
    requires
        equal_but_for_case(capital, small),
    ensures
        digits_value(capital, radix) == digits_value(small, radix),
        parsed(capital, radix) == parsed(small, radix),
{
    lemma_case_of_digits(capital, small, radix);
    if small.len() > 0 {
        assert(capital[0] == small[0] || 'a' <= small[0] <= 'z');
        assert forall|i: int| 0 <= i < small.len() - 1 implies {
            ||| capital.drop_first()[i] == #[trigger] small.drop_first()[i]
            ||| 'a' <= small.drop_first()[i] <= 'z' && capital.drop_first()[i] as u32 + 32
                == small.drop_first()[i] as u32
        } by {
            assert(small.drop_first()[i] == small[i + 1]);
        }
        lemma_case_of_digits(capital.drop_first(), small.drop_first(), radix);
    }
}

proof fn lemma_case_of_digits(capital: Seq<char>, small: Seq<char>, radix: nat)
    requires
        equal_but_for_case(capital, small),
    ensures
        digits_value(capital, radix) == digits_value(small, radix),
    decreases small.len(),
{
    if small.len() > 0 {
        assert forall|i: int| 0 <= i < small.len() - 1 implies {
            ||| capital.drop_last()[i] == #[trigger] small.drop_last()[i]
            ||| 'a' <= small.drop_last()[i] <= 'z' && capital.drop_last()[i] as u32 + 32
                == small.drop_last()[i] as u32
        } by {
            assert(small.drop_last()[i] == small[i]);
        }
        lemma_case_of_digits(capital.drop_last(), small.drop_last(), radix);
        let m = small.len() - 1;
        assert(small[m] == small.last() && capital[m] == capital.last());
        lemma_case_of_digit(capital[m], small[m], radix);
    }
}

proof fn lemma_case_of_digit(capital: char, small: char, radix: nat)
    requires
        capital == small || 'a' <= small <= 'z' && capital as u32 + 32 == small as u32,
    ensures
        digit_value(capital, radix) == digit_value(small, radix),
{
}

/// A number is read whatever the case of its digits: written in capital
/// letters, behind either prefix, it is the number that it is in small ones.
pub proof fn lemma_capital_digits_read_back(n: u64, capital: Seq<char>)
    requires
        equal_but_for_case(capital, digits(n as nat, 16)),
    ensures
        parsed(capital, 16) == Some(n),
        address(seq!['0', 'x'] + capital) == Some(n),
        address(seq!['0', 'X'] + capital) == Some(n),
        integer(seq!['0', 'x'] + capital) == Some(n),
        integer(seq!['0', 'X'] + capital) == Some(n),
        any_radix(seq!['0', 'x'] + capital) == Some(n),
        any_radix(seq!['0', 'X'] + capital) == Some(n),
{
    lemma_parse_written(n, 16);
    lemma_written_chars(n as nat, 16);
    lemma_case_does_not_count(capital, digits(n as nat, 16), 16);
    assert forall|i: int| 0 <= i < capital.len() implies !is_white(#[trigger] capital[i])
        && capital[i] != '_' by {
        let c = digits(n as nat, 16)[i];
        assert(capital[i] == c || 'a' <= c <= 'z');
    }
    lemma_behind_prefix('x', capital, n);
    lemma_behind_prefix('X', capital, n);
}

#[verifier::rlimit(50)]
proof fn lemma_behind_prefix(x: char, d: Seq<char>, n: u64)
    requires
        x == 'x' || x == 'X',
        parsed(d, 16) == Some(n),
        forall|i: int| 0 <= i < d.len() ==> !is_white(#[trigger] d[i]) && d[i] != '_',
    ensures
        address(seq!['0', x] + d) == Some(n),
        integer(seq!['0', x] + d) == Some(n),
        any_radix(seq!['0', x] + d) == Some(n),
{
    let s = seq!['0', x] + d;
    assert forall|i: int| 0 <= i < s.len() implies !is_white(#[trigger] s[i]) && s[i] != '_' by {
        if i >= 2 {
            assert(s[i] == d[i - 2]);
        }
    }
    lemma_clean_text(s);
    assert(s.skip(2) =~= d);
    lemma_prefix_is_read(s, n);
}

proof fn lemma_prefix_is_read(s: Seq<char>, n: u64)
    requires
        s.len() >= 2,
        s[0] == '0',
        s[1] == 'x' || s[1] == 'X',
        trimmed(s) == s,
        number_body(s) == s,
        parsed(s.skip(2), 16) == Some(n),
    ensures
        address(s) == Some(n),
        integer(s) == Some(n),
        any_radix(s) == Some(n),
{
}

/// A digit more makes the number that stands before it `radix` times as large
/// and adds the digit; zeros in front change nothing.
pub proof fn lemma_place_value(front: Seq<char>, c: char, radix: nat)
    requires
        radix > 0,
        digits_value(front, radix) is Some,
        digit_value(c, radix) is Some,
    ensures
        digits_value(front.push(c), radix) == Some(
            digits_value(front, radix)->0 * radix + digit_value(c, radix)->0,
        ),
        digits_value(seq!['0'] + front, radix) == digits_value(front, radix),
{
    assert(front.push(c).drop_last() =~= front);
    lemma_zeros_in_front(1, front, radix);
    assert(Seq::new(1, |i: int| '0') =~= seq!['0']);
}

proof fn lemma_zeros_in_front(count: nat, s: Seq<char>, radix: nat)
    requires
        radix > 0,
    ensures
        digits_value(Seq::new(count, |i: int| '0') + s, radix) == digits_value(s, radix),
    decreases count + s.len(),
{
    let zeros = Seq::new(count, |i: int| '0');
    let t = zeros + s;
    if s.len() > 0 {
        lemma_zeros_in_front(count, s.drop_last(), radix);
        assert(t.drop_last() =~= zeros + s.drop_last());
    } else if count > 0 {
        let fewer = Seq::new((count - 1) as nat, |i: int| '0');
        lemma_zeros_in_front((count - 1) as nat, s, radix);
        assert(t.drop_last() =~= fewer + s);
        assert(t.last() == '0');
        assert(0 * radix + 0 == 0) by (nonlinear_arith);
    }
}

/// A number is written with its last digit last: its quotient by the radix
/// comes first, and the digit that is left stands behind it. No zero leads.
pub proof fn lemma_written_without_leading_zero(n: nat, radix: nat)
    requires
        2 <= radix <= 16,
    ensures
        n > 0 ==> digits(n, radix)[0] != '0',
        n == 0 ==> digits(n, radix) == seq!['0'],
        forall|i: int|
            0 <= i < digits(n, radix).len() ==> !('A' <= #[trigger] digits(n, radix)[i] <= 'Z'),
    decreases n,
{
    lemma_digit_chars(radix);
    if n >= radix {
        assert(n / radix < n && n / radix > 0) by (nonlinear_arith)
            requires
                n >= radix,
                radix >= 2,
        ;
        assert(n % radix < radix) by (nonlinear_arith)
            requires
                radix >= 2,
        ;
        lemma_written_without_leading_zero(n / radix, radix);
        lemma_digits_read_back(n / radix, radix);
        let front = digits(n / radix, radix);
        assert(digits(n, radix)[0] == front[0]);
        assert forall|i: int| 0 <= i < digits(n, radix).len() implies !('A' <= #[trigger] digits(
            n,
            radix,
        )[i] <= 'Z') by {
            if i < front.len() {
                assert(digits(n, radix)[i] == front[i]);
            }
        }
    }
}

/// Padding puts zeros in front, as many as are missing, and keeps the text and
/// the number that it stands for.
pub proof fn lemma_padding_keeps_the_number(s: Seq<char>, width: nat, radix: nat)
    requires
        radix > 0,
    ensures
        zero_padded(s, width).len() == (if s.len() > width { s.len() } else { width }),
        zero_padded(s, width).skip(zero_padded(s, width).len() - s.len()) == s,
        forall|i: int|
            0 <= i < zero_padded(s, width).len() - s.len() ==> #[trigger] zero_padded(s, width)[i]
                == '0',
        digits_value(zero_padded(s, width), radix) == digits_value(s, radix),
{
    if s.len() < width {
        let k = (width - s.len()) as nat;
        lemma_zeros_in_front(k, s, radix);
        assert((Seq::new(k, |i: int| '0') + s).skip(k as int) =~= s);
    } else {
        assert(s.skip(0) =~= s);
    }
}

/// A negative number is a minus sign and the number without it.
pub proof fn lemma_signed_text(n: int)
    ensures
        n < 0 ==> signed_decimal(n)[0] == '-' && digits_value(signed_decimal(n).skip(1), 10)
            == Some((0 - n) as nat),
        n >= 0 ==> digits_value(signed_decimal(n), 10) == Some(n as nat),
{
    if n < 0 {
        lemma_digits_read_back((0 - n) as nat, 10);
        assert(signed_decimal(n).skip(1) =~= decimal((0 - n) as nat));
    } else {
        lemma_digits_read_back(n as nat, 10);
    }
}

/// What a parse refuses: an empty text, a lone sign, a sign that is no plus,
/// any character that is no digit of the radix, and a number past 64 bits.
/// A plus sign in front and leading zeros do not count.
pub proof fn lemma_parse_accepts_digits_only(s: Seq<char>, radix: nat)
    requires
        2 <= radix <= 16,
    ensures
        parsed(s, radix) is Some ==> s.len() > 0,
        parsed(s, radix) is Some ==> forall|i: int|
            0 <= i < s.len() ==> digit_value(#[trigger] s[i], radix) is Some || (i == 0 && s.len()
                > 1 && s[0] == '+'),
        s.len() > 0 && digit_value(s[0], radix) is Some ==> parsed(seq!['+'] + s, radix) == parsed(
            s,
            radix,
        ) && parsed(seq!['0'] + s, radix) == parsed(s, radix),
{
    let body = unsigned_part(s);
    if parsed(s, radix) is Some {
        lemma_all_are_digits(body, radix);
        assert forall|i: int| 0 <= i < s.len() implies digit_value(#[trigger] s[i], radix) is Some
            || (i == 0 && s.len() > 1 && s[0] == '+') by {
            if s[0] == '+' {
                if i > 0 {
                    assert(body[i - 1] == s[i]);
                }
            }
        }
    }
    if s.len() > 0 && digit_value(s[0], radix) is Some {
        assert(s[0] != '+');
        assert((seq!['+'] + s).drop_first() =~= s);
        lemma_zeros_in_front(1, s, radix);
        assert(Seq::new(1, |i: int| '0') =~= seq!['0']);
    }
}

proof fn lemma_all_are_digits(s: Seq<char>, radix: nat)
    requires
        digits_value(s, radix) is Some,
    ensures
        forall|i: int| 0 <= i < s.len() ==> digit_value(#[trigger] s[i], radix) is Some,
    decreases s.len(),
{
    if s.len() > 0 {
        lemma_all_are_digits(s.drop_last(), radix);
        assert forall|i: int| 0 <= i < s.len() implies digit_value(#[trigger] s[i], radix) is Some by {
            if i < s.len() - 1 {
                assert(s[i] == s.drop_last()[i]);
            }
        }
    }
}

/// A number is read for what it is or not at all: one that 64 bits cannot hold
/// is refused, and none wraps.
pub proof fn lemma_large_numbers_refused(n: nat, radix: nat)
    requires
        2 <= radix <= 16,
    ensures
        parsed(digits(n, radix), radix) is Some <==> n <= 0xffff_ffff_ffff_ffff,
        parsed(digits(n, radix), radix) matches Some(v) ==> v == n,
{
    lemma_digits_read_back(n, radix);
    let s = digits(n, radix);
    assert(digit_value(s[0], radix) is Some);
    assert(s[0] != '+');
}

/// Underscores between the digits count in a tool's number not at all, and
/// spoil an address that the daemon reads.
#[verifier::rlimit(50)]
pub proof fn lemma_underscores(s: Seq<char>)
    ensures
        s.contains('_') && address(s) is Some ==> false,
        s.contains('_') && integer(s) is Some ==> false,
        !number_body(s).contains('_'),
        forall|c: char| c != '_' && trimmed(s).contains(c) ==> number_body(s).contains(c),
{
    broadcast use vstd::seq_lib::group_filter_ensures;

    let t = trimmed(s);
    let ends = lemma_trimmed_is_inside(s);
    let keep = |c: char| c != '_';
    if number_body(s).contains('_') {
        let i = choose|i: int| 0 <= i < number_body(s).len() && number_body(s)[i] == '_';
        assert(keep(t.filter(keep)[i]));
    }
    assert forall|c: char| c != '_' && t.contains(c) implies number_body(s).contains(c) by {
        let i = choose|i: int| 0 <= i < t.len() && t[i] == c;
        assert(keep(t[i]));
    }
    if s.contains('_') {
        let i = choose|i: int| 0 <= i < s.len() && s[i] == '_';
        assert(!is_white(s[i]));
        assert(ends.0 <= i < ends.1);
        assert(t[i - ends.0] == '_');
        lemma_spoiled(t, i - ends.0);
    }
}

proof fn lemma_spoiled(t: Seq<char>, at: int)
    requires
        0 <= at < t.len(),
        t[at] == '_',
    ensures
        parsed(t, 10) is None,
        has_prefix(t, 'x', 'X') ==> parsed(t.skip(2), 16) is None,
        has_prefix(t, 'b', 'B') ==> parsed(t.skip(2), 2) is None,
        has_prefix(t, 'o', 'O') ==> parsed(t.skip(2), 8) is None,
{
    lemma_parse_accepts_digits_only(t, 10);
    assert(digit_value(t[at], 10) is None);
    if at >= 2 {
        let d = t.skip(2);
        assert(d[at - 2] == '_');
        lemma_parse_accepts_digits_only(d, 16);
        lemma_parse_accepts_digits_only(d, 2);
        lemma_parse_accepts_digits_only(d, 8);
    }
}

/// An address is hexadecimal behind `0x` and decimal otherwise: a text with
/// any other character in it names none.
pub proof fn lemma_address_digits(s: Seq<char>, at: int)
    requires
        0 <= at < s.len(),
        !is_white(s[at]),
        !('0' <= s[at] <= '9'),
        !('a' <= s[at] <= 'f'),
        !('A' <= s[at] <= 'F'),
        s[at] != 'x' && s[at] != 'X' && s[at] != '+',
    ensures
        address(s) is None,
{
    let ends = lemma_trimmed_is_inside(s);
    let t = trimmed(s);
    assert(t[at - ends.0] == s[at]);
    let k = at - ends.0;
    lemma_parse_accepts_digits_only(t, 10);
    assert(digit_value(t[k], 10) is None);
    if has_prefix(t, 'x', 'X') {
        assert(k >= 2);
        let d = t.skip(2);
        assert(d[k - 2] == s[at]);
        assert(digit_value(d[k - 2], 16) is None);
        lemma_parse_accepts_digits_only(d, 16);
    }
}

/// Without the prefix only decimal digits are read, and they are read as
/// decimal: the letters of a bare hexadecimal number make it no address.
#[verifier::rlimit(50)]
pub proof fn lemma_bare_address_is_decimal(d: Seq<char>)
    requires
        d.len() > 0,
        forall|i: int| 0 <= i < d.len() ==> digit_value(#[trigger] d[i], 16) is Some,
    ensures
        address(d) is Some ==> forall|i: int| 0 <= i < d.len() ==> '0' <= #[trigger] d[i] <= '9',
        address(d) matches Some(n) ==> digits_value(d, 10) == Some(n as nat),
        integer(d) matches Some(n) ==> digits_value(d, 10) == Some(n as nat) || d.len() > 2 && (d[1]
            == 'b' || d[1] == 'B'),
{
    assert forall|i: int| 0 <= i < d.len() implies !is_white(#[trigger] d[i]) && d[i] != '_' by {
        assert(digit_value(d[i], 16) is Some);
    }
    lemma_clean_text(d);
    assert(digit_value(d[0], 16) is Some);
    if d.len() >= 2 {
        assert(digit_value(d[1], 16) is Some);
    }
    lemma_parse_accepts_digits_only(d, 10);
    if has_prefix(d, 'b', 'B') && d.len() == 2 {
        assert(d.skip(2).len() == 0);
    }
}

/// Any text of digits that stands for a number of 64 bits is read as that number,
/// however many zeros lead it and whatever the case of its digits: as hexadecimal
/// behind `0x` or `0X`, as decimal without a prefix.
pub proof fn lemma_digits_are_read(d: Seq<char>, n: u64, x: char)
    requires
        d.len() > 0,
        x == 'x' || x == 'X',
    ensures
        digits_value(d, 16) == Some(n as nat) ==> address(seq!['0', x] + d) == Some(n) && integer(
            seq!['0', x] + d,
        ) == Some(n) && any_radix(seq!['0', x] + d) == Some(n),
        digits_value(d, 10) == Some(n as nat) ==> address(d) == Some(n) && integer(d) == Some(n)
            && any_radix(d) == Some(n),
{
    if digits_value(d, 16) == Some(n as nat) {
        lemma_all_are_digits(d, 16);
        assert forall|i: int| 0 <= i < d.len() implies !is_white(#[trigger] d[i]) && d[i] != '_' by {
            assert(digit_value(d[i], 16) is Some);
        }
        assert(digit_value(d[0], 16) is Some);
        assert(parsed(d, 16) == Some(n));
        lemma_behind_prefix(x, d, n);
    }
    if digits_value(d, 10) == Some(n as nat) {
        lemma_all_are_digits(d, 10);
        assert forall|i: int| 0 <= i < d.len() implies !is_white(#[trigger] d[i]) && d[i] != '_' by {
            assert(digit_value(d[i], 10) is Some);
        }
        assert(digit_value(d[0], 10) is Some);
        if d.len() >= 2 {
            assert(digit_value(d[1], 10) is Some);
        }
        lemma_clean_text(d);
    }
}

/// An underscore more between the characters of a tool's number changes nothing.
pub proof fn lemma_underscore_between(a: Seq<char>, b: Seq<char>)
    requires
        a.len() > 0 && !is_white(a[0]),
        b.len() > 0 && !is_white(b.last()),
        !is_white(a.last()) && !is_white(b[0]),
    ensures
        any_radix(a + seq!['_'] + b) == any_radix(a + b),
{
    let none = Seq::<char>::empty();
    let long = a + seq!['_'] + b;
    let short = a + b;
    let keep = |c: char| c != '_';
    assert(trimmed(long) == long) by {
        lemma_trim_padding(none, long, none);
        assert(none + long + none =~= long);
    }
    assert(trimmed(short) == short) by {
        lemma_trim_padding(none, short, none);
        assert(none + short + none =~= short);
    }
    Seq::filter_distributes_over_add(a + seq!['_'], b, keep);
    Seq::filter_distributes_over_add(a, seq!['_'], keep);
    Seq::filter_distributes_over_add(a, b, keep);
    assert(seq!['_'].filter(keep) =~= Seq::empty()) by {
        reveal_with_fuel(Seq::filter, 3);
        assert(seq!['_'].drop_last() =~= Seq::<char>::empty());
    }
    assert(a.filter(keep) + Seq::empty() =~= a.filter(keep));
}

} // verus!
