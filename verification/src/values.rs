//! What the arguments of tools stand for: texts, addresses, bytes, numbers.

use crate::bytes::{
    hex_encoded, lemma_capital_bytes_read_back, lemma_encoded_digits, lemma_hex_read_back, pair_bytes,
    pair_value,
};
use crate::calls::bytes_v;
use crate::errors::{ToolError, ToolErrorOf, ToolErrorV};
use crate::json::{num_text, unsigned_in, values_of, Json, JsonV, Num, NumV};
use crate::json_text::{json_in, read_json};
use crate::numbers::{
    any_radix, decimal, digit_value, equal_but_for_case, hex, lemma_address_read_back, number_body,
    read_any_radix, read_digit, signed_decimal, signed_text,
};
use crate::protocol::opt_json;
use crate::text::{
    chars_of, is_white, joined, lemma_pieces_of_joined, lemma_trim_padding, pieces, split, trim, trimmed,
    views,
};
use vstd::prelude::*;

verus! {

// ---------------------------------------------------------------------------
// Numbers
// ---------------------------------------------------------------------------

/// The types that a number of the wire becomes.
#[derive(Clone, Copy, Debug, PartialEq, Eq, Structural)]
pub enum IntKind {
    U8,
    U32,
    U64,
    Usize,
    I32,
}

/// The name of a type.
pub open spec fn kind_name(kind: IntKind) -> Seq<char> {
    match kind {
        IntKind::U8 => "u8"@,
        IntKind::U32 => "u32"@,
        IntKind::U64 => "u64"@,
        IntKind::Usize => "usize"@,
        IntKind::I32 => "i32"@,
    }
}

/// Whether a number is one of a type.
pub open spec fn fits(v: i64, kind: IntKind) -> bool {
    match kind {
        IntKind::U8 => 0 <= v <= u8::MAX,
        IntKind::U32 => 0 <= v <= u32::MAX,
        IntKind::U64 => 0 <= v,
        IntKind::Usize => 0 <= v <= usize::MAX,
        IntKind::I32 => i32::MIN <= v <= i32::MAX,
    }
}

/// The error for a number that is none of the type.
pub open spec fn out_of_range(v: i64, name: Seq<char>, kind: IntKind) -> ToolErrorV {
    ToolErrorOf::InvalidParams(
        name + " ("@ + signed_decimal(v as int) + ") is out of range for "@ + kind_name(kind),
    )
}

/// An optional number of the wire, checked against the type that it becomes.
pub open spec fn number_param(value: Option<i64>, name: Seq<char>, kind: IntKind) -> Result<
    Option<i64>,
    ToolErrorV,
> {
    match value {
        Some(v) => if fits(v, kind) {
            Ok(value)
        } else {
            Err(out_of_range(v, name, kind))
        },
        None => Ok(None),
    }
}

/// Check an optional wire number against the type that the worker uses.
pub fn parse_optional_unsigned(value: Option<i64>, name: &str, kind: IntKind) -> (r: Result<
    Option<i64>,
    ToolError,
>)
    ensures
        match r {
            Ok(v) => number_param(value, name@, kind) == Ok::<Option<i64>, ToolErrorV>(v),
            Err(e) => number_param(value, name@, kind) == Err::<Option<i64>, ToolErrorV>(e@),
        },
{
    match value {
        Some(v) => {
            let ok: bool = match kind {
                IntKind::U8 => 0 <= v && v <= 0xff,
                IntKind::U32 => 0 <= v && v <= 0xffff_ffff,
                IntKind::U64 => 0 <= v,
                IntKind::Usize => 0 <= v && (v as u64) <= (usize::MAX as u64),
                IntKind::I32 => -0x8000_0000 <= v && v <= 0x7fff_ffff,
            };
            if ok {
                return Ok(Some(v));
            }
            let mut m = name.to_owned();
            m.push_str(" (");
            m.push_str(signed_text(v).as_str());
            m.push_str(") is out of range for ");
            let ty: &str = match kind {
                IntKind::U8 => "u8",
                IntKind::U32 => "u32",
                IntKind::U64 => "u64",
                IntKind::Usize => "usize",
                IntKind::I32 => "i32",
            };
            m.push_str(ty);
            Err(ToolErrorOf::InvalidParams(m))
        },
        None => Ok(None),
    }
}

/// An optional count of the wire.
pub open spec fn count_param(value: Option<i64>, name: Seq<char>) -> Result<
    Option<usize>,
    ToolErrorV,
> {
    match number_param(value, name, IntKind::Usize) {
        Ok(Some(v)) => Ok(Some(v as usize)),
        Ok(None) => Ok(None),
        Err(e) => Err(e),
    }
}

/// An optional count of the wire.
pub fn optional_count(value: Option<i64>, name: &str) -> (r: Result<Option<usize>, ToolError>)
    ensures
        match r {
            Ok(v) => count_param(value, name@) == Ok::<Option<usize>, ToolErrorV>(v),
            Err(e) => count_param(value, name@) == Err::<Option<usize>, ToolErrorV>(e@),
        },
{
    match parse_optional_unsigned(value, name, IntKind::Usize)? {
        Some(v) => Ok(Some(v as usize)),
        None => Ok(None),
    }
}

/// An optional number of seconds of the wire.
pub open spec fn secs_param(value: Option<i64>, name: Seq<char>) -> Result<Option<u64>, ToolErrorV> {
    match number_param(value, name, IntKind::U64) {
        Ok(Some(v)) => Ok(Some(v as u64)),
        Ok(None) => Ok(None),
        Err(e) => Err(e),
    }
}

/// An optional number of seconds of the wire.
pub fn optional_secs(value: Option<i64>, name: &str) -> (r: Result<Option<u64>, ToolError>)
    ensures
        match r {
            Ok(v) => secs_param(value, name@) == Ok::<Option<u64>, ToolErrorV>(v),
            Err(e) => secs_param(value, name@) == Err::<Option<u64>, ToolErrorV>(e@),
        },
{
    match parse_optional_unsigned(value, name, IntKind::U64)? {
        Some(v) => Ok(Some(v as u64)),
        None => Ok(None),
    }
}

/// An optional ordinal of the wire.
pub open spec fn ordinal_param(value: Option<i64>, name: Seq<char>) -> Result<
    Option<u32>,
    ToolErrorV,
> {
    match number_param(value, name, IntKind::U32) {
        Ok(Some(v)) => Ok(Some(v as u32)),
        Ok(None) => Ok(None),
        Err(e) => Err(e),
    }
}

/// An optional ordinal of the wire.
pub fn optional_ordinal(value: Option<i64>, name: &str) -> (r: Result<Option<u32>, ToolError>)
    ensures
        match r {
            Ok(v) => ordinal_param(value, name@) == Ok::<Option<u32>, ToolErrorV>(v),
            Err(e) => ordinal_param(value, name@) == Err::<Option<u32>, ToolErrorV>(e@),
        },
{
    match parse_optional_unsigned(value, name, IntKind::U32)? {
        Some(v) => Ok(Some(v as u32)),
        None => Ok(None),
    }
}

/// Optional flags of the wire.
pub open spec fn flags_param(value: Option<i64>, name: Seq<char>) -> Result<
    Option<i32>,
    ToolErrorV,
> {
    match number_param(value, name, IntKind::I32) {
        Ok(Some(v)) => Ok(Some(v as i32)),
        Ok(None) => Ok(None),
        Err(e) => Err(e),
    }
}

/// Optional flags of the wire.
pub fn optional_flags(value: Option<i64>, name: &str) -> (r: Result<Option<i32>, ToolError>)
    ensures
        match r {
            Ok(v) => flags_param(value, name@) == Ok::<Option<i32>, ToolErrorV>(v),
            Err(e) => flags_param(value, name@) == Err::<Option<i32>, ToolErrorV>(e@),
        },
{
    match parse_optional_unsigned(value, name, IntKind::I32)? {
        Some(v) => Ok(Some(v as i32)),
        None => Ok(None),
    }
}

/// A count, or a default, but no more than a cap.
pub open spec fn capped(value: Option<usize>, default: usize, cap: usize) -> usize {
    let v = match value {
        Some(n) => n,
        None => default,
    };
    if v < cap {
        v
    } else {
        cap
    }
}

/// A count, or a default, but no more than a cap.
pub fn cap_count(value: Option<usize>, default: usize, cap: usize) -> (r: usize)
    ensures
        r == capped(value, default, cap),
{
    let v: usize = match value {
        Some(n) => n,
        None => default,
    };
    if v < cap {
        v
    } else {
        cap
    }
}

/// A value, or a default.
pub open spec fn or_else<V>(value: Option<V>, default: V) -> V {
    match value {
        Some(v) => v,
        None => default,
    }
}

// ---------------------------------------------------------------------------
// Lists of texts
// ---------------------------------------------------------------------------

/// The texts of a list whose items all are texts or numbers.
pub open spec fn all_texts(items: Seq<JsonV>) -> Result<Seq<Seq<char>>, ToolErrorV>
    decreases items.len(),
{
    if items.len() == 0 {
        Ok(seq![])
    } else {
        match (all_texts(items.drop_last()), item_text(items.last())) {
            (Ok(front), Some(s)) => Ok(front.push(s)),
            _ => Err(ToolErrorOf::IdaError("expected string or number"@)),
        }
    }
}

/// What a value of a list is as a text: a text as it is, a number as it is written.
pub open spec fn item_text(v: JsonV) -> Option<Seq<char>> {
    match v {
        JsonV::Str(s) => Some(s),
        JsonV::Num(n) => Some(num_text(n)),
        _ => None,
    }
}

/// The pieces of a text between commas, without white space around them, as far as anything is left
/// of them.
pub open spec fn comma_pieces(parts: Seq<Seq<char>>) -> Seq<Seq<char>>
    decreases parts.len(),
{
    if parts.len() == 0 {
        seq![]
    } else {
        let front = comma_pieces(parts.drop_last());
        let t = trimmed(parts.last());
        if t.len() > 0 {
            front.push(t)
        } else {
            front
        }
    }
}

/// The texts that one text stands for: the items of the JSON list that it is, else its pieces
/// between commas, else itself. `parsed` is the JSON value that it is, where it is one.
pub open spec fn texts_of_text(s: Seq<char>, parsed: Option<JsonV>) -> Result<
    Seq<Seq<char>>,
    ToolErrorV,
> {
    let t = trimmed(s);
    if t.len() > 0 && t[0] == '[' && parsed is Some && parsed->0 is Arr {
        all_texts(parsed->0->Arr_0)
    } else if t.contains(',') {
        Ok(comma_pieces(pieces(t, ',')))
    } else if t.len() == 0 {
        Err(ToolErrorOf::IdaError("empty string"@))
    } else {
        Ok(seq![t])
    }
}

/// The texts that an argument stands for. `parsed` is the JSON value in its text, where it is one.
pub open spec fn texts_of_value(v: JsonV, parsed: Option<JsonV>) -> Result<
    Seq<Seq<char>>,
    ToolErrorV,
> {
    match v {
        JsonV::Str(s) => texts_of_text(s, parsed),
        JsonV::Num(n) => Ok(seq![num_text(n)]),
        JsonV::Arr(items) => all_texts(items),
        _ => Err(ToolErrorOf::IdaError("expected string, number, or array"@)),
    }
}

/// The texts that an argument stands for.
pub open spec fn texts_in_value(v: JsonV) -> Result<Seq<Seq<char>>, ToolErrorV> {
    texts_of_value(
        v,
        match v {
            JsonV::Str(s) => json_in(trimmed(s)),
            _ => None,
        },
    )
}

/// What a result that is a list of texts is.
pub open spec fn texts_result(r: Result<Vec<String>, ToolError>) -> Result<
    Seq<Seq<char>>,
    ToolErrorV,
> {
    match r {
        Ok(list) => Ok(views(list@)),
        Err(e) => Err(e@),
    }
}

/// The texts of a list whose items all are texts or numbers.
fn require_texts(items: &Vec<Json>) -> (r: Result<Vec<String>, ToolError>)
    ensures
        texts_result(r) == all_texts(values_of(items@)),
{
    let ghost all = values_of(items@);
    let mut out: Vec<String> = Vec::new();
    let mut i: usize = 0;
    assert(all.take(0) =~= seq![]);
    assert(views(out@) =~= seq![]);
    while i < items.len()
        invariant
            i <= items.len(),
            all == values_of(items@),
            all_texts(all.take(i as int)) == Ok::<Seq<Seq<char>>, ToolErrorV>(views(out@)),
        decreases items.len() - i,
    {
        let ghost before = out@;
        proof {
            let now = all.take(i + 1);
            assert(now.drop_last() =~= all.take(i as int));
            assert(now.last() == items[i as int]@);
        }
        match &items[i] {
            Json::Str(s) => {
                out.push(s.clone());
                assert(views(out@) =~= views(before).push(s@));
            },
            Json::Number(n) => {
                out.push(n.text());
                assert(views(out@) =~= views(before).push(num_text(n@)));
            },
            _ => {
                proof {
                    lemma_bad_item(all, i + 1);
                }
                return Err(ToolErrorOf::IdaError("expected string or number".to_owned()));
            },
        }
        i = i + 1;
    }
    assert(all.take(i as int) =~= all);
    Ok(out)
}

/// An item that is neither a text nor a number spoils the list.
proof fn lemma_bad_item(items: Seq<JsonV>, k: int)
    requires
        0 <= k <= items.len(),
        all_texts(items.take(k)) is Err,
    ensures
        all_texts(items) == Err::<Seq<Seq<char>>, ToolErrorV>(
            ToolErrorOf::IdaError("expected string or number"@),
        ),
    decreases items.len() - k,
{
    if k < items.len() {
        assert(items.take(k + 1).drop_last() =~= items.take(k));
        lemma_bad_item(items, k + 1);
    } else {
        assert(items.take(k) =~= items);
    }
}

/// The pieces of a text between commas, as far as anything is left of them.
fn split_commas(t: &str) -> (r: Vec<String>)
    ensures
        views(r@) == comma_pieces(pieces(t@, ',')),
{
    let parts = split(t, ',');
    let ghost all = views(parts@);
    let mut out: Vec<String> = Vec::new();
    let mut i: usize = 0;
    assert(all.take(0) =~= seq![]);
    assert(views(out@) =~= seq![]);
    while i < parts.len()
        invariant
            i <= parts.len(),
            all == views(parts@),
            views(out@) == comma_pieces(all.take(i as int)),
        decreases parts.len() - i,
    {
        let ghost before = out@;
        proof {
            let now = all.take(i + 1);
            assert(now.drop_last() =~= all.take(i as int));
            assert(now.last() == parts[i as int]@);
        }
        let piece = trim(parts[i].as_str());
        if !piece.as_str().is_empty() {
            out.push(piece);
            assert(views(out@) =~= views(before).push(piece@));
        }
        i = i + 1;
    }
    assert(all.take(i as int) =~= all);
    out
}

/// Whether a text holds a character.
fn holds(t: &str, c: char) -> (r: bool)
    ensures
        r == t@.contains(c),
{
    let chars = chars_of(t);
    let mut i: usize = 0;
    while i < chars.len()
        invariant
            i <= chars.len(),
            chars@ == t@,
            forall|j: int| 0 <= j < i ==> chars[j] != c,
        decreases chars.len() - i,
    {
        if chars[i] == c {
            assert(t@[i as int] == c);
            return true;
        }
        i = i + 1;
    }
    false
}

/// The texts that one text stands for, given the JSON value that it is, where it is one.
pub fn texts_from_text(s: &str, parsed: Option<Json>) -> (r: Result<Vec<String>, ToolError>)
    ensures
        texts_result(r) == texts_of_text(s@, opt_json(parsed)),
{
    let t = trim(s);
    let chars = chars_of(t.as_str());
    if chars.len() > 0 && chars[0] == '[' {
        let ghost value = opt_json(parsed);
        if let Some(Json::Array(items)) = parsed {
            assert(values_of(items@) =~= value->0->Arr_0);
            return require_texts(&items);
        }
    }
    if holds(t.as_str(), ',') {
        Ok(split_commas(t.as_str()))
    } else if t.as_str().is_empty() {
        Err(ToolErrorOf::IdaError("empty string".to_owned()))
    } else {
        let mut out: Vec<String> = Vec::new();
        let ghost tv = t@;
        out.push(t);
        assert(views(out@) =~= seq![tv]);
        Ok(out)
    }
}

/// The texts that an argument stands for, given the JSON value in its text, where it is one.
pub fn texts_from_value(value: &Json, parsed: Option<Json>) -> (r: Result<Vec<String>, ToolError>)
    ensures
        texts_result(r) == texts_of_value(value@, opt_json(parsed)),
{
    match value {
        Json::Str(s) => texts_from_text(s.as_str(), parsed),
        Json::Number(n) => {
            let mut out: Vec<String> = Vec::new();
            out.push(n.text());
            assert(views(out@) =~= seq![num_text(n@)]);
            Ok(out)
        },
        Json::Array(a) => {
            assert(values_of(a@) =~= value@->Arr_0);
            require_texts(a)
        },
        _ => Err(ToolErrorOf::IdaError("expected string, number, or array".to_owned())),
    }
}

/// The texts that an argument stands for.
pub fn value_to_strings(value: &Json) -> (r: Result<Vec<String>, ToolError>)
    ensures
        texts_result(r) == texts_in_value(value@),
{
    let parsed: Option<Json> = match value {
        Json::Str(s) => {
            let t = trim(s.as_str());
            let chars = chars_of(t.as_str());
            if chars.len() > 0 && chars[0] == '[' {
                read_json(t.as_str())
            } else {
                None
            }
        },
        _ => None,
    };
    texts_from_value(value, parsed)
}

// ---------------------------------------------------------------------------
// Addresses
// ---------------------------------------------------------------------------

/// The number in a text, or the error that names what could not be read.
pub open spec fn number_in(s: Seq<char>) -> Result<u64, ToolErrorV> {
    match any_radix(s) {
        Some(n) => Ok(n),
        None => Err(ToolErrorOf::InvalidAddress(number_body(s))),
    }
}

/// The number in a text.
pub fn parse_address(s: &str) -> (r: Result<u64, ToolError>)
    ensures
        match r {
            Ok(n) => number_in(s@) == Ok::<u64, ToolErrorV>(n),
            Err(e) => number_in(s@) == Err::<u64, ToolErrorV>(e@),
        },
{
    match read_any_radix(s) {
        Ok(n) => Ok(n),
        Err(t) => Err(ToolErrorOf::InvalidAddress(t)),
    }
}

/// The numbers in texts, or the error of the first bad one.
pub open spec fn numbers_in(texts: Seq<Seq<char>>) -> Result<Seq<u64>, ToolErrorV>
    decreases texts.len(),
{
    if texts.len() == 0 {
        Ok(seq![])
    } else {
        match numbers_in(texts.drop_last()) {
            Err(e) => Err(e),
            Ok(front) => match number_in(texts.last()) {
                Err(e) => Err(e),
                Ok(n) => Ok(front.push(n)),
            },
        }
    }
}

/// The addresses that texts stand for, of which there is at least one.
pub open spec fn addresses_of(texts: Result<Seq<Seq<char>>, ToolErrorV>) -> Result<
    Seq<u64>,
    ToolErrorV,
> {
    match texts {
        Err(e) => Err(e),
        Ok(list) => if list.len() == 0 {
            Err(ToolErrorOf::InvalidAddress("no addresses provided"@))
        } else {
            numbers_in(list)
        },
    }
}

/// The addresses that an argument stands for.
pub open spec fn addresses_in(v: JsonV) -> Result<Seq<u64>, ToolErrorV> {
    addresses_of(texts_in_value(v))
}

/// What a result that is a list of addresses is.
pub open spec fn addresses_result(r: Result<Vec<u64>, ToolError>) -> Result<Seq<u64>, ToolErrorV> {
    match r {
        Ok(list) => Ok(list@),
        Err(e) => Err(e@),
    }
}

/// The addresses that texts stand for, of which there is at least one.
pub fn addresses_from(strings: Result<Vec<String>, ToolError>) -> (r: Result<Vec<u64>, ToolError>)
    ensures
        addresses_result(r) == addresses_of(texts_result(strings)),
{
    let list = strings?;
    if list.len() == 0 {
        return Err(ToolErrorOf::InvalidAddress("no addresses provided".to_owned()));
    }
    let ghost all = views(list@);
    let mut out: Vec<u64> = Vec::new();
    let mut i: usize = 0;
    assert(all.take(0) =~= seq![]);
    assert(out@ =~= seq![]);
    while i < list.len()
        invariant
            i <= list.len(),
            all == views(list@),
            list.len() > 0,
            texts_result(strings) == Ok::<Seq<Seq<char>>, ToolErrorV>(all),
            numbers_in(all.take(i as int)) == Ok::<Seq<u64>, ToolErrorV>(out@),
        decreases list.len() - i,
    {
        proof {
            let now = all.take(i + 1);
            assert(now.drop_last() =~= all.take(i as int));
            assert(now.last() == list[i as int]@);
        }
        match parse_address(list[i].as_str()) {
            Ok(n) => {
                out.push(n);
            },
            Err(e) => {
                proof {
                    lemma_bad_number(all, i + 1);
                }
                return Err(e);
            },
        }
        i = i + 1;
    }
    assert(all.take(i as int) =~= all);
    Ok(out)
}

/// The first bad number is what the whole list fails with.
proof fn lemma_bad_number(texts: Seq<Seq<char>>, k: int)
    requires
        0 <= k <= texts.len(),
        numbers_in(texts.take(k)) is Err,
    ensures
        numbers_in(texts) == numbers_in(texts.take(k)),
    decreases texts.len() - k,
{
    if k < texts.len() {
        assert(texts.take(k + 1).drop_last() =~= texts.take(k));
        lemma_bad_number(texts, k + 1);
    } else {
        assert(texts.take(k) =~= texts);
    }
}

/// As many numbers come out as texts go in.
proof fn lemma_numbers_len(texts: Seq<Seq<char>>)
    ensures
        numbers_in(texts) matches Ok(list) ==> list.len() == texts.len(),
    decreases texts.len(),
{
    if texts.len() > 0 {
        lemma_numbers_len(texts.drop_last());
    }
}

/// The addresses that an argument stands for.
pub fn value_to_addresses(value: &Json) -> (r: Result<Vec<u64>, ToolError>)
    ensures
        addresses_result(r) == addresses_in(value@),
        r matches Ok(list) ==> list@.len() > 0,
{
    let strings = value_to_strings(value);
    proof {
        if texts_in_value(value@) is Ok {
            lemma_numbers_len(texts_in_value(value@)->Ok_0);
        }
    }
    addresses_from(strings)
}

/// The first of the addresses that an argument stands for.
pub open spec fn first_address_in(v: JsonV) -> Result<u64, ToolErrorV> {
    match addresses_in(v) {
        Ok(list) => Ok(list[0]),
        Err(e) => Err(e),
    }
}

/// What a result that is an address is.
pub open spec fn address_result(r: Result<u64, ToolError>) -> Result<u64, ToolErrorV> {
    match r {
        Ok(a) => Ok(a),
        Err(e) => Err(e@),
    }
}

/// The first of the addresses that an argument stands for.
pub fn value_to_single_address(value: &Json) -> (r: Result<u64, ToolError>)
    ensures
        address_result(r) == first_address_in(value@),
{
    let list = value_to_addresses(value)?;
    Ok(list[0])
}

/// The address of an argument that may be left out.
pub open spec fn maybe_address_in(v: Option<JsonV>) -> Result<Option<u64>, ToolErrorV> {
    match v {
        Some(value) => match first_address_in(value) {
            Ok(a) => Ok(Some(a)),
            Err(e) => Err(e),
        },
        None => Ok(None),
    }
}

/// The address of an argument that may be left out.
pub fn optional_address(value: &Option<Json>) -> (r: Result<Option<u64>, ToolError>)
    ensures
        match r {
            Ok(a) => maybe_address_in(crate::protocol::opt_json(*value)) == Ok::<
                Option<u64>,
                ToolErrorV,
            >(a),
            Err(e) => maybe_address_in(crate::protocol::opt_json(*value)) == Err::<
                Option<u64>,
                ToolErrorV,
            >(e@),
        },
{
    match value {
        Some(v) => {
            let a: u64 = value_to_single_address(v)?;
            Ok(Some(a))
        },
        None => Ok(None),
    }
}

/// The only address that an argument stands for.
pub open spec fn only_address_in(v: JsonV, field_name: Seq<char>) -> Result<u64, ToolErrorV> {
    match addresses_in(v) {
        Err(e) => Err(e),
        Ok(list) => if list.len() == 1 {
            Ok(list[0])
        } else {
            Err(ToolErrorOf::InvalidParams(field_name + " must contain exactly one value"@))
        },
    }
}

/// The only address that an argument stands for.
pub fn value_to_exactly_one_address(value: &Json, field_name: &str) -> (r: Result<u64, ToolError>)
    ensures
        address_result(r) == only_address_in(value@, field_name@),
{
    let list = value_to_addresses(value)?;
    if list.len() == 1 {
        Ok(list[0])
    } else {
        let mut m = field_name.to_owned();
        m.push_str(" must contain exactly one value");
        Err(ToolErrorOf::InvalidParams(m))
    }
}

// ---------------------------------------------------------------------------
// Bytes
// ---------------------------------------------------------------------------

/// Whether a character may stand between the digits of bytes.
pub open spec fn is_filler(c: char) -> bool {
    c == ' ' || c == '\t' || c == '\n' || c == '\r' || c as u32 == 0xc || c == ',' || c == '_' || c
        == ':' || c == '-' || c == 'x' || c == 'X'
}

/// The digits of a text, or the first character that is neither a digit nor may stand between them.
pub open spec fn digits_only(s: Seq<char>) -> Result<Seq<char>, char>
    decreases s.len(),
{
    if s.len() == 0 {
        Ok(seq![])
    } else {
        match digits_only(s.drop_last()) {
            Err(c) => Err(c),
            Ok(front) => if digit_value(s.last(), 16) is Some {
                Ok(front.push(s.last()))
            } else if is_filler(s.last()) {
                Ok(front)
            } else {
                Err(s.last())
            },
        }
    }
}

/// The bytes that a text of digits stands for.
pub open spec fn bytes_of_text(s: Seq<char>) -> Result<Seq<u8>, ToolErrorV> {
    match digits_only(s) {
        Err(c) => Err(ToolErrorOf::InvalidParams("invalid hex character: "@.push(c))),
        Ok(d) => if d.len() == 0 {
            Err(ToolErrorOf::InvalidParams("no bytes provided"@))
        } else if d.len() % 2 == 1 {
            Err(ToolErrorOf::InvalidParams("hex string has odd length"@))
        } else {
            match pair_bytes(d, 0) {
                Ok(bytes) => Ok(bytes),
                Err(_) => Err(ToolErrorOf::InvalidParams("invalid hex byte"@)),
            }
        },
    }
}

/// The byte that a number is.
pub open spec fn byte_of_number(n: NumV) -> Result<u8, ToolErrorV> {
    match unsigned_in(JsonV::Num(n)) {
        None => Err(ToolErrorOf::InvalidParams("invalid byte"@)),
        Some(v) => if v > 255 {
            Err(ToolErrorOf::InvalidParams("byte value out of range"@))
        } else {
            Ok(v as u8)
        },
    }
}

/// The byte that an item of a list is.
pub open spec fn byte_of_item(v: JsonV) -> Result<u8, ToolErrorV> {
    match v {
        JsonV::Num(n) => byte_of_number(n),
        JsonV::Str(s) => match number_in(s) {
            Err(e) => Err(e),
            Ok(n) => if n > 255 {
                Err(ToolErrorOf::InvalidParams("byte value out of range"@))
            } else {
                Ok(n as u8)
            },
        },
        _ => Err(ToolErrorOf::InvalidParams("bytes must be numbers or strings"@)),
    }
}

/// The bytes that the items of a list are, or the error of the first bad one.
pub open spec fn bytes_of_items(items: Seq<JsonV>) -> Result<Seq<u8>, ToolErrorV>
    decreases items.len(),
{
    if items.len() == 0 {
        Ok(seq![])
    } else {
        match bytes_of_items(items.drop_last()) {
            Err(e) => Err(e),
            Ok(front) => match byte_of_item(items.last()) {
                Err(e) => Err(e),
                Ok(b) => Ok(front.push(b)),
            },
        }
    }
}

/// The bytes that an argument stands for, of which there is at least one.
pub open spec fn bytes_in_value(v: JsonV) -> Result<Seq<u8>, ToolErrorV> {
    match v {
        JsonV::Str(s) => bytes_of_text(s),
        JsonV::Arr(items) => match bytes_of_items(items) {
            Err(e) => Err(e),
            Ok(bytes) => if bytes.len() == 0 {
                Err(ToolErrorOf::InvalidParams("no bytes provided"@))
            } else {
                Ok(bytes)
            },
        },
        JsonV::Num(n) => match byte_of_number(n) {
            Ok(b) => Ok(seq![b]),
            Err(e) => Err(e),
        },
        _ => Err(ToolErrorOf::InvalidParams("expected hex string or array of bytes"@)),
    }
}

/// What a result that is a list of bytes is.
pub open spec fn bytes_result(r: Result<Vec<u8>, ToolError>) -> Result<Seq<u8>, ToolErrorV> {
    match r {
        Ok(list) => Ok(list@),
        Err(e) => Err(e@),
    }
}

fn invalid(m: &str) -> (r: ToolError)
    ensures
        r@ == ToolErrorV::InvalidParams(m@),
{
    ToolErrorOf::InvalidParams(m.to_owned())
}

fn filler(c: char) -> (r: bool)
    ensures
        r == is_filler(c),
{
    c == ' ' || c == '\t' || c == '\n' || c == '\r' || c as u32 == 0xc || c == ',' || c == '_' || c
        == ':' || c == '-' || c == 'x' || c == 'X'
}

/// The first bad character is what the whole text fails with.
proof fn lemma_bad_char(s: Seq<char>, k: int)
    requires
        0 <= k <= s.len(),
        digits_only(s.take(k)) is Err,
    ensures
        digits_only(s) == digits_only(s.take(k)),
    decreases s.len() - k,
{
    if k < s.len() {
        assert(s.take(k + 1).drop_last() =~= s.take(k));
        lemma_bad_char(s, k + 1);
    } else {
        assert(s.take(k) =~= s);
    }
}

/// Pairs of digits stand for bytes.
proof fn lemma_digits_make_bytes(d: Seq<char>, at: int)
    requires
        0 <= at <= d.len(),
        (d.len() - at) % 2 == 0,
        forall|i: int| 0 <= i < d.len() ==> digit_value(#[trigger] d[i], 16) is Some,
    ensures
        pair_bytes(d, at) is Ok,
    decreases d.len() - at,
{
    if at < d.len() {
        assert(digit_value(d[at], 16) is Some);
        assert(digit_value(d[at + 1], 16) is Some);
        lemma_digits_make_bytes(d, at + 2);
    }
}

/// The bytes that a text of digits stands for.
fn text_to_bytes(s: &str) -> (r: Result<Vec<u8>, ToolError>)
    ensures
        bytes_result(r) == bytes_of_text(s@),
{
    let chars = chars_of(s);
    let mut d: Vec<char> = Vec::new();
    let mut i: usize = 0;
    assert(chars@.take(0) =~= seq![]);
    while i < chars.len()
        invariant
            i <= chars.len(),
            chars@ == s@,
            digits_only(chars@.take(i as int)) == Ok::<Seq<char>, char>(d@),
            forall|j: int| 0 <= j < d.len() ==> digit_value(#[trigger] d[j], 16) is Some,
        decreases chars.len() - i,
    {
        let c: char = chars[i];
        proof {
            let now = chars@.take(i + 1);
            assert(now.drop_last() =~= chars@.take(i as int));
            assert(now.last() == c);
        }
        if read_digit(c, 16).is_some() {
            d.push(c);
        } else if !filler(c) {
            proof {
                lemma_bad_char(chars@, i + 1);
            }
            let mut m = "invalid hex character: ".to_owned();
            m.push(c);
            return Err(ToolErrorOf::InvalidParams(m));
        }
        i = i + 1;
    }
    assert(chars@.take(i as int) =~= s@);
    if d.len() == 0 {
        return Err(invalid("no bytes provided"));
    }
    if d.len() % 2 == 1 {
        return Err(invalid("hex string has odd length"));
    }
    proof {
        lemma_digits_make_bytes(d@, 0);
    }
    let mut out: Vec<u8> = Vec::new();
    let mut i: usize = 0;
    assert(out@ + pair_bytes(d@, 0)->Ok_0 =~= pair_bytes(d@, 0)->Ok_0);
    while i < d.len()
        invariant
            i <= d.len(),
            d.len() % 2 == 0,
            i % 2 == 0,
            pair_bytes(d@, 0) is Ok,
            pair_bytes(d@, i as int) is Ok,
            out@ + pair_bytes(d@, i as int)->Ok_0 == pair_bytes(d@, 0)->Ok_0,
            forall|j: int| 0 <= j < d.len() ==> digit_value(#[trigger] d[j], 16) is Some,
        decreases d.len() - i,
    {
        let high: u64 = match read_digit(d[i], 16) {
            Some(x) => x,
            None => 0,
        };
        let low: u64 = match read_digit(d[i + 1], 16) {
            Some(x) => x,
            None => 0,
        };
        let b: u8 = (high * 16 + low) as u8;
        let ghost before = out@;
        proof {
            assert(digit_value(d[i as int], 16) is Some);
            assert(digit_value(d[i + 1], 16) is Some);
            assert(pair_value(d[i as int], d[i + 1]) == Some(b));
        }
        out.push(b);
        assert(out@ + pair_bytes(d@, i + 2)->Ok_0 =~= before + pair_bytes(d@, i as int)->Ok_0);
        i = i + 2;
    }
    assert(out@ =~= pair_bytes(d@, 0)->Ok_0);
    Ok(out)
}

fn number_to_byte(n: &Num) -> (r: Result<u8, ToolError>)
    ensures
        match r {
            Ok(b) => byte_of_number(n@) == Ok::<u8, ToolErrorV>(b),
            Err(e) => byte_of_number(n@) == Err::<u8, ToolErrorV>(e@),
        },
{
    match n {
        Num::Unsigned(v) => if *v > 255 {
            Err(invalid("byte value out of range"))
        } else {
            Ok(*v as u8)
        },
        _ => Err(invalid("invalid byte")),
    }
}

fn item_to_byte(v: &Json) -> (r: Result<u8, ToolError>)
    ensures
        match r {
            Ok(b) => byte_of_item(v@) == Ok::<u8, ToolErrorV>(b),
            Err(e) => byte_of_item(v@) == Err::<u8, ToolErrorV>(e@),
        },
{
    match v {
        Json::Number(n) => number_to_byte(n),
        Json::Str(s) => {
            let n: u64 = parse_address(s.as_str())?;
            if n > 255 {
                Err(invalid("byte value out of range"))
            } else {
                Ok(n as u8)
            }
        },
        _ => Err(invalid("bytes must be numbers or strings")),
    }
}

/// The first bad item is what the whole list fails with.
proof fn lemma_bad_byte(items: Seq<JsonV>, k: int)
    requires
        0 <= k <= items.len(),
        bytes_of_items(items.take(k)) is Err,
    ensures
        bytes_of_items(items) == bytes_of_items(items.take(k)),
    decreases items.len() - k,
{
    if k < items.len() {
        assert(items.take(k + 1).drop_last() =~= items.take(k));
        lemma_bad_byte(items, k + 1);
    } else {
        assert(items.take(k) =~= items);
    }
}

/// The bytes that an argument stands for: digits in a text, a list of bytes, or one byte.
pub fn value_to_bytes(value: &Json) -> (r: Result<Vec<u8>, ToolError>)
    ensures
        bytes_result(r) == bytes_in_value(value@),
{
    match value {
        Json::Str(s) => text_to_bytes(s.as_str()),
        Json::Array(a) => {
            let ghost all = values_of(a@);
            assert(value@->Arr_0 =~= all);
            let mut out: Vec<u8> = Vec::new();
            let mut i: usize = 0;
            assert(all.take(0) =~= seq![]);
            assert(out@ =~= seq![]);
            while i < a.len()
                invariant
                    i <= a.len(),
                    all == values_of(a@),
                    value@ == JsonV::Arr(all),
                    bytes_of_items(all.take(i as int)) == Ok::<Seq<u8>, ToolErrorV>(out@),
                decreases a.len() - i,
            {
                proof {
                    let now = all.take(i + 1);
                    assert(now.drop_last() =~= all.take(i as int));
                    assert(now.last() == a[i as int]@);
                }
                match item_to_byte(&a[i]) {
                    Ok(b) => {
                        out.push(b);
                    },
                    Err(e) => {
                        proof {
                            lemma_bad_byte(all, i + 1);
                        }
                        return Err(e);
                    },
                }
                i = i + 1;
            }
            assert(all.take(i as int) =~= all);
            if out.len() == 0 {
                Err(invalid("no bytes provided"))
            } else {
                Ok(out)
            }
        },
        Json::Number(n) => {
            let b: u8 = number_to_byte(n)?;
            let mut out: Vec<u8> = Vec::new();
            out.push(b);
            assert(out@ =~= seq![b]);
            Ok(out)
        },
        _ => Err(invalid("expected hex string or array of bytes")),
    }
}

/// Digits are kept as they are.
proof fn lemma_only_digits(s: Seq<char>)
    requires
        forall|i: int| 0 <= i < s.len() ==> digit_value(#[trigger] s[i], 16) is Some,
    ensures
        digits_only(s) == Ok::<Seq<char>, char>(s),
    decreases s.len(),
{
    if s.len() > 0 {
        assert(digit_value(s[s.len() - 1], 16) is Some);
        lemma_only_digits(s.drop_last());
        assert(s.drop_last().push(s.last()) =~= s);
    } else {
        assert(s =~= seq![]);
    }
}

proof fn lemma_listed_bytes(bytes: Seq<u8>)
    ensures
        bytes_of_items(bytes_v(bytes)->Arr_0) == Ok::<Seq<u8>, ToolErrorV>(bytes),
    decreases bytes.len(),
{
    let items = bytes_v(bytes)->Arr_0;
    if bytes.len() > 0 {
        lemma_listed_bytes(bytes.drop_last());
        assert(items.drop_last() =~= bytes_v(bytes.drop_last())->Arr_0);
        assert(bytes.drop_last().push(bytes.last()) =~= bytes);
    } else {
        assert(bytes =~= seq![]);
    }
}

/// Bytes read back as themselves from their digits in hexadecimal and from a list of numbers, as
/// which a pool hands them to a worker.
pub proof fn lemma_bytes_read_back(bytes: Seq<u8>)
    requires
        bytes.len() > 0,
    ensures
        bytes_in_value(JsonV::Str(hex_encoded(bytes))) == Ok::<Seq<u8>, ToolErrorV>(bytes),
        bytes_in_value(bytes_v(bytes)) == Ok::<Seq<u8>, ToolErrorV>(bytes),
{
    lemma_encoded_digits(bytes);
    lemma_only_digits(hex_encoded(bytes));
    lemma_hex_read_back(bytes);
    lemma_listed_bytes(bytes);
}

// ---------------------------------------------------------------------------
// What is taken and what is refused
// ---------------------------------------------------------------------------

/// A number of the wire is taken as it is where its type can hold it, and
/// refused where not: counts and seconds from zero on, ordinals in 32 bits,
/// flags in 32 bits with a sign. One that is not given is none.
pub proof fn lemma_numbers_in_range(v: i64, name: Seq<char>)
    ensures
        v >= 0 ==> count_param(Some(v), name) == Ok::<Option<usize>, ToolErrorV>(Some(v as usize))
            || usize::MAX < v,
        v < 0 ==> count_param(Some(v), name) is Err,
        v >= 0 ==> secs_param(Some(v), name) == Ok::<Option<u64>, ToolErrorV>(Some(v as u64)),
        v < 0 ==> secs_param(Some(v), name) is Err,
        0 <= v <= 4294967295 ==> ordinal_param(Some(v), name) == Ok::<Option<u32>, ToolErrorV>(
            Some(v as u32),
        ),
        v < 0 || v > 4294967295 ==> ordinal_param(Some(v), name) is Err,
        -2147483648 <= v <= 2147483647 ==> flags_param(Some(v), name) == Ok::<
            Option<i32>,
            ToolErrorV,
        >(Some(v as i32)),
        v < -2147483648 || v > 2147483647 ==> flags_param(Some(v), name) is Err,
        fits(v, IntKind::U8) <==> 0 <= v <= 255,
        count_param(None, name) == Ok::<Option<usize>, ToolErrorV>(None),
        secs_param(None, name) == Ok::<Option<u64>, ToolErrorV>(None),
        ordinal_param(None, name) == Ok::<Option<u32>, ToolErrorV>(None),
        flags_param(None, name) == Ok::<Option<i32>, ToolErrorV>(None),
{
}

/// A count is taken up to a cap, and the default, up to the cap too, where it
/// is not given.
pub proof fn lemma_capped(n: usize, default: usize, cap: usize)
    ensures
        n <= cap ==> capped(Some(n), default, cap) == n,
        n > cap ==> capped(Some(n), default, cap) == cap,
        capped(None, default, cap) == capped(Some(default), n, cap),
{
}

/// A list of texts is those texts; a number among them is its text in decimal;
/// anything else among them makes the list an error.
pub proof fn lemma_items_one_by_one(items: Seq<JsonV>, s: Seq<char>, n: u64, b: bool)
    ensures
        all_texts(Seq::empty()) == Ok::<Seq<Seq<char>>, ToolErrorV>(Seq::empty()),
        all_texts(items) matches Ok(list) ==> all_texts(items.push(JsonV::Str(s))) == Ok::<
            Seq<Seq<char>>,
            ToolErrorV,
        >(list.push(s)) && all_texts(items.push(JsonV::Num(NumV::Unsigned(n)))) == Ok::<
            Seq<Seq<char>>,
            ToolErrorV,
        >(list.push(decimal(n as nat))),
        all_texts(items.push(JsonV::Bool(b))) is Err,
        all_texts(items.push(JsonV::Null)) is Err,
        all_texts(items) is Err ==> all_texts(items.push(JsonV::Str(s))) is Err,
{
    assert(items.push(JsonV::Str(s)).drop_last() =~= items);
    assert(items.push(JsonV::Num(NumV::Unsigned(n))).drop_last() =~= items);
    assert(items.push(JsonV::Bool(b)).drop_last() =~= items);
    assert(items.push(JsonV::Null).drop_last() =~= items);
}

/// A text that is two or more items with commas between them is those items,
/// each without the white space around it; an item of white space alone is
/// left out.
pub proof fn lemma_commas_part_items(parts: Seq<Seq<char>>, s: Seq<char>, last: Seq<char>)
    requires
        parts.len() >= 2,
        s == joined(parts, seq![',']),
        s.len() > 0 && s[0] != '[' && !is_white(s[0]) && !is_white(s.last()),
        forall|i: int| 0 <= i < parts.len() ==> !(#[trigger] parts[i]).contains(','),
    ensures
        texts_of_text(s, None) == Ok::<Seq<Seq<char>>, ToolErrorV>(comma_pieces(parts)),
        comma_pieces(Seq::empty()) == Seq::<Seq<char>>::empty(),
        trimmed(last).len() > 0 ==> comma_pieces(parts.push(last)) == comma_pieces(parts).push(
            trimmed(last),
        ),
        trimmed(last).len() == 0 ==> comma_pieces(parts.push(last)) == comma_pieces(parts),
{
    lemma_pieces_of_joined(parts, ',');
    let none = Seq::<char>::empty();
    lemma_trim_padding(none, s, none);
    assert(none + s + none =~= s);
    assert(parts.push(last).drop_last() =~= parts);
    if !s.contains(',') {
        crate::text::lemma_pieces_of_two(s, none, ',');
        assert(pieces(s, ',').len() == 1);
    }
}

/// A text without a comma that is no list is one item: itself, without the
/// white space around it. White space alone is an error.
pub proof fn lemma_one_item(before: Seq<char>, s: Seq<char>, after: Seq<char>)
    requires
        forall|i: int| 0 <= i < before.len() ==> is_white(#[trigger] before[i]),
        forall|i: int| 0 <= i < after.len() ==> is_white(#[trigger] after[i]),
        s.len() > 0 && !is_white(s[0]) && !is_white(s.last()),
        !s.contains(','),
    ensures
        texts_of_text(before + s + after, None) == Ok::<Seq<Seq<char>>, ToolErrorV>(seq![s]),
        texts_of_text(before, None) is Err,
{
    lemma_trim_padding(before, s, after);
    crate::text::lemma_blank_is_trimmed_away(before);
}

/// A text that reads as a list in brackets is the items of that list.
pub proof fn lemma_bracketed_list(s: Seq<char>, items: Seq<JsonV>)
    requires
        s.len() > 0 && s[0] == '[' && !is_white(s.last()),
    ensures
        texts_of_text(s, Some(JsonV::Arr(items))) == all_texts(items),
{
    let none = Seq::<char>::empty();
    lemma_trim_padding(none, s, none);
    assert(none + s + none =~= s);
}

/// Addresses are read one by one, in order, in hexadecimal or in decimal; one
/// that cannot be read makes the list an error, and so does a list of none.
pub proof fn lemma_addresses_in_order(texts: Seq<Seq<char>>, n: u64, bad: Seq<char>)
    ensures
        numbers_in(Seq::empty()) == Ok::<Seq<u64>, ToolErrorV>(Seq::empty()),
        numbers_in(texts) matches Ok(list) ==> numbers_in(texts.push(hex(n as nat))) == Ok::<
            Seq<u64>,
            ToolErrorV,
        >(list.push(n)) && numbers_in(texts.push(decimal(n as nat))) == Ok::<Seq<u64>, ToolErrorV>(
            list.push(n),
        ),
        any_radix(bad) is None ==> numbers_in(texts.push(bad)) is Err,
        addresses_of(Ok(Seq::empty())) is Err,
        texts.len() > 0 ==> addresses_of(Ok(texts)) == numbers_in(texts),
{
    lemma_address_read_back(n);
    assert(texts.push(hex(n as nat)).drop_last() =~= texts);
    assert(texts.push(decimal(n as nat)).drop_last() =~= texts);
    assert(texts.push(bad).drop_last() =~= texts);
}

/// A value that is one address is that address, where one is asked for and
/// where exactly one is; of several the first is taken, and several are refused
/// where exactly one is asked for.
pub proof fn lemma_one_address(v: JsonV, list: Seq<u64>, field_name: Seq<char>)
    requires
        addresses_in(v) == Ok::<Seq<u64>, ToolErrorV>(list),
        list.len() > 0,
    ensures
        first_address_in(v) == Ok::<u64, ToolErrorV>(list[0]),
        maybe_address_in(Some(v)) == Ok::<Option<u64>, ToolErrorV>(Some(list[0])),
        maybe_address_in(None) == Ok::<Option<u64>, ToolErrorV>(None),
        only_address_in(v, field_name) is Ok <==> list.len() == 1,
        list.len() == 1 ==> only_address_in(v, field_name) == Ok::<u64, ToolErrorV>(list[0]),
{
}

/// Between the digits of bytes a blank, a tab, a line or page break, a comma,
/// an underscore, a colon, a hyphen and an `x` do not count; any other
/// character that is no digit is an error.
pub proof fn lemma_between_digits(a: Seq<char>, c: char, b: Seq<char>)
    ensures
        c == ' ' || c == '\t' || c == '\n' || c == '\r' || c == '\u{c}' || c == ',' || c == '_' || c
            == ':' || c == '-' || c == 'x' || c == 'X' ==> digits_only(a + seq![c] + b)
            == digits_only(a + b),
        !(c == ' ' || c == '\t' || c == '\n' || c == '\r' || c == '\u{c}' || c == ',' || c == '_'
            || c == ':' || c == '-' || c == 'x' || c == 'X') && digit_value(c, 16) is None
            ==> digits_only(a + seq![c] + b) is Err,
    decreases b.len(),
{
    let s = a + seq![c] + b;
    if b.len() == 0 {
        assert(s.drop_last() =~= a);
        assert(a + b =~= a);
        assert(s.last() == c);
    } else {
        lemma_between_digits(a, c, b.drop_last());
        assert(s.drop_last() =~= a + seq![c] + b.drop_last());
        assert((a + b).drop_last() =~= a + b.drop_last());
        assert(s.last() == b.last() && (a + b).last() == b.last());
    }
}

/// Bytes in hexadecimal are those bytes whatever the case of the digits; no
/// digit and an odd number of digits are errors.
pub proof fn lemma_bytes_in_any_case(bytes: Seq<u8>, capital: Seq<char>, s: Seq<char>, d: Seq<char>)
    requires
        bytes.len() > 0,
        equal_but_for_case(capital, hex_encoded(bytes)),
    ensures
        bytes_of_text(capital) == Ok::<Seq<u8>, ToolErrorV>(bytes),
        digits_only(s) == Ok::<Seq<char>, char>(d) && (d.len() == 0 || d.len() % 2 == 1)
            ==> bytes_of_text(s) is Err,
{
    lemma_capital_bytes_read_back(bytes, capital);
    lemma_encoded_digits(bytes);
    let small = hex_encoded(bytes);
    assert forall|i: int| 0 <= i < capital.len() implies digit_value(#[trigger] capital[i], 16)
        is Some by {
        assert(digit_value(small[i], 16) is Some);
        lemma_digit_in_any_case(capital[i], small[i]);
    }
    lemma_only_digits(capital);
}

proof fn lemma_digit_in_any_case(capital: char, small: char)
    requires
        capital == small || 'a' <= small <= 'z' && capital as u32 + 32 == small as u32,
    ensures
        digit_value(capital, 16) == digit_value(small, 16),
{
}

/// A byte is a number up to 255; a larger one is an error, not its lowest byte.
pub proof fn lemma_bytes_are_small(n: u64, items: Seq<JsonV>)
    ensures
        n <= 255 ==> byte_of_item(JsonV::Num(NumV::Unsigned(n))) == Ok::<u8, ToolErrorV>(n as u8)
            && byte_of_item(JsonV::Str(hex(n as nat))) == Ok::<u8, ToolErrorV>(n as u8),
        n > 255 ==> byte_of_item(JsonV::Num(NumV::Unsigned(n))) is Err && byte_of_item(
            JsonV::Str(hex(n as nat)),
        ) is Err,
        n <= 255 ==> (bytes_of_items(items) matches Ok(list) ==> bytes_of_items(
            items.push(JsonV::Num(NumV::Unsigned(n))),
        ) == Ok::<Seq<u8>, ToolErrorV>(list.push(n as u8))),
        n > 255 ==> bytes_of_items(items.push(JsonV::Num(NumV::Unsigned(n)))) is Err,
        bytes_in_value(JsonV::Arr(Seq::empty())) is Err,
{
    lemma_address_read_back(n);
    assert(items.push(JsonV::Num(NumV::Unsigned(n))).drop_last() =~= items);
}

/// A value is read by what it is: a text as items, a number as its one text, a
/// list as its items; a flag, null and an object are errors.
pub proof fn lemma_values_as_texts(n: u64, items: Seq<JsonV>, s: Seq<char>, v: JsonV)
    ensures
        texts_in_value(JsonV::Num(NumV::Unsigned(n))) == Ok::<Seq<Seq<char>>, ToolErrorV>(
            seq![decimal(n as nat)],
        ),
        texts_in_value(JsonV::Arr(items)) == all_texts(items),
        texts_in_value(JsonV::Str(s)) == texts_of_text(s, json_in(trimmed(s))),
        v is Null || v is Bool || v is Obj ==> texts_in_value(v) is Err,
{
}

} // verus!
