//! Large output goes to a file; a short description of it takes its place.

use crate::bytes::{hex_encode, hex_encoded};
use crate::calendar::{civil_from_days, day_number, is_date, lemma_date_unique};
use crate::json::{no_fields, number_v, text_v, texts_v, FieldsV, Json, JsonObject, JsonV, NumV};
use crate::json_text::{json_in, plain_within, pretty_json, pretty_of};
use crate::names::{lemma_one_listing, lists};
use crate::numbers::{
    decimal, decimal_text, lemma_written_chars, push_padded, zero_padded,
};
use crate::output::at_most;
use crate::paths::{join_of, join_path};
use crate::text::{chars_of, views};
use sha2::{Digest, Sha256};
use vstd::prelude::*;
use vstd::string::StringSliceAdditionalSpecFns;
use vstd::utf8::encode_utf8;

verus! {

/// Default spill threshold in estimated tokens.
/// Outputs exceeding this will be written to a file instead of stdout.
pub const DEFAULT_SPILL_TOKEN_LIMIT: usize = 10_000;

/// How many names of fields a description holds at most.
pub const SUMMARY_NAMES: usize = 10;

/// Result of processing output through the spill mechanism.
#[derive(Debug)]
pub struct SpillResult {
    /// What should be printed to stdout.
    pub stdout_output: String,
    /// Whether the output was spilled to a file.
    pub spilled: bool,
    /// Path to spill file (if spilled).
    pub spill_path: Option<String>,
}

/// The estimated number of tokens in so many bytes: one for every 3.8 bytes, rounded up.
pub open spec fn tokens_in(byte_len: nat) -> nat {
    (5 * byte_len + 18) / 19
}

/// Estimate token count from byte length.
pub fn estimate_tokens(byte_len: usize) -> (r: usize)
    ensures
        r == tokens_in(byte_len as nat),
{
    let whole: usize = byte_len / 19;
    let rest: usize = byte_len % 19;
    let n: usize = whole * 5 + (rest * 5 + 18) / 19;
    assert(tokens_in(byte_len as nat) == n) by {
        let b = byte_len as int;
        assert(b == 19 * (b / 19) + b % 19);
        assert((5 * (19 * (b / 19) + b % 19) + 18) / 19 == 5 * (b / 19) + (5 * (b % 19) + 18) / 19);
    }
    n
}

/// More bytes are never estimated to be fewer tokens, and only no bytes are no tokens.
pub proof fn lemma_estimate_monotone(a: nat, b: nat)
    requires
        a <= b,
    ensures
        tokens_in(a) <= tokens_in(b),
        tokens_in(a) == 0 <==> a == 0,
        5 * a <= 19 * tokens_in(a) < 5 * a + 19,
{
}

// ---------------------------------------------------------------------------
// Where the file goes
// ---------------------------------------------------------------------------

/// The name of the directory for a day: year, month and day.
pub open spec fn is_day_name(name: Seq<char>, days: int) -> bool {
    exists|y: int, m: int, d: int|
        #![trigger day_number(y, m, d)]
        y >= 0 && is_date(y, m, d) && day_number(y, m, d) == days && name == zero_padded(
            decimal(y as nat),
            4,
        ) + zero_padded(decimal(m as nat), 2) + zero_padded(decimal(d as nat), 2)
}

/// The directory for the files of a day.
pub fn spill_dir(tmp: &str, secs: u64) -> (r: String)
    ensures
        exists|day: Seq<char>|
            #[trigger] is_day_name(day, secs as int / 86400) && r@ == join_of(
                join_of(tmp@, "ida-rs-spills"@),
                day,
            ),
{
    let days: i64 = (secs / 86400) as i64;
    let (y, m, d) = civil_from_days(days);
    proof {
        lemma_not_before_epoch(y as int, m as int, d as int);
    }
    let mut name = String::new();
    push_padded(&mut name, y as u128, 10, 4);
    push_padded(&mut name, m as u128, 10, 2);
    push_padded(&mut name, d as u128, 10, 2);
    let ghost day = zero_padded(decimal(y as nat), 4) + zero_padded(decimal(m as nat), 2)
        + zero_padded(decimal(d as nat), 2);
    assert(name@ =~= day);
    assert(is_day_name(day, secs as int / 86400)) by {
        assert(day_number(y as int, m as int, d as int) == days);
    }
    let base = join_path(tmp, "ida-rs-spills");
    join_path(base.as_str(), name.as_str())
}

proof fn lemma_not_before_epoch(y: int, m: int, d: int)
    requires
        is_date(y, m, d),
        day_number(y, m, d) >= 0,
    ensures
        y >= 0,
{
    reveal_with_fuel(crate::calendar::days_before_month, 13);
}

/// The text with an underscore in place of every dot.
pub open spec fn undotted(op: Seq<char>) -> Seq<char> {
    op.map_values(
        |c: char|
            if c == '.' {
                '_'
            } else {
                c
            },
    )
}

/// The name of the file for the result of an operation at a time of the day.
pub open spec fn file_for(op: Seq<char>, secs: nat, millis: nat) -> Seq<char> {
    let t = secs % 86400;
    undotted(op) + "-"@ + zero_padded(decimal(t / 3600), 2) + zero_padded(
        decimal((t % 3600) / 60),
        2,
    ) + zero_padded(decimal(t % 60), 2) + "_"@ + zero_padded(decimal(millis), 3) + ".json"@
}

/// Generate a spill filename based on operation name and timestamp.
pub fn spill_filename(op: &str, secs: u64, millis: u32) -> (r: String)
    ensures
        r@ == file_for(op@, secs as nat, millis as nat),
{
    let chars = chars_of(op);
    let mut out = String::new();
    let mut i: usize = 0;
    while i < chars.len()
        invariant
            i <= chars.len(),
            out@ =~= undotted(chars@).take(i as int),
        decreases chars.len() - i,
    {
        if chars[i] == '.' {
            out.push('_');
        } else {
            out.push(chars[i]);
        }
        i = i + 1;
    }
    assert(undotted(chars@).take(chars.len() as int) =~= undotted(op@));
    let t: u64 = secs % 86400;
    out.push_str("-");
    push_padded(&mut out, (t / 3600) as u128, 10, 2);
    push_padded(&mut out, ((t % 3600) / 60) as u128, 10, 2);
    push_padded(&mut out, (t % 60) as u128, 10, 2);
    out.push_str("_");
    push_padded(&mut out, millis as u128, 10, 3);
    out.push_str(".json");
    out
}

// ---------------------------------------------------------------------------
// The description
// ---------------------------------------------------------------------------

/// The SHA-256 digest of data.
pub uninterp spec fn sha256_of(data: Seq<u8>) -> Seq<u8>;

/// `Sha256::digest` of the `sha2` crate: the digest of the data, which the data alone determines,
/// in 32 bytes.
#[verifier::external_body]
fn sha256(data: &[u8]) -> (r: Vec<u8>)
    ensures
        r@ == sha256_of(data@),
        r@.len() == 32,
{
    Sha256::digest(data).to_vec()
}

/// Compute SHA-256 hex digest of data.
pub fn sha256_hex(data: &[u8]) -> (r: String)
    ensures
        r@ == hex_encoded(sha256_of(data@)),
{
    let digest = sha256(data);
    hex_encode(&digest)
}

/// What kind of value a value is.
pub open spec fn kind_of(v: JsonV) -> Seq<char> {
    match v {
        JsonV::Null => "null"@,
        JsonV::Bool(_) => "bool"@,
        JsonV::Num(_) => "number"@,
        JsonV::Str(_) => "string"@,
        JsonV::Arr(_) => "array"@,
        JsonV::Obj(_) => "object"@,
    }
}

/// What kind of value a value is.
pub fn value_type_name(v: &Json) -> (r: &'static str)
    ensures
        r@ == kind_of(v@),
{
    match v {
        Json::Null => "null",
        Json::Bool(_) => "bool",
        Json::Number(_) => "number",
        Json::Str(_) => "string",
        Json::Array(_) => "array",
        Json::Object(_) => "object",
    }
}

/// The names in alphabetical order.
pub open spec fn names_of(set: Set<Seq<char>>) -> Seq<Seq<char>> {
    choose|names: Seq<Seq<char>>| lists(names, set)
}

/// What a description says of a value: of a list how long it is, of an object its first names and
/// how many fields it has, of a text how many bytes it takes.
pub open spec fn summary_of(v: JsonV) -> FieldsV {
    let kind = no_fields().insert("kind"@, text_v(kind_of(v)));
    match v {
        JsonV::Arr(a) => kind.insert("count"@, number_v(a.len())),
        JsonV::Obj(m) => {
            let names = names_of(m.dom());
            kind.insert(
                "keys"@,
                texts_v(names.take(at_most(names.len(), SUMMARY_NAMES as nat) as int)),
            ).insert("count"@, number_v(names.len()))
        },
        JsonV::Str(s) => kind.insert("chars"@, number_v(encode_utf8(s).len())),
        _ => kind,
    }
}

fn summary(v: &Json) -> (r: Json)
    ensures
        r@ == JsonV::Obj(summary_of(v@)),
{
    let mut o = JsonObject::new();
    o.put("kind", Json::text(value_type_name(v)));
    match v {
        Json::Array(a) => {
            o.put("count", Json::count(a.len()));
        },
        Json::Object(m) => {
            let mut names = m.names();
            let count: usize = names.len();
            proof {
                lemma_one_listing(views(names@), names_of(m@.dom()), m@.dom());
            }
            let ghost all = views(names@);
            if count > SUMMARY_NAMES {
                names.truncate(SUMMARY_NAMES);
            }
            assert(views(names@) =~= all.take(at_most(all.len(), SUMMARY_NAMES as nat) as int));
            o.put("keys", Json::texts(&names));
            o.put("count", Json::count(count));
        },
        Json::Str(s) => {
            o.put("chars", Json::count(s.as_str().as_bytes().len()));
        },
        _ => {},
    }
    Json::Object(o)
}

/// The hint in a description.
pub open spec fn spill_hint() -> Seq<char> {
    "Output exceeded token limit. Full result saved to artifact_path. Use `cat` or read the file to access complete data."@
}

/// The description that takes the place of spilled output.
pub open spec fn envelope_of(path: Seq<char>, data: Seq<u8>, v: JsonV) -> FieldsV {
    no_fields().insert("ok"@, JsonV::Bool(true)).insert("spilled"@, JsonV::Bool(true)).insert(
        "artifact_path"@,
        text_v(path),
    ).insert("format"@, text_v("json"@)).insert("bytes"@, number_v(data.len())).insert(
        "tokens_estimate"@,
        number_v(tokens_in(data.len())),
    ).insert("sha256"@, text_v(hex_encoded(sha256_of(data)))).insert(
        "summary"@,
        JsonV::Obj(summary_of(v)),
    ).insert("hint"@, text_v(spill_hint()))
}

/// Build the metadata envelope returned when output is spilled.
pub fn build_envelope(path: &str, data: &[u8], v: &Json) -> (r: Json)
    ensures
        r@ == JsonV::Obj(envelope_of(path@, data@, v@)),
{
    let mut o = JsonObject::new();
    o.put("ok", Json::Bool(true));
    o.put("spilled", Json::Bool(true));
    o.put("artifact_path", Json::text(path));
    o.put("format", Json::text("json"));
    o.put("bytes", Json::count(data.len()));
    o.put("tokens_estimate", Json::count(estimate_tokens(data.len())));
    o.put("sha256", Json::Str(sha256_hex(data)));
    o.put("summary", summary(v));
    o.put(
        "hint",
        Json::text(
            "Output exceeded token limit. Full result saved to artifact_path. Use `cat` or read the file to access complete data.",
        ),
    );
    Json::Object(o)
}

// ---------------------------------------------------------------------------
// The decision
// ---------------------------------------------------------------------------

/// Whether so many bytes are too many for a limit in tokens; a limit of zero is none.
pub open spec fn spills(byte_len: nat, token_limit: nat) -> bool {
    token_limit != 0 && tokens_in(byte_len) > token_limit
}

/// No limit, no spill; and output that spills at a limit spills at every lower one but zero.
pub proof fn lemma_spill_limits(byte_len: nat, limit: nat, lower: nat)
    requires
        0 < lower <= limit,
    ensures
        !spills(byte_len, 0),
        spills(byte_len, limit) ==> spills(byte_len, lower),
{
}

/// What to do with rendered output.
#[derive(Debug)]
pub enum SpillPlan {
    /// Print it.
    Print(String),
    /// Write `data` to `path`, a file in `dir`, tell the user, and print the description.
    Write { dir: String, path: String, data: String, envelope: Json, note: String },
}

/// What the user is told of spilled output.
pub open spec fn spill_note(tokens: nat, limit: nat, path: Seq<char>) -> Seq<char> {
    "[spill] Output too large ("@ + decimal(tokens) + " tokens est. > "@ + decimal(limit)
        + " limit). Saved to: "@ + path
}

/// When a result is written to a file: the seconds that name the directory, and the seconds and
/// milliseconds that name the file.
#[derive(Clone, Copy, Debug)]
pub struct SpillTime {
    pub dir_secs: u64,
    pub secs: u64,
    pub millis: u32,
}

/// Whether a plan is what is to be done with the result `v` of an operation, which is written as
/// `rendered`.
pub open spec fn is_plan(
    r: SpillPlan,
    rendered: Seq<char>,
    v: JsonV,
    op: Seq<char>,
    token_limit: nat,
    tmp: Seq<char>,
    time: SpillTime,
) -> bool {
    let data = encode_utf8(rendered);
    if spills(data.len(), token_limit) {
        &&& r is Write
        &&& exists|day: Seq<char>|
            #[trigger] is_day_name(day, time.dir_secs as int / 86400) && r->dir@ == join_of(
                join_of(tmp, "ida-rs-spills"@),
                day,
            )
        &&& r->path@ == join_of(r->dir@, file_for(op, time.secs as nat, time.millis as nat))
        &&& r->data@ == rendered
        &&& r->envelope@ == JsonV::Obj(envelope_of(r->path@, data, v))
        &&& r->note@ == spill_note(tokens_in(data.len()), token_limit, r->path@)
    } else {
        r matches SpillPlan::Print(out) && out@ == rendered
    }
}

/// What to do with the result of an operation, given how it is written.
pub fn plan_spill(
    rendered: String,
    value: &Json,
    op: &str,
    token_limit: usize,
    tmp: &str,
    time: SpillTime,
) -> (r: SpillPlan)
    ensures
        is_plan(r, rendered@, value@, op@, token_limit as nat, tmp@, time),
        r is Write <==> token_limit > 0 && 5 * encode_utf8(rendered@).len() > 19 * token_limit,
{
    let data = rendered.as_str().as_bytes();
    let tokens: usize = estimate_tokens(data.len());
    if token_limit == 0 || tokens <= token_limit {
        return SpillPlan::Print(rendered.clone());
    }
    let dir = spill_dir(tmp, time.dir_secs);
    let name = spill_filename(op, time.secs, time.millis);
    let path = join_path(dir.as_str(), name.as_str());
    let envelope = build_envelope(path.as_str(), data, value);
    let mut note = "[spill] Output too large (".to_owned();
    note.push_str(decimal_text(tokens as u64).as_str());
    note.push_str(" tokens est. > ");
    note.push_str(decimal_text(token_limit as u64).as_str());
    note.push_str(" limit). Saved to: ");
    note.push_str(path.as_str());
    SpillPlan::Write { dir, path, data: rendered.clone(), envelope, note }
}

/// What to do with the result of an operation.
///
/// If `token_limit` is 0, spilling is disabled (pass-through).
/// If the rendered output exceeds `token_limit` estimated tokens,
/// it goes to a file and metadata is printed instead. What the file holds reads back as the result.
pub fn maybe_spill(result: &Json, op: &str, token_limit: usize, tmp: &str, time: SpillTime) -> (r:
    SpillPlan)
    ensures
        is_plan(r, pretty_of(result@), result@, op@, token_limit as nat, tmp@, time),
        r is Write <==> token_limit > 0 && 5 * encode_utf8(pretty_of(result@)).len() > 19
            * token_limit,
        r is Write && plain_within(result@, 100) ==> json_in(r->data@) == Some(result@),
{
    plan_spill(pretty_json(result), result, op, token_limit, tmp, time)
}

/// What came of a plan once it was carried out.
pub fn spill_result(plan: SpillPlan) -> (r: SpillResult)
    ensures
        match plan {
            SpillPlan::Print(out) => r.stdout_output@ == out@ && !r.spilled && r.spill_path is None,
            SpillPlan::Write { path, envelope, .. } => r.stdout_output@ == pretty_of(envelope@)
                && r.spilled && r.spill_path is Some && r.spill_path->0@ == path@,
        },
{
    match plan {
        SpillPlan::Print(out) => SpillResult {
            stdout_output: out,
            spilled: false,
            spill_path: None,
        },
        SpillPlan::Write { path, envelope, .. } => SpillResult {
            stdout_output: pretty_json(&envelope),
            spilled: true,
            spill_path: Some(path),
        },
    }
}

// ---------------------------------------------------------------------------
// What is spilled, and how it is told
// ---------------------------------------------------------------------------

/// Output spills exactly where it is longer than its limit in tokens allows,
/// at 3.8 bytes a token: five times the bytes against nineteen times the
/// limit. Without a limit nothing spills.
pub proof fn lemma_spills_past_the_limit(byte_len: nat, token_limit: nat)
    ensures
        spills(byte_len, token_limit) <==> token_limit > 0 && 5 * byte_len > 19 * token_limit,
{
}

/// A plan prints what is short enough, as it is, and writes what is too long,
/// whole: bytes are counted against 3.8 times the limit, and nothing else
/// about the output matters.
pub proof fn lemma_plan_follows_the_limit(
    r: SpillPlan,
    rendered: Seq<char>,
    v: JsonV,
    op: Seq<char>,
    token_limit: nat,
    tmp: Seq<char>,
    time: SpillTime,
)
    requires
        is_plan(r, rendered, v, op, token_limit, tmp, time),
    ensures
        r is Write <==> token_limit > 0 && 5 * encode_utf8(rendered).len() > 19 * token_limit,
        r matches SpillPlan::Print(out) ==> out@ == rendered,
        r matches SpillPlan::Write { data, .. } ==> data@ == rendered,
{
}

/// What is printed in place of output that went to a file: that it went there,
/// the file, its size in bytes, its estimated size in tokens, its digest in
/// hexadecimal, and what kind of value it holds.
pub proof fn lemma_envelope_fields(path: Seq<char>, data: Seq<u8>, v: JsonV)
    requires
        data.len() <= u64::MAX,
    ensures
        envelope_of(path, data, v)["ok"@] == JsonV::Bool(true),
        envelope_of(path, data, v)["spilled"@] == JsonV::Bool(true),
        envelope_of(path, data, v)["artifact_path"@] == JsonV::Str(path),
        envelope_of(path, data, v)["format"@] == JsonV::Str("json"@),
        envelope_of(path, data, v)["bytes"@] == JsonV::Num(NumV::Unsigned(data.len() as u64)),
        envelope_of(path, data, v)["tokens_estimate"@] matches JsonV::Num(NumV::Unsigned(t)) && 5
            * data.len() <= 19 * t && 19 * t < 5 * data.len() + 19,
        envelope_of(path, data, v)["sha256"@] == JsonV::Str(hex_encoded(sha256_of(data))),
        envelope_of(path, data, v)["summary"@] == JsonV::Obj(summary_of(v)),
        envelope_of(path, data, v)["hint"@] == JsonV::Str(
            "Output exceeded token limit. Full result saved to artifact_path. Use `cat` or read the file to access complete data."@,
        ),
{
    reveal_strlit("ok");
    reveal_strlit("spilled");
    reveal_strlit("artifact_path");
    reveal_strlit("format");
    reveal_strlit("bytes");
    reveal_strlit("tokens_estimate");
    reveal_strlit("sha256");
    reveal_strlit("summary");
    reveal_strlit("hint");
    assert("ok"@.len() == 2);
    assert("spilled"@.len() == 7);
    assert("artifact_path"@.len() == 13);
    assert("format"@.len() == 6);
    assert("bytes"@.len() == 5);
    assert("tokens_estimate"@.len() == 15);
    assert("sha256"@.len() == 6);
    assert("summary"@.len() == 7);
    assert("hint"@.len() == 4);
    assert("sha256"@[0] == 's');
    assert("format"@[0] == 'f');
    assert("summary"@[1] == 'u');
    assert("spilled"@[1] == 'p');
}

/// The note names the estimate, the limit and the file.
pub proof fn lemma_note_names_the_file(
    r: SpillPlan,
    rendered: Seq<char>,
    v: JsonV,
    op: Seq<char>,
    token_limit: nat,
    tmp: Seq<char>,
    time: SpillTime,
    tokens: nat,
)
    requires
        is_plan(r, rendered, v, op, token_limit, tmp, time),
        r is Write,
        5 * encode_utf8(rendered).len() <= 19 * tokens,
        19 * tokens < 5 * encode_utf8(rendered).len() + 19,
    ensures
        tokens > token_limit,
        r->note@ == "[spill] Output too large ("@ + decimal(tokens) + " tokens est. > "@ + decimal(
            token_limit,
        ) + " limit). Saved to: "@ + r->path@,
        r->envelope@ matches JsonV::Obj(m) && m["artifact_path"@] == JsonV::Str(r->path@),
{
    let data = encode_utf8(rendered);
    assert(tokens == tokens_in(data.len()));
    assert(envelope_of(r->path@, data, v)["artifact_path"@] == JsonV::Str(r->path@)) by {
        reveal_strlit("ok");
        reveal_strlit("spilled");
        reveal_strlit("artifact_path");
        reveal_strlit("format");
        reveal_strlit("bytes");
        reveal_strlit("tokens_estimate");
        reveal_strlit("sha256");
        reveal_strlit("summary");
        reveal_strlit("hint");
        assert("ok"@.len() == 2);
        assert("spilled"@.len() == 7);
        assert("artifact_path"@.len() == 13);
        assert("format"@.len() == 6);
        assert("bytes"@.len() == 5);
        assert("tokens_estimate"@.len() == 15);
        assert("sha256"@.len() == 6);
        assert("summary"@.len() == 7);
        assert("hint"@.len() == 4);
        assert("sha256"@[0] == 's');
        assert("format"@[0] == 'f');
        assert("summary"@[1] == 'u');
        assert("spilled"@[1] == 'p');
    }
}

/// The file of an output is named by the operation, with underscores for its
/// dots, and by the time of day: two digits each for the hour, the minute and
/// the second, and three for the milliseconds. The day does not show in it.
#[verifier::rlimit(50)]
pub proof fn lemma_file_name_tells_the_time(
    op: Seq<char>,
    day: nat,
    hour: nat,
    minute: nat,
    second: nat,
    millis: nat,
)
    requires
        hour < 24,
        minute < 60,
        second < 60,
    ensures
        file_for(op, day * 86400 + hour * 3600 + minute * 60 + second, millis) == undotted(op)
            + "-"@ + zero_padded(decimal(hour), 2) + zero_padded(decimal(minute), 2) + zero_padded(
            decimal(second),
            2,
        ) + "_"@ + zero_padded(decimal(millis), 3) + ".json"@,
{
    lemma_time_of_day(day, hour, minute, second);
}

proof fn lemma_time_of_day(day: nat, hour: nat, minute: nat, second: nat)
    requires
        hour < 24,
        minute < 60,
        second < 60,
    ensures
        ({
            let t = (day * 86400 + hour * 3600 + minute * 60 + second) % 86400;
            t / 3600 == hour && (t % 3600) / 60 == minute && t % 60 == second
        }),
{
    let t = (day * 86400 + hour * 3600 + minute * 60 + second) % 86400;
    assert(t == hour * 3600 + minute * 60 + second);
    assert(t / 3600 == hour);
    assert(t % 3600 == minute * 60 + second);
}

/// Underscores take the place of the dots, one for one, and nothing else
/// changes.
pub proof fn lemma_undotted(op: Seq<char>)
    ensures
        undotted(op).len() == op.len(),
        forall|i: int| 0 <= i < op.len() && op[i] != '.' ==> #[trigger] undotted(op)[i] == op[i],
        forall|i: int| 0 <= i < op.len() && op[i] == '.' ==> #[trigger] undotted(op)[i] == '_',
{
}

/// The directory of a day is named by its date: four digits for the year, two
/// for the month, two for the day. Different days have different dates.
pub proof fn lemma_day_named_by_date(name: Seq<char>, y: int, m: int, d: int)
    requires
        y >= 0,
        is_date(y, m, d),
        is_day_name(name, day_number(y, m, d)),
    ensures
        name == zero_padded(decimal(y as nat), 4) + zero_padded(decimal(m as nat), 2) + zero_padded(
            decimal(d as nat),
            2,
        ),
{
    let days = day_number(y, m, d);
    let (a, b, c) = choose|a: int, b: int, c: int|
        #![trigger day_number(a, b, c)]
        a >= 0 && is_date(a, b, c) && day_number(a, b, c) == days && name == zero_padded(
            decimal(a as nat),
            4,
        ) + zero_padded(decimal(b as nat), 2) + zero_padded(decimal(c as nat), 2);
    lemma_date_unique(a, b, c, y, m, d);
}

/// A value is described by its kind; an array and an object by how much they
/// hold, an object by its first names in order too, ten at most, and a text by
/// its length in bytes.
pub proof fn lemma_summary_counts(
    items: Seq<JsonV>,
    m: FieldsV,
    names: Seq<Seq<char>>,
    s: Seq<char>,
)
    requires
        lists(names, m.dom()),
    ensures
        summary_of(JsonV::Arr(items))["kind"@] == JsonV::Str("array"@),
        summary_of(JsonV::Arr(items))["count"@] == JsonV::Num(NumV::Unsigned(items.len() as u64)),
        summary_of(JsonV::Obj(m))["kind"@] == JsonV::Str("object"@),
        summary_of(JsonV::Obj(m))["count"@] == JsonV::Num(NumV::Unsigned(names.len() as u64)),
        summary_of(JsonV::Obj(m))["keys"@] matches JsonV::Arr(keys) && keys.len() == (
        if names.len() < 10 {
            names.len()
        } else {
            10
        }) && forall|i: int| 0 <= i < keys.len() ==> #[trigger] keys[i] == JsonV::Str(names[i]),
        summary_of(JsonV::Str(s))["kind"@] == JsonV::Str("string"@),
        summary_of(JsonV::Str(s))["chars"@] == JsonV::Num(
            NumV::Unsigned(encode_utf8(s).len() as u64),
        ),
        summary_of(JsonV::Null)["kind"@] == JsonV::Str("null"@),
        summary_of(JsonV::Bool(true))["kind"@] == JsonV::Str("bool"@),
        summary_of(JsonV::Bool(false))["kind"@] == JsonV::Str("bool"@),
        forall|n: NumV| (#[trigger] summary_of(JsonV::Num(n)))["kind"@] == JsonV::Str("number"@),
{
    reveal_strlit("kind");
    reveal_strlit("count");
    reveal_strlit("keys");
    reveal_strlit("chars");
    assert("kind"@.len() == 4);
    assert("count"@.len() == 5);
    assert("keys"@.len() == 4);
    assert("chars"@.len() == 5);
    assert("keys"@[1] == 'e');
    assert("kind"@[1] == 'i');
    assert("chars"@[1] == 'h');
    assert("count"@[1] == 'o');
    assert(lists(names_of(m.dom()), m.dom()));
    lemma_one_listing(names, names_of(m.dom()), m.dom());
}

/// A file for large output stands under the directory for temporary files, in the
/// directory of its day, under the name of the operation and the time.
#[verifier::rlimit(50)]
pub proof fn lemma_place_of_a_file(
    r: SpillPlan,
    rendered: Seq<char>,
    v: JsonV,
    op: Seq<char>,
    token_limit: nat,
    tmp: Seq<char>,
    time: SpillTime,
    y: int,
    m: int,
    d: int,
)
    requires
        is_plan(r, rendered, v, op, token_limit, tmp, time),
        r is Write,
        tmp.len() > 0 && tmp.last() != '/',
        op.len() > 0 && op[0] != '/',
        y >= 0,
        is_date(y, m, d),
        day_number(y, m, d) == time.dir_secs as int / 86400,
    ensures
        r->dir@ == tmp + "/ida-rs-spills/"@ + (zero_padded(decimal(y as nat), 4) + zero_padded(
            decimal(m as nat),
            2,
        ) + zero_padded(decimal(d as nat), 2)),
        r->path@ == r->dir@ + seq!['/'] + file_for(op, time.secs as nat, time.millis as nat),
{
    let days = time.dir_secs as int / 86400;
    let day = choose|day: Seq<char>|
        #[trigger] is_day_name(day, days) && r->dir@ == join_of(
            join_of(tmp, "ida-rs-spills"@),
            day,
        );
    lemma_day_named_by_date(day, y, m, d);
    let a = zero_padded(decimal(y as nat), 4);
    let b = zero_padded(decimal(m as nat), 2);
    let c = zero_padded(decimal(d as nat), 2);
    lemma_padded_digits(y as nat, 4);
    lemma_padded_digits(d as nat, 2);
    assert(day[0] == a[0]);
    assert(day.last() == c[c.len() - 1]);
    lemma_under_tmp(tmp, day);
    lemma_file_name_start(op, time.secs as nat, time.millis as nat);
}

proof fn lemma_padded_digits(n: nat, width: nat)
    ensures
        zero_padded(decimal(n), width).len() > 0,
        forall|i: int|
            0 <= i < zero_padded(decimal(n), width).len() ==> '0' <= #[trigger] zero_padded(
                decimal(n),
                width,
            )[i] <= '9',
{
    let s = decimal(n);
    let p = zero_padded(s, width);
    lemma_written_chars(n, 10);
    let k = p.len() - s.len();
    assert forall|i: int| 0 <= i < p.len() implies '0' <= #[trigger] p[i] <= '9' by {
        if i >= k {
            assert(p[i] == s[i - k]);
        }
    }
}

proof fn lemma_under_tmp(tmp: Seq<char>, day: Seq<char>)
    requires
        tmp.len() > 0 && tmp.last() != '/',
        day.len() > 0 && day[0] != '/' && day.last() != '/',
    ensures
        join_of(join_of(tmp, "ida-rs-spills"@), day) == tmp + "/ida-rs-spills/"@ + day,
        (tmp + "/ida-rs-spills/"@ + day).last() == day.last(),
{
    reveal_strlit("ida-rs-spills");
    reveal_strlit("/ida-rs-spills/");
    let base = tmp + seq!['/'] + "ida-rs-spills"@;
    assert("ida-rs-spills"@[0] == 'i');
    assert(join_of(tmp, "ida-rs-spills"@) == base);
    assert(base.last() == 's');
    assert(join_of(base, day) == base + seq!['/'] + day);
    assert(base + seq!['/'] =~= tmp + "/ida-rs-spills/"@);
}

proof fn lemma_file_name_start(op: Seq<char>, secs: nat, millis: nat)
    requires
        op.len() > 0,
        op[0] != '/',
    ensures
        file_for(op, secs, millis).len() > 0,
        file_for(op, secs, millis)[0] != '/',
{
    lemma_undotted(op);
    assert(file_for(op, secs, millis)[0] == undotted(op)[0]);
}

} // verus!
