//! What is said of a script that failed or took too long.

use crate::json::{text_field, FieldsV, Json, JsonV};
use crate::numbers::{decimal, decimal_text};
use crate::output::are_lines;
use crate::text::{
    ascii_lowercase, chars_of, contains, join, join_between, joined, lemma_lines_of_joined, lines,
    lines_of, lowered, occurs, text_between, trim, trimmed, views,
};
use crate::worker_loop::flag_in;
use vstd::prelude::*;

verus! {

/// How many characters of a script are shown.
pub const RUN_SCRIPT_PREVIEW_CHARS: usize = 220;

/// How many lines of output are shown.
pub const RUN_SCRIPT_TAIL_LINES: usize = 12;

/// How many characters of output are shown.
pub const RUN_SCRIPT_TAIL_CHARS: usize = 1600;

/// Whether a script succeeded: only where its result says so.
pub fn run_script_succeeded(result: &Json) -> (r: bool)
    ensures
        r == flag_in(result@, "success"@),
{
    match result.get("success") {
        Some(v) => match v.as_bool() {
            Some(b) => b,
            None => false,
        },
        None => false,
    }
}

/// A text of a result.
pub fn run_script_field(result: &Json, name: &str) -> (r: Option<String>)
    ensures
        match r {
            Some(s) => text_field(result@, name@) == Some(s@),
            None => text_field(result@, name@) is None,
        },
{
    match result.str_field(name) {
        Some(s) => Some(s.clone()),
        None => None,
    }
}

/// The last of the first `n` lines that is more than white space, without the white space around
/// it.
pub open spec fn last_line(all: Seq<Seq<char>>, n: int) -> Option<Seq<char>>
    decreases n,
{
    if n <= 0 || n > all.len() {
        None
    } else if trimmed(all[n - 1]).len() > 0 {
        Some(trimmed(all[n - 1]))
    } else {
        last_line(all, n - 1)
    }
}

/// The last line of a text that is more than white space.
pub fn run_script_last_non_empty_line(text: &str) -> (r: Option<String>)
    ensures
        match r {
            Some(s) => last_line(lines_of(text@), lines_of(text@).len() as int) == Some(s@),
            None => last_line(lines_of(text@), lines_of(text@).len() as int) is None,
        },
{
    let all = lines(text);
    let ghost shown = views(all@);
    let mut i: usize = all.len();
    while i > 0
        invariant
            i <= all.len(),
            shown == views(all@),
            shown == lines_of(text@),
            last_line(shown, shown.len() as int) == last_line(shown, i as int),
        decreases i,
    {
        assert(shown[i - 1] == all[i - 1]@);
        let t = trim(all[i - 1].as_str());
        if !t.as_str().is_empty() {
            return Some(t);
        }
        i = i - 1;
    }
    None
}

/// The text, or its first characters and an ellipsis where it has more.
pub open spec fn shortened(s: Seq<char>, max_chars: nat) -> Seq<char> {
    if s.len() <= max_chars {
        s
    } else {
        s.take(max_chars as int) + "..."@
    }
}

/// The text, or its first characters and an ellipsis where it has more.
pub fn run_script_truncate_chars(input: &str, max_chars: usize) -> (r: String)
    ensures
        r@ == shortened(input@, max_chars as nat),
{
    let chars = chars_of(input);
    if chars.len() <= max_chars {
        return input.to_owned();
    }
    let mut out = text_between(&chars, 0, max_chars);
    assert(out@ =~= input@.take(max_chars as int));
    out.push_str("...");
    out
}

/// A shortened text is never longer than the limit and the ellipsis; and one within the limit stays
/// as it is.
pub proof fn lemma_shortened(s: Seq<char>, max_chars: nat)
    ensures
        shortened(s, max_chars).len() <= max_chars + 3,
        s.len() <= max_chars ==> shortened(s, max_chars) == s,
{
    reveal_strlit("...");
}

/// The last lines of a text.
pub open spec fn tail_of(s: Seq<char>, max_lines: nat) -> Seq<char> {
    let all = lines_of(s);
    let from = if all.len() > max_lines {
        all.len() - max_lines
    } else {
        0
    };
    joined(all.skip(from), "\n"@)
}

/// The last lines of a text.
pub fn run_script_tail_lines(text: &str, max_lines: usize) -> (r: String)
    ensures
        r@ == tail_of(text@, max_lines as nat),
{
    let all = lines(text);
    let from: usize = if all.len() > max_lines {
        all.len() - max_lines
    } else {
        0
    };
    assert(views(all@).subrange(from as int, all.len() as int) =~= views(all@).skip(from as int));
    join_between(&all, from, all.len(), "\n")
}

/// What may help with an error, by what its text in lower case holds.
pub open spec fn hint_for(details: Seq<char>) -> Option<Seq<char>> {
    let low = lowered(details);
    if occurs(low, "syntaxerror"@) || occurs(low, "invalid syntax"@) {
        Some("Python syntax error detected. Regenerate valid Python and retry."@)
    } else if occurs(low, "nameerror"@) {
        Some("NameError detected. Check variable/module names before rerunning."@)
    } else if occurs(low, "attributeerror"@) {
        Some("AttributeError detected. Verify IDA API object names/methods."@)
    } else if occurs(low, "importerror"@) || occurs(low, "modulenotfounderror"@) {
        Some("Import failure detected. Ensure the required module exists in IDAPython."@)
    } else if occurs(low, "failed to execute wrapper"@) {
        Some(
            "IDAPython wrapper execution failed before user code completed. Check stderr for details."@,
        )
    } else {
        None
    }
}

/// What may help with an error.
pub fn run_script_error_hint(error_details: &str) -> (r: Option<&'static str>)
    ensures
        match r {
            Some(h) => hint_for(error_details@) == Some(h@),
            None => hint_for(error_details@) is None,
        },
{
    let low = ascii_lowercase(error_details);
    let low = low.as_str();
    if contains(low, "syntaxerror") || contains(low, "invalid syntax") {
        return Some("Python syntax error detected. Regenerate valid Python and retry.");
    }
    if contains(low, "nameerror") {
        return Some("NameError detected. Check variable/module names before rerunning.");
    }
    if contains(low, "attributeerror") {
        return Some("AttributeError detected. Verify IDA API object names/methods.");
    }
    if contains(low, "importerror") || contains(low, "modulenotfounderror") {
        return Some("Import failure detected. Ensure the required module exists in IDAPython.");
    }
    if contains(low, "failed to execute wrapper") {
        return Some(
            "IDAPython wrapper execution failed before user code completed. Check stderr for details.",
        );
    }
    None
}

/// The text of a field, or nothing.
pub open spec fn text_or_nothing(v: JsonV, name: Seq<char>) -> Seq<char> {
    match text_field(v, name) {
        Some(s) => s,
        None => seq![],
    }
}

/// What sums a failure up: what the script says of it, else the last line of its error output.
pub open spec fn failure_summary(v: JsonV) -> Seq<char> {
    let stderr = text_or_nothing(v, "stderr"@);
    match text_field(v, "error_summary"@) {
        Some(s) => s,
        None => match text_field(v, "error"@) {
            Some(s) => s,
            None => match last_line(lines_of(stderr), lines_of(stderr).len() as int) {
                Some(s) => s,
                None => "Unknown IDAPython script failure (no error details captured)"@,
            },
        },
    }
}

/// The end of an output, as far as it is shown.
pub open spec fn shown_tail(s: Seq<char>) -> Seq<char> {
    shortened(tail_of(s, RUN_SCRIPT_TAIL_LINES as nat), RUN_SCRIPT_TAIL_CHARS as nat)
}

/// One paragraph, or none.
pub open spec fn paragraph(given: bool, text: Seq<char>) -> Seq<Seq<char>> {
    if given {
        seq![text]
    } else {
        seq![]
    }
}

/// What is said of a failure: a summary, its kind, the ends of both outputs, and what may help.
pub open spec fn failure_paragraphs(v: JsonV) -> Seq<Seq<char>> {
    let summary = failure_summary(v);
    let kind = text_field(v, "error_kind"@);
    let err_tail = shown_tail(text_or_nothing(v, "stderr"@));
    let out_tail = shown_tail(text_or_nothing(v, "stdout"@));
    let hint = hint_for(summary + "\n"@ + err_tail);
    seq!["IDAPython script execution failed: "@ + summary] + paragraph(
        kind is Some,
        "Error kind: "@ + kind->0,
    ) + paragraph(err_tail.len() > 0, "stderr (tail):\n"@ + err_tail) + paragraph(
        out_tail.len() > 0,
        "stdout (tail):\n"@ + out_tail,
    ) + paragraph(hint is Some, "Hint: "@ + hint->0)
}

fn behind(prefix: &str, t: &str) -> (r: String)
    ensures
        r@ == prefix@ + t@,
{
    let mut m = prefix.to_owned();
    m.push_str(t);
    m
}

fn field_or_nothing(v: &Json, name: &str) -> (r: String)
    ensures
        r@ == text_or_nothing(v@, name@),
{
    match v.str_field(name) {
        Some(s) => s.clone(),
        None => {
            let s = String::new();
            assert(s@ =~= seq![]);
            s
        },
    }
}

fn tail_text(s: &str) -> (r: String)
    ensures
        r@ == shown_tail(s@),
{
    let t = run_script_tail_lines(s, RUN_SCRIPT_TAIL_LINES);
    run_script_truncate_chars(t.as_str(), RUN_SCRIPT_TAIL_CHARS)
}

/// What is said of a script that failed.
pub fn run_script_failure_message(result: &Json) -> (r: String)
    ensures
        r@ == joined(failure_paragraphs(result@), "\n\n"@),
{
    let stderr = field_or_nothing(result, "stderr");
    let stdout = field_or_nothing(result, "stdout");
    let summary = match run_script_field(result, "error_summary") {
        Some(s) => s,
        None => match run_script_field(result, "error") {
            Some(s) => s,
            None => match run_script_last_non_empty_line(stderr.as_str()) {
                Some(s) => s,
                None => "Unknown IDAPython script failure (no error details captured)".to_owned(),
            },
        },
    };
    let err_tail = tail_text(stderr.as_str());
    let out_tail = tail_text(stdout.as_str());
    let mut parts: Vec<String> = Vec::new();
    parts.push(behind("IDAPython script execution failed: ", summary.as_str()));
    let ghost p0 = seq!["IDAPython script execution failed: "@ + summary@];
    assert(views(parts@) =~= p0);
    let kind = run_script_field(result, "error_kind");
    if let Some(k) = &kind {
        parts.push(behind("Error kind: ", k.as_str()));
    }
    let ghost kv = text_field(result@, "error_kind"@);
    let ghost p1 = p0 + paragraph(kv is Some, "Error kind: "@ + kv->0);
    assert(views(parts@) =~= p1);
    if !err_tail.as_str().is_empty() {
        parts.push(behind("stderr (tail):\n", err_tail.as_str()));
    }
    let ghost p2 = p1 + paragraph(err_tail@.len() > 0, "stderr (tail):\n"@ + err_tail@);
    assert(views(parts@) =~= p2);
    if !out_tail.as_str().is_empty() {
        parts.push(behind("stdout (tail):\n", out_tail.as_str()));
    }
    let ghost p3 = p2 + paragraph(out_tail@.len() > 0, "stdout (tail):\n"@ + out_tail@);
    assert(views(parts@) =~= p3);
    let mut details = summary.clone();
    details.push_str("\n");
    details.push_str(err_tail.as_str());
    let ghost hv = hint_for(details@);
    if let Some(h) = run_script_error_hint(details.as_str()) {
        parts.push(behind("Hint: ", h));
    }
    let ghost p4 = p3 + paragraph(hv is Some, "Hint: "@ + hv->0);
    assert(views(parts@) =~= p4);
    join(&parts, "\n\n")
}

/// The lines that are more than white space, without the white space around them.
pub open spec fn filled_lines(all: Seq<Seq<char>>) -> Seq<Seq<char>>
    decreases all.len(),
{
    if all.len() == 0 {
        seq![]
    } else {
        let front = filled_lines(all.drop_last());
        let t = trimmed(all.last());
        if t.len() > 0 {
            front.push(t)
        } else {
            front
        }
    }
}

/// How a script is shown: its lines in one.
pub open spec fn preview_of(code: Seq<char>) -> Seq<char> {
    let compact = joined(filled_lines(lines_of(code)), " "@);
    if compact.len() == 0 {
        "<empty script>"@
    } else {
        shortened(compact, RUN_SCRIPT_PREVIEW_CHARS as nat)
    }
}

/// What is said of a script that took too long.
pub open spec fn timeout_text(timeout_secs: nat, code: Seq<char>) -> Seq<char> {
    "run_script timed out after "@ + decimal(timeout_secs)
        + " seconds.\nThe script may be blocked in a long-running loop or waiting on IDA state.\nScript preview: "@
        + preview_of(code)
        + "\nHint: while iterating with LLM-generated code, use a smaller timeout_secs and avoid scripts that block indefinitely."@
}

fn preview(code: &str) -> (r: String)
    ensures
        r@ == preview_of(code@),
{
    let all = lines(code);
    let ghost shown = views(all@);
    let mut kept: Vec<String> = Vec::new();
    let mut i: usize = 0;
    assert(shown.take(0) =~= seq![]);
    assert(views(kept@) =~= seq![]);
    while i < all.len()
        invariant
            i <= all.len(),
            shown == views(all@),
            views(kept@) == filled_lines(shown.take(i as int)),
        decreases all.len() - i,
    {
        let ghost before = kept@;
        proof {
            let now = shown.take(i + 1);
            assert(now.drop_last() =~= shown.take(i as int));
            assert(now.last() == all[i as int]@);
        }
        let t = trim(all[i].as_str());
        if !t.as_str().is_empty() {
            kept.push(t);
            assert(views(kept@) =~= views(before).push(t@));
        }
        i = i + 1;
    }
    assert(shown.take(i as int) =~= shown);
    let compact = join(&kept, " ");
    if compact.as_str().is_empty() {
        "<empty script>".to_owned()
    } else {
        run_script_truncate_chars(compact.as_str(), RUN_SCRIPT_PREVIEW_CHARS)
    }
}

/// What is said of a script that took too long.
pub fn run_script_timeout_message(timeout_secs: u64, code: &str) -> (r: String)
    ensures
        r@ == timeout_text(timeout_secs as nat, code@),
{
    let mut m = "run_script timed out after ".to_owned();
    m.push_str(decimal_text(timeout_secs).as_str());
    m.push_str(
        " seconds.\nThe script may be blocked in a long-running loop or waiting on IDA state.\nScript preview: ",
    );
    m.push_str(preview(code).as_str());
    m.push_str(
        "\nHint: while iterating with LLM-generated code, use a smaller timeout_secs and avoid scripts that block indefinitely.",
    );
    m
}

/// What to do once more of a shared cache was loaded: go on, if the analysis is done, else see to
/// it.
pub open spec fn next_steps(analysis_ready: Option<bool>, ready_message: Seq<char>) -> Seq<
    Seq<char>,
> {
    if analysis_ready == Some(true) {
        seq![ready_message]
    } else {
        seq![
            "Call analysis_status to check auto-analysis progress."@,
            "If auto_is_ok is false, run analyze_funcs and wait for completion before xrefs/decompile."@,
        ]
    }
}

/// What to do once more of a shared cache was loaded.
pub fn dsc_analysis_next_steps(analysis_ready: Option<bool>, ready_message: &str) -> (r: Vec<String>)
    ensures
        views(r@) == next_steps(analysis_ready, ready_message@),
{
    let ready: bool = match analysis_ready {
        Some(b) => b,
        None => false,
    };
    let mut out: Vec<String> = Vec::new();
    if ready {
        out.push(ready_message.to_owned());
    } else {
        out.push("Call analysis_status to check auto-analysis progress.".to_owned());
        out.push(
            "If auto_is_ok is false, run analyze_funcs and wait for completion before xrefs/decompile.".to_owned(),
        );
    }
    assert(views(out@) =~= next_steps(analysis_ready, ready_message@));
    out
}

/// Of a text that is too long the first characters are shown, as many as are
/// allowed, and three dots behind them; any other text is shown whole.
pub proof fn lemma_shortened_text(front: Seq<char>, rest: Seq<char>)
    ensures
        rest.len() > 0 ==> shortened(front + rest, front.len()) == front + seq!['.', '.', '.'],
        shortened(front, front.len() + rest.len()) == front,
{
    reveal_strlit("...");
    assert("..."@ =~= seq!['.', '.', '.']);
    assert((front + rest).take(front.len() as int) =~= front);
}

/// Of a text of `parts.len()` lines the last ones are kept, as many as are
/// allowed, in their order and each whole.
pub proof fn lemma_tail_keeps_the_last_lines(front: Seq<Seq<char>>, last: Seq<Seq<char>>)
    requires
        are_lines(front + last),
        last.len() > 0,
    ensures
        tail_of(joined(front + last, seq!['\n']), last.len()) == joined(last, seq!['\n']),
        tail_of(joined(front + last, seq!['\n']), front.len() + last.len()) == joined(
            front + last,
            seq!['\n'],
        ),
{
    reveal_strlit("\n");
    assert("\n"@ =~= seq!['\n']);
    lemma_lines_of_joined(front + last);
    assert((front + last).skip(front.len() as int) =~= last);
    assert((front + last).skip(0) =~= front + last);
}

/// The last line that says something is the last one that is not blank,
/// without the white space around it; where all are blank there is none.
pub proof fn lemma_last_filled_line(all: Seq<Seq<char>>, n: int, at: int)
    requires
        0 <= n <= all.len(),
    ensures
        0 <= at < n && trimmed(all[at]).len() > 0 && (forall|j: int|
            at < j < n ==> trimmed(#[trigger] all[j]).len() == 0) ==> last_line(all, n) == Some(
            trimmed(all[at]),
        ),
        (forall|j: int| 0 <= j < n ==> trimmed(#[trigger] all[j]).len() == 0) ==> last_line(all, n)
            is None,
    decreases n,
{
    if n > 0 {
        lemma_last_filled_line(all, n - 1, at);
        assert(at < n - 1 || at >= n - 1);
        let t = trimmed(all[n - 1]);
        if t.len() > 0 && 0 <= at < n - 1 {
            assert(!(forall|j: int| at < j < n ==> trimmed(#[trigger] all[j]).len() == 0));
        }
    }
}

/// A failure is summed up by what the script said of it, else by its error,
/// else by the last line that it wrote to its errors, else as unknown.
pub proof fn lemma_failure_summary(m: FieldsV, s: Seq<char>)
    ensures
        m.dom().contains("error_summary"@) && m["error_summary"@] == JsonV::Str(s)
            ==> failure_summary(JsonV::Obj(m)) == s,
        !m.dom().contains("error_summary"@) && m.dom().contains("error"@) && m["error"@]
            == JsonV::Str(s) ==> failure_summary(JsonV::Obj(m)) == s,
        !m.dom().contains("error_summary"@) && !m.dom().contains("error"@) && m.dom().contains(
            "stderr"@,
        ) && m["stderr"@] == JsonV::Str(s) && last_line(lines_of(s), lines_of(s).len() as int)
            is Some ==> failure_summary(JsonV::Obj(m)) == last_line(
            lines_of(s),
            lines_of(s).len() as int,
        )->0,
        !m.dom().contains("error_summary"@) && !m.dom().contains("error"@) && !m.dom().contains(
            "stderr"@,
        ) ==> failure_summary(JsonV::Obj(m))
            == "Unknown IDAPython script failure (no error details captured)"@,
{
}

/// The report of a failure begins with its summary; a kind, what was written to
/// the errors, what was written to the output and a hint follow in this order,
/// each only where there is one.
pub proof fn lemma_failure_report(v: JsonV)
    ensures
        ({
            let all = failure_paragraphs(v);
            let kind = text_field(v, "error_kind"@);
            let err = shown_tail(text_or_nothing(v, "stderr"@));
            let out = shown_tail(text_or_nothing(v, "stdout"@));
            let hint = hint_for(failure_summary(v) + "\n"@ + err);
            let a: int = if kind is Some { 1 } else { 0 };
            let b: int = if err.len() > 0 { 1 } else { 0 };
            let c: int = if out.len() > 0 { 1 } else { 0 };
            let d: int = if hint is Some { 1 } else { 0 };
            &&& all.len() == 1 + a + b + c + d
            &&& all[0] == "IDAPython script execution failed: "@ + failure_summary(v)
            &&& kind is Some ==> all[1] == "Error kind: "@ + kind->0
            &&& err.len() > 0 ==> all[1 + a] == "stderr (tail):\n"@ + err
            &&& out.len() > 0 ==> all[1 + a + b] == "stdout (tail):\n"@ + out
            &&& hint is Some ==> all[1 + a + b + c] == "Hint: "@ + hint->0
        }),
{
}

/// A hint is given for a word that the details hold in any case of letters:
/// syntax before names, names before attributes, attributes before imports,
/// and the wrapper last. Details without any of these words have none.
pub proof fn lemma_hints(details: Seq<char>)
    ensures
        ({
            let low = lowered(details);
            let syntax = occurs(low, "syntaxerror"@) || occurs(low, "invalid syntax"@);
            let name = occurs(low, "nameerror"@);
            let attribute = occurs(low, "attributeerror"@);
            let import = occurs(low, "importerror"@) || occurs(low, "modulenotfounderror"@);
            let wrapper = occurs(low, "failed to execute wrapper"@);
            let hint = hint_for(details);
            &&& hint is Some <==> syntax || name || attribute || import || wrapper
            &&& syntax ==> hint == Some(
                "Python syntax error detected. Regenerate valid Python and retry."@,
            )
            &&& !syntax && name ==> hint == Some(
                "NameError detected. Check variable/module names before rerunning."@,
            )
            &&& !syntax && !name && attribute ==> hint == Some(
                "AttributeError detected. Verify IDA API object names/methods."@,
            )
            &&& !syntax && !name && !attribute && import ==> hint == Some(
                "Import failure detected. Ensure the required module exists in IDAPython."@,
            )
            &&& !syntax && !name && !attribute && !import && wrapper ==> hint == Some(
                "IDAPython wrapper execution failed before user code completed. Check stderr for details."@,
            )
        }),
{
}

/// A script is previewed by its lines that are not blank, each without the
/// white space around it, with blanks between them; an empty one says so.
pub proof fn lemma_preview(all: Seq<Seq<char>>, last: Seq<char>, code: Seq<char>)
    ensures
        filled_lines(Seq::empty()) == Seq::<Seq<char>>::empty(),
        trimmed(last).len() > 0 ==> filled_lines(all.push(last)) == filled_lines(all).push(
            trimmed(last),
        ),
        trimmed(last).len() == 0 ==> filled_lines(all.push(last)) == filled_lines(all),
        joined(filled_lines(lines_of(code)), " "@).len() == 0 ==> preview_of(code)
            == "<empty script>"@,
        0 < joined(filled_lines(lines_of(code)), " "@).len() <= 220 ==> preview_of(code) == joined(
            filled_lines(lines_of(code)),
            " "@,
        ),
        joined(filled_lines(lines_of(code)), " "@).len() > 220 ==> preview_of(code) == joined(
            filled_lines(lines_of(code)),
            " "@,
        ).take(220) + "..."@,
{
    assert(all.push(last).drop_last() =~= all);
}

/// What is shown of output: its last twelve lines, and of these the first 1600
/// characters.
pub proof fn lemma_shown_tail(s: Seq<char>)
    ensures
        tail_of(s, 12).len() <= 1600 ==> shown_tail(s) == tail_of(s, 12),
        tail_of(s, 12).len() > 1600 ==> shown_tail(s) == tail_of(s, 12).take(1600) + "..."@,
{
}

/// A script that takes too long is reported with its time and its preview.
pub proof fn lemma_timeout_report(secs: nat, code: Seq<char>)
    ensures
        timeout_text(secs, code) == "run_script timed out after "@ + decimal(secs)
            + " seconds.\nThe script may be blocked in a long-running loop or waiting on IDA state.\nScript preview: "@
            + preview_of(code)
            + "\nHint: while iterating with LLM-generated code, use a smaller timeout_secs and avoid scripts that block indefinitely."@,
{
}

/// What is to be done next is the given message where the analysis is known to
/// be ready, and to look after the analysis otherwise.
pub proof fn lemma_next_steps(message: Seq<char>)
    ensures
        next_steps(Some(true), message) == seq![message],
        next_steps(Some(false), message).len() == 2,
        next_steps(None, message) == next_steps(Some(false), message),
{
}

} // verus!
