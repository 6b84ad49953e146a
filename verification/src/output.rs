//! How analysis output is cut to size and answered.

use crate::json::{no_fields, number_v, text_v, FieldsV, Json, JsonObject, JsonV, NumV};
use crate::numbers::{decimal, decimal_text};
use crate::targets::{bits_of, word_bits};
use crate::text::{join_between, joined, lemma_lines_of_joined, lines, lines_of, views};
use vstd::prelude::*;

verus! {

/// The lower of two counts.
pub open spec fn at_most(n: nat, limit: nat) -> nat {
    if n < limit {
        n
    } else {
        limit
    }
}

/// The text without its first `offset` lines; all of it, as it is, where `offset` is zero.
pub open spec fn lines_behind(s: Seq<char>, offset: nat) -> Seq<char> {
    if offset == 0 {
        s
    } else {
        joined(lines_of(s).skip(at_most(lines_of(s).len(), offset) as int), "\n"@)
    }
}

/// Skip the first `offset` lines of a text.
pub fn apply_line_offset(s: &str, offset: usize) -> (r: String)
    ensures
        r@ == lines_behind(s@, offset as nat),
{
    if offset == 0 {
        return s.to_owned();
    }
    let all = lines(s);
    let from: usize = if all.len() < offset {
        all.len()
    } else {
        offset
    };
    assert(views(all@).subrange(from as int, all.len() as int) =~= views(all@).skip(from as int));
    join_between(&all, from, all.len(), "\n")
}

/// What stands behind a text that was cut: how many lines are missing.
pub open spec fn cut_note(missing: nat) -> Seq<char> {
    "\n// ... ("@ + decimal(missing) + " lines truncated, use --max-lines 0 for full output)"@
}

/// The first `max_lines` lines of a text, with a note where there are more; all of it, as it is,
/// where `max_lines` is zero.
pub open spec fn lines_within(s: Seq<char>, max_lines: nat) -> Seq<char> {
    let all = lines_of(s);
    let shown = at_most(all.len(), max_lines);
    if max_lines == 0 {
        s
    } else if shown < all.len() {
        joined(all.take(shown as int), "\n"@) + cut_note((all.len() - shown) as nat)
    } else {
        joined(all, "\n"@)
    }
}

/// Truncate output to `max_lines` lines (0 = no truncation).
pub fn apply_max_lines(s: &str, max_lines: usize) -> (r: String)
    ensures
        r@ == lines_within(s@, max_lines as nat),
{
    if max_lines == 0 {
        return s.to_owned();
    }
    let all = lines(s);
    let shown: usize = if all.len() < max_lines {
        all.len()
    } else {
        max_lines
    };
    let mut out = join_between(&all, 0, shown, "\n");
    assert(views(all@).subrange(0, shown as int) =~= views(all@).take(shown as int));
    assert(views(all@).take(all.len() as int) =~= views(all@));
    if shown < all.len() {
        let mut note = "\n// ... (".to_owned();
        note.push_str(decimal_text((all.len() - shown) as u64).as_str());
        note.push_str(" lines truncated, use --max-lines 0 for full output)");
        out.push_str(note.as_str());
    }
    out
}

/// No limit and no offset leave a text as it is; an offset behind the last line leaves nothing.
pub proof fn lemma_no_limit_no_change(s: Seq<char>, offset: nat)
    ensures
        lines_within(s, 0) == s,
        lines_behind(s, 0) == s,
        offset > 0 && offset >= lines_of(s).len() ==> lines_behind(s, offset) == Seq::<char>::empty(),
{
    let all = lines_of(s);
    assert(all.skip(all.len() as int) =~= Seq::<Seq<char>>::empty());
}

/// How many lines are fetched so that `count` are left behind `offset`.
pub fn disasm_window(count: usize, offset: usize) -> (r: usize)
    requires
        count + offset <= usize::MAX,
    ensures
        r == count + offset,
{
    count + offset
}

/// The answer that holds instructions.
pub fn disasm_reply(text: &str, offset: usize) -> (r: Json)
    ensures
        r@ == JsonV::Obj(
            no_fields().insert("disasm"@, text_v(lines_behind(text@, offset as nat))),
        ),
{
    let mut o = JsonObject::new();
    o.put("disasm", Json::Str(apply_line_offset(text, offset)));
    Json::Object(o)
}

/// The answer that holds the instructions of a function.
pub fn disasm_function_reply(text: &str, offset: usize) -> (r: Json)
    ensures
        r@ == JsonV::Obj(
            no_fields().insert("disasm"@, text_v(lines_behind(text@, offset as nat))).insert(
                "has_more"@,
                JsonV::Bool(false),
            ),
        ),
{
    let mut o = JsonObject::new();
    o.put("disasm", Json::Str(apply_line_offset(text, offset)));
    o.put("has_more", Json::Bool(false));
    Json::Object(o)
}

/// The answer that holds pseudocode.
pub fn decompile_reply(text: &str, max_lines: usize) -> (r: Json)
    ensures
        r@ == JsonV::Obj(
            no_fields().insert("pseudocode"@, text_v(lines_within(text@, max_lines as nat))),
        ),
{
    let mut o = JsonObject::new();
    o.put("pseudocode", Json::Str(apply_max_lines(text, max_lines)));
    Json::Object(o)
}

/// What is read off an open database.
#[derive(Debug)]
pub struct Opened {
    pub file_type: String,
    pub processor: String,
    pub is_64bit: bool,
    pub is_32bit: bool,
    pub function_count: usize,
}

/// A summary of a target.
pub open spec fn summary(target: Seq<char>, db: Opened, status: JsonV) -> FieldsV {
    no_fields().insert("target"@, text_v(target)).insert("file_type"@, text_v(db.file_type@)).insert(
        "processor"@,
        text_v(db.processor@),
    ).insert("bits"@, number_v(word_bits(db.is_64bit, db.is_32bit) as nat)).insert(
        "function_count"@,
        number_v(db.function_count as nat),
    ).insert("analysis_status"@, status)
}

/// The answer that sums a target up.
pub fn info_reply(target: &str, db: &Opened, status: Json) -> (r: Json)
    ensures
        r@ == JsonV::Obj(summary(target@, *db, status@)),
{
    let mut o = JsonObject::new();
    o.put("target", Json::text(target));
    o.put("file_type", Json::text(db.file_type.as_str()));
    o.put("processor", Json::text(db.processor.as_str()));
    o.put("bits", Json::number(bits_of(db.is_64bit, db.is_32bit) as u64));
    o.put("function_count", Json::count(db.function_count));
    o.put("analysis_status", status);
    Json::Object(o)
}

/// Whether `parts` are lines as a text holds them: none has a line break or a
/// carriage return at its end, and the last one is not empty.
pub open spec fn are_lines(parts: Seq<Seq<char>>) -> bool {
    &&& parts.len() > 0
    &&& parts.last().len() > 0
    &&& forall|i: int|
        0 <= i < parts.len() ==> !(#[trigger] parts[i]).contains('\n') && (parts[i].len() == 0
            || parts[i].last() != '\r')
}

/// Of a text of `parts.len()` lines a limit shows the first lines, as many as
/// it allows, in their order and each whole. Where there are more, one line
/// follows that says how many are missing; where there are not, nothing does.
pub proof fn lemma_limit_shows_the_first_lines(parts: Seq<Seq<char>>, max_lines: nat)
    requires
        are_lines(parts),
        max_lines > 0,
    ensures
        parts.len() <= max_lines ==> lines_within(joined(parts, seq!['\n']), max_lines) == joined(
            parts,
            seq!['\n'],
        ),
        parts.len() > max_lines ==> lines_within(joined(parts, seq!['\n']), max_lines) == joined(
            parts.take(max_lines as int),
            seq!['\n'],
        ) + "\n// ... ("@ + decimal((parts.len() - max_lines) as nat)
            + " lines truncated, use --max-lines 0 for full output)"@,
{
    reveal_strlit("\n");
    assert("\n"@ =~= seq!['\n']);
    lemma_lines_of_joined(parts);
    let s = joined(parts, seq!['\n']);
    if parts.len() > max_lines {
        let shown = joined(parts.take(max_lines as int), seq!['\n']);
        let missing = decimal((parts.len() - max_lines) as nat);
        assert(lines_within(s, max_lines) =~= shown + "\n// ... ("@ + missing
            + " lines truncated, use --max-lines 0 for full output)"@);
    }
}

/// Whatever the text, a limit shows its first lines, at most so many and no
/// fewer than there are, and counts those that are left.
pub proof fn lemma_shown_and_missing_lines(s: Seq<char>, max_lines: nat)
    requires
        max_lines > 0,
    ensures
        lines_of(s).len() <= max_lines ==> lines_within(s, max_lines) == joined(
            lines_of(s),
            "\n"@,
        ),
        lines_of(s).len() > max_lines ==> {
            let shown = joined(lines_of(s).take(max_lines as int), "\n"@);
            let out = lines_within(s, max_lines);
            &&& out.len() > shown.len()
            &&& out.take(shown.len() as int) == shown
            &&& out.skip(shown.len() as int) == "\n// ... ("@ + decimal(
                (lines_of(s).len() - max_lines) as nat,
            ) + " lines truncated, use --max-lines 0 for full output)"@
        },
{
    if lines_of(s).len() > max_lines {
        let shown = joined(lines_of(s).take(max_lines as int), "\n"@);
        let note = cut_note((lines_of(s).len() - max_lines) as nat);
        reveal_strlit("\n// ... (");
        assert(note.len() > 0);
        assert((shown + note).take(shown.len() as int) =~= shown);
        assert((shown + note).skip(shown.len() as int) =~= note);
    }
}

/// Of a text of `parts.len()` lines an offset leaves out the first lines, so
/// many and no more, and keeps the others in their order and each whole.
pub proof fn lemma_offset_skips_the_first_lines(parts: Seq<Seq<char>>, offset: nat)
    requires
        are_lines(parts),
        offset <= parts.len(),
    ensures
        lines_behind(joined(parts, seq!['\n']), offset) == joined(
            parts.skip(offset as int),
            seq!['\n'],
        ),
{
    reveal_strlit("\n");
    assert("\n"@ =~= seq!['\n']);
    lemma_lines_of_joined(parts);
    if offset == 0 {
        assert(parts.skip(0) =~= parts);
    }
}

/// What a limit shows and what an offset of the same size leaves are the whole
/// text: no line is lost between two pages and none is in both.
pub proof fn lemma_pages_of_a_text(parts: Seq<Seq<char>>, size: nat)
    requires
        are_lines(parts),
        0 < size < parts.len(),
    ensures
        joined(parts, seq!['\n']).len() == joined(parts.take(size as int), seq!['\n']).len() + 1
            + lines_behind(joined(parts, seq!['\n']), size).len(),
        lines_of(lines_behind(joined(parts, seq!['\n']), size)) == parts.skip(size as int),
{
    let rest = parts.skip(size as int);
    let front = parts.take(size as int);
    lemma_offset_skips_the_first_lines(parts, size);
    assert(rest.last() == parts.last());
    assert forall|i: int| 0 <= i < rest.len() implies !(#[trigger] rest[i]).contains('\n') && (
    rest[i].len() == 0 || rest[i].last() != '\r') by {
        assert(rest[i] == parts[i + size]);
    }
    lemma_lines_of_joined(rest);
    assert(parts =~= front + rest);
    lemma_joined_in_two(front, rest, seq!['\n']);
}

proof fn lemma_joined_in_two(front: Seq<Seq<char>>, rest: Seq<Seq<char>>, sep: Seq<char>)
    requires
        front.len() > 0,
        rest.len() > 0,
    ensures
        joined(front + rest, sep) == joined(front, sep) + sep + joined(rest, sep),
    decreases rest.len(),
{
    let all = front + rest;
    assert(all.drop_last() =~= front + rest.drop_last());
    if rest.len() == 1 {
        assert(front + rest.drop_last() =~= front);
    } else {
        lemma_joined_in_two(front, rest.drop_last(), sep);
        assert(joined(all, sep) =~= joined(front, sep) + sep + joined(rest, sep));
    }
}

/// What a target is summed up as: each of its properties under its own name.
pub proof fn lemma_summary_fields(target: Seq<char>, db: Opened, status: JsonV)
    ensures
        summary(target, db, status)["target"@] == JsonV::Str(target),
        summary(target, db, status)["file_type"@] == JsonV::Str(db.file_type@),
        summary(target, db, status)["processor"@] == JsonV::Str(db.processor@),
        summary(target, db, status)["function_count"@] == JsonV::Num(
            NumV::Unsigned(db.function_count as u64),
        ),
        summary(target, db, status)["analysis_status"@] == status,
        db.is_64bit ==> summary(target, db, status)["bits"@] == JsonV::Num(NumV::Unsigned(64)),
        !db.is_64bit && db.is_32bit ==> summary(target, db, status)["bits"@] == JsonV::Num(
            NumV::Unsigned(32),
        ),
        !db.is_64bit && !db.is_32bit ==> summary(target, db, status)["bits"@] == JsonV::Num(
            NumV::Unsigned(16),
        ),
{
    reveal_strlit("target");
    reveal_strlit("file_type");
    reveal_strlit("processor");
    reveal_strlit("bits");
    reveal_strlit("function_count");
    reveal_strlit("analysis_status");
    assert("target"@.len() == 6);
    assert("file_type"@.len() == 9);
    assert("processor"@.len() == 9);
    assert("bits"@.len() == 4);
    assert("function_count"@.len() == 14);
    assert("analysis_status"@.len() == 15);
    assert("processor"@[0] == 'p');
    assert("file_type"@[0] == 'f');
}

} // verus!
