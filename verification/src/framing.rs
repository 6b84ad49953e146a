//! Lines of bytes out of chunks of bytes, with a cap on their length.

use crate::numbers::{decimal, decimal_text};
use vstd::prelude::*;

verus! {

/// The position of the first line feed at or after `from`, or the length.
pub open spec fn next_newline(s: Seq<u8>, from: int) -> int
    decreases s.len() - from,
{
    if from < 0 || from >= s.len() {
        s.len() as int
    } else if s[from] == 10 {
        from
    } else {
        next_newline(s, from + 1)
    }
}

/// The first line feed is where a line feed is, and there is none before it.
pub proof fn lemma_next_newline(s: Seq<u8>, from: int)
    requires
        0 <= from <= s.len(),
    ensures
        from <= next_newline(s, from) <= s.len(),
        forall|j: int| from <= j < next_newline(s, from) ==> s[j] != 10,
        next_newline(s, from) < s.len() ==> s[next_newline(s, from)] == 10,
    decreases s.len() - from,
{
    if from < s.len() && s[from] != 10 {
        lemma_next_newline(s, from + 1);
    }
}

/// The position of the first line feed at or after `from`, or the length.
pub fn find_newline(s: &[u8], from: usize) -> (r: usize)
    requires
        from <= s.len(),
    ensures
        r == next_newline(s@, from as int),
        from <= r <= s.len(),
{
    let mut i: usize = from;
    while i < s.len() && s[i] != 10
        invariant
            from <= i <= s.len(),
            next_newline(s@, from as int) == next_newline(s@, i as int),
        decreases s.len() - i,
    {
        i = i + 1;
    }
    i
}

/// Appends `chunk[from..to]` to `out`.
pub fn push_bytes(out: &mut Vec<u8>, chunk: &[u8], from: usize, to: usize)
    requires
        from <= to <= chunk.len(),
    ensures
        final(out)@ == old(out)@ + chunk@.subrange(from as int, to as int),
{
    let ghost before = out@;
    let mut i: usize = from;
    while i < to
        invariant
            from <= i <= to <= chunk.len(),
            out@ =~= before + chunk@.subrange(from as int, i as int),
        decreases to - i,
    {
        out.push(chunk[i]);
        i = i + 1;
    }
}

/// How far the reading of a line has come.
#[derive(Clone, Copy, Debug, PartialEq, Eq, Structural)]
pub enum LineState {
    /// The line goes on in the next chunk.
    More,
    /// The line is complete.
    Done,
    /// The line is longer than it may be.
    TooLong,
}

/// What a chunk adds to a line.
pub struct LineStep {
    /// How many bytes of the chunk were used; a line feed that ends the line is one of them.
    pub consumed: usize,
    pub state: LineState,
}

/// The line after a chunk: what comes before the first line feed is added to it.
pub open spec fn line_after(line: Seq<u8>, chunk: Seq<u8>) -> Seq<u8> {
    line + chunk.take(next_newline(chunk, 0))
}

/// How far the reading of a line has come after a chunk.
pub open spec fn state_after(line: Seq<u8>, chunk: Seq<u8>, max: nat) -> LineState {
    if line_after(line, chunk).len() > max {
        LineState::TooLong
    } else if next_newline(chunk, 0) < chunk.len() {
        LineState::Done
    } else {
        LineState::More
    }
}

/// How many bytes of a chunk belong to the line, its line feed among them.
pub open spec fn consumed_of(chunk: Seq<u8>) -> int {
    if next_newline(chunk, 0) < chunk.len() {
        next_newline(chunk, 0) + 1
    } else {
        chunk.len() as int
    }
}

/// Adds a chunk to a line of at most `max` bytes.
pub fn read_line_step(line: &mut Vec<u8>, chunk: &[u8], max: usize) -> (r: LineStep)
    ensures
        final(line)@ == line_after(old(line)@, chunk@),
        r.consumed == consumed_of(chunk@),
        r.state == state_after(old(line)@, chunk@, max as nat),
{
    let pos: usize = find_newline(chunk, 0);
    push_bytes(line, chunk, 0, pos);
    assert(chunk@.subrange(0, pos as int) =~= chunk@.take(pos as int));
    let consumed: usize = if pos < chunk.len() {
        pos + 1
    } else {
        pos
    };
    let state = if line.len() > max {
        LineState::TooLong
    } else if pos < chunk.len() {
        LineState::Done
    } else {
        LineState::More
    };
    LineStep { consumed, state }
}

/// The error for a line that is too long.
pub open spec fn too_long(max: nat) -> Seq<char> {
    "protocol line exceeds "@ + decimal(max) + " bytes"@
}

/// The error for a line that is too long.
pub fn too_long_message(max: usize) -> (r: String)
    ensures
        r@ == too_long(max as nat),
{
    let mut out = "protocol line exceeds ".to_owned();
    out.push_str(decimal_text(max as u64).as_str());
    out.push_str(" bytes");
    out
}

proof fn lemma_newline_concat(a: Seq<u8>, b: Seq<u8>, from: int)
    requires
        0 <= from <= a.len(),
        next_newline(a, from) == a.len(),
    ensures
        next_newline(a + b, from) == a.len() + next_newline(b, 0),
    decreases a.len() - from,
{
    if from < a.len() {
        lemma_newline_concat(a, b, from + 1);
    } else {
        lemma_newline_shift(a, b, 0);
    }
}

proof fn lemma_newline_shift(a: Seq<u8>, b: Seq<u8>, k: int)
    requires
        0 <= k <= b.len(),
    ensures
        next_newline(a + b, a.len() + k) == a.len() + next_newline(b, k),
    decreases b.len() - k,
{
    if k < b.len() && b[k] != 10 {
        lemma_newline_shift(a, b, k + 1);
    }
}

/// How the bytes of a line are cut into chunks does not matter: a chunk that does not end the line
/// followed by another one gives the line, the state and the position that the two give as one.
pub proof fn lemma_chunks_do_not_matter(line: Seq<u8>, a: Seq<u8>, b: Seq<u8>, max: nat)
    requires
        state_after(line, a, max) == LineState::More,
    ensures
        line_after(line_after(line, a), b) == line_after(line, a + b),
        state_after(line_after(line, a), b, max) == state_after(line, a + b, max),
        a.len() + consumed_of(b) == consumed_of(a + b),
{
    lemma_next_newline(a, 0);
    lemma_next_newline(b, 0);
    lemma_newline_concat(a, b, 0);
    assert(a.take(a.len() as int) =~= a);
    assert((a + b).take(a.len() + next_newline(b, 0)) =~= a + b.take(next_newline(b, 0)));
    assert(line_after(line_after(line, a), b) =~= line_after(line, a + b));
}

/// A complete line holds no line feed and is no longer than allowed.
pub proof fn lemma_line_is_clean(line: Seq<u8>, chunk: Seq<u8>, max: nat)
    requires
        forall|j: int| 0 <= j < line.len() ==> line[j] != 10,
    ensures
        forall|j: int| 0 <= j < line_after(line, chunk).len() ==> line_after(line, chunk)[j] != 10,
        state_after(line, chunk, max) != LineState::TooLong ==> line_after(line, chunk).len()
            <= max,
{
    lemma_next_newline(chunk, 0);
}

// ---------------------------------------------------------------------------
// The error output of a worker
// ---------------------------------------------------------------------------

/// How many bytes of one line of a worker's error output are kept.
pub const STDERR_LINE_LIMIT_BYTES: usize = 16384;

/// What a chunk of error output gives: the lines to log, in order, and what is kept of the line
/// that is not complete.
pub struct Drained {
    /// The complete lines.
    pub lines: Vec<Vec<u8>>,
    /// The start of a line that has become too long; the rest of it so far is dropped.
    pub cut: Option<Vec<u8>>,
}

/// The complete lines of `chunk[from..]`, the first of which starts with `pending`.
pub open spec fn drained_lines(pending: Seq<u8>, chunk: Seq<u8>, from: int) -> Seq<Seq<u8>>
    decreases chunk.len() - from,
{
    let i = next_newline(chunk, from);
    if from < 0 || i < from || i >= chunk.len() {
        seq![]
    } else {
        seq![pending + chunk.subrange(from, i)] + drained_lines(seq![], chunk, i + 1)
    }
}

/// What follows the last complete line of `chunk[from..]`.
pub open spec fn drained_rest(pending: Seq<u8>, chunk: Seq<u8>, from: int) -> Seq<u8>
    decreases chunk.len() - from,
{
    let i = next_newline(chunk, from);
    if from < 0 || from > chunk.len() {
        pending
    } else if i < from || i >= chunk.len() {
        pending + chunk.subrange(from, chunk.len() as int)
    } else {
        drained_rest(seq![], chunk, i + 1)
    }
}

/// The views of a list of lines.
pub open spec fn line_views(list: Seq<Vec<u8>>) -> Seq<Seq<u8>> {
    list.map_values(|v: Vec<u8>| v@)
}

/// Takes the complete lines out of a chunk of error output. What is left of an incomplete line
/// stays in `pending`, unless it is too long: then its start is handed out and it is forgotten.
pub fn drain_stderr_chunk(pending: &mut Vec<u8>, chunk: &[u8]) -> (r: Drained)
    ensures
        line_views(r.lines@) == drained_lines(old(pending)@, chunk@, 0),
        ({
            let rest = drained_rest(old(pending)@, chunk@, 0);
            if rest.len() > STDERR_LINE_LIMIT_BYTES {
                &&& r.cut matches Some(cut)
                &&& r.cut->0@ == rest.take(STDERR_LINE_LIMIT_BYTES as int)
                &&& final(pending)@ == Seq::<u8>::empty()
            } else {
                r.cut is None && final(pending)@ == rest
            }
        }),
{
    let ghost start = pending@;
    let mut lines: Vec<Vec<u8>> = Vec::new();
    let mut from: usize = 0;
    let mut pos: usize = find_newline(chunk, 0);
    assert(line_views(lines@) + drained_lines(pending@, chunk@, 0) =~= drained_lines(
        start,
        chunk@,
        0,
    ));
    while pos < chunk.len()
        invariant
            from <= pos <= chunk.len(),
            pos == next_newline(chunk@, from as int),
            line_views(lines@) + drained_lines(pending@, chunk@, from as int) == drained_lines(
                start,
                chunk@,
                0,
            ),
            drained_rest(pending@, chunk@, from as int) == drained_rest(start, chunk@, 0),
        decreases chunk.len() - from,
    {
        let ghost before = lines@;
        let ghost kept = pending@;
        let mut line: Vec<u8> = Vec::new();
        push_bytes(&mut line, pending.as_slice(), 0, pending.len());
        push_bytes(&mut line, chunk, from, pos);
        assert(line@ =~= kept + chunk@.subrange(from as int, pos as int));
        lines.push(line);
        pending.clear();
        assert(pending@ =~= seq![]);
        assert(line_views(lines@) =~= line_views(before).push(
            kept + chunk@.subrange(from as int, pos as int),
        ));
        assert(line_views(lines@) + drained_lines(pending@, chunk@, pos + 1) =~= line_views(before)
            + drained_lines(kept, chunk@, from as int));
        from = pos + 1;
        pos = find_newline(chunk, from);
    }
    push_bytes(pending, chunk, from, chunk.len());
    assert(line_views(lines@) =~= drained_lines(start, chunk@, 0));
    if pending.len() > STDERR_LINE_LIMIT_BYTES {
        let mut cut: Vec<u8> = Vec::new();
        push_bytes(&mut cut, pending.as_slice(), 0, STDERR_LINE_LIMIT_BYTES);
        assert(cut@ =~= pending@.take(STDERR_LINE_LIMIT_BYTES as int));
        pending.clear();
        assert(pending@ =~= Seq::<u8>::empty());
        Drained { lines, cut: Some(cut) }
    } else {
        Drained { lines, cut: None }
    }
}

/// No line that is handed out holds a line feed, and neither does what is kept.
pub proof fn lemma_drained_clean(pending: Seq<u8>, chunk: Seq<u8>, from: int)
    requires
        0 <= from <= chunk.len(),
        forall|j: int| 0 <= j < pending.len() ==> pending[j] != 10,
    ensures
        forall|k: int, j: int|
            0 <= k < drained_lines(pending, chunk, from).len() && 0 <= j < drained_lines(
                pending,
                chunk,
                from,
            )[k].len() ==> drained_lines(pending, chunk, from)[k][j] != 10,
        forall|j: int|
            0 <= j < drained_rest(pending, chunk, from).len() ==> drained_rest(
                pending,
                chunk,
                from,
            )[j] != 10,
    decreases chunk.len() - from,
{
    lemma_next_newline(chunk, from);
    let i = next_newline(chunk, from);
    if i < chunk.len() {
        let none = Seq::<u8>::empty();
        assert(none =~= seq![]);
        lemma_drained_clean(none, chunk, i + 1);
        let rest = drained_lines(none, chunk, i + 1);
        let kept = drained_rest(pending, chunk, from);
        assert(kept == drained_rest(none, chunk, i + 1));
        assert forall|j: int| 0 <= j < kept.len() implies kept[j] != 10 by {
            assert(drained_rest(none, chunk, i + 1)[j] != 10);
        }
        let all = drained_lines(pending, chunk, from);
        assert forall|k: int, j: int| 0 <= k < all.len() && 0 <= j < all[k].len() implies all[k][j]
            != 10 by {
            if k > 0 {
                assert(all[k] == rest[k - 1]);
            }
        }
    } else {
        let rest = drained_rest(pending, chunk, from);
        assert(rest == pending + chunk.subrange(from, chunk.len() as int));
        assert forall|j: int| 0 <= j < rest.len() implies rest[j] != 10 by {
            if j >= pending.len() {
                assert(rest[j] == chunk[from + j - pending.len()]);
            }
        }
    }
}

// ---------------------------------------------------------------------------
// What a stream of lines is cut into
// ---------------------------------------------------------------------------

/// A line goes up to the first line break, which is used up and belongs to no
/// line; what comes behind it is left. It is done where it is no longer than
/// allowed, and refused where it is longer, by one byte already.
pub proof fn lemma_line_ends_at_the_break(pending: Seq<u8>, a: Seq<u8>, rest: Seq<u8>, max: nat)
    requires
        forall|j: int| 0 <= j < a.len() ==> a[j] != 10,
    ensures
        line_after(pending, a + seq![10u8] + rest) == pending + a,
        consumed_of(a + seq![10u8] + rest) == a.len() + 1,
        state_after(pending, a + seq![10u8] + rest, max) == (if pending.len() + a.len() <= max {
            LineState::Done
        } else {
            LineState::TooLong
        }),
        line_after(pending, a) == pending + a,
        consumed_of(a) == a.len(),
        state_after(pending, a, max) == (if pending.len() + a.len() <= max {
            LineState::More
        } else {
            LineState::TooLong
        }),
{
    let s = a + seq![10u8] + rest;
    lemma_next_newline(s, 0);
    let i = next_newline(s, 0);
    assert(s[a.len() as int] == 10);
    if i < a.len() {
        assert(s[i] == a[i]);
    }
    assert(s.take(i) =~= a);
    lemma_next_newline(a, 0);
    assert(a.take(a.len() as int) =~= a);
}

proof fn lemma_drained_shift(pending: Seq<u8>, a: Seq<u8>, r: Seq<u8>, k: int)
    requires
        0 <= k <= r.len(),
    ensures
        drained_lines(pending, a + r, a.len() + k) == drained_lines(pending, r, k),
        drained_rest(pending, a + r, a.len() + k) == drained_rest(pending, r, k),
    decreases r.len() - k,
{
    lemma_newline_shift(a, r, k);
    lemma_next_newline(r, k);
    let i = next_newline(r, k);
    assert((a + r).subrange(a.len() + k, a.len() + i) =~= r.subrange(k, i));
    if i < r.len() {
        lemma_drained_shift(seq![], a, r, i + 1);
    }
}

/// Complete lines leave in their order, the first with what was pending before
/// it; what follows the last line break stays pending. Nothing is lost.
pub proof fn lemma_lines_leave_in_order(pending: Seq<u8>, a: Seq<u8>, rest: Seq<u8>)
    requires
        forall|j: int| 0 <= j < a.len() ==> a[j] != 10,
    ensures
        drained_lines(pending, a + seq![10u8] + rest, 0) == seq![pending + a] + drained_lines(
            seq![],
            rest,
            0,
        ),
        drained_rest(pending, a + seq![10u8] + rest, 0) == drained_rest(seq![], rest, 0),
        drained_lines(pending, a, 0) == Seq::<Seq<u8>>::empty(),
        drained_rest(pending, a, 0) == pending + a,
{
    let front = a.push(10u8);
    let s = front + rest;
    assert(s =~= a + seq![10u8] + rest);
    lemma_next_newline(s, 0);
    let i = next_newline(s, 0);
    assert(s[a.len() as int] == 10);
    if i < a.len() {
        assert(s[i] == a[i]);
    }
    assert(s.subrange(0, i) =~= a);
    lemma_drained_shift(seq![], front, rest, 0);
    lemma_next_newline(a, 0);
    assert(a.subrange(0, a.len() as int) =~= a);
}

/// A line that is too long is refused with the length that is allowed.
pub proof fn lemma_too_long(max: nat)
    ensures
        too_long(max) == "protocol line exceeds "@ + decimal(max) + " bytes"@,
{
}

} // verus!
