//! Text as a sequence of characters: white space, lines, joining, searching.

use vstd::prelude::*;

verus! {

/// `String::push` appends one character.
pub assume_specification[ String::push ](s: &mut String, c: char)
    ensures
        final(s)@ == old(s)@.push(c),
;

/// `String::push_str` appends a whole string slice.
pub assume_specification[ String::push_str ](s: &mut String, string: &str)
    ensures
        final(s)@ == old(s)@ + string@,
;

// ---------------------------------------------------------------------------
// Comparing and copying
// ---------------------------------------------------------------------------

/// Whether two texts hold the same characters.
pub fn same(a: &str, b: &str) -> (r: bool)
    ensures
        r == (a@ == b@),
{
    a.to_owned() == b.to_owned()
}

/// The characters of a text, one by one.
pub fn chars_of(s: &str) -> (r: Vec<char>)
    ensures
        r@ == s@,
{
    let mut v: Vec<char> = Vec::new();
    for c in it: s.chars()
        invariant
            v@ == it.seq().take(it.index()),
            it.seq() == s@,
    {
        v.push(c);
    }
    v
}

/// The text made of the characters `chars[from..to]`.
pub fn text_between(chars: &Vec<char>, from: usize, to: usize) -> (r: String)
    requires
        from <= to <= chars.len(),
    ensures
        r@ == chars@.subrange(from as int, to as int),
{
    let mut out = String::new();
    let mut i: usize = from;
    while i < to
        invariant
            from <= i <= to <= chars.len(),
            out@ == chars@.subrange(from as int, i as int),
        decreases to - i,
    {
        out.push(chars[i]);
        i = i + 1;
        assert(out@ =~= chars@.subrange(from as int, i as int));
    }
    out
}

/// The views of a list of texts.
pub open spec fn views(list: Seq<String>) -> Seq<Seq<char>> {
    list.map_values(|s: String| s@)
}

/// The view of an optional text.
pub open spec fn opt_view(o: Option<String>) -> Option<Seq<char>> {
    match o {
        Some(s) => Some(s@),
        None => None,
    }
}

/// A copy of an optional text.
pub fn copy_opt(o: &Option<String>) -> (r: Option<String>)
    ensures
        opt_view(r) == opt_view(*o),
{
    match o {
        Some(s) => Some(s.clone()),
        None => None,
    }
}

/// A copy of a list of texts.
pub fn copy_list(list: &Vec<String>) -> (r: Vec<String>)
    ensures
        views(r@) == views(list@),
{
    let mut out: Vec<String> = Vec::new();
    let mut i: usize = 0;
    while i < list.len()
        invariant
            i <= list.len(),
            views(out@) =~= views(list@).take(i as int),
            out.len() == i,
        decreases list.len() - i,
    {
        out.push(list[i].clone());
        i = i + 1;
    }
    assert(views(list@).take(list.len() as int) =~= views(list@));
    out
}

// ---------------------------------------------------------------------------
// White space
// ---------------------------------------------------------------------------

/// The characters with the Unicode property `White_Space`.
pub open spec fn is_white(c: char) -> bool {
    let n = c as u32;
    ||| 0x9 <= n <= 0xd
    ||| n == 0x20
    ||| n == 0x85
    ||| n == 0xa0
    ||| n == 0x1680
    ||| 0x2000 <= n <= 0x200a
    ||| n == 0x2028
    ||| n == 0x2029
    ||| n == 0x202f
    ||| n == 0x205f
    ||| n == 0x3000
}

/// Whether `c` has the Unicode property `White_Space`.
pub fn white(c: char) -> (r: bool)
    ensures
        r == is_white(c),
{
    let n: u32 = c as u32;
    (0x9 <= n && n <= 0xd) || n == 0x20 || n == 0x85 || n == 0xa0 || n == 0x1680 || (0x2000 <= n
        && n <= 0x200a) || n == 0x2028 || n == 0x2029 || n == 0x202f || n == 0x205f || n == 0x3000
}

/// The text without the white space at its start.
pub open spec fn trim_start(s: Seq<char>) -> Seq<char>
    decreases s.len(),
{
    if s.len() > 0 && is_white(s[0]) {
        trim_start(s.drop_first())
    } else {
        s
    }
}

/// The text without the white space at its end.
pub open spec fn trim_end(s: Seq<char>) -> Seq<char>
    decreases s.len(),
{
    if s.len() > 0 && is_white(s.last()) {
        trim_end(s.drop_last())
    } else {
        s
    }
}

/// The text without the white space at either end.
pub open spec fn trimmed(s: Seq<char>) -> Seq<char> {
    trim_end(trim_start(s))
}

/// The text without the white space at either end.
pub fn trim(s: &str) -> (r: String)
    ensures
        r@ == trimmed(s@),
{
    let chars = chars_of(s);
    let r = trim_between(&chars, 0, chars.len());
    assert(s@.subrange(0, s@.len() as int) =~= s@);
    r
}

/// The characters `chars[from..to]` without the white space at either end.
pub fn trim_between(chars: &Vec<char>, from: usize, to: usize) -> (r: String)
    requires
        from <= to <= chars.len(),
    ensures
        r@ == trimmed(chars@.subrange(from as int, to as int)),
{
    let ghost whole = chars@.subrange(from as int, to as int);
    let mut a: usize = from;
    while a < to && white(chars[a])
        invariant
            from <= a <= to <= chars.len(),
            whole == chars@.subrange(from as int, to as int),
            trim_start(whole) == trim_start(chars@.subrange(a as int, to as int)),
        decreases to - a,
    {
        proof {
            let rest = chars@.subrange(a as int, to as int);
            assert(rest.drop_first() =~= chars@.subrange(a + 1, to as int));
        }
        a = a + 1;
    }
    let ghost body = chars@.subrange(a as int, to as int);
    assert(trim_start(whole) == body);
    let mut b: usize = to;
    while a < b && white(chars[b - 1])
        invariant
            from <= a <= b <= to <= chars.len(),
            body == chars@.subrange(a as int, to as int),
            trim_end(body) == trim_end(chars@.subrange(a as int, b as int)),
        decreases b,
    {
        proof {
            let rest = chars@.subrange(a as int, b as int);
            assert(rest.drop_last() =~= chars@.subrange(a as int, b - 1));
        }
        b = b - 1;
    }
    text_between(chars, a, b)
}

/// Trimming leaves no white space at either end.
pub proof fn lemma_trimmed_ends(s: Seq<char>)
    ensures
        trimmed(s).len() > 0 ==> !is_white(trimmed(s)[0]) && !is_white(trimmed(s).last()),
{
    lemma_trim_start_head(s);
    lemma_trim_end_ends(trim_start(s));
}

proof fn lemma_trim_start_head(s: Seq<char>)
    ensures
        trim_start(s).len() > 0 ==> !is_white(trim_start(s)[0]),
    decreases s.len(),
{
    if s.len() > 0 && is_white(s[0]) {
        lemma_trim_start_head(s.drop_first());
    }
}

proof fn lemma_trim_end_ends(s: Seq<char>)
    ensures
        trim_end(s).len() > 0 ==> !is_white(trim_end(s).last()) && trim_end(s)[0] == s[0],
    decreases s.len(),
{
    if s.len() > 0 && is_white(s.last()) {
        lemma_trim_end_ends(s.drop_last());
    }
}

/// Trimming a second time changes nothing.
pub proof fn lemma_trim_twice(s: Seq<char>)
    ensures
        trimmed(trimmed(s)) == trimmed(s),
{
    lemma_trimmed_ends(s);
}

/// White space around a text does not count, where the text has none at its ends.
pub proof fn lemma_trim_padding(before: Seq<char>, s: Seq<char>, after: Seq<char>)
    requires
        forall|i: int| 0 <= i < before.len() ==> is_white(#[trigger] before[i]),
        forall|i: int| 0 <= i < after.len() ==> is_white(#[trigger] after[i]),
        s.len() > 0,
        !is_white(s[0]),
        !is_white(s.last()),
    ensures
        trimmed(before + s + after) == s,
    decreases before.len() + after.len(),
{
    let whole = before + s + after;
    if before.len() > 0 {
        assert(is_white(before[0]));
        assert(whole[0] == before[0]);
        assert(whole.drop_first() =~= before.drop_first() + s + after);
        assert forall|i: int| 0 <= i < before.drop_first().len() implies is_white(
            #[trigger] before.drop_first()[i],
        ) by {
            assert(before.drop_first()[i] == before[i + 1]);
        }
        lemma_trim_padding(before.drop_first(), s, after);
    } else {
        assert(whole =~= s + after);
        assert(whole[0] == s[0]);
        assert(trim_start(whole) == whole);
        if after.len() > 0 {
            assert(is_white(after[after.len() - 1]));
            assert(whole.last() == after[after.len() - 1]);
            let less = before + s + after.drop_last();
            assert(whole.drop_last() =~= less);
            assert(less[0] == s[0]);
            assert(trim_start(less) == less);
            assert forall|i: int| 0 <= i < after.drop_last().len() implies is_white(
                #[trigger] after.drop_last()[i],
            ) by {
                assert(after.drop_last()[i] == after[i]);
            }
            lemma_trim_padding(before, s, after.drop_last());
        } else {
            assert(whole =~= s);
        }
    }
}

// ---------------------------------------------------------------------------
// Searching
// ---------------------------------------------------------------------------

/// Whether `part` occurs in `s` at position `at`.
pub open spec fn occurs_at(s: Seq<char>, part: Seq<char>, at: int) -> bool {
    &&& 0 <= at
    &&& at + part.len() <= s.len()
    &&& s.subrange(at, at + part.len()) == part
}

/// Whether `part` occurs anywhere in `s`.
pub open spec fn occurs(s: Seq<char>, part: Seq<char>) -> bool {
    exists|at: int| occurs_at(s, part, at)
}

/// Whether `part` occurs in `s` at position `at`.
fn chars_occur_at(s: &Vec<char>, part: &Vec<char>, at: usize) -> (r: bool)
    requires
        at <= s.len(),
    ensures
        r == occurs_at(s@, part@, at as int),
{
    if part.len() > s.len() - at {
        return false;
    }
    let mut k: usize = 0;
    while k < part.len()
        invariant
            k <= part.len(),
            at + part.len() <= s.len(),
            forall|j: int| 0 <= j < k ==> s[at + j] == part[j],
        decreases part.len() - k,
    {
        if s[at + k] != part[k] {
            assert(s@.subrange(at as int, at + part.len())[k as int] != part@[k as int]);
            return false;
        }
        k = k + 1;
    }
    assert(s@.subrange(at as int, at + part.len()) =~= part@);
    true
}

/// Whether `part` occurs anywhere in `s`.
pub fn contains(s: &str, part: &str) -> (r: bool)
    ensures
        r == occurs(s@, part@),
{
    let whole = chars_of(s);
    let sub = chars_of(part);
    let mut at: usize = 0;
    while at < whole.len()
        invariant
            whole@ == s@,
            sub@ == part@,
            at <= whole.len(),
            forall|j: int| 0 <= j < at ==> !occurs_at(s@, part@, j),
        decreases whole.len() - at,
    {
        if chars_occur_at(&whole, &sub, at) {
            assert(occurs_at(s@, part@, at as int));
            return true;
        }
        at = at + 1;
    }
    let last = chars_occur_at(&whole, &sub, at);
    assert(occurs_at(s@, part@, at as int) == last);
    last
}

/// The ASCII lower case of a character.
pub open spec fn lower(c: char) -> char {
    if 'A' <= c && c <= 'Z' {
        ((c as u32 + 32) as u32) as char
    } else {
        c
    }
}

/// The text with its ASCII letters in lower case.
pub open spec fn lowered(s: Seq<char>) -> Seq<char> {
    s.map_values(|c: char| lower(c))
}

/// The ASCII lower case of a character.
pub fn to_lower(c: char) -> (r: char)
    ensures
        r == lower(c),
{
    if 'A' <= c && c <= 'Z' {
        let n: u8 = c as u8 + 32;
        n as char
    } else {
        c
    }
}

/// The text with its ASCII letters in lower case.
pub fn ascii_lowercase(s: &str) -> (r: String)
    ensures
        r@ == lowered(s@),
{
    let chars = chars_of(s);
    let mut out = String::new();
    let mut i: usize = 0;
    while i < chars.len()
        invariant
            i <= chars.len(),
            out@ == lowered(chars@.take(i as int)),
        decreases chars.len() - i,
    {
        out.push(to_lower(chars[i]));
        i = i + 1;
        assert(out@ =~= lowered(chars@.take(i as int)));
    }
    assert(chars@.take(chars.len() as int) =~= chars@);
    out
}

// ---------------------------------------------------------------------------
// Splitting and joining
// ---------------------------------------------------------------------------

/// The position of the first `c` in `s` at or after `from`, or the length of `s`.
pub open spec fn next_index(s: Seq<char>, c: char, from: int) -> int
    decreases s.len() - from,
{
    if from < 0 || from >= s.len() {
        s.len() as int
    } else if s[from] == c {
        from
    } else {
        next_index(s, c, from + 1)
    }
}

pub proof fn lemma_next_index(s: Seq<char>, c: char, from: int)
    requires
        0 <= from <= s.len(),
    ensures
        from <= next_index(s, c, from) <= s.len(),
        forall|j: int| from <= j < next_index(s, c, from) ==> s[j] != c,
        next_index(s, c, from) < s.len() ==> s[next_index(s, c, from)] == c,
    decreases s.len() - from,
{
    if from < s.len() && s[from] != c {
        lemma_next_index(s, c, from + 1);
    }
}

/// The position of the first `c` at or after `from`, or the length.
pub fn find_char(chars: &Vec<char>, c: char, from: usize) -> (r: usize)
    requires
        from <= chars.len(),
    ensures
        r == next_index(chars@, c, from as int),
        from <= r <= chars.len(),
{
    let mut i: usize = from;
    while i < chars.len() && chars[i] != c
        invariant
            from <= i <= chars.len(),
            next_index(chars@, c, from as int) == next_index(chars@, c, i as int),
        decreases chars.len() - i,
    {
        i = i + 1;
    }
    i
}

/// The pieces of `s[from..]` between the separators `c`: one more than there are separators.
pub open spec fn pieces_from(s: Seq<char>, c: char, from: int) -> Seq<Seq<char>>
    decreases s.len() - from,
{
    if from < 0 || from > s.len() {
        seq![]
    } else {
        let i = next_index(s, c, from);
        if i < from || i >= s.len() {
            seq![s.subrange(from, s.len() as int)]
        } else {
            seq![s.subrange(from, i)] + pieces_from(s, c, i + 1)
        }
    }
}

/// The pieces of `s` between the separators `c`.
pub open spec fn pieces(s: Seq<char>, c: char) -> Seq<Seq<char>> {
    pieces_from(s, c, 0)
}

/// The pieces of `s` between the separators `c`.
pub fn split(s: &str, c: char) -> (r: Vec<String>)
    ensures
        views(r@) == pieces(s@, c),
{
    let chars = chars_of(s);
    let mut out: Vec<String> = Vec::new();
    let mut from: usize = 0;
    let mut open = true;
    while open
        invariant
            from <= chars.len(),
            open ==> views(out@) + pieces_from(chars@, c, from as int) == pieces(chars@, c),
            !open ==> views(out@) == pieces(chars@, c),
        decreases chars.len() - from, (if open { 1int } else { 0int }),
    {
        let i = find_char(&chars, c, from);
        let ghost before = out@;
        out.push(text_between(&chars, from, i));
        assert(views(out@) =~= views(before).push(chars@.subrange(from as int, i as int)));
        if i < chars.len() {
            assert(views(out@) + pieces_from(chars@, c, i + 1) =~= views(before) + pieces_from(
                chars@,
                c,
                from as int,
            ));
            from = i + 1;
        } else {
            assert(views(out@) =~= views(before) + pieces_from(chars@, c, from as int));
            open = false;
        }
    }
    out
}

/// The line without the carriage return that ends it, if one does.
pub open spec fn without_cr(s: Seq<char>) -> Seq<char> {
    if s.len() > 0 && s.last() == '\r' {
        s.drop_last()
    } else {
        s
    }
}

/// The lines of `s[from..]`. A line ends with `\n` or `\r\n`; the last one may lack its ending.
pub open spec fn lines_from(s: Seq<char>, from: int) -> Seq<Seq<char>>
    decreases s.len() - from,
{
    if from < 0 || from >= s.len() {
        seq![]
    } else {
        let i = next_index(s, '\n', from);
        if i < from || i >= s.len() {
            seq![s.subrange(from, s.len() as int)]
        } else {
            seq![without_cr(s.subrange(from, i))] + lines_from(s, i + 1)
        }
    }
}

/// The lines of a text.
pub open spec fn lines_of(s: Seq<char>) -> Seq<Seq<char>> {
    lines_from(s, 0)
}

/// The lines of a text.
pub fn lines(s: &str) -> (r: Vec<String>)
    ensures
        views(r@) == lines_of(s@),
{
    let chars = chars_of(s);
    let mut out: Vec<String> = Vec::new();
    let mut from: usize = 0;
    assert(views(out@) + lines_from(chars@, from as int) =~= lines_of(chars@));
    while from < chars.len()
        invariant
            from <= chars.len(),
            views(out@) + lines_from(chars@, from as int) == lines_of(chars@),
        decreases chars.len() - from,
    {
        let i = find_char(&chars, '\n', from);
        let ghost before = out@;
        let ghost rest = lines_from(chars@, from as int);
        if i < chars.len() {
            let end: usize = if i > from && chars[i - 1] == '\r' {
                i - 1
            } else {
                i
            };
            out.push(text_between(&chars, from, end));
            assert(chars@.subrange(from as int, end as int) =~= without_cr(
                chars@.subrange(from as int, i as int),
            ));
            assert(views(out@) =~= views(before).push(
                without_cr(chars@.subrange(from as int, i as int)),
            ));
            assert(views(out@) + lines_from(chars@, i + 1) =~= views(before) + rest);
            from = i + 1;
        } else {
            out.push(text_between(&chars, from, i));
            assert(views(out@) =~= views(before).push(chars@.subrange(from as int, i as int)));
            assert(views(out@) + lines_from(chars@, i as int) =~= views(before) + rest);
            from = i;
        }
    }
    assert(views(out@) =~= lines_of(chars@));
    out
}

/// The parts with `sep` between each two of them.
pub open spec fn joined(parts: Seq<Seq<char>>, sep: Seq<char>) -> Seq<char>
    decreases parts.len(),
{
    if parts.len() == 0 {
        seq![]
    } else if parts.len() == 1 {
        parts[0]
    } else {
        joined(parts.drop_last(), sep) + sep + parts.last()
    }
}

/// The parts `list[from..to]` with `sep` between each two of them.
pub fn join_between(list: &Vec<String>, from: usize, to: usize, sep: &str) -> (r: String)
    requires
        from <= to <= list.len(),
    ensures
        r@ == joined(views(list@).subrange(from as int, to as int), sep@),
{
    let ghost all = views(list@);
    let mut out = String::new();
    let mut i: usize = from;
    while i < to
        invariant
            from <= i <= to <= list.len(),
            all == views(list@),
            out@ == joined(all.subrange(from as int, i as int), sep@),
        decreases to - i,
    {
        if i > from {
            out.push_str(sep);
        }
        out.push_str(list[i].as_str());
        proof {
            let now = all.subrange(from as int, i + 1);
            assert(now.drop_last() =~= all.subrange(from as int, i as int));
            assert(now.last() == list[i as int]@);
            assert(out@ =~= joined(now, sep@));
        }
        i = i + 1;
    }
    out
}

/// The parts with `sep` between each two of them.
pub fn join(list: &Vec<String>, sep: &str) -> (r: String)
    ensures
        r@ == joined(views(list@), sep@),
{
    let r = join_between(list, 0, list.len(), sep);
    assert(views(list@).subrange(0, list.len() as int) =~= views(list@));
    r
}

/// Joining the pieces with the separator gives the text back.
pub proof fn lemma_split_join(s: Seq<char>, c: char)
    ensures
        joined(pieces(s, c), seq![c]) == s,
{
    lemma_pieces_join(s, c, 0);
    assert(s.subrange(0, s.len() as int) =~= s);
}

proof fn lemma_pieces_join(s: Seq<char>, c: char, from: int)
    requires
        0 <= from <= s.len(),
    ensures
        pieces_from(s, c, from).len() > 0,
        joined(pieces_from(s, c, from), seq![c]) == s.subrange(from, s.len() as int),
    decreases s.len() - from,
{
    lemma_next_index(s, c, from);
    let i = next_index(s, c, from);
    if i < s.len() {
        lemma_pieces_join(s, c, i + 1);
        let rest = pieces_from(s, c, i + 1);
        lemma_join_front(s.subrange(from, i), rest, seq![c]);
        assert(s.subrange(from, s.len() as int) =~= s.subrange(from, i) + seq![c] + s.subrange(
            i + 1,
            s.len() as int,
        ));
    }
}

/// Joining with one more part in front.
pub proof fn lemma_join_front(head: Seq<char>, rest: Seq<Seq<char>>, sep: Seq<char>)
    requires
        rest.len() > 0,
    ensures
        joined(seq![head] + rest, sep) == head + sep + joined(rest, sep),
    decreases rest.len(),
{
    let all = seq![head] + rest;
    if rest.len() == 1 {
        assert(all.drop_last() =~= seq![head]);
        assert(joined(seq![head], sep) == head);
        assert(joined(all, sep) =~= head + sep + rest[0]);
    } else {
        assert(all.drop_last() =~= seq![head] + rest.drop_last());
        lemma_join_front(head, rest.drop_last(), sep);
        assert(joined(all, sep) =~= head + sep + joined(rest, sep));
    }
}

/// White space is the tab, the line and page breaks, the blank, and the
/// separators that Unicode adds to them; among ASCII nothing else is.
pub proof fn lemma_white_space(c: char)
    ensures
        c as u32 <= 0x7f ==> (is_white(c) <==> c == ' ' || c == '\t' || c == '\n' || c == '\r' || c
            as u32 == 0xb || c as u32 == 0xc),
        is_white(c) ==> c as u32 <= 0x20 || c as u32 == 0x85 || c as u32 == 0xa0 || c as u32
            >= 0x1680,
        is_white('\u{85}') && is_white('\u{a0}') && is_white('\u{1680}') && is_white('\u{2028}')
            && is_white('\u{2029}') && is_white('\u{202f}') && is_white('\u{205f}') && is_white(
            '\u{3000}',
        ),
        0x2000 <= c as u32 <= 0x200a ==> is_white(c),
        c as u32 > 0x200a && is_white(c) ==> c == '\u{2028}' || c == '\u{2029}' || c == '\u{202f}'
            || c == '\u{205f}' || c == '\u{3000}',
        0x1680 < c as u32 && (c as u32) < 0x2000 ==> !is_white(c),
{
}

/// Trimming cuts white space off the two ends and nothing else: the text is
/// some white space, the trimmed text, and some white space.
pub proof fn lemma_trimmed_is_inside(s: Seq<char>) -> (ends: (int, int))
    ensures
        0 <= ends.0 <= ends.1 <= s.len(),
        trimmed(s) == s.subrange(ends.0, ends.1),
        forall|i: int| 0 <= i < ends.0 ==> is_white(#[trigger] s[i]),
        forall|i: int| ends.1 <= i < s.len() ==> is_white(#[trigger] s[i]),
{
    let a = lemma_start_cut(s);
    let t = trim_start(s);
    let b = lemma_end_cut(t);
    assert(trimmed(s) =~= s.subrange(a, a + b));
    assert forall|i: int| a + b <= i < s.len() implies is_white(#[trigger] s[i]) by {
        assert(t[i - a] == s[i]);
    }
    (a, a + b)
}

proof fn lemma_start_cut(s: Seq<char>) -> (a: int)
    ensures
        0 <= a <= s.len(),
        trim_start(s) == s.skip(a),
        forall|i: int| 0 <= i < a ==> is_white(#[trigger] s[i]),
    decreases s.len(),
{
    if s.len() > 0 && is_white(s[0]) {
        let a = lemma_start_cut(s.drop_first());
        assert(s.drop_first().skip(a) =~= s.skip(a + 1));
        assert forall|i: int| 0 <= i < a + 1 implies is_white(#[trigger] s[i]) by {
            if i > 0 {
                assert(s.drop_first()[i - 1] == s[i]);
            }
        }
        a + 1
    } else {
        assert(s.skip(0) =~= s);
        0
    }
}

proof fn lemma_end_cut(s: Seq<char>) -> (b: int)
    ensures
        0 <= b <= s.len(),
        trim_end(s) == s.take(b),
        forall|i: int| b <= i < s.len() ==> is_white(#[trigger] s[i]),
    decreases s.len(),
{
    if s.len() > 0 && is_white(s.last()) {
        let b = lemma_end_cut(s.drop_last());
        assert(s.drop_last().take(b) =~= s.take(b));
        assert forall|i: int| b <= i < s.len() implies is_white(#[trigger] s[i]) by {
            if i < s.len() - 1 {
                assert(s.drop_last()[i] == s[i]);
            }
        }
        b
    } else {
        assert(s.take(s.len() as int) =~= s);
        s.len() as int
    }
}

/// A text that holds white space alone is trimmed to nothing.
pub proof fn lemma_blank_is_trimmed_away(s: Seq<char>)
    requires
        forall|i: int| 0 <= i < s.len() ==> is_white(#[trigger] s[i]),
    ensures
        trimmed(s).len() == 0,
{
    let ends = lemma_trimmed_is_inside(s);
    lemma_trimmed_ends(s);
    if trimmed(s).len() > 0 {
        assert(trimmed(s)[0] == s[ends.0]);
    }
}

/// A text holds a part where it can be cut into what stands before the part,
/// the part, and what stands behind it.
pub proof fn lemma_occurs_inside(before: Seq<char>, part: Seq<char>, after: Seq<char>)
    ensures
        occurs(before + part + after, part),
{
    let s = before + part + after;
    let at = before.len() as int;
    assert(s.subrange(at, at + part.len()) =~= part);
    assert(occurs_at(s, part, at));
}

/// A part that a text holds can be cut out of it.
pub proof fn lemma_occurs_cuts(s: Seq<char>, part: Seq<char>) -> (cut: (Seq<char>, Seq<char>))
    requires
        occurs(s, part),
    ensures
        s == cut.0 + part + cut.1,
{
    let at = choose|at: int| occurs_at(s, part, at);
    let cut = (s.take(at), s.skip(at + part.len()));
    assert forall|i: int| 0 <= i < s.len() implies s[i] == (cut.0 + part + cut.1)[i] by {
        if at <= i < at + part.len() {
            assert(s.subrange(at, at + part.len())[i - at] == s[i]);
        }
    }
    assert(s =~= cut.0 + part + cut.1);
    cut
}

/// Small letters stand for the capital ones, each for its own; every other
/// character stays, and so does the length.
pub proof fn lemma_lowered_letters(s: Seq<char>)
    ensures
        lowered(s).len() == s.len(),
        forall|i: int|
            0 <= i < s.len() ==> (#[trigger] lowered(s)[i] != s[i] <==> 'A' <= s[i] && s[i] <= 'Z'),
        forall|i: int|
            0 <= i < s.len() && lowered(s)[i] != s[i] ==> #[trigger] lowered(s)[i] as u32
                == s[i] as u32 + 32,
        lowered(lowered(s)) == lowered(s),
{
    assert forall|i: int| 0 <= i < s.len() implies lowered(lowered(s))[i] == lowered(s)[i] by {}
    assert(lowered(lowered(s)) =~= lowered(s));
}

/// The pieces between separators hold no separator, and there is one more of
/// them than there are separators.
pub proof fn lemma_pieces_hold_no_separator(s: Seq<char>, c: char)
    ensures
        pieces(s, c).len() == 1 + s.filter(|x: char| x == c).len(),
        forall|i: int| 0 <= i < pieces(s, c).len() ==> !(#[trigger] pieces(s, c)[i]).contains(c),
{
    lemma_pieces_clean(s, c, 0);
    assert(s.skip(0) =~= s);
}

proof fn lemma_pieces_clean(s: Seq<char>, c: char, from: int)
    requires
        0 <= from <= s.len(),
    ensures
        pieces_from(s, c, from).len() == 1 + s.skip(from).filter(|x: char| x == c).len(),
        forall|i: int|
            0 <= i < pieces_from(s, c, from).len() ==> !(#[trigger] pieces_from(
                s,
                c,
                from,
            )[i]).contains(c),
    decreases s.len() - from,
{
    let f = |x: char| x == c;
    lemma_next_index(s, c, from);
    let i = next_index(s, c, from);
    let head = s.subrange(from, i);
    assert(!head.contains(c));
    assert(head.filter(f).len() == 0) by {
        lemma_none_kept(head, f);
    }
    if i >= s.len() {
        assert(head =~= s.skip(from));
    } else {
        lemma_pieces_clean(s, c, i + 1);
        let rest = pieces_from(s, c, i + 1);
        assert(pieces_from(s, c, from) =~= seq![head] + rest);
        assert forall|k: int| 0 <= k < pieces_from(s, c, from).len() implies !(
        #[trigger] pieces_from(s, c, from)[k]).contains(c) by {
            if k > 0 {
                assert(pieces_from(s, c, from)[k] == rest[k - 1]);
            }
        }
        let one = seq![s[i]];
        assert(s.skip(from) =~= head + (one + s.skip(i + 1)));
        Seq::filter_distributes_over_add(head, one + s.skip(i + 1), f);
        Seq::filter_distributes_over_add(one, s.skip(i + 1), f);
        assert(one.filter(f).len() == 1) by {
            reveal(Seq::filter);
            assert(one.drop_last() =~= Seq::<char>::empty());
            reveal_with_fuel(Seq::filter, 3);
        }
    }
}

proof fn lemma_none_kept(s: Seq<char>, f: spec_fn(char) -> bool)
    requires
        forall|i: int| 0 <= i < s.len() ==> !f(#[trigger] s[i]),
    ensures
        s.filter(f).len() == 0,
    decreases s.len(),
{
    reveal(Seq::filter);
    if s.len() > 0 {
        lemma_none_kept(s.drop_last(), f);
    }
}

proof fn lemma_index_shift(a: Seq<char>, r: Seq<char>, c: char, k: int)
    requires
        0 <= k <= r.len(),
    ensures
        next_index(a + r, c, a.len() + k) == a.len() + next_index(r, c, k),
    decreases r.len() - k,
{
    if k < r.len() {
        assert((a + r)[a.len() + k] == r[k]);
        if r[k] != c {
            lemma_index_shift(a, r, c, k + 1);
        }
    }
}

proof fn lemma_lines_shift(a: Seq<char>, r: Seq<char>, k: int)
    requires
        0 <= k <= r.len(),
    ensures
        lines_from(a + r, a.len() + k) == lines_from(r, k),
    decreases r.len() - k,
{
    if k < r.len() {
        lemma_index_shift(a, r, '\n', k);
        lemma_next_index(r, '\n', k);
        let i = next_index(r, '\n', k);
        assert((a + r).subrange(a.len() + k, a.len() + i) =~= r.subrange(k, i));
        if i < r.len() {
            lemma_lines_shift(a, r, i + 1);
        }
    }
}

/// The lines of a text: nothing has no line; what holds no line break is one
/// line; a line that a break ends comes first and the lines behind it follow.
/// A carriage return before the break belongs to the break.
pub proof fn lemma_lines_of_a_text(line: Seq<char>, rest: Seq<char>)
    requires
        !line.contains('\n'),
    ensures
        lines_of(Seq::empty()).len() == 0,
        line.len() > 0 ==> lines_of(line) == seq![line],
        (line.len() == 0 || line.last() != '\r') ==> lines_of(line + seq!['\n'] + rest) == seq![line]
            + lines_of(rest),
        lines_of(line + seq!['\r', '\n'] + rest) == seq![line] + lines_of(rest),
{
    lemma_first_line(line, rest);
    let l = line.push('\r');
    assert(!l.contains('\n'));
    lemma_first_line(l, rest);
    assert(line + seq!['\r', '\n'] + rest =~= l + seq!['\n'] + rest);
    assert(l.drop_last() =~= line);
    if line.len() > 0 {
        lemma_next_index(line, '\n', 0);
        assert(line.subrange(0, line.len() as int) =~= line);
        assert(lines_of(line) =~= seq![line]);
    }
}

proof fn lemma_first_line(line: Seq<char>, rest: Seq<char>)
    requires
        !line.contains('\n'),
    ensures
        lines_of(line + seq!['\n'] + rest) == seq![without_cr(line)] + lines_of(rest),
{
    let a = line + seq!['\n'];
    let s = a + rest;
    let i = next_index(s, '\n', 0);
    lemma_next_index(s, '\n', 0);
    assert(s[line.len() as int] == '\n');
    if i < line.len() {
        assert(s[i] == line[i]);
    }
    assert(i == line.len());
    assert(s.subrange(0, i) =~= line);
    lemma_lines_shift(a, rest, 0);
}

/// Joined texts stand in their order with the separator between each two, and
/// nothing else: no text gives nothing, one gives itself, and one more adds the
/// separator and itself.
pub proof fn lemma_joined_one_by_one(parts: Seq<Seq<char>>, last: Seq<char>, sep: Seq<char>)
    ensures
        joined(Seq::empty(), sep) == Seq::<char>::empty(),
        joined(seq![last], sep) == last,
        parts.len() > 0 ==> joined(parts.push(last), sep) == joined(parts, sep) + sep + last,
{
    assert(parts.push(last).drop_last() =~= parts);
}

/// Lines that are joined by line breaks are the lines of the joined text.
pub proof fn lemma_lines_of_joined(parts: Seq<Seq<char>>)
    requires
        parts.len() > 0 ==> parts.last().len() > 0,
        forall|i: int|
            0 <= i < parts.len() ==> !(#[trigger] parts[i]).contains('\n') && (parts[i].len() == 0
                || parts[i].last() != '\r'),
    ensures
        lines_of(joined(parts, seq!['\n'])) == parts,
    decreases parts.len(),
{
    let sep = seq!['\n'];
    if parts.len() == 0 {
    } else if parts.len() == 1 {
        lemma_lines_of_a_text(parts[0], Seq::empty());
        assert(parts =~= seq![parts[0]]);
    } else {
        let rest = parts.drop_first();
        assert forall|i: int| 0 <= i < rest.len() implies !(#[trigger] rest[i]).contains('\n') && (
        rest[i].len() == 0 || rest[i].last() != '\r') by {
            assert(rest[i] == parts[i + 1]);
        }
        assert(rest.last() == parts.last());
        lemma_lines_of_joined(rest);
        lemma_join_front(parts[0], rest, sep);
        assert(parts =~= seq![parts[0]] + rest);
        lemma_lines_of_a_text(parts[0], joined(rest, sep));
    }
}

proof fn lemma_pieces_shift(a: Seq<char>, r: Seq<char>, c: char, k: int)
    requires
        0 <= k <= r.len(),
    ensures
        pieces_from(a + r, c, a.len() + k) == pieces_from(r, c, k),
    decreases r.len() - k,
{
    lemma_index_shift(a, r, c, k);
    lemma_next_index(r, c, k);
    let i = next_index(r, c, k);
    assert((a + r).subrange(a.len() + k, a.len() + i) =~= r.subrange(k, i));
    if i < r.len() {
        lemma_pieces_shift(a, r, c, i + 1);
    }
}

proof fn lemma_index_prefix(a: Seq<char>, r: Seq<char>, c: char, k: int)
    requires
        0 <= k <= a.len(),
        r.len() > 0,
        r[0] == c,
    ensures
        next_index(a + r, c, k) == next_index(a, c, k),
    decreases a.len() - k,
{
    if k < a.len() {
        assert((a + r)[k] == a[k]);
        if a[k] != c {
            lemma_index_prefix(a, r, c, k + 1);
        }
    } else {
        assert((a + r)[k] == r[0]);
    }
}

proof fn lemma_pieces_front(a: Seq<char>, b: Seq<char>, c: char, k: int)
    requires
        0 <= k <= a.len(),
    ensures
        pieces_from(a + (seq![c] + b), c, k) == pieces_from(a, c, k) + pieces(b, c),
    decreases a.len() - k,
{
    let r = seq![c] + b;
    let s = a + r;
    lemma_index_prefix(a, r, c, k);
    lemma_next_index(a, c, k);
    let i = next_index(a, c, k);
    assert(s.subrange(k, i) =~= a.subrange(k, i));
    if i < a.len() {
        lemma_pieces_front(a, b, c, i + 1);
        assert(pieces_from(s, c, k) =~= pieces_from(a, c, k) + pieces(b, c));
    } else {
        let front = a.push(c);
        assert(s =~= front + b);
        lemma_pieces_shift(front, b, c, 0);
        assert(pieces_from(s, c, k) =~= pieces_from(a, c, k) + pieces(b, c));
    }
}

/// A separator between two texts parts their pieces: the pieces of the first
/// come before the pieces of the second. A text without a separator is one piece.
pub proof fn lemma_pieces_of_two(a: Seq<char>, b: Seq<char>, c: char)
    ensures
        pieces(a + seq![c] + b, c) == pieces(a, c) + pieces(b, c),
        !a.contains(c) ==> pieces(a, c) == seq![a],
{
    assert(a + seq![c] + b =~= a + (seq![c] + b));
    lemma_pieces_front(a, b, c, 0);
    lemma_next_index(a, c, 0);
    if !a.contains(c) {
        assert(a.subrange(0, a.len() as int) =~= a);
    }
}

/// Texts without the separator that are joined by it are the pieces of the
/// joined text.
pub proof fn lemma_pieces_of_joined(parts: Seq<Seq<char>>, c: char)
    requires
        parts.len() > 0,
        forall|i: int| 0 <= i < parts.len() ==> !(#[trigger] parts[i]).contains(c),
    ensures
        pieces(joined(parts, seq![c]), c) == parts,
    decreases parts.len(),
{
    if parts.len() == 1 {
        lemma_pieces_of_two(parts[0], Seq::empty(), c);
        assert(parts =~= seq![parts[0]]);
    } else {
        let front = parts.drop_last();
        assert forall|i: int| 0 <= i < front.len() implies !(#[trigger] front[i]).contains(c) by {
            assert(front[i] == parts[i]);
        }
        lemma_pieces_of_joined(front, c);
        lemma_pieces_of_two(joined(front, seq![c]), parts.last(), c);
        lemma_pieces_of_two(parts.last(), Seq::empty(), c);
        assert(!parts[parts.len() - 1].contains(c));
        assert(front + seq![parts.last()] =~= parts);
    }
}

} // verus!
