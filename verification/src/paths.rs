//! File paths as text: components separated by `/`.

use crate::text::{
    chars_of, lemma_pieces_of_two, lemma_split_join, lowered, opt_view, pieces, same,
    split, text_between, views,
};
use vstd::prelude::*;

verus! {

// ---------------------------------------------------------------------------
// The last component
// ---------------------------------------------------------------------------

/// The path without the separators and the `.` components that end it.
pub open spec fn path_body(p: Seq<char>) -> Seq<char>
    decreases p.len(),
{
    if p.len() > 0 && p.last() == '/' {
        path_body(p.drop_last())
    } else if p.len() >= 2 && p.last() == '.' && p[p.len() - 2] == '/' {
        path_body(p.drop_last())
    } else {
        p
    }
}

/// Where the last component of `b` starts: behind its last separator.
pub open spec fn last_start(b: Seq<char>) -> int
    decreases b.len(),
{
    if b.len() == 0 {
        0
    } else if b.last() == '/' {
        b.len() as int
    } else {
        last_start(b.drop_last())
    }
}

/// The last component of a path.
pub open spec fn last_part(p: Seq<char>) -> Seq<char> {
    let b = path_body(p);
    b.skip(last_start(b))
}

/// Whether a component is a name, and not `.` or `..`.
pub open spec fn is_name(part: Seq<char>) -> bool {
    part.len() > 0 && part != seq!['.'] && part != seq!['.', '.']
}

/// The name of the file that a path ends with, if it ends with one.
pub open spec fn file_name_of(p: Seq<char>) -> Option<Seq<char>> {
    if is_name(last_part(p)) {
        Some(last_part(p))
    } else {
        None
    }
}

/// The position of the last dot of a name, or its length where it has none.
pub open spec fn last_dot(name: Seq<char>) -> int
    decreases name.len(),
{
    if name.len() == 0 {
        0
    } else if name.last() == '.' {
        name.len() - 1
    } else {
        let front = last_dot(name.drop_last());
        if front == name.len() - 1 {
            name.len() as int
        } else {
            front
        }
    }
}

/// Where the stem of a name ends: at its last dot, unless that is missing or comes first.
pub open spec fn stem_end(name: Seq<char>) -> int {
    if last_dot(name) == 0 {
        name.len() as int
    } else {
        last_dot(name)
    }
}

/// The extension of a name: what follows its last dot, unless that is missing or comes first.
pub open spec fn name_extension(name: Seq<char>) -> Option<Seq<char>> {
    if stem_end(name) < name.len() {
        Some(name.skip(stem_end(name) + 1))
    } else {
        None
    }
}

/// The extension of the file that a path ends with.
pub open spec fn extension_of(p: Seq<char>) -> Option<Seq<char>> {
    match file_name_of(p) {
        Some(name) => name_extension(name),
        None => None,
    }
}

/// The path with another extension; without any where the new one is empty.
pub open spec fn with_extension_of(p: Seq<char>, ext: Seq<char>) -> Seq<char> {
    match file_name_of(p) {
        Some(name) => {
            let stem = path_body(p).take(last_start(path_body(p)) + stem_end(name));
            if ext.len() == 0 {
                stem
            } else {
                stem + seq!['.'] + ext
            }
        },
        None => p,
    }
}

/// The path with another path behind it; an absolute one takes its place.
pub open spec fn join_of(p: Seq<char>, q: Seq<char>) -> Seq<char> {
    if q.len() > 0 && q[0] == '/' {
        q
    } else if p.len() > 0 && p.last() != '/' {
        p + seq!['/'] + q
    } else {
        p + q
    }
}

/// The path without its last component, if it has one.
pub open spec fn parent_of(p: Seq<char>) -> Option<Seq<char>> {
    let b = path_body(p);
    if b.len() == 0 {
        None
    } else {
        let front = b.take(last_start(b));
        if front.len() > 0 && path_body(front).len() == 0 {
            Some(seq!['/'])
        } else {
            Some(path_body(front))
        }
    }
}

proof fn lemma_last_start(b: Seq<char>)
    ensures
        0 <= last_start(b) <= b.len(),
        forall|j: int| last_start(b) <= j < b.len() ==> b[j] != '/',
        last_start(b) > 0 ==> b[last_start(b) - 1] == '/',
    decreases b.len(),
{
    if b.len() > 0 && b.last() != '/' {
        let front = b.drop_last();
        lemma_last_start(front);
        assert forall|j: int| last_start(b) <= j < b.len() implies b[j] != '/' by {
            if j < b.len() - 1 {
                assert(front[j] == b[j]);
            }
        }
    }
}

proof fn lemma_last_dot(name: Seq<char>)
    ensures
        0 <= last_dot(name) <= name.len(),
        last_dot(name) < name.len() ==> name[last_dot(name)] == '.',
        forall|j: int| last_dot(name) < j < name.len() ==> name[j] != '.',
        last_dot(name) == name.len() ==> forall|j: int| 0 <= j < name.len() ==> name[j] != '.',
    decreases name.len(),
{
    if name.len() > 0 && name.last() != '.' {
        let front = name.drop_last();
        lemma_last_dot(front);
        assert forall|j: int| 0 <= j < name.len() - 1 implies front[j] == name[j] by {}
    }
}

/// Where the body of a path ends.
fn body_end(chars: &Vec<char>) -> (r: usize)
    ensures
        r <= chars.len(),
        path_body(chars@) == chars@.take(r as int),
{
    let mut n: usize = chars.len();
    assert(chars@.take(n as int) =~= chars@);
    while n > 0 && (chars[n - 1] == '/' || (n >= 2 && chars[n - 1] == '.' && chars[n - 2] == '/'))
        invariant
            n <= chars.len(),
            path_body(chars@) == path_body(chars@.take(n as int)),
        decreases n,
    {
        assert(chars@.take(n as int).drop_last() =~= chars@.take(n - 1));
        n = n - 1;
    }
    n
}

/// Where the last component of `chars[..end]` starts.
fn part_start(chars: &Vec<char>, end: usize) -> (r: usize)
    requires
        end <= chars.len(),
    ensures
        r <= end,
        r == last_start(chars@.take(end as int)),
{
    let mut n: usize = end;
    while n > 0 && chars[n - 1] != '/'
        invariant
            n <= end <= chars.len(),
            last_start(chars@.take(end as int)) == last_start(chars@.take(n as int)),
        decreases n,
    {
        assert(chars@.take(n as int).drop_last() =~= chars@.take(n - 1));
        n = n - 1;
    }
    n
}

/// The body and the last component of a path: where the component starts and where both end.
struct Split {
    chars: Vec<char>,
    start: usize,
    end: usize,
}

impl Split {
    spec fn of(self, p: Seq<char>) -> bool {
        &&& self.chars@ == p
        &&& self.start <= self.end <= self.chars.len()
        &&& path_body(p) == p.take(self.end as int)
        &&& self.start == last_start(path_body(p))
        &&& last_part(p) == p.subrange(self.start as int, self.end as int)
    }
}

fn split_last(p: &str) -> (r: Split)
    ensures
        r.of(p@),
{
    let chars = chars_of(p);
    let end: usize = body_end(&chars);
    let start: usize = part_start(&chars, end);
    assert(chars@.take(end as int).skip(start as int) =~= chars@.subrange(
        start as int,
        end as int,
    ));
    Split { chars, start, end }
}

/// Whether a component is a name, and not `.` or `..`.
fn names_file(s: &Split, Ghost(p): Ghost<Seq<char>>) -> (r: bool)
    requires
        s.of(p),
    ensures
        r == is_name(last_part(p)),
{
    let n: usize = s.end - s.start;
    let ghost part = last_part(p);
    if n == 0 {
        return false;
    }
    if n == 1 && s.chars[s.start] == '.' {
        assert(part =~= seq!['.']);
        return false;
    }
    if n == 2 && s.chars[s.start] == '.' && s.chars[s.start + 1] == '.' {
        assert(part =~= seq!['.', '.']);
        return false;
    }
    proof {
        assert(part[0] == s.chars[s.start as int]);
        if part == seq!['.'] {
            assert(part.len() == 1 && part[0] == '.');
        }
        if part == seq!['.', '.'] {
            assert(part.len() == 2 && part[0] == '.' && part[1] == '.');
            assert(part[1] == s.chars[s.start + 1]);
        }
    }
    true
}

/// The name of the file that a path ends with, if it ends with one.
pub fn file_name(p: &str) -> (r: Option<String>)
    ensures
        match r {
            Some(name) => file_name_of(p@) == Some(name@),
            None => file_name_of(p@) is None,
        },
{
    let s = split_last(p);
    if names_file(&s, Ghost(p@)) {
        Some(text_between(&s.chars, s.start, s.end))
    } else {
        None
    }
}

/// Where the stem of the last component ends, counted from the start of the path.
fn stem_end_in(s: &Split, Ghost(p): Ghost<Seq<char>>) -> (r: usize)
    requires
        s.of(p),
        is_name(last_part(p)),
    ensures
        s.start <= r <= s.end,
        r == s.start + stem_end(last_part(p)),
{
    let ghost name = last_part(p);
    let mut n: usize = s.end;
    while n > s.start && s.chars[n - 1] != '.'
        invariant
            s.of(p),
            name == last_part(p),
            s.start <= n <= s.end,
            forall|j: int| n <= j < s.end ==> s.chars[j] != '.',
        decreases n,
    {
        n = n - 1;
    }
    proof {
        lemma_last_dot(name);
        assert forall|j: int| 0 <= j < name.len() implies name[j] == s.chars[s.start + j] by {}
        if n > s.start {
            assert(name[n - 1 - s.start] == '.');
        }
    }
    if n == s.start || n - 1 == s.start {
        s.end
    } else {
        n - 1
    }
}

/// The extension of the file that a path ends with.
pub fn extension(p: &str) -> (r: Option<String>)
    ensures
        match r {
            Some(ext) => extension_of(p@) == Some(ext@),
            None => extension_of(p@) is None,
        },
{
    let s = split_last(p);
    if !names_file(&s, Ghost(p@)) {
        return None;
    }
    let at: usize = stem_end_in(&s, Ghost(p@));
    if at < s.end {
        let ext = text_between(&s.chars, at + 1, s.end);
        assert(ext@ =~= last_part(p@).skip(stem_end(last_part(p@)) + 1));
        Some(ext)
    } else {
        None
    }
}

/// The path with another extension; without any where the new one is empty.
pub fn with_extension(p: &str, ext: &str) -> (r: String)
    ensures
        r@ == with_extension_of(p@, ext@),
{
    let s = split_last(p);
    if !names_file(&s, Ghost(p@)) {
        return p.to_owned();
    }
    let at: usize = stem_end_in(&s, Ghost(p@));
    let mut out = text_between(&s.chars, 0, at);
    assert(out@ =~= path_body(p@).take(at as int));
    if !ext.is_empty() {
        out.push('.');
        out.push_str(ext);
        assert(out@ =~= path_body(p@).take(at as int) + seq!['.'] + ext@);
    }
    out
}

/// The path with another path behind it; an absolute one takes its place.
pub fn join_path(p: &str, q: &str) -> (r: String)
    ensures
        r@ == join_of(p@, q@),
{
    let qs = chars_of(q);
    if qs.len() > 0 && qs[0] == '/' {
        return q.to_owned();
    }
    let ps = chars_of(p);
    let mut out = p.to_owned();
    if ps.len() > 0 && ps[ps.len() - 1] != '/' {
        out.push('/');
    }
    out.push_str(q);
    assert(out@ =~= join_of(p@, q@));
    out
}

/// The path without its last component, if it has one.
pub fn parent(p: &str) -> (r: Option<String>)
    ensures
        match r {
            Some(front) => parent_of(p@) == Some(front@),
            None => parent_of(p@) is None,
        },
{
    let s = split_last(p);
    if s.end == 0 {
        return None;
    }
    let front = text_between(&s.chars, 0, s.start);
    assert(front@ =~= path_body(p@).take(s.start as int));
    let chars = chars_of(front.as_str());
    let end: usize = body_end(&chars);
    if chars.len() > 0 && end == 0 {
        let mut root = String::new();
        root.push('/');
        assert(root@ =~= seq!['/']);
        Some(root)
    } else {
        Some(text_between(&chars, 0, end))
    }
}

/// A name behind a path is the name that the whole path ends with.
pub proof fn lemma_join_names(p: Seq<char>, name: Seq<char>)
    requires
        is_name(name),
        forall|j: int| 0 <= j < name.len() ==> name[j] != '/',
    ensures
        file_name_of(join_of(p, name)) == Some(name),
{
    let whole = join_of(p, name);
    let front = whole.len() - name.len();
    assert(whole.skip(front) =~= name);
    assert(whole.last() == name.last());
    assert(front > 0 ==> whole[front - 1] == '/');
    if whole.last() == '.' && whole.len() >= 2 && whole[whole.len() - 2] == '/' {
        if name.len() >= 2 {
            assert(whole[whole.len() - 2] == name[name.len() - 2]);
        } else {
            assert(name =~= seq!['.']);
        }
    }
    assert(path_body(whole) == whole);
    lemma_last_start(whole);
    if last_start(whole) < front {
        assert(whole[front - 1] != '/');
    }
    if last_start(whole) > front {
        assert(whole[last_start(whole) - 1] == name[last_start(whole) - 1 - front]);
    }
}

// ---------------------------------------------------------------------------
// Equal paths
// ---------------------------------------------------------------------------

/// The components of a path that are not `.` and not empty.
pub open spec fn components(p: Seq<char>) -> Seq<Seq<char>> {
    pieces(p, '/').filter(|part: Seq<char>| part.len() > 0 && part != seq!['.'])
}

/// Whether a path starts at the root.
pub open spec fn is_absolute(p: Seq<char>) -> bool {
    p.len() > 0 && p[0] == '/'
}

/// Whether a path starts with the component `.`.
pub open spec fn starts_here(p: Seq<char>) -> bool {
    p.len() > 0 && p[0] == '.' && (p.len() == 1 || p[1] == '/')
}

/// Whether two paths are the same, component by component.
pub open spec fn same_path(a: Seq<char>, b: Seq<char>) -> bool {
    &&& is_absolute(a) == is_absolute(b)
    &&& starts_here(a) == starts_here(b)
    &&& components(a) == components(b)
}

/// The components of a path that are not `.` and not empty.
fn components_list(p: &str) -> (r: Vec<String>)
    ensures
        views(r@) == components(p@),
{
    let all = split(p, '/');
    let ghost parts = views(all@);
    let ghost keep = |part: Seq<char>| part.len() > 0 && part != seq!['.'];
    let mut out: Vec<String> = Vec::new();
    let mut i: usize = 0;
    assert(parts.take(0).filter(keep) =~= seq![]) by {
        reveal(Seq::filter);
    }
    assert(views(out@) =~= seq![]);
    proof {
        reveal_strlit(".");
        assert("."@ =~= seq!['.']);
    }
    while i < all.len()
        invariant
            i <= all.len(),
            parts == views(all@),
            keep == (|part: Seq<char>| part.len() > 0 && part != seq!['.']),
            views(out@) == parts.take(i as int).filter(keep),
            "."@ == seq!['.'],
        decreases all.len() - i,
    {
        let ghost before = out@;
        proof {
            let next = parts.take(i + 1);
            assert(next.drop_last() =~= parts.take(i as int));
            assert(next.last() == all[i as int]@);
            reveal(Seq::filter);
        }
        if !all[i].as_str().is_empty() && !same(all[i].as_str(), ".") {
            out.push(all[i].clone());
            assert(views(out@) =~= views(before).push(all[i as int]@));
        }
        i = i + 1;
    }
    assert(parts.take(all.len() as int) =~= parts);
    out
}

fn same_lists(a: &Vec<String>, b: &Vec<String>) -> (r: bool)
    ensures
        r == (views(a@) == views(b@)),
{
    if a.len() != b.len() {
        assert(views(a@).len() != views(b@).len());
        return false;
    }
    let mut i: usize = 0;
    while i < a.len()
        invariant
            i <= a.len(),
            a.len() == b.len(),
            forall|j: int| 0 <= j < i ==> a[j]@ == b[j]@,
        decreases a.len() - i,
    {
        if !same(a[i].as_str(), b[i].as_str()) {
            assert(views(a@)[i as int] != views(b@)[i as int]);
            return false;
        }
        i = i + 1;
    }
    assert(views(a@) =~= views(b@));
    true
}

fn path_root(p: &str) -> (r: (bool, bool))
    ensures
        r == (is_absolute(p@), starts_here(p@)),
{
    let chars = chars_of(p);
    let n: usize = chars.len();
    (n > 0 && chars[0] == '/', n > 0 && chars[0] == '.' && (n == 1 || chars[1] == '/'))
}

/// Whether two paths are the same, component by component.
pub fn paths_equal(a: &str, b: &str) -> (r: bool)
    ensures
        r == same_path(a@, b@),
{
    let (abs_a, here_a) = path_root(a);
    let (abs_b, here_b) = path_root(b);
    let list_a = components_list(a);
    let list_b = components_list(b);
    abs_a == abs_b && here_a == here_b && same_lists(&list_a, &list_b)
}

/// Being the same path is an equivalence.
pub proof fn lemma_same_path_equivalence(a: Seq<char>, b: Seq<char>, c: Seq<char>)
    ensures
        same_path(a, a),
        same_path(a, b) ==> same_path(b, a),
        same_path(a, b) && same_path(b, c) ==> same_path(a, c),
{
}

// ---------------------------------------------------------------------------
// Databases and their inputs
// ---------------------------------------------------------------------------

/// The path with `~/` at its start replaced by the home directory, where there is one.
pub open spec fn expanded_path(path: Seq<char>, home: Option<Seq<char>>) -> Seq<char> {
    match home {
        Some(h) => if path.len() >= 2 && path[0] == '~' && path[1] == '/' {
            join_of(h, path.skip(2))
        } else {
            path
        },
        None => path,
    }
}

/// The path with `~/` at its start replaced by the home directory, where there is one.
pub fn expand_path(path: &str, home: &Option<String>) -> (r: String)
    ensures
        r@ == expanded_path(
            path@,
            match home {
                Some(h) => Some(h@),
                None => None,
            },
        ),
{
    match home {
        Some(h) => {
            let chars = chars_of(path);
            if chars.len() >= 2 && chars[0] == '~' && chars[1] == '/' {
                let rest = text_between(&chars, 2, chars.len());
                assert(rest@ =~= path@.skip(2));
                join_path(h.as_str(), rest.as_str())
            } else {
                path.to_owned()
            }
        },
        None => path.to_owned(),
    }
}

/// The database that is generated for a raw binary: its path with `.i64` behind it.
pub open spec fn generated_database(raw: Seq<char>) -> Seq<char> {
    raw + ".i64"@
}

/// The database that is generated for a raw binary.
pub fn idb_path_for_raw_binary(path: &str) -> (r: String)
    ensures
        r@ == generated_database(path@),
{
    let mut out = path.to_owned();
    out.push_str(".i64");
    out
}

/// Whether a lower-case extension is one of a packed database.
pub open spec fn is_packed_extension(ext: Seq<char>) -> bool {
    ext == "i64"@ || ext == "idb"@
}

/// Whether a lower-case extension is one of a database, packed or not.
pub open spec fn is_database_extension(ext: Seq<char>) -> bool {
    is_packed_extension(ext) || ext == "id0"@
}

/// Whether a path names a database: whether its extension, in any letter case, is one.
pub open spec fn names_database(p: Seq<char>) -> bool {
    match extension_of(p) {
        Some(ext) => is_database_extension(lowered(ext)),
        None => false,
    }
}

/// The lower-case extension of a path, if it is one of a database.
fn database_extension(p: &str) -> (r: Option<String>)
    ensures
        r is Some <==> names_database(p@),
        r matches Some(ext) ==> extension_of(p@) is Some && ext@ == lowered(extension_of(p@)->0),
{
    match extension(p) {
        Some(ext) => {
            let low = crate::text::ascii_lowercase(ext.as_str());
            if same(low.as_str(), "i64") || same(low.as_str(), "idb") || same(low.as_str(), "id0") {
                Some(low)
            } else {
                None
            }
        },
        None => None,
    }
}

/// True when the path names an existing IDA database rather than a raw binary.
pub fn is_idb_path(path: &str) -> (r: bool)
    ensures
        r == names_database(path@),
{
    database_extension(path).is_some()
}

/// Whether the extension of a path is one of a database.
pub fn has_ida_database_extension(path: &str) -> (r: bool)
    ensures
        r == names_database(path@),
{
    database_extension(path).is_some()
}

/// Where a load writes its database: nowhere for a database, else to the given path or to the
/// generated one.
pub open spec fn database_output(
    path: Seq<char>,
    idb_out: Option<Seq<char>>,
    home: Option<Seq<char>>,
) -> Option<Seq<char>> {
    if names_database(path) {
        None
    } else {
        match idb_out {
            Some(out) => Some(expanded_path(out, home)),
            None => Some(generated_database(path)),
        }
    }
}

/// Effective IDB output path for a load: `None` for existing-IDB inputs,
/// otherwise the explicit output or `<file>.i64` next to the input.
pub fn effective_idb_out(path: &str, idb_out: &Option<String>, home: &Option<String>) -> (r: Option<
    String,
>)
    ensures
        crate::text::opt_view(r) == database_output(
            path@,
            crate::text::opt_view(*idb_out),
            crate::text::opt_view(*home),
        ),
{
    if is_idb_path(path) {
        return None;
    }
    match idb_out {
        Some(out) => Some(expand_path(out.as_str(), home)),
        None => Some(idb_path_for_raw_binary(path)),
    }
}

/// The unpacked form of a packed database.
pub open spec fn unpacked_of(p: Seq<char>) -> Option<Seq<char>> {
    match extension_of(p) {
        Some(ext) => if is_packed_extension(lowered(ext)) {
            Some(with_extension_of(p, "id0"@))
        } else {
            None
        },
        None => None,
    }
}

/// The unpacked form of a packed database.
pub fn unpacked_id0_path(path: &str) -> (r: Option<String>)
    ensures
        crate::text::opt_view(r) == unpacked_of(path@),
{
    match database_extension(path) {
        Some(ext) => if same(ext.as_str(), "i64") || same(ext.as_str(), "idb") {
            Some(with_extension(path, "id0"))
        } else {
            None
        },
        None => None,
    }
}

/// Whether a database is the one that is generated for a raw binary.
pub open spec fn is_generated_for(raw: Seq<char>, database: Seq<char>) -> bool {
    !names_database(raw) && same_path(generated_database(raw), database)
}

/// Whether a database is the one that is generated for a raw binary.
pub fn raw_input_matches_generated_database(raw: &str, database: &str) -> (r: bool)
    ensures
        r == is_generated_for(raw@, database@),
{
    !has_ida_database_extension(raw) && paths_equal(
        idb_path_for_raw_binary(raw).as_str(),
        database,
    )
}

/// The input that a database was made from: its path without the extension of a database.
pub open spec fn base_input(p: Seq<char>) -> Seq<char> {
    if names_database(p) {
        with_extension_of(p, seq![])
    } else {
        p
    }
}

/// The input that a database was made from.
pub fn base_input_path_for_database(path: &str) -> (r: String)
    ensures
        r@ == base_input(path@),
{
    if has_ida_database_extension(path) {
        proof {
            reveal_strlit("");
            assert(""@ =~= seq![]);
        }
        with_extension(path, "")
    } else {
        path.to_owned()
    }
}

/// Whether two paths stand for one database: they are the same, or one is the unpacked form of the
/// other, or one is the raw binary that the other is generated for.
pub open spec fn one_database(a: Seq<char>, b: Seq<char>) -> bool {
    ||| same_path(a, b)
    ||| unpacked_of(a) is Some && same_path(unpacked_of(a)->0, b)
    ||| unpacked_of(b) is Some && same_path(unpacked_of(b)->0, a)
    ||| is_generated_for(a, b)
    ||| is_generated_for(b, a)
}

/// Whether two paths stand for one database.
pub fn database_paths_match(current: &str, requested: &str) -> (r: bool)
    ensures
        r == one_database(current@, requested@),
{
    if paths_equal(current, requested) {
        return true;
    }
    if let Some(id0) = unpacked_id0_path(current) {
        if paths_equal(id0.as_str(), requested) {
            return true;
        }
    }
    if let Some(id0) = unpacked_id0_path(requested) {
        if paths_equal(id0.as_str(), current) {
            return true;
        }
    }
    raw_input_matches_generated_database(requested, current)
        || raw_input_matches_generated_database(current, requested)
}

/// Standing for one database is reflexive and symmetric, and a raw binary stands for the database
/// that is generated for it.
pub proof fn lemma_one_database(a: Seq<char>, b: Seq<char>)
    ensures
        one_database(a, a),
        one_database(a, b) == one_database(b, a),
        !names_database(a) ==> one_database(a, generated_database(a)),
{
}

/// The generated database has the extension of a database, for every raw binary whose path does
/// not end in a separator; and the input that it was made from is the raw binary.
pub proof fn lemma_generated_is_database(raw: Seq<char>)
    requires
        raw.len() > 0,
        raw.last() != '/',
    ensures
        names_database(generated_database(raw)),
        base_input(generated_database(raw)) == raw,
{
    reveal_strlit(".i64");
    reveal_strlit("i64");
    let p = generated_database(raw);
    let n = raw.len() as int;
    assert(p.last() == '4');
    assert(path_body(p) == p);
    lemma_last_start(p);
    let start = last_start(p);
    assert(p[n] == '.' && p[n - 1] != '/');
    if start > n - 1 {
        assert(p[start - 1] == '/');
        assert(start - 1 < n ==> p[start - 1] == raw[start - 1]);
    }
    let name = last_part(p);
    assert(name =~= p.skip(start));
    assert(name.len() >= 5);
    lemma_last_dot(name);
    assert(name[n - start] == '.');
    assert(name[n - start + 1] == 'i' && name[n - start + 2] == '6' && name[n - start + 3] == '4');
    assert(last_dot(name) == n - start);
    assert(name.skip(stem_end(name) + 1) =~= "i64"@);
    assert(lowered("i64"@) =~= "i64"@);
    assert(p.take(n) =~= raw);
}

/// The canonical form of a path: the form that the file system gives, else the canonical form of
/// its directory with its name attached, else the path as it is.
pub open spec fn lenient(
    path: Seq<char>,
    canonical: Option<Seq<char>>,
    canonical_parent: Option<Seq<char>>,
) -> Seq<char> {
    match canonical {
        Some(c) => c,
        None => match (parent_of(path), file_name_of(path), canonical_parent) {
            (Some(_), Some(name), Some(dir)) => join_of(dir, name),
            _ => path,
        },
    }
}

/// Canonicalize a path even if it does not exist yet: resolve the parent
/// directory and re-attach the file name. `canonical` and `canonical_parent` are what the file
/// system gives for the path and for its parent.
pub fn canonicalize_lenient(
    path: &str,
    canonical: &Option<String>,
    canonical_parent: &Option<String>,
) -> (r: String)
    ensures
        r@ == lenient(path@, opt_view(*canonical), opt_view(*canonical_parent)),
{
    if let Some(c) = canonical {
        return c.clone();
    }
    if let (Some(_), Some(name)) = (parent(path), file_name(path)) {
        if let Some(dir) = canonical_parent {
            return join_path(dir.as_str(), name.as_str());
        }
    }
    path.to_owned()
}

// ---------------------------------------------------------------------------
// What the parts of a path are
// ---------------------------------------------------------------------------

/// A path without empty parts and without parts that name the directory they
/// stand in: `/a/b`, `a/../b`, not `/a//b`, `/a/`, `a/./b`.
pub open spec fn is_plain(p: Seq<char>) -> bool {
    forall|i: int|
        0 <= i < pieces(p, '/').len() ==> {
            let part = #[trigger] pieces(p, '/')[i];
            i == 0 && p.len() > 0 && p[0] == '/' || part.len() > 0 && part != seq!['.']
        }
}

proof fn lemma_plain_parts(p: Seq<char>)
    requires
        is_plain(p),
    ensures
        is_absolute(p) ==> pieces(p, '/') == seq![Seq::<char>::empty()] + components(p),
        !is_absolute(p) ==> pieces(p, '/') == components(p),
{
    let keep = |part: Seq<char>| part.len() > 0 && part != seq!['.'];
    let all = pieces(p, '/');
    if is_absolute(p) {
        let rest = all.drop_first();
        assert(p =~= Seq::<char>::empty() + seq!['/'] + p.skip(1));
        lemma_pieces_of_two(Seq::empty(), p.skip(1), '/');
        assert(all[0].len() == 0);
        assert(all =~= seq![all[0]] + rest);
        assert forall|i: int| 0 <= i < rest.len() implies keep(#[trigger] rest[i]) by {
            assert(rest[i] == all[i + 1]);
        }
        lemma_all_parts_kept(rest, keep);
        Seq::filter_distributes_over_add(seq![all[0]], rest, keep);
        assert(seq![all[0]].filter(keep) =~= Seq::empty()) by {
            reveal(Seq::filter);
            reveal_with_fuel(Seq::filter, 3);
            assert(seq![all[0]].drop_last() =~= Seq::<Seq<char>>::empty());
        }
        assert(all[0] =~= Seq::<char>::empty());
        assert(components(p) =~= rest);
    } else {
        lemma_all_parts_kept(all, keep);
    }
}

proof fn lemma_all_parts_kept(s: Seq<Seq<char>>, keep: spec_fn(Seq<char>) -> bool)
    requires
        forall|i: int| 0 <= i < s.len() ==> keep(#[trigger] s[i]),
    ensures
        s.filter(keep) == s,
    decreases s.len(),
{
    reveal(Seq::filter);
    if s.len() > 0 {
        lemma_all_parts_kept(s.drop_last(), keep);
        assert(s.drop_last().push(s.last()) =~= s);
    }
}

/// Two plain paths name the same place only where they are the same text: two
/// files in one directory are two places, and so are two directories.
pub proof fn lemma_plain_paths_differ(a: Seq<char>, b: Seq<char>)
    requires
        is_plain(a),
        is_plain(b),
    ensures
        same_path(a, b) <==> a == b,
{
    if same_path(a, b) {
        lemma_plain_parts(a);
        lemma_plain_parts(b);
        lemma_split_join(a, '/');
        lemma_split_join(b, '/');
    }
}

proof fn lemma_components_of_two(a: Seq<char>, b: Seq<char>)
    ensures
        components(a + seq!['/'] + b) == components(a) + components(b),
{
    let keep = |part: Seq<char>| part.len() > 0 && part != seq!['.'];
    lemma_pieces_of_two(a, b, '/');
    Seq::filter_distributes_over_add(pieces(a, '/'), pieces(b, '/'), keep);
}

proof fn lemma_no_components()
    ensures
        components(Seq::empty()) == Seq::<Seq<char>>::empty(),
        components(seq!['.']) == Seq::<Seq<char>>::empty(),
{
    let none = Seq::<char>::empty();
    let dot = seq!['.'];
    lemma_pieces_of_two(none, none, '/');
    lemma_pieces_of_two(dot, none, '/');
    reveal_with_fuel(Seq::filter, 3);
    assert(seq![none].drop_last() =~= Seq::<Seq<char>>::empty());
    assert(seq![dot].drop_last() =~= Seq::<Seq<char>>::empty());
}

/// A slash more, at the end or between two parts, and a part that names the
/// directory it stands in, do not change what a path names.
#[verifier::rlimit(50)]
pub proof fn lemma_slashes_do_not_count(a: Seq<char>, b: Seq<char>)
    ensures
        a.len() > 0 ==> same_path(a + seq!['/'], a),
        a.len() > 0 ==> same_path(a + seq!['/', '.'], a),
        same_path(a + seq!['/', '/'] + b, a + seq!['/'] + b),
        same_path(a + seq!['/', '.', '/'] + b, a + seq!['/'] + b),
{
    lemma_trailing_slash(a);
    lemma_two_slashes(a, b);
    lemma_dot_between(a, b);
}

proof fn lemma_two_slashes(a: Seq<char>, b: Seq<char>)
    ensures
        same_path(a + seq!['/', '/'] + b, a + seq!['/'] + b),
{
    let c = a + seq!['/'];
    let long = a + seq!['/', '/'] + b;
    let short = a + seq!['/'] + b;
    assert(components(long) == components(short)) by {
        lemma_components_of_two(a, b);
        lemma_components_of_two(c, b);
        assert(c + seq!['/'] + b =~= long);
        lemma_components_of_two(a, Seq::empty());
        lemma_no_components();
        assert(a + seq!['/'] + Seq::empty() =~= c);
        assert(components(a) + Seq::<Seq<char>>::empty() =~= components(a));
    }
    assert(long[0] == short[0]);
    assert(a.len() > 0 ==> long[1] == short[1]);
    assert(a.len() == 0 ==> long[0] == '/' && short[0] == '/');
}

proof fn lemma_dot_between(a: Seq<char>, b: Seq<char>)
    ensures
        same_path(a + seq!['/', '.', '/'] + b, a + seq!['/'] + b),
{
    let c = a + seq!['/', '.'];
    let long = a + seq!['/', '.', '/'] + b;
    let short = a + seq!['/'] + b;
    assert(components(long) == components(short)) by {
        lemma_components_of_two(a, b);
        lemma_components_of_two(c, b);
        assert(c + seq!['/'] + b =~= long);
        lemma_components_of_two(a, seq!['.']);
        lemma_no_components();
        assert(a + seq!['/'] + seq!['.'] =~= c);
        assert(components(a) + Seq::<Seq<char>>::empty() =~= components(a));
    }
    assert(long[0] == short[0]);
    assert(a.len() > 0 ==> long[1] == short[1]);
    assert(a.len() == 0 ==> long[0] == '/' && short[0] == '/');
}

proof fn lemma_trailing_slash(a: Seq<char>)
    ensures
        a.len() > 0 ==> same_path(a + seq!['/'], a),
        a.len() > 0 ==> same_path(a + seq!['/', '.'], a),
{
    lemma_no_components();
    lemma_components_of_two(a, Seq::empty());
    assert(a + seq!['/'] + Seq::empty() =~= a + seq!['/']);
    lemma_components_of_two(a, seq!['.']);
    assert(a + seq!['/'] + seq!['.'] =~= a + seq!['/', '.']);
}

/// A place in the directory `front` (nothing, or a text that ends in a slash)
/// under the name `stem`, a dot and `ext`.
#[verifier::rlimit(50)]
proof fn lemma_named_path(front: Seq<char>, stem: Seq<char>, ext: Seq<char>)
    requires
        front.len() > 0 ==> front.last() == '/',
        stem.len() > 0 && !stem.contains('/'),
        ext.len() > 0 && !ext.contains('/') && !ext.contains('.'),
    ensures
        ({
            let p = front + stem + seq!['.'] + ext;
            &&& path_body(p) == p
            &&& last_start(p) == front.len()
            &&& last_part(p) == stem + seq!['.'] + ext
            &&& is_name(last_part(p))
            &&& stem_end(last_part(p)) == stem.len()
        }),
{
    let name = stem + seq!['.'] + ext;
    let p = front + stem + seq!['.'] + ext;
    let n = front.len() as int;
    assert(p =~= front + name);
    assert(p.last() == ext.last());
    assert(ext.contains(ext.last()));
    assert(p.last() != '/' && p.last() != '.');
    lemma_last_start(p);
    let at = last_start(p);
    if at < n {
        assert(p[n - 1] == '/');
    }
    if at > n {
        let j = at - 1 - n;
        assert(p[at - 1] == name[j]);
        if j < stem.len() {
            assert(name[j] == stem[j]);
        } else if j > stem.len() {
            assert(name[j] == ext[j - stem.len() - 1]);
        }
    }
    assert(p.skip(n) =~= name);
    lemma_last_dot(name);
    let d = last_dot(name);
    assert(name[stem.len() as int] == '.');
    if d > stem.len() && d < name.len() {
        assert(name[d] == ext[d - stem.len() - 1]);
    }
    assert(name.len() >= 3);
}

/// A name that ends in a dot and an extension has that extension, whatever the
/// directory; another extension takes its place and leaves the rest as it was;
/// with none the dot goes too.
#[verifier::rlimit(50)]
pub proof fn lemma_extension(front: Seq<char>, stem: Seq<char>, ext: Seq<char>, other: Seq<char>)
    requires
        front.len() > 0 ==> front.last() == '/',
        stem.len() > 0 && !stem.contains('/'),
        ext.len() > 0 && !ext.contains('/') && !ext.contains('.'),
        other.len() > 0,
    ensures
        file_name_of(front + stem + seq!['.'] + ext) == Some(stem + seq!['.'] + ext),
        extension_of(front + stem + seq!['.'] + ext) == Some(ext),
        with_extension_of(front + stem + seq!['.'] + ext, other) == front + stem + seq!['.'] + other,
        with_extension_of(front + stem + seq!['.'] + ext, Seq::empty()) == front + stem,
{
    let p = front + stem + seq!['.'] + ext;
    let name = stem + seq!['.'] + ext;
    lemma_named_path(front, stem, ext);
    assert(file_name_of(p) == Some(name));
    assert(name.skip(stem.len() as int + 1) =~= ext);
    assert(name_extension(name) == Some(ext));
    let at = last_start(path_body(p)) + stem_end(name);
    assert(at == front.len() + stem.len());
    assert(path_body(p).take(at) =~= front + stem);
}

/// A name without a dot, or with none but one in front, has no extension.
pub proof fn lemma_no_extension(front: Seq<char>, name: Seq<char>)
    requires
        front.len() > 0 ==> front.last() == '/',
        is_name(name),
        !name.contains('/'),
        forall|i: int| 0 < i < name.len() ==> name[i] != '.',
    ensures
        extension_of(front + name) is None,
        !names_database(front + name),
        base_input(front + name) == front + name,
        unpacked_of(front + name) is None,
{
    let p = front + name;
    let n = front.len() as int;
    assert(p.last() == name.last());
    assert(name.contains(name.last()));
    if p.last() == '.' {
        assert(name.last() == name[name.len() - 1]);
        assert(name.len() == 1);
        assert(name =~= seq!['.']);
    }
    assert(path_body(p) == p);
    lemma_last_start(p);
    let at = last_start(p);
    if at < n {
        assert(p[n - 1] == '/');
    }
    if at > n {
        assert(p[at - 1] == name[at - 1 - n]);
    }
    assert(p.skip(n) =~= name);
    lemma_last_dot(name);
    let d = last_dot(name);
    if d > 0 && d < name.len() {
        assert(name[d] == '.');
    }
}

/// A path names a database where its extension is `i64`, `idb` or `id0` in
/// capital or small letters, and only there. The first two are packed: what
/// they hold unpacked stands beside them with the extension `id0`.
#[verifier::rlimit(50)]
pub proof fn lemma_database_names(front: Seq<char>, stem: Seq<char>, ext: Seq<char>)
    requires
        front.len() > 0 ==> front.last() == '/',
        stem.len() > 0 && !stem.contains('/'),
        ext.len() > 0 && !ext.contains('/') && !ext.contains('.'),
    ensures
        ({
            let p = front + stem + seq!['.'] + ext;
            let packed = lowered(ext) == seq!['i', '6', '4'] || lowered(ext) == seq!['i', 'd', 'b'];
            let database = packed || lowered(ext) == seq!['i', 'd', '0'];
            &&& names_database(p) <==> database
            &&& base_input(p) == (if database { front + stem } else { p })
            &&& unpacked_of(p) == (if packed {
                Some(front + stem + seq!['.', 'i', 'd', '0'])
            } else {
                None
            })
        }),
{
    reveal_strlit("i64");
    reveal_strlit("idb");
    reveal_strlit("id0");
    assert("i64"@ =~= seq!['i', '6', '4']);
    assert("idb"@ =~= seq!['i', 'd', 'b']);
    assert("id0"@ =~= seq!['i', 'd', '0']);
    lemma_extension(front, stem, ext, "id0"@);
    assert(front + stem + seq!['.'] + "id0"@ =~= front + stem + seq!['.', 'i', 'd', '0']);
}

/// A name joined to a directory is in that directory: the directory is the
/// parent, and the name the file name.
pub proof fn lemma_parent_of_joined(dir: Seq<char>, name: Seq<char>)
    requires
        dir.len() > 0,
        dir.last() != '/',
        !(dir.len() >= 2 && dir.last() == '.' && dir[dir.len() - 2] == '/'),
        is_name(name),
        !name.contains('/'),
    ensures
        join_of(dir, name) == dir + seq!['/'] + name,
        parent_of(join_of(dir, name)) == Some(dir),
        file_name_of(join_of(dir, name)) == Some(name),
{
    lemma_join_names(dir, name);
    let p = dir + seq!['/'] + name;
    let n = dir.len() as int + 1;
    assert(name.contains(name[0]));
    assert(join_of(dir, name) == p);
    assert(p.last() == name.last());
    assert(name.contains(name.last()));
    if p.last() == '.' && p[p.len() - 2] == '/' {
        if name.len() >= 2 {
            assert(p[p.len() - 2] == name[name.len() - 2]);
        } else {
            assert(name =~= seq!['.']);
        }
    }
    assert(path_body(p) == p);
    lemma_last_start(p);
    let at = last_start(p);
    assert(p[n - 1] == '/');
    if at > n {
        assert(p[at - 1] == name[at - 1 - n]);
    }
    assert(at == n);
    assert(p.take(n) =~= dir.push('/'));
    assert(dir.push('/').drop_last() =~= dir);
    assert(path_body(dir) == dir);
    assert(path_body(dir.push('/')) == dir);
}

/// A path that starts with `~/` starts in the home directory, where there is
/// one; no other path changes, not even one that starts with a `~` alone.
pub proof fn lemma_home(rest: Seq<char>, home: Seq<char>, path: Seq<char>, any: Option<Seq<char>>)
    requires
        home.len() > 0,
        home.last() != '/',
        rest.len() > 0 ==> rest[0] != '/',
        !(path.len() >= 2 && path[0] == '~' && path[1] == '/'),
    ensures
        expanded_path(seq!['~', '/'] + rest, Some(home)) == home + seq!['/'] + rest,
        expanded_path(path, any) == path,
        expanded_path(seq!['~', '/'] + rest, None) == seq!['~', '/'] + rest,
{
    assert((seq!['~', '/'] + rest).skip(2) =~= rest);
}

/// A path that is absolute stands for itself wherever it is joined.
pub proof fn lemma_join_absolute(p: Seq<char>, q: Seq<char>)
    requires
        q.len() > 0,
        q[0] == '/',
    ensures
        join_of(p, q) == q,
{
}

/// The database of an input stands where the caller asks for it, else beside
/// the input, under the input's name and `.i64`; a database has no other.
pub proof fn lemma_database_place(path: Seq<char>, out: Seq<char>, home: Option<Seq<char>>)
    requires
        !names_database(path),
        !(out.len() >= 2 && out[0] == '~' && out[1] == '/'),
    ensures
        database_output(path, None, home) == Some(path + seq!['.', 'i', '6', '4']),
        database_output(path, Some(out), home) == Some(out),
        database_output(path + seq!['.', 'i', '6', '4'], Some(out), home) is Some ==> path.len() == 0
            || path.last() == '/',
{
    reveal_strlit(".i64");
    assert(".i64"@ =~= seq!['.', 'i', '6', '4']);
    if path.len() > 0 && path.last() != '/' {
        lemma_generated_is_database(path);
    }
}

/// Two inputs that are no databases are one database only where they are one
/// path, but for a path that is the other's generated database.
pub proof fn lemma_inputs_are_two_databases(a: Seq<char>, b: Seq<char>)
    requires
        is_plain(a) && is_plain(b),
        !names_database(a) && !names_database(b),
        a.len() > 0 && a.last() != '/',
        b.len() > 0 && b.last() != '/',
        is_plain(generated_database(a)) && is_plain(generated_database(b)),
    ensures
        one_database(a, b) <==> a == b,
{
    lemma_plain_paths_differ(a, b);
    lemma_plain_paths_differ(generated_database(a), b);
    lemma_plain_paths_differ(generated_database(b), a);
    lemma_generated_is_database(a);
    lemma_generated_is_database(b);
    assert(unpacked_of(a) is None) by {
        if unpacked_of(a) is Some {
            assert(is_database_extension(lowered(extension_of(a)->0)));
        }
    }
    assert(unpacked_of(b) is None) by {
        if unpacked_of(b) is Some {
            assert(is_database_extension(lowered(extension_of(b)->0)));
        }
    }
}

/// A path that resolves is what it resolves to. One that does not, because the
/// file is not there yet, keeps its name in the directory that its parent
/// resolves to; one whose parent does not resolve either stays as it is.
pub proof fn lemma_lenient_paths(
    dir: Seq<char>,
    name: Seq<char>,
    canonical: Seq<char>,
    parent: Seq<char>,
)
    requires
        dir.len() > 0,
        dir.last() != '/',
        !(dir.len() >= 2 && dir.last() == '.' && dir[dir.len() - 2] == '/'),
        is_name(name),
        !name.contains('/'),
        parent.len() > 0,
        parent.last() != '/',
    ensures
        lenient(dir + seq!['/'] + name, Some(canonical), Some(parent)) == canonical,
        lenient(dir + seq!['/'] + name, Some(canonical), None) == canonical,
        lenient(dir + seq!['/'] + name, None, Some(parent)) == parent + seq!['/'] + name,
        lenient(dir + seq!['/'] + name, None, None) == dir + seq!['/'] + name,
{
    lemma_parent_of_joined(dir, name);
    assert(name.contains(name[0]));
}

/// An absolute path and a relative one are two places, and so are a path and the
/// same path behind `./`.
pub proof fn lemma_starts_count(p: Seq<char>)
    requires
        p.len() > 0,
        p[0] != '/',
        !(p[0] == '.' && (p.len() == 1 || p[1] == '/')),
    ensures
        !same_path(seq!['/'] + p, p),
        !same_path(seq!['.', '/'] + p, p),
{
    assert((seq!['/'] + p)[0] == '/');
    assert((seq!['.', '/'] + p)[0] == '.' && (seq!['.', '/'] + p)[1] == '/');
}

/// A slash at the end does not change the name; two dots at the end have none.
pub proof fn lemma_names_at_the_end(p: Seq<char>)
    ensures
        file_name_of(p + seq!['/']) == file_name_of(p),
        extension_of(p + seq!['/']) == extension_of(p),
        parent_of(p + seq!['/']) == parent_of(p),
        file_name_of(p + seq!['/', '.', '.']) is None,
        parent_of(Seq::empty()) is None,
        parent_of(seq!['/']) is None,
{
    assert((p + seq!['/']).drop_last() =~= p);
    assert(path_body(p + seq!['/']) == path_body(p));
    let q = p + seq!['/', '.', '.'];
    assert(q.last() == '.' && q[q.len() - 2] == '.');
    assert(path_body(q) == q);
    lemma_last_start(q);
    let at = last_start(q);
    let n = p.len() as int;
    assert(q[n] == '/' && q[n + 1] == '.' && q[n + 2] == '.');
    assert(at == n + 1);
    assert(q.skip(at) =~= seq!['.', '.']);
    assert(seq!['/'].drop_last() =~= Seq::<char>::empty());
    assert(path_body(Seq::empty()) == Seq::<char>::empty());
    assert(path_body(seq!['/']) == Seq::<char>::empty());
}

/// A name without an extension gets the one that it is given behind a dot.
pub proof fn lemma_extension_is_added(front: Seq<char>, name: Seq<char>, ext: Seq<char>)
    requires
        front.len() > 0 ==> front.last() == '/',
        name.len() > 0,
        !name.contains('/'),
        !name.contains('.'),
        ext.len() > 0,
    ensures
        with_extension_of(front + name, ext) == front + name + seq!['.'] + ext,
{
    let p = front + name;
    let n = front.len() as int;
    assert(p.last() == name.last());
    assert(name.contains(name.last()));
    assert(path_body(p) == p);
    lemma_last_start(p);
    let at = last_start(p);
    if at < n {
        assert(p[n - 1] == '/');
    }
    if at > n {
        assert(p[at - 1] == name[at - 1 - n]);
    }
    assert(p.skip(n) =~= name);
    assert(name.contains(name[0]));
    assert(is_name(name));
    lemma_last_dot(name);
    let d = last_dot(name);
    if d < name.len() {
        assert(name.contains(name[d]));
    }
    assert(p.take(p.len() as int) =~= p);
}

} // verus!
