//! The loaded targets: how they are named, chosen, added and closed.

use crate::json::{
    no_fields, number_v, text_v, FieldsV, Json, JsonObject, JsonV, NumV,
};
use crate::numbers::{decimal, decimal_text, lemma_parse_written, parse_digits, parsed};
use crate::paths::{is_plain, lemma_plain_paths_differ, paths_equal, same_path};
use crate::text::{chars_of, contains, occurs, opt_view, same, text_between, views};
use vstd::prelude::*;

verus! {

/// Information about a loaded target.
#[derive(Debug)]
pub struct TargetInfo {
    pub id: String,
    pub path: String,
    pub filename: String,
    pub file_type: String,
    pub processor: String,
    pub bits: u32,
    pub function_count: usize,
}

/// What a [`TargetInfo`] is.
pub struct TargetInfoV {
    pub id: Seq<char>,
    pub path: Seq<char>,
    pub filename: Seq<char>,
    pub file_type: Seq<char>,
    pub processor: Seq<char>,
    pub bits: u32,
    pub function_count: usize,
}

impl View for TargetInfo {
    type V = TargetInfoV;

    open spec fn view(&self) -> TargetInfoV {
        TargetInfoV {
            id: self.id@,
            path: self.path@,
            filename: self.filename@,
            file_type: self.file_type@,
            processor: self.processor@,
            bits: self.bits,
            function_count: self.function_count,
        }
    }
}

/// The fields of a target in JSON.
pub open spec fn info_fields(t: TargetInfoV) -> FieldsV {
    no_fields().insert("id"@, text_v(t.id)).insert("path"@, text_v(t.path)).insert(
        "filename"@,
        text_v(t.filename),
    ).insert("file_type"@, text_v(t.file_type)).insert("processor"@, text_v(t.processor)).insert(
        "bits"@,
        number_v(t.bits as nat),
    ).insert("function_count"@, number_v(t.function_count as nat))
}

impl TargetInfo {
    /// A copy of the information.
    pub fn copy(&self) -> (r: TargetInfo)
        ensures
            r@ == self@,
    {
        TargetInfo {
            id: self.id.clone(),
            path: self.path.clone(),
            filename: self.filename.clone(),
            file_type: self.file_type.clone(),
            processor: self.processor.clone(),
            bits: self.bits,
            function_count: self.function_count,
        }
    }

    /// The information in JSON.
    pub fn to_json(&self) -> (r: Json)
        ensures
            r@ == JsonV::Obj(info_fields(self@)),
    {
        let mut o = JsonObject::new();
        o.put("id", Json::text(self.id.as_str()));
        o.put("path", Json::text(self.path.as_str()));
        o.put("filename", Json::text(self.filename.as_str()));
        o.put("file_type", Json::text(self.file_type.as_str()));
        o.put("processor", Json::text(self.processor.as_str()));
        o.put("bits", Json::number(self.bits as u64));
        o.put("function_count", Json::count(self.function_count));
        Json::Object(o)
    }
}

/// The word size of a database, in bits.
pub open spec fn word_bits(is_64bit: bool, is_32bit: bool) -> u32 {
    if is_64bit {
        64
    } else if is_32bit {
        32
    } else {
        16
    }
}

/// The word size of a database, in bits.
pub fn bits_of(is_64bit: bool, is_32bit: bool) -> (r: u32)
    ensures
        r == word_bits(is_64bit, is_32bit),
{
    if is_64bit {
        64
    } else if is_32bit {
        32
    } else {
        16
    }
}

// ---------------------------------------------------------------------------
// Target IDs
// ---------------------------------------------------------------------------

/// The ID of the target number `n`.
pub open spec fn id_of(n: nat) -> Seq<char> {
    seq!['t'] + decimal(n)
}

/// The number in a target ID, if it is one.
pub open spec fn id_number(id: Seq<char>) -> Option<u64> {
    if id.len() > 0 && id[0] == 't' {
        parsed(id.skip(1), 10)
    } else {
        None
    }
}

/// The number by which target IDs are ordered: an ID without a number comes last.
pub open spec fn id_rank(id: Seq<char>) -> u64 {
    match id_number(id) {
        Some(n) => n,
        None => u64::MAX,
    }
}

/// The number of a target is the number in its ID, so that different numbers give different IDs.
pub proof fn lemma_id_number(n: u64)
    ensures
        id_number(id_of(n as nat)) == Some(n),
        id_rank(id_of(n as nat)) == n,
{
    assert(id_of(n as nat).skip(1) =~= decimal(n as nat));
    lemma_parse_written(n, 10);
}

/// The number in a target ID, if it is one.
pub fn read_id(id: &str) -> (r: Option<u64>)
    ensures
        r == id_number(id@),
{
    let chars = chars_of(id);
    if chars.len() > 0 && chars[0] == 't' {
        let rest = text_between(&chars, 1, chars.len());
        assert(rest@ =~= id@.skip(1));
        parse_digits(rest.as_str(), 10)
    } else {
        None
    }
}

/// The number by which target IDs are ordered.
pub fn rank_number(id: &str) -> (r: u64)
    ensures
        r == id_rank(id@),
{
    match read_id(id) {
        Some(n) => n,
        None => u64::MAX,
    }
}

/// Whether `at` is the first of the IDs with the lowest number.
pub open spec fn is_lowest(ids: Seq<Seq<char>>, at: int) -> bool {
    &&& 0 <= at < ids.len()
    &&& forall|j: int| 0 <= j < ids.len() ==> id_rank(ids[at]) <= id_rank(#[trigger] ids[j])
    &&& forall|j: int| 0 <= j < at ==> id_rank(ids[at]) < id_rank(#[trigger] ids[j])
}

/// Lowest-numbered "t<N>" among `ids` (deterministic active fallback).
pub fn lowest_target_id(ids: &Vec<String>) -> (r: Option<String>)
    ensures
        r is None <==> ids.len() == 0,
        r matches Some(id) ==> exists|at: int|
            #[trigger] is_lowest(views(ids@), at) && id@ == views(ids@)[at],
{
    if ids.len() == 0 {
        return None;
    }
    let mut best: usize = 0;
    let mut i: usize = 1;
    while i < ids.len()
        invariant
            1 <= i <= ids.len(),
            best < i,
            forall|j: int| 0 <= j < i ==> id_rank(ids[best as int]@) <= id_rank(#[trigger] ids[j]@),
            forall|j: int| 0 <= j < best ==> id_rank(ids[best as int]@) < id_rank(#[trigger] ids[j]@),
        decreases ids.len() - i,
    {
        if rank_number(ids[i].as_str()) < rank_number(ids[best].as_str()) {
            best = i;
        }
        i = i + 1;
    }
    assert(is_lowest(views(ids@), best as int)) by {
        let v = views(ids@);
        assert forall|j: int| 0 <= j < v.len() implies id_rank(v[best as int]) <= id_rank(
            #[trigger] v[j],
        ) by {
            assert(v[j] == ids[j]@);
        }
        assert forall|j: int| 0 <= j < best implies id_rank(v[best as int]) < id_rank(
            #[trigger] v[j],
        ) by {
            assert(v[j] == ids[j]@);
        }
    }
    Some(ids[best].clone())
}

// ---------------------------------------------------------------------------
// Selectors
// ---------------------------------------------------------------------------

/// A loaded target as a selector sees it: its ID, its file name and its path.
pub type EntryV = (Seq<char>, Seq<char>, Seq<char>);

/// Whether the file name or the path of a target holds a text.
pub open spec fn is_hit(e: EntryV, sel: Seq<char>) -> bool {
    occurs(e.1, sel) || occurs(e.2, sel)
}

/// The targets whose file name or path holds a text.
pub open spec fn hits(entries: Seq<EntryV>, sel: Seq<char>) -> Seq<EntryV> {
    entries.filter(|e: EntryV| is_hit(e, sel))
}

/// Whether a target has an ID.
pub open spec fn has_id(entries: Seq<EntryV>, id: Seq<char>) -> bool {
    exists|i: int| 0 <= i < entries.len() && (#[trigger] entries[i]).0 == id
}

/// Whether a selector stands for the active target.
pub open spec fn selects_active(selector: Option<Seq<char>>) -> bool {
    match selector {
        None => true,
        Some(s) => s == "active"@ || s.len() == 0,
    }
}

/// The target that a selector stands for: the active one; else the one with that ID; else the only
/// one whose file name or path holds the text.
pub open spec fn resolved(
    selector: Option<Seq<char>>,
    active: Option<Seq<char>>,
    entries: Seq<EntryV>,
) -> Result<Seq<char>, Seq<char>> {
    if entries.len() == 0 {
        Err("No targets loaded. Use 'target load -f <path>' first."@)
    } else if selects_active(selector) {
        match active {
            Some(id) => Ok(id),
            None => Err("No active target"@),
        }
    } else {
        let sel = selector->0;
        let found = hits(entries, sel);
        if has_id(entries, sel) {
            Ok(sel)
        } else if found.len() == 0 {
            Err("No target matching '"@ + sel + "'"@)
        } else if found.len() == 1 {
            Ok(found[0].0)
        } else {
            Err(
                "Ambiguous selector '"@ + sel + "': matches "@ + decimal(found.len())
                    + " targets"@,
            )
        }
    }
}

/// The targets of a list as a selector sees them.
pub open spec fn entry_views(list: Seq<(String, String, String)>) -> Seq<EntryV> {
    list.map_values(|e: (String, String, String)| (e.0@, e.1@, e.2@))
}

/// The target that a selector stands for, among `(id, filename, path)` entries.
pub fn resolve_selector(
    selector: Option<&str>,
    active: Option<&str>,
    entries: &Vec<(String, String, String)>,
) -> (r: Result<String, String>)
    ensures
        ({
            let sel = match selector {
                Some(s) => Some(s@),
                None => None,
            };
            let act = match active {
                Some(s) => Some(s@),
                None => None,
            };
            match r {
                Ok(id) => resolved(sel, act, entry_views(entries@)) == Ok::<Seq<char>, Seq<char>>(
                    id@,
                ),
                Err(e) => resolved(sel, act, entry_views(entries@)) == Err::<Seq<char>, Seq<char>>(
                    e@,
                ),
            }
        }),
{
    if entries.len() == 0 {
        return Err("No targets loaded. Use 'target load -f <path>' first.".to_owned());
    }
    let ghost all = entry_views(entries@);
    let wants_active: bool = match selector {
        None => true,
        Some(s) => same(s, "active") || s.is_empty(),
    };
    if wants_active {
        return match active {
            Some(id) => Ok(id.to_owned()),
            None => Err("No active target".to_owned()),
        };
    }
    let sel: &str = match selector {
        Some(s) => s,
        None => "",
    };
    let mut i: usize = 0;
    while i < entries.len()
        invariant
            i <= entries.len(),
            all == entry_views(entries@),
            forall|j: int| 0 <= j < i ==> (#[trigger] all[j]).0 != sel@,
            selector == Some(sel),
            entries.len() > 0,
            !selects_active(Some(sel@)),
        decreases entries.len() - i,
    {
        if same(entries[i].0.as_str(), sel) {
            assert(all[i as int].0 == sel@);
            return Ok(sel.to_owned());
        }
        i = i + 1;
    }
    assert(!has_id(all, sel@));
    let ghost keep = |e: EntryV| is_hit(e, sel@);
    let mut count: usize = 0;
    let mut first: usize = 0;
    let mut i: usize = 0;
    assert(all.take(0).filter(keep) =~= seq![]) by {
        reveal(Seq::filter);
    }
    while i < entries.len()
        invariant
            i <= entries.len(),
            count <= i,
            all == entry_views(entries@),
            keep == (|e: EntryV| is_hit(e, sel@)),
            all.take(i as int).filter(keep).len() == count,
            count > 0 ==> first < entries.len() && all.take(i as int).filter(keep)[0]
                == all[first as int],
        decreases entries.len() - i,
    {
        proof {
            let next = all.take(i + 1);
            assert(next.drop_last() =~= all.take(i as int));
            assert(next.last() == all[i as int]);
            reveal(Seq::filter);
        }
        if contains(entries[i].1.as_str(), sel) || contains(entries[i].2.as_str(), sel) {
            if count == 0 {
                first = i;
            }
            count = count + 1;
        }
        i = i + 1;
    }
    assert(all.take(entries.len() as int) =~= all);
    if count == 0 {
        let mut e = "No target matching '".to_owned();
        e.push_str(sel);
        e.push_str("'");
        Err(e)
    } else if count == 1 {
        Ok(entries[first].0.clone())
    } else {
        let mut e = "Ambiguous selector '".to_owned();
        e.push_str(sel);
        e.push_str("': matches ");
        e.push_str(decimal_text(count as u64).as_str());
        e.push_str(" targets");
        Err(e)
    }
}

/// A selector that is the ID of a loaded target stands for that target, whatever the names and
/// paths of the targets are.
pub proof fn lemma_exact_id_wins(sel: Seq<char>, active: Option<Seq<char>>, entries: Seq<EntryV>)
    requires
        has_id(entries, sel),
        !selects_active(Some(sel)),
    ensures
        resolved(Some(sel), active, entries) == Ok::<Seq<char>, Seq<char>>(sel),
{
}

/// A selector only ever stands for a loaded target, given that the active target is loaded.
pub proof fn lemma_resolves_to_loaded(
    selector: Option<Seq<char>>,
    active: Option<Seq<char>>,
    entries: Seq<EntryV>,
)
    requires
        active is Some ==> has_id(entries, active->0),
    ensures
        resolved(selector, active, entries) matches Ok(id) ==> has_id(entries, id),
{
    if selector is Some {
        let sel = selector->0;
        let keep = |e: EntryV| is_hit(e, sel);
        let found = hits(entries, sel);
        if found.len() > 0 {
            lemma_filter_member(entries, keep, 0);
            let i = choose|i: int| 0 <= i < entries.len() && entries[i] == found[0];
            assert(entries[i].0 == found[0].0);
        }
    }
}

/// What a filter keeps was there before.
proof fn lemma_filter_member(s: Seq<EntryV>, keep: spec_fn(EntryV) -> bool, k: int)
    requires
        0 <= k < s.filter(keep).len(),
    ensures
        exists|i: int| 0 <= i < s.len() && s[i] == s.filter(keep)[k],
    decreases s.len(),
{
    reveal(Seq::filter);
    if s.len() > 0 {
        let front = s.drop_last().filter(keep);
        if k < front.len() {
            lemma_filter_member(s.drop_last(), keep, k);
            let i = choose|i: int| 0 <= i < s.drop_last().len() && s.drop_last()[i] == front[k];
            assert(s[i] == s.filter(keep)[k]);
        } else {
            assert(s[s.len() - 1] == s.filter(keep)[k]);
        }
    }
}

// ---------------------------------------------------------------------------
// Conflicts
// ---------------------------------------------------------------------------

/// How a load of `canon_path` into `db_identity` conflicts with a target, if it does.
pub open spec fn conflict_with(
    canon_path: Seq<char>,
    db_identity: Seq<char>,
    e: EntryV,
) -> Option<Seq<char>> {
    if same_path(e.1, canon_path) {
        Some("input already loaded as "@ + e.0)
    } else if same_path(e.2, db_identity) {
        Some("database "@ + db_identity + " is already in use by "@ + e.0)
    } else {
        None
    }
}

/// The first conflict of a load with the targets from position `from` on.
pub open spec fn conflict_from(
    canon_path: Seq<char>,
    db_identity: Seq<char>,
    existing: Seq<EntryV>,
    from: int,
) -> Option<Seq<char>>
    decreases existing.len() - from,
{
    if from < 0 || from >= existing.len() {
        None
    } else {
        match conflict_with(canon_path, db_identity, existing[from]) {
            Some(c) => Some(c),
            None => conflict_from(canon_path, db_identity, existing, from + 1),
        }
    }
}

/// Check a candidate load against existing `(id, canon_path, db_identity)` targets: the first
/// duplicate input path or clashing database identity.
pub fn find_load_conflict(
    canon_path: &str,
    db_identity: &str,
    existing: &Vec<(String, String, String)>,
) -> (r: Option<String>)
    ensures
        opt_view(r) == conflict_from(canon_path@, db_identity@, entry_views(existing@), 0),
{
    let ghost all = entry_views(existing@);
    let mut i: usize = 0;
    while i < existing.len()
        invariant
            i <= existing.len(),
            all == entry_views(existing@),
            conflict_from(canon_path@, db_identity@, all, 0) == conflict_from(
                canon_path@,
                db_identity@,
                all,
                i as int,
            ),
        decreases existing.len() - i,
    {
        assert(all[i as int] == (existing[i as int].0@, existing[i as int].1@, existing[i as int].2@));
        if paths_equal(existing[i].1.as_str(), canon_path) {
            let mut c = "input already loaded as ".to_owned();
            c.push_str(existing[i].0.as_str());
            return Some(c);
        }
        if paths_equal(existing[i].2.as_str(), db_identity) {
            let mut c = "database ".to_owned();
            c.push_str(db_identity);
            c.push_str(" is already in use by ");
            c.push_str(existing[i].0.as_str());
            return Some(c);
        }
        i = i + 1;
    }
    None
}

/// A load without a conflict shares neither its input nor its database with any target.
pub proof fn lemma_no_conflict(
    canon_path: Seq<char>,
    db_identity: Seq<char>,
    existing: Seq<EntryV>,
    from: int,
)
    requires
        0 <= from <= existing.len(),
        conflict_from(canon_path, db_identity, existing, from) is None,
    ensures
        forall|i: int|
            from <= i < existing.len() ==> !same_path((#[trigger] existing[i]).1, canon_path)
                && !same_path(existing[i].2, db_identity),
    decreases existing.len() - from,
{
    if from < existing.len() {
        lemma_no_conflict(canon_path, db_identity, existing, from + 1);
    }
}

/// How often an item is among those that are kept: as often as in all of them, if it is kept.
proof fn lemma_kept_count(all: Seq<EntryV>, keep: spec_fn(EntryV) -> bool, x: EntryV)
    ensures
        all.filter(keep).to_multiset().count(x) == (if keep(x) {
            all.to_multiset().count(x)
        } else {
            0
        }),
    decreases all.len(),
{
    broadcast use vstd::seq_lib::group_to_multiset_ensures;

    reveal(Seq::filter);
    if all.len() > 0 {
        lemma_kept_count(all.drop_last(), keep, x);
        assert(all.drop_last().push(all.last()) =~= all);
    } else {
        assert(all.filter(keep) =~= all);
    }
}

/// Whether a target has an ID does not depend on the order of the targets.
proof fn lemma_has_id_anywhere(a: Seq<EntryV>, b: Seq<EntryV>, id: Seq<char>)
    requires
        a.to_multiset() == b.to_multiset(),
        has_id(a, id),
    ensures
        has_id(b, id),
{
    broadcast use vstd::seq_lib::group_to_multiset_ensures;

    let i = choose|i: int| 0 <= i < a.len() && (#[trigger] a[i]).0 == id;
    assert(a.contains(a[i]));
    assert(b.to_multiset().count(a[i]) > 0);
    assert(b.contains(a[i]));
    let j = choose|j: int| 0 <= j < b.len() && b[j] == a[i];
    assert(b[j].0 == id);
}

/// What a selector stands for does not depend on the order of the targets.
pub proof fn lemma_order_does_not_matter(
    selector: Option<Seq<char>>,
    active: Option<Seq<char>>,
    a: Seq<EntryV>,
    b: Seq<EntryV>,
)
    requires
        a.to_multiset() == b.to_multiset(),
    ensures
        resolved(selector, active, a) == resolved(selector, active, b),
{
    broadcast use vstd::seq_lib::group_to_multiset_ensures;

    assert(a.len() == a.to_multiset().len());
    assert(b.len() == b.to_multiset().len());
    if a.len() > 0 && !selects_active(selector) {
        let sel = selector->0;
        let keep = |e: EntryV| is_hit(e, sel);
        let fa = hits(a, sel);
        let fb = hits(b, sel);
        assert forall|x: EntryV| fa.to_multiset().count(x) == #[trigger] fb.to_multiset().count(
            x,
        ) by {
            lemma_kept_count(a, keep, x);
            lemma_kept_count(b, keep, x);
        }
        assert(fa.to_multiset() =~= fb.to_multiset());
        assert(fa.len() == fa.to_multiset().len());
        assert(fb.len() == fb.to_multiset().len());
        if has_id(a, sel) {
            lemma_has_id_anywhere(a, b, sel);
        }
        if has_id(b, sel) {
            lemma_has_id_anywhere(b, a, sel);
        }
        if fa.len() == 1 {
            assert(fa.contains(fa[0]));
            assert(fb.to_multiset().count(fa[0]) > 0);
            assert(fb.contains(fa[0]));
            let j = choose|j: int| 0 <= j < fb.len() && fb[j] == fa[0];
            assert(j == 0);
        }
    }
}

/// What a target is described as: each of its properties under its own name.
pub proof fn lemma_info_fields(t: TargetInfoV)
    ensures
        info_fields(t)["id"@] == JsonV::Str(t.id),
        info_fields(t)["path"@] == JsonV::Str(t.path),
        info_fields(t)["filename"@] == JsonV::Str(t.filename),
        info_fields(t)["file_type"@] == JsonV::Str(t.file_type),
        info_fields(t)["processor"@] == JsonV::Str(t.processor),
        info_fields(t)["bits"@] == JsonV::Num(NumV::Unsigned(t.bits as u64)),
        info_fields(t)["function_count"@] == JsonV::Num(NumV::Unsigned(t.function_count as u64)),
{
    reveal_strlit("id");
    reveal_strlit("path");
    reveal_strlit("filename");
    reveal_strlit("file_type");
    reveal_strlit("processor");
    reveal_strlit("bits");
    reveal_strlit("function_count");
    assert("id"@.len() == 2);
    assert("path"@.len() == 4);
    assert("filename"@.len() == 8);
    assert("file_type"@.len() == 9);
    assert("processor"@.len() == 9);
    assert("bits"@.len() == 4);
    assert("function_count"@.len() == 14);
    assert("processor"@[0] == 'p');
    assert("file_type"@[0] == 'f');
    assert("bits"@[0] == 'b');
    assert("path"@[0] == 'p');
}

/// A database counts as 64 bits wide where it says so, else as 32 where it
/// says so, else as 16.
pub proof fn lemma_word_bits(is_64bit: bool, is_32bit: bool)
    ensures
        word_bits(true, is_32bit) == 64,
        word_bits(false, true) == 32,
        word_bits(false, false) == 16,
{
}

/// The lowest of some targets is the one with the lowest number, not the one
/// whose ID comes first in the alphabet.
pub proof fn lemma_lowest_by_number(numbers: Seq<u64>, at: int)
    requires
        is_lowest(numbers.map_values(|n: u64| id_of(n as nat)), at),
    ensures
        0 <= at < numbers.len(),
        forall|j: int| 0 <= j < numbers.len() ==> numbers[at] <= #[trigger] numbers[j],
{
    let ids = numbers.map_values(|n: u64| id_of(n as nat));
    lemma_id_number(numbers[at]);
    assert forall|j: int| 0 <= j < numbers.len() implies numbers[at] <= #[trigger] numbers[j] by {
        lemma_id_number(numbers[j]);
        assert(id_rank(ids[at]) <= id_rank(ids[j]));
    }
}

/// A text that no loaded target has as its ID, and that is found in the file
/// name or the path of exactly one of them, names that one.
pub proof fn lemma_part_of_a_name_selects(
    sel: Seq<char>,
    active: Option<Seq<char>>,
    entries: Seq<EntryV>,
    at: int,
)
    requires
        0 <= at < entries.len(),
        sel.len() > 0 && sel != "active"@,
        forall|i: int| 0 <= i < entries.len() ==> (#[trigger] entries[i]).0 != sel,
        occurs(entries[at].1, sel) || occurs(entries[at].2, sel),
        forall|i: int|
            0 <= i < entries.len() && i != at ==> !occurs((#[trigger] entries[i]).1, sel) && !occurs(
                entries[i].2,
                sel,
            ),
    ensures
        resolved(Some(sel), active, entries) == Ok::<Seq<char>, Seq<char>>(entries[at].0),
{
    let keep = |e: EntryV| is_hit(e, sel);
    lemma_only_one_kept(entries, keep, at);
}

proof fn lemma_only_one_kept(s: Seq<EntryV>, keep: spec_fn(EntryV) -> bool, at: int)
    requires
        0 <= at < s.len(),
        keep(s[at]),
        forall|i: int| 0 <= i < s.len() && i != at ==> !keep(#[trigger] s[i]),
    ensures
        s.filter(keep) == seq![s[at]],
    decreases s.len(),
{
    reveal(Seq::filter);
    let front = s.drop_last();
    if at == s.len() - 1 {
        lemma_none_are_kept(front, keep);
        assert(front.filter(keep).push(s[at]) =~= seq![s[at]]);
    } else {
        assert(front[at] == s[at]);
        lemma_only_one_kept(front, keep, at);
        assert(!keep(s[s.len() - 1]));
    }
}

proof fn lemma_none_are_kept(s: Seq<EntryV>, keep: spec_fn(EntryV) -> bool)
    requires
        forall|i: int| 0 <= i < s.len() ==> !keep(#[trigger] s[i]),
    ensures
        s.filter(keep).len() == 0,
    decreases s.len(),
{
    reveal(Seq::filter);
    if s.len() > 0 {
        lemma_none_are_kept(s.drop_last(), keep);
        assert(!keep(s[s.len() - 1]));
    }
}

/// A text that no target has as its ID and that is found in none of their
/// names and paths names none, whichever is active; one that is found in two
/// of them is refused rather than guessed.
pub proof fn lemma_unclear_selectors_refused(
    sel: Seq<char>,
    active: Option<Seq<char>>,
    entries: Seq<EntryV>,
    i: int,
    j: int,
)
    requires
        sel.len() > 0 && sel != "active"@,
        forall|k: int| 0 <= k < entries.len() ==> (#[trigger] entries[k]).0 != sel,
    ensures
        (forall|k: int|
            0 <= k < entries.len() ==> !occurs((#[trigger] entries[k]).1, sel) && !occurs(
                entries[k].2,
                sel,
            )) ==> resolved(Some(sel), active, entries) is Err,
        0 <= i < j < entries.len() && (occurs(entries[i].1, sel) || occurs(entries[i].2, sel)) && (
        occurs(entries[j].1, sel) || occurs(entries[j].2, sel)) ==> resolved(
            Some(sel),
            active,
            entries,
        ) is Err,
{
    broadcast use vstd::seq_lib::group_filter_ensures;

    let keep = |e: EntryV| is_hit(e, sel);
    if forall|k: int|
        0 <= k < entries.len() ==> !occurs((#[trigger] entries[k]).1, sel) && !occurs(
            entries[k].2,
            sel,
        ) {
        lemma_none_are_kept(entries, keep);
    }
    if 0 <= i < j < entries.len() && keep(entries[i]) && keep(entries[j]) {
        let a = entries.take(j);
        let b = entries.skip(j);
        assert(entries =~= a + b);
        Seq::filter_distributes_over_add(a, b, keep);
        assert(a[i] == entries[i] && b[0] == entries[j]);
        assert(a.filter(keep).contains(entries[i]));
        assert(b.filter(keep).contains(entries[j]));
    }
}

/// No selector, an empty one and `active` all name the active target, and name
/// nothing where there is none.
pub proof fn lemma_active_selectors(active: Option<Seq<char>>, entries: Seq<EntryV>)
    requires
        entries.len() > 0,
    ensures
        active matches Some(id) ==> resolved(None, active, entries) == Ok::<Seq<char>, Seq<char>>(id)
            && resolved(Some(Seq::empty()), active, entries) == Ok::<Seq<char>, Seq<char>>(id)
            && resolved(Some("active"@), active, entries) == Ok::<Seq<char>, Seq<char>>(id),
        active is None ==> resolved(None, active, entries) is Err && resolved(
            Some(Seq::empty()),
            active,
            entries,
        ) is Err && resolved(Some("active"@), active, entries) is Err,
{
}

/// A load is let through where no loaded target has its input and none has its
/// database: whatever else two targets share, such as the directory that they
/// stand in, is no conflict.
pub proof fn lemma_only_duplicates_conflict(
    canon_path: Seq<char>,
    db_identity: Seq<char>,
    existing: Seq<EntryV>,
    from: int,
)
    requires
        forall|i: int|
            0 <= i < existing.len() ==> !same_path((#[trigger] existing[i]).1, canon_path)
                && !same_path(existing[i].2, db_identity),
    ensures
        conflict_from(canon_path, db_identity, existing, from) is None,
    decreases existing.len() - from,
{
    if 0 <= from < existing.len() {
        assert(!same_path(existing[from].1, canon_path));
        lemma_only_duplicates_conflict(canon_path, db_identity, existing, from + 1);
    }
}

/// Resolved paths conflict only where they are the same text: a load whose
/// input and database differ from those of every target is let through.
pub proof fn lemma_other_files_do_not_conflict(
    canon_path: Seq<char>,
    db_identity: Seq<char>,
    existing: Seq<EntryV>,
)
    requires
        is_plain(canon_path) && is_plain(db_identity),
        forall|i: int|
            0 <= i < existing.len() ==> is_plain((#[trigger] existing[i]).1) && is_plain(
                existing[i].2,
            ),
    ensures
        conflict_from(canon_path, db_identity, existing, 0) is None <==> forall|i: int|
            0 <= i < existing.len() ==> (#[trigger] existing[i]).1 != canon_path && existing[i].2
                != db_identity,
{
    assert forall|i: int| 0 <= i < existing.len() implies (same_path(
        (#[trigger] existing[i]).1,
        canon_path,
    ) <==> existing[i].1 == canon_path) && (same_path(existing[i].2, db_identity) <==> existing[i].2
        == db_identity) by {
        lemma_plain_paths_differ(existing[i].1, canon_path);
        lemma_plain_paths_differ(existing[i].2, db_identity);
    }
    if conflict_from(canon_path, db_identity, existing, 0) is None {
        lemma_no_conflict(canon_path, db_identity, existing, 0);
    }
    if forall|i: int|
        0 <= i < existing.len() ==> (#[trigger] existing[i]).1 != canon_path && existing[i].2
            != db_identity {
        lemma_only_duplicates_conflict(canon_path, db_identity, existing, 0);
    }
}

/// The conflict that is reported is that with the first target in the way: it
/// names that target, and tells a shared input from a shared database.
pub proof fn lemma_first_conflict_is_named(
    canon_path: Seq<char>,
    db_identity: Seq<char>,
    existing: Seq<EntryV>,
    from: int,
    at: int,
)
    requires
        0 <= from <= at < existing.len(),
        forall|i: int|
            from <= i < at ==> !same_path((#[trigger] existing[i]).1, canon_path) && !same_path(
                existing[i].2,
                db_identity,
            ),
        same_path(existing[at].1, canon_path) || same_path(existing[at].2, db_identity),
    ensures
        conflict_from(canon_path, db_identity, existing, from) == Some(
            if same_path(existing[at].1, canon_path) {
                "input already loaded as "@ + existing[at].0
            } else {
                "database "@ + db_identity + " is already in use by "@ + existing[at].0
            },
        ),
    decreases at - from,
{
    if from < at {
        assert(!same_path(existing[from].1, canon_path));
        lemma_first_conflict_is_named(canon_path, db_identity, existing, from + 1, at);
    }
}

} // verus!
