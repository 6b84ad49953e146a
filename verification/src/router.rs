//! The router: which target a request is for, and what is done with it.

use crate::daemon::{WORKER_BOOT_TIMEOUT_SECS, WORKER_OP_TIMEOUT_SECS};
use crate::dispatch::{
    bool_or, need_text, param_bool, param_opt_str, param_str,
};
use crate::json::{
    field, no_fields, number_v, opt_text_v, signed_v, text_field, text_v, unsigned_in, values_of,
    FieldsV, Json, JsonObject, JsonV, NumV,
};
use crate::json_text::{json_in, plain_within, pretty_json, pretty_of, read_json};
use crate::numbers::{
    decimal, decimal_text, digits, digits_text, hex, hex_text, integer, lemma_parse_written,
    lemma_prefixed_read_back, parse_digits, parse_integer, parsed,
};
use crate::paths::{extension, extension_of, is_plain, same_path};
use crate::protocol::{answer, opt_json, Request, Response, ResponseV};
use crate::targets::{
    conflict_from, entry_views, find_load_conflict, has_id, id_number, id_of, id_rank, info_fields,
    is_lowest, lemma_id_number, lemma_no_conflict, lemma_only_duplicates_conflict,
    lemma_other_files_do_not_conflict, lemma_resolves_to_loaded, lowest_target_id, resolve_selector, resolved, EntryV, TargetInfo, TargetInfoV,
};
use crate::text::{opt_view, same, trimmed, views};
use vstd::prelude::*;

verus! {

/// A loaded target: its metadata and the worker that serves it.
#[derive(Debug)]
pub struct Target {
    pub info: TargetInfo,
    /// Socket of the worker.
    pub sock: String,
    /// Canonical input path (duplicate-load detection).
    pub canon_path: String,
    /// Canonical path of the on-disk database this target uses: the IDB
    /// output path for raw binaries, the input itself for existing IDBs.
    /// This is the identity that must stay unique across targets.
    pub db_identity: String,
}

/// The targets that are loaded, in the order in which they were.
#[derive(Debug)]
pub struct RouterState {
    pub targets: Vec<Target>,
    pub active: Option<String>,
    pub next_id: u64,
}

/// What a [`RouterState`] is.
pub struct RouterV {
    pub targets: Seq<Target>,
    pub active: Option<Seq<char>>,
    pub next_id: u64,
}

impl View for RouterState {
    type V = RouterV;

    open spec fn view(&self) -> RouterV {
        RouterV { targets: self.targets@, active: opt_view(self.active), next_id: self.next_id }
    }
}

/// The IDs of targets.
pub open spec fn ids_of(targets: Seq<Target>) -> Seq<Seq<char>> {
    targets.map_values(|t: Target| t.info.id@)
}

/// The targets as a selector sees them.
pub open spec fn entries_of(targets: Seq<Target>) -> Seq<EntryV> {
    targets.map_values(|t: Target| (t.info.id@, t.info.filename@, t.info.path@))
}

/// The inputs and databases of targets.
pub open spec fn identities_of(targets: Seq<Target>) -> Seq<EntryV> {
    targets.map_values(|t: Target| (t.info.id@, t.canon_path@, t.db_identity@))
}

/// Whether an ID is that of a target.
pub open spec fn loaded(targets: Seq<Target>, id: Seq<char>) -> bool {
    exists|i: int| 0 <= i < targets.len() && (#[trigger] targets[i]).info.id@ == id
}

/// Whether two targets share nothing.
pub open spec fn apart(a: Target, b: Target) -> bool {
    &&& a.info.id@ != b.info.id@
    &&& !same_path(a.canon_path@, b.canon_path@)
    &&& !same_path(a.db_identity@, b.db_identity@)
}

/// Whether an ID has been given out: it is that of a number below the next one.
pub open spec fn given_out(id: Seq<char>, next_id: u64) -> bool {
    &&& id_number(id) is Some
    &&& id == id_of(id_number(id)->0 as nat)
    &&& id_number(id)->0 < next_id
}

impl RouterV {
    /// No two targets share an ID, an input or a database; every ID has been given out; and the
    /// active target is a loaded one, of which there is none only where no target is loaded.
    pub open spec fn inv(self) -> bool {
        &&& forall|i: int, j: int|
            0 <= i < j < self.targets.len() ==> apart(
                #[trigger] self.targets[i],
                #[trigger] self.targets[j],
            )
        &&& forall|i: int|
            0 <= i < self.targets.len() ==> given_out(
                (#[trigger] self.targets[i]).info.id@,
                self.next_id,
            )
        &&& match self.active {
            Some(id) => loaded(self.targets, id),
            None => self.targets.len() == 0,
        }
    }
}

/// The position of the target with an ID from `from` on, or the number of targets.
pub open spec fn position_of(targets: Seq<Target>, id: Seq<char>, from: int) -> int
    decreases targets.len() - from,
{
    if from < 0 || from >= targets.len() {
        targets.len() as int
    } else if targets[from].info.id@ == id {
        from
    } else {
        position_of(targets, id, from + 1)
    }
}

proof fn lemma_position(targets: Seq<Target>, id: Seq<char>, from: int)
    requires
        0 <= from <= targets.len(),
    ensures
        from <= position_of(targets, id, from) <= targets.len(),
        position_of(targets, id, from) < targets.len() ==> targets[position_of(
            targets,
            id,
            from,
        )].info.id@ == id,
        position_of(targets, id, from) == targets.len() ==> forall|j: int|
            from <= j < targets.len() ==> (#[trigger] targets[j]).info.id@ != id,
    decreases targets.len() - from,
{
    if from < targets.len() && targets[from].info.id@ != id {
        lemma_position(targets, id, from + 1);
    }
}

/// The lowest-numbered of IDs.
pub open spec fn lowest_of(ids: Seq<Seq<char>>) -> Option<Seq<char>> {
    if ids.len() == 0 {
        None
    } else {
        Some(ids[choose|at: int| is_lowest(ids, at)])
    }
}

proof fn lemma_lowest_unique(ids: Seq<Seq<char>>, a: int, b: int)
    requires
        is_lowest(ids, a),
        is_lowest(ids, b),
    ensures
        a == b,
{
    if a < b {
        assert(id_rank(ids[b]) < id_rank(ids[a]));
    }
    if b < a {
        assert(id_rank(ids[a]) < id_rank(ids[b]));
    }
}

// ---------------------------------------------------------------------------
// Lists in the order of their numbers
// ---------------------------------------------------------------------------

/// The views of a list of targets.
pub open spec fn infos_of(targets: Seq<Target>) -> Seq<TargetInfoV> {
    targets.map_values(|t: Target| t.info@)
}

/// A list with one more target, behind all that do not have a higher number.
pub open spec fn placed(list: Seq<TargetInfoV>, t: TargetInfoV) -> Seq<TargetInfoV>
    decreases list.len(),
{
    if list.len() == 0 {
        seq![t]
    } else if id_rank(list.last().id) <= id_rank(t.id) {
        list.push(t)
    } else {
        placed(list.drop_last(), t).push(list.last())
    }
}

/// The targets in the order of their numbers.
pub open spec fn by_number(list: Seq<TargetInfoV>) -> Seq<TargetInfoV>
    decreases list.len(),
{
    if list.len() == 0 {
        seq![]
    } else {
        placed(by_number(list.drop_last()), list.last())
    }
}

/// Whether the numbers of a list never fall.
pub open spec fn in_order(list: Seq<TargetInfoV>) -> bool {
    forall|i: int, j: int|
        0 <= i <= j < list.len() ==> id_rank((#[trigger] list[i]).id) <= id_rank(
            (#[trigger] list[j]).id,
        )
}

proof fn lemma_placed(list: Seq<TargetInfoV>, t: TargetInfoV)
    requires
        in_order(list),
    ensures
        placed(list, t).len() == list.len() + 1,
        in_order(placed(list, t)),
        placed(list, t).to_multiset() == list.to_multiset().insert(t),
        forall|i: int|
            0 <= i < placed(list, t).len() ==> id_rank((#[trigger] placed(list, t)[i]).id)
                <= id_rank(t.id) || (list.len() > 0 && id_rank(placed(list, t)[i].id) <= id_rank(
                list.last().id,
            )),
    decreases list.len(),
{
    broadcast use vstd::seq_lib::group_to_multiset_ensures;

    if list.len() == 0 {
        assert(seq![t] =~= Seq::<TargetInfoV>::empty().push(t));
        assert(list =~= Seq::<TargetInfoV>::empty());
    } else if id_rank(list.last().id) > id_rank(t.id) {
        let front = list.drop_last();
        lemma_placed(front, t);
        assert(front.push(list.last()) =~= list);
        assert(placed(front, t).push(list.last()).to_multiset() =~= list.to_multiset().insert(t));
    } else {
        assert(list.push(t).to_multiset() =~= list.to_multiset().insert(t));
    }
}

/// The list of targets holds exactly the targets, and their numbers never fall.
pub proof fn lemma_by_number(list: Seq<TargetInfoV>)
    ensures
        by_number(list).len() == list.len(),
        in_order(by_number(list)),
        by_number(list).to_multiset() == list.to_multiset(),
    decreases list.len(),
{
    broadcast use vstd::seq_lib::group_to_multiset_ensures;

    if list.len() > 0 {
        lemma_by_number(list.drop_last());
        lemma_placed(by_number(list.drop_last()), list.last());
        assert(list.drop_last().push(list.last()) =~= list);
    } else {
        assert(list =~= Seq::<TargetInfoV>::empty());
    }
}

/// The views of a list of descriptions.
pub open spec fn list_views(list: Seq<TargetInfo>) -> Seq<TargetInfoV> {
    list.map_values(|t: TargetInfo| t@)
}

fn rank_of(id: &str) -> (r: u64)
    ensures
        r == id_rank(id@),
{
    crate::targets::rank_number(id)
}

/// Puts a target into a list, behind all that do not have a higher number.
fn place(list: &mut Vec<TargetInfo>, t: TargetInfo)
    ensures
        list_views(final(list)@) == placed(list_views(old(list)@), t@),
{
    let ghost all = list_views(list@);
    let ghost tv = t@;
    let n: u64 = rank_of(t.id.as_str());
    let mut at: usize = list.len();
    assert(all.take(at as int) =~= all);
    assert(placed(all.take(at as int), tv) + all.skip(at as int) =~= placed(all, tv));
    while at > 0 && rank_of(list[at - 1].id.as_str()) > n
        invariant
            at <= list.len(),
            all == list_views(list@),
            n == id_rank(tv.id),
            placed(all.take(at as int), tv) + all.skip(at as int) == placed(all, tv),
        decreases at,
    {
        proof {
            let now = all.take(at as int);
            assert(now.last() == list[at - 1]@);
            assert(now.drop_last() =~= all.take(at - 1));
            assert(placed(all.take(at - 1), tv) + all.skip(at - 1) =~= placed(now, tv) + all.skip(
                at as int,
            ));
        }
        at = at - 1;
    }
    proof {
        let now = all.take(at as int);
        if at > 0 {
            assert(now.last() == list[at - 1]@);
        } else {
            assert(now =~= seq![]);
        }
        assert(placed(now, tv) =~= now.push(tv));
    }
    list.insert(at, t);
    assert(list_views(list@) =~= all.take(at as int).push(tv) + all.skip(at as int));
}

// ---------------------------------------------------------------------------
// What is done with a request
// ---------------------------------------------------------------------------

/// What is done with a request, over the types of texts and values.
#[derive(Debug)]
pub enum RouteOf<T, J> {
    /// Answer it.
    Reply(Result<J, T>),
    /// Load a target.
    Load { path: T, auto_analyse: bool, idb_out: Option<T> },
    /// The target is out of the list: stop its worker, then report it as closed.
    Stop { id: T, sock: T },
    /// Hand it to the worker of a target.
    Forward { id: T, sock: T },
}

/// What is done with a request.
pub type Route = RouteOf<String, Json>;

/// What a [`Route`] is.
pub type RouteV = RouteOf<Seq<char>, JsonV>;

impl View for RouteOf<String, Json> {
    type V = RouteV;

    open spec fn view(&self) -> RouteV {
        match self {
            RouteOf::Reply(Ok(v)) => RouteOf::Reply(Ok(v@)),
            RouteOf::Reply(Err(e)) => RouteOf::Reply(Err(e@)),
            RouteOf::Load { path, auto_analyse, idb_out } => RouteOf::Load {
                path: path@,
                auto_analyse: *auto_analyse,
                idb_out: opt_view(*idb_out),
            },
            RouteOf::Stop { id, sock } => RouteOf::Stop { id: id@, sock: sock@ },
            RouteOf::Forward { id, sock } => RouteOf::Forward { id: id@, sock: sock@ },
        }
    }
}

/// The two's complement reading of a word.
pub open spec fn as_signed(n: u64) -> i64 {
    if n < 0x8000_0000_0000_0000 {
        n as i64
    } else {
        (n - 0x1_0000_0000_0000_0000) as i64
    }
}

/// The two's complement reading of a word.
pub fn signed_word(n: u64) -> (r: i64)
    ensures
        r == as_signed(n),
        r as int == n || r as int + 0x1_0000_0000_0000_0000 == n,
{
    if n < 0x8000_0000_0000_0000 {
        n as i64
    } else {
        let gap: u64 = 0xffff_ffff_ffff_ffff - n;
        -1 - (gap as i64)
    }
}

/// A number in several bases.
pub open spec fn converted(n: u64) -> FieldsV {
    no_fields().insert("decimal"@, number_v(n as nat)).insert("hex"@, text_v(hex(n as nat))).insert(
        "octal"@,
        text_v("0o"@ + digits(n as nat, 8)),
    ).insert("binary"@, text_v("0b"@ + digits(n as nat, 2))).insert(
        "signed"@,
        signed_v(as_signed(n)),
    )
}

/// The answer to a request to convert a number.
pub open spec fn conversion(p: JsonV) -> Result<JsonV, Seq<char>> {
    match need_text(p, "value"@) {
        Err(e) => Err(e),
        Ok(s) => match integer(s) {
            None => Err("Invalid address: "@ + trimmed(s)),
            Some(n) => Ok(JsonV::Obj(converted(n))),
        },
    }
}

/// The request to convert a number that is written so.
pub open spec fn conversion_of(s: Seq<char>) -> Result<JsonV, Seq<char>> {
    conversion(JsonV::Obj(no_fields().insert("value"@, text_v(s))))
}

/// Every form of a number converts to all of its forms: hexadecimal behind `0x`, octal behind `0o`,
/// binary behind `0b`, and decimal.
pub proof fn lemma_conversions_agree(n: u64)
    ensures
        conversion_of(hex(n as nat)) == Ok::<JsonV, Seq<char>>(JsonV::Obj(converted(n))),
        conversion_of("0o"@ + digits(n as nat, 8)) == Ok::<JsonV, Seq<char>>(
            JsonV::Obj(converted(n)),
        ),
        conversion_of("0b"@ + digits(n as nat, 2)) == Ok::<JsonV, Seq<char>>(
            JsonV::Obj(converted(n)),
        ),
        conversion_of(decimal(n as nat)) == Ok::<JsonV, Seq<char>>(JsonV::Obj(converted(n))),
{
    lemma_prefixed_read_back(n);
}

/// The answer to a request to convert a number.
pub fn int_convert(p: &Json) -> (r: Result<Json, String>)
    ensures
        match r {
            Ok(v) => conversion(p@) == Ok::<JsonV, Seq<char>>(v@),
            Err(e) => conversion(p@) == Err::<JsonV, Seq<char>>(e@),
        },
{
    let s = param_str(p, "value")?;
    let n: u64 = parse_integer(s.as_str())?;
    let mut o = JsonObject::new();
    o.put("decimal", Json::number(n));
    o.put("hex", Json::Str(hex_text(n)));
    let mut t = "0o".to_owned();
    t.push_str(digits_text(n, 8).as_str());
    o.put("octal", Json::Str(t));
    let mut t = "0b".to_owned();
    t.push_str(digits_text(n, 2).as_str());
    o.put("binary", Json::Str(t));
    o.put("signed", Json::signed(signed_word(n)));
    Ok(Json::Object(o))
}

/// The number of targets in the answer to a ping.
pub open spec fn pong(count: nat) -> JsonV {
    JsonV::Obj(no_fields().insert("pong"@, JsonV::Bool(true)).insert("targets"@, number_v(count)))
}

/// The list of targets and the active one.
pub open spec fn listing(st: RouterV) -> JsonV {
    JsonV::Obj(
        no_fields().insert(
            "targets"@,
            JsonV::Arr(
                by_number(infos_of(st.targets)).map_values(
                    |t: TargetInfoV| JsonV::Obj(info_fields(t)),
                ),
            ),
        ).insert("active"@, opt_text_v(st.active)),
    )
}

/// What becomes of the targets and of a request to switch.
pub open spec fn switched(st: RouterV, p: JsonV) -> (RouterV, RouteV) {
    match need_text(p, "id"@) {
        Err(e) => (st, RouteV::Reply(Err(e))),
        Ok(sel) => match resolved(Some(sel), st.active, entries_of(st.targets)) {
            Err(e) => (st, RouteV::Reply(Err(e))),
            Ok(id) => (
                RouterV { active: Some(id), ..st },
                RouteV::Reply(Ok(JsonV::Obj(no_fields().insert("active"@, text_v(id))))),
            ),
        },
    }
}

/// The targets without the one at a position; where that was the active one, the lowest-numbered
/// of the others takes its place.
pub open spec fn without_target(st: RouterV, at: int) -> RouterV {
    let rest = st.targets.remove(at);
    RouterV {
        targets: rest,
        active: if st.active == Some(st.targets[at].info.id@) {
            lowest_of(ids_of(rest))
        } else {
            st.active
        },
        next_id: st.next_id,
    }
}

/// What becomes of the targets and of a request to close one.
pub open spec fn closed(st: RouterV, p: JsonV) -> (RouterV, RouteV) {
    match need_text(p, "id"@) {
        Err(e) => (st, RouteV::Reply(Err(e))),
        Ok(sel) => match resolved(Some(sel), st.active, entries_of(st.targets)) {
            Err(e) => (st, RouteV::Reply(Err(e))),
            Ok(id) => {
                let at = position_of(st.targets, id, 0);
                if at < st.targets.len() {
                    (without_target(st, at), RouteV::Stop { id, sock: st.targets[at].sock@ })
                } else {
                    (st, RouteV::Reply(Err("Target not found: "@ + id)))
                }
            },
        },
    }
}

/// Where a request is handed to.
pub open spec fn forwarding(st: RouterV, target: Option<Seq<char>>) -> RouteV {
    match resolved(target, st.active, entries_of(st.targets)) {
        Err(e) => RouteV::Reply(Err(e)),
        Ok(id) => {
            let at = position_of(st.targets, id, 0);
            if at < st.targets.len() {
                RouteV::Forward { id, sock: st.targets[at].sock@ }
            } else {
                RouteV::Reply(Err("Target not found: "@ + id))
            }
        },
    }
}

/// What a request to load asks for.
pub open spec fn load_asked(p: JsonV) -> RouteV {
    match need_text(p, "path"@) {
        Err(e) => RouteV::Reply(Err(e)),
        Ok(path) => RouteV::Load {
            path,
            auto_analyse: bool_or(p, "auto_analyse"@, true),
            idb_out: text_field(p, "idb_out"@),
        },
    }
}

/// What becomes of the targets and of a request.
pub open spec fn routed(
    st: RouterV,
    op: Seq<char>,
    p: JsonV,
    target: Option<Seq<char>>,
) -> (RouterV, RouteV) {
    if op == "ping"@ {
        (st, RouteV::Reply(Ok(pong(st.targets.len()))))
    } else if op == "shutdown"@ {
        (
            st,
            RouteV::Reply(
                Ok(JsonV::Obj(no_fields().insert("status"@, text_v("shutting_down"@)))),
            ),
        )
    } else if op == "int_convert"@ {
        (st, RouteV::Reply(conversion(p)))
    } else if op == "target.load"@ {
        (st, load_asked(p))
    } else if op == "target.list"@ {
        (st, RouteV::Reply(Ok(listing(st))))
    } else if op == "target.switch"@ {
        switched(st, p)
    } else if op == "target.close"@ {
        closed(st, p)
    } else {
        (st, forwarding(st, target))
    }
}

fn one_field(key: &str, value: Json) -> (r: Json)
    ensures
        r@ == JsonV::Obj(no_fields().insert(key@, value@)),
{
    let mut o = JsonObject::new();
    o.put(key, value);
    Json::Object(o)
}

fn not_found(id: &str) -> (r: String)
    ensures
        r@ == "Target not found: "@ + id@,
{
    let mut e = "Target not found: ".to_owned();
    e.push_str(id);
    e
}

impl RouterState {
    /// No targets.
    pub fn new() -> (r: RouterState)
        ensures
            r@.inv(),
            r@.targets == Seq::<Target>::empty(),
            r@.active is None,
            r@.next_id == 1,
    {
        RouterState { targets: Vec::new(), active: None, next_id: 1 }
    }

    /// The ID for the next target.
    pub fn alloc_id(&mut self) -> (r: String)
        requires
            old(self).next_id < u64::MAX,
        ensures
            r@ == id_of(old(self).next_id as nat),
            final(self)@ == (RouterV { next_id: (old(self)@.next_id + 1) as u64, ..old(self)@ }),
            old(self)@.inv() ==> final(self)@.inv() && !loaded(final(self)@.targets, r@)
                && given_out(r@, final(self)@.next_id),
    {
        let mut out = String::new();
        out.push('t');
        out.push_str(decimal_text(self.next_id).as_str());
        assert(out@ =~= id_of(self.next_id as nat));
        proof {
            lemma_id_number(self.next_id);
            let st = self@;
            if st.inv() && loaded(st.targets, out@) {
                let i = choose|i: int| 0 <= i < st.targets.len() && (#[trigger] st.targets[i]).info.id@ == out@;
                assert(given_out(st.targets[i].info.id@, st.next_id));
            }
        }
        self.next_id = self.next_id + 1;
        out
    }

    fn entries(&self) -> (r: Vec<(String, String, String)>)
        ensures
            entry_views(r@) == entries_of(self@.targets),
    {
        let mut out: Vec<(String, String, String)> = Vec::new();
        let mut i: usize = 0;
        while i < self.targets.len()
            invariant
                i <= self.targets.len(),
                out.len() == i,
                forall|j: int|
                    0 <= j < i ==> ((#[trigger] out[j]).0@, out[j].1@, out[j].2@) == entries_of(
                        self.targets@,
                    )[j],
            decreases self.targets.len() - i,
        {
            let info = &self.targets[i].info;
            out.push((info.id.clone(), info.filename.clone(), info.path.clone()));
            i = i + 1;
        }
        assert(entry_views(out@) =~= entries_of(self.targets@));
        out
    }

    fn identities(&self) -> (r: Vec<(String, String, String)>)
        ensures
            entry_views(r@) == identities_of(self@.targets),
    {
        let mut out: Vec<(String, String, String)> = Vec::new();
        let mut i: usize = 0;
        while i < self.targets.len()
            invariant
                i <= self.targets.len(),
                out.len() == i,
                forall|j: int|
                    0 <= j < i ==> ((#[trigger] out[j]).0@, out[j].1@, out[j].2@) == identities_of(
                        self.targets@,
                    )[j],
            decreases self.targets.len() - i,
        {
            let t = &self.targets[i];
            out.push((t.info.id.clone(), t.canon_path.clone(), t.db_identity.clone()));
            i = i + 1;
        }
        assert(entry_views(out@) =~= identities_of(self.targets@));
        out
    }

    fn ids(&self) -> (r: Vec<String>)
        ensures
            views(r@) == ids_of(self@.targets),
    {
        let mut out: Vec<String> = Vec::new();
        let mut i: usize = 0;
        while i < self.targets.len()
            invariant
                i <= self.targets.len(),
                out.len() == i,
                forall|j: int| 0 <= j < i ==> (#[trigger] out[j])@ == ids_of(self.targets@)[j],
            decreases self.targets.len() - i,
        {
            out.push(self.targets[i].info.id.clone());
            i = i + 1;
        }
        assert(views(out@) =~= ids_of(self.targets@));
        out
    }

    fn find(&self, id: &str) -> (r: usize)
        ensures
            r == position_of(self@.targets, id@, 0),
            r <= self.targets.len(),
    {
        let mut i: usize = 0;
        while i < self.targets.len() && !same(self.targets[i].info.id.as_str(), id)
            invariant
                i <= self.targets.len(),
                position_of(self.targets@, id@, 0) == position_of(self.targets@, id@, i as int),
            decreases self.targets.len() - i,
        {
            i = i + 1;
        }
        i
    }

    /// The target that a selector stands for.
    pub fn resolve(&self, selector: &Option<String>) -> (r: Result<String, String>)
        ensures
            match r {
                Ok(id) => resolved(opt_view(*selector), self@.active, entries_of(self@.targets))
                    == Ok::<Seq<char>, Seq<char>>(id@),
                Err(e) => resolved(opt_view(*selector), self@.active, entries_of(self@.targets))
                    == Err::<Seq<char>, Seq<char>>(e@),
            },
    {
        let entries = self.entries();
        let sel: Option<&str> = match selector {
            Some(s) => Some(s.as_str()),
            None => None,
        };
        let act: Option<&str> = match &self.active {
            Some(s) => Some(s.as_str()),
            None => None,
        };
        resolve_selector(sel, act, &entries)
    }

    /// The targets in the order of their numbers.
    pub fn list(&self) -> (r: Vec<TargetInfo>)
        ensures
            list_views(r@) == by_number(infos_of(self@.targets)),
    {
        let ghost all = infos_of(self.targets@);
        let mut out: Vec<TargetInfo> = Vec::new();
        let mut i: usize = 0;
        assert(list_views(out@) =~= by_number(all.take(0)));
        while i < self.targets.len()
            invariant
                i <= self.targets.len(),
                all == infos_of(self.targets@),
                list_views(out@) == by_number(all.take(i as int)),
            decreases self.targets.len() - i,
        {
            proof {
                let now = all.take(i + 1);
                assert(now.drop_last() =~= all.take(i as int));
                assert(now.last() == self.targets[i as int].info@);
            }
            place(&mut out, self.targets[i].info.copy());
            i = i + 1;
        }
        assert(all.take(i as int) =~= all);
        out
    }

    fn listing(&self) -> (r: Json)
        ensures
            r@ == listing(self@),
    {
        let list = self.list();
        let ghost all = list_views(list@);
        let mut items: Vec<Json> = Vec::new();
        let mut i: usize = 0;
        while i < list.len()
            invariant
                i <= list.len(),
                all == list_views(list@),
                items.len() == i,
                forall|j: int|
                    0 <= j < i ==> (#[trigger] items[j])@ == JsonV::Obj(info_fields(all[j])),
            decreases list.len() - i,
        {
            items.push(list[i].to_json());
            i = i + 1;
        }
        assert(values_of(items@) =~= all.map_values(|t: TargetInfoV| JsonV::Obj(info_fields(t))));
        let mut o = JsonObject::new();
        o.put("targets", Json::list(items));
        o.put("active", Json::opt_text(&self.active));
        Json::Object(o)
    }

    /// Makes the target that a request names the active one.
    fn switch(&mut self, p: &Json) -> (r: Route)
        ensures
            (final(self)@, r@) == switched(old(self)@, p@),
    {
        match param_str(p, "id") {
            Err(e) => RouteOf::Reply(Err(e)),
            Ok(sel) => match self.resolve(&Some(sel)) {
                Err(e) => RouteOf::Reply(Err(e)),
                Ok(id) => {
                    let reply = one_field("active", Json::text(id.as_str()));
                    self.active = Some(id);
                    RouteOf::Reply(Ok(reply))
                },
            },
        }
    }

    /// Takes the target that a request names out of the list.
    fn close(&mut self, p: &Json) -> (r: Route)
        ensures
            (final(self)@, r@) == closed(old(self)@, p@),
    {
        match param_str(p, "id") {
            Err(e) => RouteOf::Reply(Err(e)),
            Ok(sel) => match self.resolve(&Some(sel)) {
                Err(e) => RouteOf::Reply(Err(e)),
                Ok(id) => {
                    let at: usize = self.find(id.as_str());
                    if at == self.targets.len() {
                        return RouteOf::Reply(Err(not_found(id.as_str())));
                    }
                    proof {
                        lemma_position(self.targets@, id@, 0);
                    }
                    let gone = self.targets.remove(at);
                    let was_active: bool = match &self.active {
                        Some(a) => same(a.as_str(), id.as_str()),
                        None => false,
                    };
                    if was_active {
                        let ids = self.ids();
                        self.active = lowest_target_id(&ids);
                        proof {
                            if ids.len() > 0 {
                                let v = views(ids@);
                                let a = choose|a: int|
                                    #[trigger] is_lowest(v, a) && self.active->0@ == v[a];
                                let b = choose|b: int| is_lowest(v, b);
                                lemma_lowest_unique(v, a, b);
                            }
                        }
                    }
                    RouteOf::Stop { id, sock: gone.sock }
                },
            },
        }
    }

    fn forward(&self, target: &Option<String>) -> (r: Route)
        ensures
            r@ == forwarding(self@, opt_view(*target)),
    {
        match self.resolve(target) {
            Err(e) => RouteOf::Reply(Err(e)),
            Ok(id) => {
                let at: usize = self.find(id.as_str());
                if at < self.targets.len() {
                    RouteOf::Forward { id, sock: self.targets[at].sock.clone() }
                } else {
                    RouteOf::Reply(Err(not_found(id.as_str())))
                }
            },
        }
    }

    /// What is done with a request, and what it does to the targets.
    pub fn route(&mut self, req: &Request) -> (r: Route)
        ensures
            (final(self)@, r@) == routed(
                old(self)@,
                req.op@,
                req.params@,
                opt_view(req.target),
            ),
            old(self)@.inv() ==> final(self)@.inv(),
    {
        proof {
            lemma_route_keeps_inv(self@, req.op@, req.params@, opt_view(req.target));
        }
        let op = req.op.as_str();
        let p = &req.params;
        if same(op, "ping") {
            let mut o = JsonObject::new();
            o.put("pong", Json::Bool(true));
            o.put("targets", Json::count(self.targets.len()));
            RouteOf::Reply(Ok(Json::Object(o)))
        } else if same(op, "shutdown") {
            RouteOf::Reply(Ok(one_field("status", Json::text("shutting_down"))))
        } else if same(op, "int_convert") {
            RouteOf::Reply(int_convert(p))
        } else if same(op, "target.load") {
            match param_str(p, "path") {
                Err(e) => RouteOf::Reply(Err(e)),
                Ok(path) => RouteOf::Load {
                    path,
                    auto_analyse: param_bool(p, "auto_analyse", true),
                    idb_out: param_opt_str(p, "idb_out"),
                },
            }
        } else if same(op, "target.list") {
            RouteOf::Reply(Ok(self.listing()))
        } else if same(op, "target.switch") {
            self.switch(p)
        } else if same(op, "target.close") {
            self.close(p)
        } else {
            self.forward(&req.target)
        }
    }

    /// Why a file cannot be loaded, if it cannot: it is not there, or a target has its input or its
    /// database already.
    pub fn check_load(&self, expanded: &str, exists: bool, canon_path: &str, db_identity: &str) -> (r:
        Result<(), String>)
        ensures
            match r {
                Ok(()) => load_checked(self@, expanded@, exists, canon_path@, db_identity@) is Ok,
                Err(e) => load_checked(self@, expanded@, exists, canon_path@, db_identity@)
                    == Err::<(), Seq<char>>(e@),
            },
    {
        if !exists {
            let mut e = "File not found: ".to_owned();
            e.push_str(expanded);
            return Err(e);
        }
        let known = self.identities();
        match find_load_conflict(canon_path, db_identity, &known) {
            Some(c) => {
                let mut e = expanded.to_owned();
                e.push_str(": ");
                e.push_str(c.as_str());
                Err(e)
            },
            None => Ok(()),
        }
    }

    /// Records a target that its worker has loaded, under the ID that was given out for it, and
    /// describes it.
    pub fn finish_load(
        &mut self,
        id: String,
        found: TargetInfo,
        sock: String,
        canon_path: String,
        db_identity: String,
    ) -> (r: Json)
        requires
            !loaded(old(self)@.targets, id@),
            given_out(id@, old(self)@.next_id),
            conflict_from(canon_path@, db_identity@, identities_of(old(self)@.targets), 0) is None,
        ensures
            final(self)@.targets.len() == old(self)@.targets.len() + 1,
            final(self)@.targets.drop_last() == old(self)@.targets,
            final(self)@.targets.last().info@ == (TargetInfoV { id: id@, ..found@ }),
            final(self)@.targets.last().sock@ == sock@,
            final(self)@.targets.last().canon_path@ == canon_path@,
            final(self)@.targets.last().db_identity@ == db_identity@,
            final(self)@.active == (match old(self)@.active {
                Some(a) => Some(a),
                None => Some(id@),
            }),
            final(self)@.next_id == old(self)@.next_id,
            r@ == JsonV::Obj(info_fields(TargetInfoV { id: id@, ..found@ })),
            old(self)@.inv() ==> final(self)@.inv(),
    {
        let ghost st = self@;
        let mut info = found;
        info.id = id.clone();
        let reply = info.to_json();
        self.targets.push(Target { info, sock, canon_path, db_identity });
        if self.active.is_none() {
            self.active = Some(id);
        }
        proof {
            let now = self@;
            assert(now.targets.drop_last() =~= st.targets);
            lemma_no_conflict(canon_path@, db_identity@, identities_of(st.targets), 0);
            if st.inv() {
                assert forall|i: int, j: int| 0 <= i < j < now.targets.len() implies apart(
                    #[trigger] now.targets[i],
                    #[trigger] now.targets[j],
                ) by {
                    assert(now.targets[i] == st.targets[i]);
                    assert(identities_of(st.targets)[i].0 == st.targets[i].info.id@);
                    if j < st.targets.len() {
                        assert(now.targets[j] == st.targets[j]);
                    }
                }
                assert forall|i: int| 0 <= i < now.targets.len() implies given_out(
                    (#[trigger] now.targets[i]).info.id@,
                    now.next_id,
                ) by {
                    if i < st.targets.len() {
                        assert(now.targets[i] == st.targets[i]);
                    }
                }
                if st.active is Some {
                    let i = choose|i: int|
                        0 <= i < st.targets.len() && (#[trigger] st.targets[i]).info.id@
                            == st.active->0;
                    assert(now.targets[i].info.id@ == st.active->0);
                } else {
                    assert(now.targets[now.targets.len() - 1].info.id@ == id@);
                }
            }
        }
        reply
    }

    /// Takes all targets out, for their workers to be stopped. It is the last thing that is done with
    /// the targets: the active one stays named although it is gone, so that what holds of the targets
    /// before does not hold after it; no request is handed to a worker any more.
    pub fn drain(&mut self) -> (r: Vec<Target>)
        ensures
            r@ == old(self)@.targets,
            final(self)@.targets == Seq::<Target>::empty(),
            final(self)@.active == old(self)@.active,
            final(self)@.next_id == old(self)@.next_id,
    {
        let mut out: Vec<Target> = Vec::new();
        out.append(&mut self.targets);
        out
    }
}

/// Why a file cannot be loaded, if it cannot.
pub open spec fn load_checked(
    st: RouterV,
    expanded: Seq<char>,
    exists: bool,
    canon_path: Seq<char>,
    db_identity: Seq<char>,
) -> Result<(), Seq<char>> {
    if !exists {
        Err("File not found: "@ + expanded)
    } else {
        match conflict_from(canon_path, db_identity, identities_of(st.targets), 0) {
            Some(c) => Err(expanded + ": "@ + c),
            None => Ok(()),
        }
    }
}

proof fn lemma_removed_keeps_inv(st: RouterV, at: int)
    requires
        st.inv(),
        0 <= at < st.targets.len(),
    ensures
        without_target(st, at).inv(),
{
    let now = without_target(st, at);
    let rest = now.targets;
    assert forall|i: int, j: int| 0 <= i < j < rest.len() implies apart(
        #[trigger] rest[i],
        #[trigger] rest[j],
    ) by {
        let a = if i < at { i } else { i + 1 };
        let b = if j < at { j } else { j + 1 };
        assert(rest[i] == st.targets[a] && rest[j] == st.targets[b]);
    }
    assert forall|i: int| 0 <= i < rest.len() implies given_out(
        (#[trigger] rest[i]).info.id@,
        now.next_id,
    ) by {
        let a = if i < at { i } else { i + 1 };
        assert(rest[i] == st.targets[a]);
    }
    let gone = st.targets[at].info.id@;
    if st.active == Some(gone) {
        if rest.len() > 0 {
            lemma_lowest_exists(ids_of(rest));
            let k = choose|k: int| is_lowest(ids_of(rest), k);
            assert(rest[k].info.id@ == now.active->0);
        }
    } else {
        let id = st.active->0;
        let i = choose|i: int| 0 <= i < st.targets.len() && (#[trigger] st.targets[i]).info.id@ == id;
        let k = if i < at { i } else { i - 1 };
        assert(rest[k] == st.targets[i]);
        assert(loaded(rest, id));
    }
}

proof fn lemma_lowest_exists(ids: Seq<Seq<char>>)
    requires
        ids.len() > 0,
    ensures
        exists|at: int| is_lowest(ids, at),
    decreases ids.len(),
{
    if ids.len() == 1 {
        assert(is_lowest(ids, 0));
    } else {
        let front = ids.drop_last();
        lemma_lowest_exists(front);
        let k = choose|k: int| is_lowest(front, k);
        if id_rank(ids.last()) < id_rank(ids[k]) {
            assert forall|j: int| 0 <= j < ids.len() - 1 implies id_rank(ids.last()) < id_rank(
                #[trigger] ids[j],
            ) by {
                assert(front[j] == ids[j]);
            }
            assert(is_lowest(ids, ids.len() - 1));
        } else {
            assert forall|j: int| 0 <= j < ids.len() implies id_rank(ids[k]) <= id_rank(
                #[trigger] ids[j],
            ) by {
                if j < ids.len() - 1 {
                    assert(front[j] == ids[j]);
                }
            }
            assert forall|j: int| 0 <= j < k implies id_rank(ids[k]) < id_rank(#[trigger] ids[j]) by {
                assert(front[j] == ids[j]);
            }
            assert(is_lowest(ids, k));
        }
    }
}

/// No request breaks what holds of the targets: unique IDs, inputs and databases, and an active
/// target that is loaded.
pub proof fn lemma_route_keeps_inv(
    st: RouterV,
    op: Seq<char>,
    p: JsonV,
    target: Option<Seq<char>>,
)
    ensures
        st.inv() ==> routed(st, op, p, target).0.inv(),
{
    if st.inv() && need_text(p, "id"@) is Ok {
        let sel = need_text(p, "id"@)->Ok_0;
        lemma_loaded_entries(st.targets);
        lemma_resolves_to_loaded(Some(sel), st.active, entries_of(st.targets));
        if resolved(Some(sel), st.active, entries_of(st.targets)) is Ok {
            let id = resolved(Some(sel), st.active, entries_of(st.targets))->Ok_0;
            let at = position_of(st.targets, id, 0);
            lemma_position(st.targets, id, 0);
            if at < st.targets.len() {
                lemma_removed_keeps_inv(st, at);
            }
        }
    }
}

/// An ID is that of a target if and only if it is that of its entry.
proof fn lemma_loaded_entries(targets: Seq<Target>)
    ensures
        forall|id: Seq<char>| #[trigger] loaded(targets, id) <==> has_id(entries_of(targets), id),
{
    let e = entries_of(targets);
    assert forall|id: Seq<char>| #[trigger] loaded(targets, id) <==> has_id(e, id) by {
        if loaded(targets, id) {
            let i = choose|i: int| 0 <= i < targets.len() && (#[trigger] targets[i]).info.id@ == id;
            assert(e[i].0 == id);
        }
        if has_id(e, id) {
            let i = choose|i: int| 0 <= i < e.len() && (#[trigger] e[i]).0 == id;
            assert(targets[i].info.id@ == id);
        }
    }
}

/// While targets are loaded and what holds of them holds, a request without a selector reaches the
/// active target, and no request is answered with "Target not found" or "No active target".
pub proof fn lemma_requests_find_their_target(st: RouterV, target: Option<Seq<char>>)
    requires
        st.inv(),
        st.targets.len() > 0,
    ensures
        resolved(target, st.active, entries_of(st.targets)) matches Ok(id) ==> (forwarding(
            st,
            target,
        ) matches RouteV::Forward { id: to, sock } && to == id),
        forwarding(st, None) matches RouteV::Forward { id, sock } && st.active == Some(id),
{
    lemma_loaded_entries(st.targets);
    lemma_resolves_to_loaded(target, st.active, entries_of(st.targets));
    lemma_resolves_to_loaded(None, st.active, entries_of(st.targets));
    let id = resolved(target, st.active, entries_of(st.targets));
    if id is Ok {
        lemma_position(st.targets, id->Ok_0, 0);
    }
    lemma_position(st.targets, st.active->0, 0);
}

/// After a close, no request reaches the closed target by its ID: the ID is no longer loaded.
pub proof fn lemma_closed_is_gone(st: RouterV, p: JsonV)
    requires
        st.inv(),
    ensures
        closed(st, p).1 matches RouteV::Stop { id, sock } ==> !loaded(closed(st, p).0.targets, id)
            && closed(st, p).0.targets.len() == st.targets.len() - 1,
{
    if closed(st, p).1 is Stop {
        let id = closed(st, p).1->Stop_id;
        let at = position_of(st.targets, id, 0);
        lemma_position(st.targets, id, 0);
        let rest = st.targets.remove(at);
        assert forall|i: int| 0 <= i < rest.len() implies (#[trigger] rest[i]).info.id@ != id by {
            let a = if i < at { i } else { i + 1 };
            assert(rest[i] == st.targets[a]);
            if a < at {
                assert(apart(st.targets[a], st.targets[at]));
            } else {
                assert(apart(st.targets[at], st.targets[a]));
            }
        }
    }
}

/// Where no target is loaded, no request is handed to a worker, whatever is named as active.
pub proof fn lemma_nothing_to_reach(st: RouterV, target: Option<Seq<char>>)
    requires
        st.targets.len() == 0,
    ensures
        forwarding(st, target) == RouteV::Reply(
            Err("No targets loaded. Use 'target load -f <path>' first."@),
        ),
{
}

/// An input that is loaded already, or one whose database is in use, is refused, whatever else is
/// loaded.
pub proof fn lemma_duplicate_refused(
    st: RouterV,
    i: int,
    expanded: Seq<char>,
    exists: bool,
    canon_path: Seq<char>,
    db_identity: Seq<char>,
)
    requires
        0 <= i < st.targets.len(),
        same_path(st.targets[i].canon_path@, canon_path) || same_path(
            st.targets[i].db_identity@,
            db_identity,
        ),
    ensures
        load_checked(st, expanded, exists, canon_path, db_identity) is Err,
{
    let known = identities_of(st.targets);
    if conflict_from(canon_path, db_identity, known, 0) is None {
        lemma_no_conflict(canon_path, db_identity, known, 0);
        assert(!same_path(known[i].1, canon_path));
    }
}

/// After a switch, requests without a selector reach the target that was switched to.
pub proof fn lemma_switch_takes_effect(st: RouterV, p: JsonV)
    requires
        st.inv(),
    ensures
        switched(st, p).1 matches RouteV::Reply(Ok(_)) ==> {
            &&& switched(st, p).0.active is Some
            &&& forwarding(switched(st, p).0, None) matches RouteV::Forward { id, sock }
            &&& switched(st, p).0.active == Some(forwarding(switched(st, p).0, None)->Forward_id)
        },
{
    let now = switched(st, p).0;
    if switched(st, p).1 is Reply && switched(st, p).1->Reply_0 is Ok {
        let sel = need_text(p, "id"@)->Ok_0;
        lemma_route_keeps_inv(st, "target.switch"@, p, None);
        lemma_loaded_entries(st.targets);
        lemma_resolves_to_loaded(Some(sel), st.active, entries_of(st.targets));
        lemma_position(st.targets, now.active->0, 0);
    }
}

/// A close leaves the other targets and the IDs that were given out as they are, and the active one
/// too, unless that is the one that was closed: then the lowest-numbered of the others is active.
pub proof fn lemma_close_leaves_the_rest(st: RouterV, p: JsonV)
    requires
        st.inv(),
    ensures
        closed(st, p).1 matches RouteV::Stop { id, sock } ==> {
            let now = closed(st, p).0;
            &&& now.next_id == st.next_id
            &&& st.active != Some(id) ==> now.active == st.active
            &&& st.active == Some(id) ==> now.active == lowest_of(ids_of(now.targets))
            &&& forall|i: int|
                0 <= i < st.targets.len() && (#[trigger] st.targets[i]).info.id@ != id
                    ==> now.targets.contains(st.targets[i])
        },
        !(closed(st, p).1 is Stop) ==> closed(st, p).0 == st,
{
    if closed(st, p).1 is Stop {
        let id = closed(st, p).1->Stop_id;
        let at = position_of(st.targets, id, 0);
        lemma_position(st.targets, id, 0);
        let rest = st.targets.remove(at);
        assert forall|i: int|
            0 <= i < st.targets.len() && (#[trigger] st.targets[i]).info.id@ != id implies rest.contains(
            st.targets[i],
        ) by {
            let b = if i < at {
                i
            } else {
                i - 1
            };
            assert(rest[b] == st.targets[i]);
        }
    }
}

// ---------------------------------------------------------------------------
// Workers
// ---------------------------------------------------------------------------

/// The parameters of the load that a fresh worker is asked for.
pub open spec fn worker_load_params(
    expanded: Seq<char>,
    auto_analyse: bool,
    idb_out: Option<Seq<char>>,
) -> FieldsV {
    no_fields().insert("path"@, text_v(expanded)).insert(
        "auto_analyse"@,
        JsonV::Bool(auto_analyse),
    ).insert("idb_out"@, opt_text_v(idb_out))
}

/// The request to load a target, as a fresh worker gets it.
pub fn worker_load_request(
    id: &str,
    expanded: &str,
    auto_analyse: bool,
    idb_out: &Option<String>,
) -> (r: Request)
    ensures
        r.id@ == id@,
        r.op@ == "target.load"@,
        r.params@ == JsonV::Obj(worker_load_params(expanded@, auto_analyse, opt_view(*idb_out))),
        r.target is None,
{
    let mut o = JsonObject::new();
    o.put("path", Json::text(expanded));
    o.put("auto_analyse", Json::Bool(auto_analyse));
    o.put("idb_out", Json::opt_text(idb_out));
    Request {
        id: id.to_owned(),
        op: "target.load".to_owned(),
        params: Json::Object(o),
        target: None,
    }
}

/// A worker takes from the request to load what the router was asked for, with the expanded path.
pub proof fn lemma_worker_load_understood(
    expanded: Seq<char>,
    auto_analyse: bool,
    idb_out: Option<Seq<char>>,
)
    ensures
        load_asked(JsonV::Obj(worker_load_params(expanded, auto_analyse, idb_out))) == (
        RouteV::Load { path: expanded, auto_analyse, idb_out }),
{
    reveal_strlit("path");
    reveal_strlit("auto_analyse");
    reveal_strlit("idb_out");
    assert("path"@.len() != "auto_analyse"@.len());
    assert("path"@.len() != "idb_out"@.len());
    assert("auto_analyse"@.len() != "idb_out"@.len());
}

/// The request as the worker of its target gets it: the worker has one target only.
pub fn forwarded(req: &Request) -> (r: Request)
    ensures
        r.id@ == req.id@,
        r.op@ == req.op@,
        r.params@ == req.params@,
        r.target is None,
{
    Request { id: req.id.clone(), op: req.op.clone(), params: req.params.copy(), target: None }
}

/// The answer to a request to close a target, once its worker has stopped.
pub fn closed_reply(id: &str) -> (r: Json)
    ensures
        r@ == JsonV::Obj(no_fields().insert("closed"@, text_v(id@))),
{
    one_field("closed", Json::text(id))
}

/// The request that asks a worker to stop.
pub fn stop_request() -> (r: Request)
    ensures
        r.id@ == "router-shutdown"@,
        r.op@ == "shutdown"@,
        r.params@ == JsonV::Obj(no_fields()),
        r.target is None,
{
    Request {
        id: "router-shutdown".to_owned(),
        op: "shutdown".to_owned(),
        params: Json::Object(JsonObject::new()),
        target: None,
    }
}

/// What is answered once the worker of a target has answered, or has not.
pub open spec fn worker_answer(
    id: Seq<char>,
    outcome: Result<ResponseV, Seq<char>>,
) -> Result<JsonV, Seq<char>> {
    match outcome {
        Ok(resp) => if resp.ok {
            Ok(
                match resp.result {
                    Some(v) => v,
                    None => JsonV::Null,
                },
            )
        } else {
            Err(
                match resp.error {
                    Some(e) => e,
                    None => "worker error"@,
                },
            )
        },
        Err(e) => Err("worker for target "@ + id + ": "@ + e),
    }
}

/// What a worker answered.
pub open spec fn outcome_view(r: Result<Response, String>) -> Result<ResponseV, Seq<char>> {
    match r {
        Ok(resp) => Ok(resp@),
        Err(e) => Err(e@),
    }
}

/// What is answered once the worker of a target has answered, or has not.
pub fn relay(id: &str, outcome: Result<Response, String>) -> (r: Result<Json, String>)
    ensures
        match r {
            Ok(v) => worker_answer(id@, outcome_view(outcome)) == Ok::<JsonV, Seq<char>>(v@),
            Err(e) => worker_answer(id@, outcome_view(outcome)) == Err::<JsonV, Seq<char>>(e@),
        },
{
    match outcome {
        Ok(resp) => if resp.ok {
            match resp.result {
                Some(v) => Ok(v),
                None => Ok(Json::Null),
            }
        } else {
            match resp.error {
                Some(e) => Err(e),
                None => Err("worker error".to_owned()),
            }
        },
        Err(e) => {
            let mut m = "worker for target ".to_owned();
            m.push_str(id);
            m.push_str(": ");
            m.push_str(e.as_str());
            Err(m)
        },
    }
}

/// What a fresh worker found, or why the load failed.
pub open spec fn load_answer(outcome: Result<ResponseV, Seq<char>>) -> Result<JsonV, Seq<char>> {
    match outcome {
        Ok(resp) => if !resp.ok {
            Err(
                match resp.error {
                    Some(e) => e,
                    None => "worker load failed"@,
                },
            )
        } else {
            match resp.result {
                Some(v) => Ok(v),
                None => Err("worker load returned no result"@),
            }
        },
        Err(e) => Err(e),
    }
}

/// What a fresh worker found, or why the load failed. In the second case the worker has to go.
pub fn worker_load_handshake(outcome: Result<Response, String>) -> (r: Result<Json, String>)
    ensures
        match r {
            Ok(v) => load_answer(outcome_view(outcome)) == Ok::<JsonV, Seq<char>>(v@),
            Err(e) => load_answer(outcome_view(outcome)) == Err::<JsonV, Seq<char>>(e@),
        },
{
    match outcome {
        Ok(resp) => if !resp.ok {
            match resp.error {
                Some(e) => Err(e),
                None => Err("worker load failed".to_owned()),
            }
        } else {
            match resp.result {
                Some(v) => Ok(v),
                None => Err("worker load returned no result".to_owned()),
            }
        },
        Err(e) => Err(e),
    }
}

/// The error that a failed load is answered with.
pub fn load_failed(e: &str) -> (r: String)
    ensures
        r@ == "load failed: "@ + e@,
{
    let mut m = "load failed: ".to_owned();
    m.push_str(e);
    m
}

/// How long a worker has for an operation: the seconds that the setting gives, if it gives a
/// number, else the default.
pub open spec fn op_secs(setting: Option<Seq<char>>) -> u64 {
    match setting {
        Some(s) => match parsed(s, 10) {
            Some(n) => n,
            None => WORKER_OP_TIMEOUT_SECS,
        },
        None => WORKER_OP_TIMEOUT_SECS,
    }
}

/// How long a worker has for an operation, in seconds.
pub fn op_timeout(setting: &Option<String>) -> (r: u64)
    ensures
        r == op_secs(opt_view(*setting)),
{
    match setting {
        Some(s) => match parse_digits(s.as_str(), 10) {
            Some(n) => n,
            None => WORKER_OP_TIMEOUT_SECS,
        },
        None => WORKER_OP_TIMEOUT_SECS,
    }
}

/// What to do next while a worker comes up.
#[derive(Clone, Copy, Debug, PartialEq, Eq, Structural)]
pub enum WorkerBoot {
    /// It accepts connections.
    Up,
    /// It has exited.
    Exited,
    /// The time is over: kill it.
    Kill,
    /// Try again after a pause.
    Wait,
}

/// What to do next while a worker comes up: a connection counts before an exit, and an exit before
/// the deadline.
pub fn worker_boot_step(connected: bool, exited: bool, waited_millis: u64) -> (r: WorkerBoot)
    ensures
        connected ==> r == WorkerBoot::Up,
        !connected && exited ==> r == WorkerBoot::Exited,
        !connected && !exited ==> r == (if waited_millis >= WORKER_BOOT_TIMEOUT_SECS * 1000 {
            WorkerBoot::Kill
        } else {
            WorkerBoot::Wait
        }),
        r == booting(connected, exited, waited_millis),
{
    if connected {
        WorkerBoot::Up
    } else if exited {
        WorkerBoot::Exited
    } else if waited_millis >= WORKER_BOOT_TIMEOUT_SECS * 1000 {
        WorkerBoot::Kill
    } else {
        WorkerBoot::Wait
    }
}

/// Whether a file among the workers' files is a socket.
pub fn is_worker_socket(path: &str) -> (r: bool)
    ensures
        r == (extension_of(path@) == Some("sock"@)),
{
    match extension(path) {
        Some(ext) => same(ext.as_str(), "sock"),
        None => false,
    }
}

// ---------------------------------------------------------------------------
// The registry
// ---------------------------------------------------------------------------

/// What the registry says of a daemon.
pub open spec fn registry_fields(
    pid: nat,
    socket: Seq<char>,
    started_at: nat,
    version: Seq<char>,
) -> FieldsV {
    no_fields().insert("pid"@, number_v(pid)).insert("socket"@, text_v(socket)).insert(
        "started_at"@,
        number_v(started_at),
    ).insert("version"@, text_v(version))
}

/// What the registry says of a daemon.
pub fn registry_value(pid: u32, socket: &str, started_at: u64, version: &str) -> (r: Json)
    ensures
        r@ == JsonV::Obj(
            registry_fields(pid as nat, socket@, started_at as nat, version@),
        ),
{
    let mut o = JsonObject::new();
    o.put("pid", Json::number(pid as u64));
    o.put("socket", Json::text(socket));
    o.put("started_at", Json::number(started_at));
    o.put("version", Json::text(version));
    Json::Object(o)
}

/// What a target is told apart by: the database that a raw binary makes, else the input itself.
pub fn database_identity(canon_path: &str, canon_out: &Option<String>) -> (r: String)
    ensures
        r@ == (match opt_view(*canon_out) {
            Some(out) => out,
            None => canon_path@,
        }),
        r@ == identity_of(canon_path@, opt_view(*canon_out)),
{
    match canon_out {
        Some(out) => out.clone(),
        None => canon_path.to_owned(),
    }
}

/// Why a second daemon does not start; the registry of the first one may name its process.
pub open spec fn already_running(registry: Option<JsonV>) -> Seq<char> {
    let pid = match registry {
        Some(v) => match field(v, "pid"@) {
            Some(n) => unsigned_in(n),
            None => None,
        },
        None => None,
    };
    let hint = match pid {
        Some(n) => " (pid "@ + decimal(n as nat) + ")"@,
        None => seq![],
    };
    "Daemon is already running"@ + hint + ". Use 'ida-rs-cli daemon stop' first."@
}

/// Why a second daemon does not start.
pub fn already_running_message(registry: &Option<Json>) -> (r: String)
    ensures
        r@ == already_running(opt_json(*registry)),
{
    let pid: Option<u64> = match registry {
        Some(v) => match v.get("pid") {
            Some(n) => n.as_u64(),
            None => None,
        },
        None => None,
    };
    let mut hint = String::new();
    if let Some(n) = pid {
        hint.push_str(" (pid ");
        hint.push_str(decimal_text(n).as_str());
        hint.push_str(")");
        assert(hint@ =~= " (pid "@ + decimal(n as nat) + ")"@);
    } else {
        assert(hint@ =~= seq![]);
    }
    let mut m = "Daemon is already running".to_owned();
    m.push_str(hint.as_str());
    m.push_str(". Use 'ida-rs-cli daemon stop' first.");
    m
}

/// What the contents of a registry file say; nothing where there is no file, or one that cannot be
/// read.
pub open spec fn registry_in(contents: Option<Seq<char>>) -> Option<JsonV> {
    match contents {
        Some(text) => json_in(text),
        None => None,
    }
}

/// What the contents of a registry file say. A file that cannot be read is no error.
pub fn read_registry(contents: &Option<String>) -> (r: Option<Json>)
    ensures
        opt_json(r) == registry_in(opt_view(*contents)),
{
    match contents {
        Some(text) => read_json(text.as_str()),
        None => None,
    }
}

/// What a registry file holds: its contents read back as the description of the daemon.
pub fn registry_text(pid: u32, socket: &str, started_at: u64, version: &str) -> (r: String)
    ensures
        ({
            let about = JsonV::Obj(
                registry_fields(pid as nat, socket@, started_at as nat, version@),
            );
            r@ == pretty_of(about) && registry_in(Some(r@)) == Some(about)
        }),
{
    let about = registry_value(pid, socket, started_at, version);
    assert(plain_within(about@, 100)) by {
        assert forall|k: Seq<char>| about@->Obj_0.dom().contains(k) implies plain_within(
            #[trigger] about@->Obj_0[k],
            99,
        ) by {}
    }
    pretty_json(&about)
}

/// A daemon that does not start next to one that answers says which process that is, where the
/// registry is the one that the other wrote.
pub proof fn lemma_registry_names_process(
    pid: u32,
    socket: Seq<char>,
    started_at: nat,
    version: Seq<char>,
)
    ensures
        already_running(
            Some(JsonV::Obj(registry_fields(pid as nat, socket, started_at, version))),
        ) == "Daemon is already running"@ + (" (pid "@ + decimal(pid as nat) + ")"@)
            + ". Use 'ida-rs-cli daemon stop' first."@,
{
    reveal_strlit("pid");
    reveal_strlit("socket");
    reveal_strlit("started_at");
    reveal_strlit("version");
    assert("pid"@.len() == 3 && "socket"@.len() == 6 && "started_at"@.len() == 10 && "version"@.len()
        == 7);
}

/// Why a daemon does not start next to one that answers, given the contents of its registry file.
pub fn ensure_single_instance(contents: &Option<String>) -> (r: String)
    ensures
        r@ == already_running(registry_in(opt_view(*contents))),
{
    already_running_message(&read_registry(contents))
}

// ---------------------------------------------------------------------------
// Conversions
// ---------------------------------------------------------------------------

/// The signed reading of a word is the word itself below the top bit, and the
/// word less two to the power of 64 from there on. So it tells every two words
/// apart, and one word more is one more but at the top.
pub proof fn lemma_signed_reading(n: u64, other: u64)
    ensures
        n <= 0x7fff_ffff_ffff_ffff ==> as_signed(n) as int == n,
        n > 0x7fff_ffff_ffff_ffff ==> as_signed(n) as int + 0x1_0000_0000_0000_0000 == n,
        as_signed(n) == as_signed(other) ==> n == other,
        as_signed(n) < 0 <==> n > 0x7fff_ffff_ffff_ffff,
{
}

/// The answer to a conversion holds the number itself, its text in four
/// radixes, each of which reads back as the number, and its signed reading.
pub proof fn lemma_conversion_fields(n: u64)
    ensures
        converted(n)["decimal"@] == JsonV::Num(NumV::Unsigned(n)),
        converted(n)["hex"@] == JsonV::Str("0x"@ + digits(n as nat, 16)),
        converted(n)["octal"@] == JsonV::Str("0o"@ + digits(n as nat, 8)),
        converted(n)["binary"@] == JsonV::Str("0b"@ + digits(n as nat, 2)),
        n <= 0x7fff_ffff_ffff_ffff ==> converted(n)["signed"@] == JsonV::Num(NumV::Unsigned(n)),
        n > 0x7fff_ffff_ffff_ffff ==> (converted(n)["signed"@] matches JsonV::Num(
            NumV::Negative(i),
        ) && i as int + 0x1_0000_0000_0000_0000 == n),
{
    reveal_strlit("decimal");
    reveal_strlit("hex");
    reveal_strlit("octal");
    reveal_strlit("binary");
    reveal_strlit("signed");
    assert("decimal"@.len() == 7);
    assert("hex"@.len() == 3);
    assert("octal"@.len() == 5);
    assert("binary"@.len() == 6);
    assert("signed"@.len() == 6);
    assert("signed"@[0] == 's');
    assert("binary"@[0] == 'b');
}

/// A text that is no number is refused, and named in the refusal; one that is a
/// number is converted, whichever way it is written.
pub proof fn lemma_conversion_reads_the_value(s: Seq<char>, m: FieldsV)
    requires
        m.dom().contains("value"@),
        m["value"@] == JsonV::Str(s),
    ensures
        integer(s) is Some ==> conversion(JsonV::Obj(m)) == Ok::<JsonV, Seq<char>>(
            JsonV::Obj(converted(integer(s)->0)),
        ),
        integer(s) is None ==> conversion(JsonV::Obj(m)) == Err::<JsonV, Seq<char>>(
            "Invalid address: "@ + trimmed(s),
        ),
{
}

// ---------------------------------------------------------------------------
// What requests do to the targets
// ---------------------------------------------------------------------------

/// A file that is there loads where no target has its input and none has its
/// database; a file that is not there never does.
pub proof fn lemma_new_target_loads(
    st: RouterV,
    expanded: Seq<char>,
    canon_path: Seq<char>,
    db_identity: Seq<char>,
)
    requires
        forall|i: int|
            0 <= i < st.targets.len() ==> !same_path((#[trigger] st.targets[i]).canon_path@, canon_path)
                && !same_path(st.targets[i].db_identity@, db_identity),
    ensures
        load_checked(st, expanded, true, canon_path, db_identity) == Ok::<(), Seq<char>>(()),
        load_checked(st, expanded, false, canon_path, db_identity) == Err::<(), Seq<char>>(
            "File not found: "@ + expanded,
        ),
{
    let all = identities_of(st.targets);
    assert forall|i: int| 0 <= i < all.len() implies !same_path((#[trigger] all[i]).1, canon_path)
        && !same_path(all[i].2, db_identity) by {
        assert(!same_path(st.targets[i].canon_path@, canon_path));
    }
    lemma_only_duplicates_conflict(canon_path, db_identity, all, 0);
}

/// Resolved paths that differ do not stand in each other's way: a file loads
/// exactly where no target has the same input text and none the same database
/// text, wherever the files stand.
pub proof fn lemma_other_file_loads(
    st: RouterV,
    expanded: Seq<char>,
    canon_path: Seq<char>,
    db_identity: Seq<char>,
)
    requires
        is_plain(canon_path) && is_plain(db_identity),
        forall|i: int|
            0 <= i < st.targets.len() ==> is_plain((#[trigger] st.targets[i]).canon_path@)
                && is_plain(st.targets[i].db_identity@),
    ensures
        load_checked(st, expanded, true, canon_path, db_identity) is Ok <==> forall|i: int|
            0 <= i < st.targets.len() ==> (#[trigger] st.targets[i]).canon_path@ != canon_path
                && st.targets[i].db_identity@ != db_identity,
{
    let all = identities_of(st.targets);
    assert forall|i: int| 0 <= i < all.len() implies is_plain((#[trigger] all[i]).1) && is_plain(
        all[i].2,
    ) by {
        assert(is_plain(st.targets[i].canon_path@));
    }
    lemma_other_files_do_not_conflict(canon_path, db_identity, all);
    if load_checked(st, expanded, true, canon_path, db_identity) is Ok {
        assert forall|i: int| 0 <= i < st.targets.len() implies (
        #[trigger] st.targets[i]).canon_path@ != canon_path && st.targets[i].db_identity@
            != db_identity by {
            assert(all[i].1 != canon_path && all[i].2 != db_identity);
        }
    } else {
        let i = choose|i: int|
            0 <= i < all.len() && !((#[trigger] all[i]).1 != canon_path && all[i].2 != db_identity);
        assert(!(st.targets[i].canon_path@ != canon_path && st.targets[i].db_identity@
            != db_identity));
    }
}

/// A switch to the ID of a loaded target makes that one active, says so, and
/// changes nothing else.
pub proof fn lemma_switch_to_a_target(st: RouterV, m: FieldsV, at: int)
    requires
        0 <= at < st.targets.len(),
        m.dom().contains("id"@),
        m["id"@] == JsonV::Str(st.targets[at].info.id@),
        st.targets[at].info.id@.len() > 0,
        st.targets[at].info.id@ != "active"@,
    ensures
        switched(st, JsonV::Obj(m)).0 == (RouterV {
            active: Some(st.targets[at].info.id@),
            targets: st.targets,
            next_id: st.next_id,
        }),
        switched(st, JsonV::Obj(m)).1 matches RouteV::Reply(Ok(JsonV::Obj(answer)))
            && answer["active"@] == JsonV::Str(st.targets[at].info.id@),
{
    let e = entries_of(st.targets);
    assert(e[at].0 == st.targets[at].info.id@);
    assert(has_id(e, st.targets[at].info.id@));
}

/// A close of the ID of a loaded target takes that one out and stops its
/// worker; the others stay in their order. Where it was active, the one with
/// the lowest number that is left becomes active, and where none is left,
/// none is.
#[verifier::rlimit(50)]
pub proof fn lemma_close_of_a_target(st: RouterV, m: FieldsV, at: int)
    requires
        st.inv(),
        0 <= at < st.targets.len(),
        m.dom().contains("id"@),
        m["id"@] == JsonV::Str(st.targets[at].info.id@),
    ensures
        ({
            let id = st.targets[at].info.id@;
            let now = closed(st, JsonV::Obj(m)).0;
            &&& closed(st, JsonV::Obj(m)).1 == (RouteV::Stop { id, sock: st.targets[at].sock@ })
            &&& now.targets == st.targets.take(at) + st.targets.skip(at + 1)
            &&& now.next_id == st.next_id
            &&& st.active != Some(id) ==> now.active == st.active
            &&& st.targets.len() == 1 ==> now.active is None
            &&& st.active == Some(id) && st.targets.len() > 1 ==> exists|k: int|
                0 <= k < now.targets.len() && now.active == Some(
                    (#[trigger] now.targets[k]).info.id@,
                ) && forall|j: int|
                    0 <= j < now.targets.len() ==> id_number(now.targets[k].info.id@)->0
                        <= id_number((#[trigger] now.targets[j]).info.id@)->0
        }),
{
    let id = st.targets[at].info.id@;
    let e = entries_of(st.targets);
    assert(given_out(id, st.next_id));
    lemma_no_id_is_active(id, st.next_id);
    assert(e[at].0 == id);
    assert(has_id(e, id));
    lemma_position(st.targets, id, 0);
    let p = position_of(st.targets, id, 0);
    assert(p == at) by {
        if p < at {
            assert(apart(st.targets[p], st.targets[at]));
        } else if p > at {
            if p < st.targets.len() {
                assert(apart(st.targets[at], st.targets[p]));
            } else {
                assert(st.targets[at].info.id@ != id);
            }
        }
    }
    let now = closed(st, JsonV::Obj(m)).0;
    let rest = st.targets.remove(at);
    assert(rest =~= st.targets.take(at) + st.targets.skip(at + 1));
    if st.targets.len() == 1 {
        assert(st.active == Some(id)) by {
            let i = choose|i: int|
                0 <= i < st.targets.len() && (#[trigger] st.targets[i]).info.id@ == st.active->0;
            assert(i == at);
        }
    }
    if st.active == Some(id) && st.targets.len() > 1 {
        let ids = ids_of(rest);
        lemma_lowest_exists(ids);
        let k = choose|k: int| is_lowest(ids, k);
        assert(now.targets[k].info.id@ == ids[k]);
        assert forall|j: int| 0 <= j < now.targets.len() implies id_number(
            now.targets[k].info.id@,
        )->0 <= id_number((#[trigger] now.targets[j]).info.id@)->0 by {
            assert(id_rank(ids[k]) <= id_rank(ids[j]));
            lemma_left_was_there(st.targets, at, j);
            lemma_left_was_there(st.targets, at, k);
            let a = if j < at { j } else { j + 1 };
            let b = if k < at { k } else { k + 1 };
            assert(given_out(st.targets[a].info.id@, st.next_id));
            assert(given_out(st.targets[b].info.id@, st.next_id));
        }
    }
}

proof fn lemma_left_was_there(targets: Seq<Target>, at: int, j: int)
    requires
        0 <= at < targets.len(),
        0 <= j < targets.len() - 1,
    ensures
        targets.remove(at)[j] == targets[if j < at { j } else { j + 1 }],
{
}

proof fn lemma_no_id_is_active(id: Seq<char>, next_id: u64)
    requires
        given_out(id, next_id),
    ensures
        id.len() > 0,
        id != "active"@,
{
    reveal_strlit("active");
    assert(id[0] == 't');
    assert("active"@[0] == 'a');
}

/// A request for a target goes to the worker of that target, and to no other.
pub proof fn lemma_forwarded_to_its_worker(st: RouterV, at: int, target: Option<Seq<char>>)
    requires
        st.inv(),
        0 <= at < st.targets.len(),
        target == Some(st.targets[at].info.id@) || target is None && st.active == Some(
            st.targets[at].info.id@,
        ),
    ensures
        forwarding(st, target) == (RouteV::Forward {
            id: st.targets[at].info.id@,
            sock: st.targets[at].sock@,
        }),
{
    let id = st.targets[at].info.id@;
    let e = entries_of(st.targets);
    assert(given_out(id, st.next_id));
    lemma_no_id_is_active(id, st.next_id);
    assert(e[at].0 == id);
    assert(has_id(e, id));
    lemma_position(st.targets, id, 0);
    let p = position_of(st.targets, id, 0);
    if p < at {
        assert(apart(st.targets[p], st.targets[at]));
    } else if p > at {
        if p < st.targets.len() {
            assert(apart(st.targets[at], st.targets[p]));
        } else {
            assert(st.targets[at].info.id@ != id);
        }
    }
}

/// Only a switch and a close change anything: every other request leaves the
/// targets, the active one and the numbers as they are.
pub proof fn lemma_other_requests_change_nothing(
    st: RouterV,
    op: Seq<char>,
    p: JsonV,
    target: Option<Seq<char>>,
)
    requires
        op != "target.switch"@,
        op != "target.close"@,
    ensures
        routed(st, op, p, target).0 == st,
{
}

/// A ping is answered with the number of targets.
pub proof fn lemma_pong_counts(count: u64)
    ensures
        pong(count as nat) matches JsonV::Obj(m) && m["pong"@] == JsonV::Bool(true) && m["targets"@]
            == JsonV::Num(NumV::Unsigned(count)),
{
    reveal_strlit("pong");
    reveal_strlit("targets");
    assert("pong"@.len() == 4);
    assert("targets"@.len() == 7);
}

/// The list names every target once, in the order of their numbers, and the
/// active one.
pub proof fn lemma_listing(st: RouterV)
    ensures
        listing(st) matches JsonV::Obj(m) && (st.active matches Some(id) ==> m["active"@]
            == JsonV::Str(id)) && (st.active is None ==> m["active"@] == JsonV::Null) && (
        m["targets"@] matches JsonV::Arr(items) && items.len() == st.targets.len() && exists|
            order: Seq<TargetInfoV>,
        |
            #![trigger order.to_multiset()]
            order.to_multiset() == infos_of(st.targets).to_multiset() && items == order.map_values(
                |t: TargetInfoV| JsonV::Obj(info_fields(t)),
            ) && forall|i: int, j: int|
                0 <= i <= j < order.len() ==> id_rank((#[trigger] order[i]).id) <= id_rank(
                    (#[trigger] order[j]).id,
                )),
{
    let order = by_number(infos_of(st.targets));
    lemma_by_number(infos_of(st.targets));
    assert(order.to_multiset() == infos_of(st.targets).to_multiset());
    assert(listing(st)->Obj_0["active"@] == opt_text_v(st.active) && listing(st)->Obj_0["targets"@]
        == JsonV::Arr(order.map_values(|t: TargetInfoV| JsonV::Obj(info_fields(t))))) by {
        reveal_strlit("targets");
        reveal_strlit("active");
        assert("targets"@.len() == 7);
        assert("active"@.len() == 6);
    }
}

/// What a worker answers reaches the caller as it is, a result as a result and
/// an error as an error; so does what it answers to a load.
pub proof fn lemma_answers_pass_through(
    id: Seq<char>,
    request: Seq<char>,
    outcome: Result<JsonV, Seq<char>>,
)
    ensures
        worker_answer(id, Ok(answer(request, outcome))) == outcome,
        load_answer(Ok(answer(request, outcome))) == outcome,
{
}

/// A worker that cannot be reached is an error that names the target.
pub proof fn lemma_lost_worker_is_an_error(id: Seq<char>, e: Seq<char>)
    ensures
        worker_answer(id, Err(e)) == Err::<JsonV, Seq<char>>(
            "worker for target "@ + id + ": "@ + e,
        ),
        load_answer(Err(e)) == Err::<JsonV, Seq<char>>(e),
{
}

/// A time limit that is set to a number is that number of seconds; one that is
/// not set, or set to anything else, is ten minutes.
pub proof fn lemma_time_limit_setting(n: u64, s: Seq<char>)
    ensures
        op_secs(Some(decimal(n as nat))) == n,
        op_secs(None) == 600,
        parsed(s, 10) is None ==> op_secs(Some(s)) == 600,
{
    lemma_parse_written(n, 10);
}

/// What the registry holds of a daemon, each under its own name.
pub proof fn lemma_registry_fields(pid: u64, socket: Seq<char>, started_at: u64, version: Seq<char>)
    ensures
        registry_fields(pid as nat, socket, started_at as nat, version)["pid"@] == JsonV::Num(
            NumV::Unsigned(pid),
        ),
        registry_fields(pid as nat, socket, started_at as nat, version)["socket"@] == JsonV::Str(
            socket,
        ),
        registry_fields(pid as nat, socket, started_at as nat, version)["started_at"@]
            == JsonV::Num(NumV::Unsigned(started_at)),
        registry_fields(pid as nat, socket, started_at as nat, version)["version"@] == JsonV::Str(
            version,
        ),
{
    reveal_strlit("pid");
    reveal_strlit("socket");
    reveal_strlit("started_at");
    reveal_strlit("version");
    assert("pid"@.len() == 3);
    assert("socket"@.len() == 6);
    assert("started_at"@.len() == 10);
    assert("version"@.len() == 7);
}

/// A load takes its path as it is given; it waits for the analysis unless it
/// is told not to, and names a database only where it is given one.
pub proof fn lemma_load_parameters(m: FieldsV, path: Seq<char>)
    requires
        m.dom().contains("path"@),
        m["path"@] == JsonV::Str(path),
    ensures
        load_asked(JsonV::Obj(m)) matches RouteV::Load { path: asked, auto_analyse, idb_out }
            && asked == path && (!m.dom().contains("auto_analyse"@) ==> auto_analyse) && (
        m.dom().contains("auto_analyse"@) && m["auto_analyse"@] is Bool ==> auto_analyse
            == m["auto_analyse"@]->Bool_0) && (!m.dom().contains("idb_out"@) ==> idb_out is None)
            && (m.dom().contains("idb_out"@) && m["idb_out"@] is Str ==> idb_out == Some(
            m["idb_out"@]->Str_0,
        )),
{
}

/// What is done with a worker that comes up.
pub open spec fn booting(connected: bool, exited: bool, waited_millis: u64) -> WorkerBoot {
    if connected {
        WorkerBoot::Up
    } else if exited {
        WorkerBoot::Exited
    } else if waited_millis < 30_000 {
        WorkerBoot::Wait
    } else {
        WorkerBoot::Kill
    }
}

/// A worker that accepts connections is up, however long it took. One that does
/// not is waited for while it runs, half a minute at most, and killed after that.
pub proof fn lemma_boot_of_a_worker(connected: bool, exited: bool, waited_millis: u64)
    ensures
        booting(connected, exited, waited_millis) == WorkerBoot::Up <==> connected,
        booting(connected, exited, waited_millis) == WorkerBoot::Exited <==> !connected && exited,
        booting(connected, exited, waited_millis) == WorkerBoot::Kill <==> !connected && !exited
            && waited_millis >= 30 * 1000,
        booting(connected, exited, waited_millis) == WorkerBoot::Wait <==> !connected && !exited
            && waited_millis < 30 * 1000,
{
}

/// What a target is told apart by.
pub open spec fn identity_of(canon_path: Seq<char>, canon_out: Option<Seq<char>>) -> Seq<char> {
    match canon_out {
        Some(out) => out,
        None => canon_path,
    }
}

/// A raw binary is told apart by the database that it makes, so that two binaries
/// with one database stand in each other's way; a database by itself.
pub proof fn lemma_identities(a: Seq<char>, b: Seq<char>, out: Seq<char>)
    ensures
        identity_of(a, Some(out)) == identity_of(b, Some(out)),
        identity_of(a, None) == a,
        identity_of(a, Some(out)) == out,
{
}

/// What the router does itself: it answers a ping with the number of targets,
/// converts numbers, loads, lists, switches and closes targets and shuts down.
/// Every other operation goes to the target that it is for.
pub proof fn lemma_operations_of_the_router(
    st: RouterV,
    op: Seq<char>,
    p: JsonV,
    target: Option<Seq<char>>,
)
    ensures
        routed(st, "ping"@, p, target).1 == RouteV::Reply(Ok(pong(st.targets.len()))),
        routed(st, "int_convert"@, p, target).1 == RouteV::Reply(conversion(p)),
        routed(st, "target.load"@, p, target).1 == load_asked(p),
        routed(st, "target.list"@, p, target).1 == RouteV::Reply(Ok(listing(st))),
        routed(st, "target.switch"@, p, target) == switched(st, p),
        routed(st, "target.close"@, p, target) == closed(st, p),
        routed(st, "shutdown"@, p, target).1 matches RouteV::Reply(Ok(_)),
        op != "ping"@ && op != "shutdown"@ && op != "int_convert"@ && op != "target.load"@ && op
            != "target.list"@ && op != "target.switch"@ && op != "target.close"@ ==> routed(
            st,
            op,
            p,
            target,
        ).1 == forwarding(st, target),
{
    reveal_strlit("ping");
    reveal_strlit("shutdown");
    reveal_strlit("int_convert");
    reveal_strlit("target.load");
    reveal_strlit("target.list");
    reveal_strlit("target.switch");
    reveal_strlit("target.close");
    assert("ping"@.len() == 4);
    assert("shutdown"@.len() == 8);
    assert("int_convert"@.len() == 11);
    assert("target.load"@.len() == 11);
    assert("target.list"@.len() == 11);
    assert("target.switch"@.len() == 13);
    assert("target.close"@.len() == 12);
    assert("target.load"@[0] == 't');
    assert("int_convert"@[0] == 'i');
    assert("target.list"@[0] == 't');
    assert("target.list"@[8] == 'i');
    assert("target.load"@[8] == 'o');
}

} // verus!
