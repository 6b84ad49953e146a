//! The targets of one process, and what a request does with them.

use crate::dispatch::{
    analysis_call, bool_or, need_text, param_bool, param_opt_str, param_str, plan_analysis, Call,
    CallV,
};
use crate::json::{
    no_fields, opt_text_v, text_field, text_v, values_of, FieldsV, Json, JsonObject, JsonV,
};
use crate::numbers::{decimal, decimal_text};
use crate::output::Opened;
use crate::paths::{
    database_output, effective_idb_out, expand_path, expanded_path, file_name, file_name_of,
    is_idb_path, is_name, join_of, lemma_join_names, names_database,
};
use crate::protocol::Request;
use crate::router::{conversion, int_convert, list_views, pong};
use crate::targets::{
    bits_of, entry_views, id_number, id_of, info_fields, lemma_id_number, resolve_selector, resolved,
    word_bits, EntryV, TargetInfo, TargetInfoV,
};
use crate::text::{opt_view, same};
use vstd::prelude::*;

verus! {

/// Manages the loaded targets of one process.
#[derive(Debug)]
pub struct TargetManager {
    pub records: Vec<TargetInfo>,
    pub active: Option<String>,
    pub next_id: u64,
}

/// What a [`TargetManager`] is.
pub struct ManagerV {
    pub records: Seq<TargetInfoV>,
    pub active: Option<Seq<char>>,
    pub next_id: u64,
}

impl View for TargetManager {
    type V = ManagerV;

    open spec fn view(&self) -> ManagerV {
        ManagerV {
            records: list_views(self.records@),
            active: opt_view(self.active),
            next_id: self.next_id,
        }
    }
}

/// Whether an ID is that of a record.
pub open spec fn recorded(records: Seq<TargetInfoV>, id: Seq<char>) -> bool {
    exists|i: int| 0 <= i < records.len() && (#[trigger] records[i]).id == id
}

impl ManagerV {
    /// No two records share an ID, and the active target is a recorded one, of which there is none
    /// only where nothing is recorded.
    pub open spec fn inv(self) -> bool {
        &&& forall|i: int, j: int|
            0 <= i < j < self.records.len() ==> (#[trigger] self.records[i]).id != (
            #[trigger] self.records[j]).id
        &&& match self.active {
            Some(id) => recorded(self.records, id),
            None => self.records.len() == 0,
        }
    }

    /// The records as a selector sees them.
    pub open spec fn entries(self) -> Seq<EntryV> {
        self.records.map_values(|t: TargetInfoV| (t.id, t.filename, t.path))
    }
}

/// The position of the record with an ID from `from` on, or the number of records.
pub open spec fn record_at(records: Seq<TargetInfoV>, id: Seq<char>, from: int) -> int
    decreases records.len() - from,
{
    if from < 0 || from >= records.len() {
        records.len() as int
    } else if records[from].id == id {
        from
    } else {
        record_at(records, id, from + 1)
    }
}

proof fn lemma_record_at(records: Seq<TargetInfoV>, id: Seq<char>, from: int)
    requires
        0 <= from <= records.len(),
    ensures
        from <= record_at(records, id, from) <= records.len(),
        record_at(records, id, from) < records.len() ==> records[record_at(
            records,
            id,
            from,
        )].id == id,
        record_at(records, id, from) == records.len() ==> forall|j: int|
            from <= j < records.len() ==> (#[trigger] records[j]).id != id,
    decreases records.len() - from,
{
    if from < records.len() && records[from].id != id {
        lemma_record_at(records, id, from + 1);
    }
}

/// The records with one more, which takes the place of one with the same ID.
pub open spec fn stored(records: Seq<TargetInfoV>, info: TargetInfoV) -> Seq<TargetInfoV> {
    let at = record_at(records, info.id, 0);
    if at < records.len() {
        records.update(at, info)
    } else {
        records.push(info)
    }
}

/// The targets, with the next ID that is given out set to the one that is named; a text that is no
/// ID changes nothing.
pub open spec fn seeded(st: ManagerV, id: Seq<char>) -> ManagerV {
    ManagerV {
        next_id: match id_number(id) {
            Some(n) => n,
            None => st.next_id,
        },
        ..st
    }
}

/// The targets with one more under the next ID. It becomes the active one where there is none.
pub open spec fn with_record(st: ManagerV, info: TargetInfoV) -> ManagerV {
    ManagerV {
        records: stored(st.records, info),
        active: match st.active {
            Some(a) => Some(a),
            None => Some(info.id),
        },
        next_id: (st.next_id + 1) as u64,
    }
}

/// What is recorded of a database that was opened for a path.
pub open spec fn described(
    id: Seq<char>,
    path: Seq<char>,
    home: Option<Seq<char>>,
    db: Opened,
) -> TargetInfoV {
    let expanded = expanded_path(path, home);
    TargetInfoV {
        id,
        path: expanded,
        filename: match file_name_of(expanded) {
            Some(name) => name,
            None => path,
        },
        file_type: db.file_type@,
        processor: db.processor@,
        bits: word_bits(db.is_64bit, db.is_32bit),
        function_count: db.function_count,
    }
}

proof fn lemma_record_keeps_inv(st: ManagerV, info: TargetInfoV)
    requires
        st.inv(),
    ensures
        with_record(st, info).inv(),
        recorded(with_record(st, info).records, info.id),
{
    let at = record_at(st.records, info.id, 0);
    lemma_record_at(st.records, info.id, 0);
    let now = with_record(st, info);
    assert(now.records[at].id == info.id);
    if st.active is Some {
        let i = choose|i: int| 0 <= i < st.records.len() && (#[trigger] st.records[i]).id == st.active->0;
        assert(now.records[i].id == st.active->0);
    }
    assert forall|i: int, j: int| 0 <= i < j < now.records.len() implies (
    #[trigger] now.records[i]).id != (#[trigger] now.records[j]).id by {
        assert(i == at || now.records[i] == st.records[i]);
        assert(j == at || now.records[j] == st.records[j]);
        if i == at && at < st.records.len() {
            assert(st.records[i].id == info.id);
        }
        if j == at && at < st.records.len() {
            assert(st.records[j].id == info.id);
        }
    }
}

/// What is done with a request, over the types of texts, values and analysis requests.
#[derive(Debug)]
pub enum WorkOf<T, J, C> {
    /// Answer it.
    Reply(Result<J, T>),
    /// Open a database and record it as a target.
    Load { path: T, auto_analyse: bool, idb_out: Option<T> },
    /// Analyse a target.
    Analyse { target: T, call: C },
}

/// What is done with a request.
pub type Work = WorkOf<String, Json, Call>;

/// What a [`Work`] is.
pub type WorkV = WorkOf<Seq<char>, JsonV, CallV>;

impl View for WorkOf<String, Json, Call> {
    type V = WorkV;

    open spec fn view(&self) -> WorkV {
        match self {
            WorkOf::Reply(Ok(v)) => WorkOf::Reply(Ok(v@)),
            WorkOf::Reply(Err(e)) => WorkOf::Reply(Err(e@)),
            WorkOf::Load { path, auto_analyse, idb_out } => WorkOf::Load {
                path: path@,
                auto_analyse: *auto_analyse,
                idb_out: opt_view(*idb_out),
            },
            WorkOf::Analyse { target, call } => WorkOf::Analyse { target: target@, call: call@ },
        }
    }
}

/// The targets without the one with an ID; where that was the active one, the first of the others
/// takes its place.
pub open spec fn without_record(st: ManagerV, id: Seq<char>) -> ManagerV {
    let rest = st.records.remove(record_at(st.records, id, 0));
    ManagerV {
        records: rest,
        active: if st.active == Some(id) {
            if rest.len() > 0 {
                Some(rest[0].id)
            } else {
                None
            }
        } else {
            st.active
        },
        next_id: st.next_id,
    }
}

proof fn lemma_removal_keeps_inv(st: ManagerV, id: Seq<char>)
    requires
        st.inv(),
        recorded(st.records, id),
    ensures
        without_record(st, id).inv(),
        !recorded(without_record(st, id).records, id),
{
    let at = record_at(st.records, id, 0);
    lemma_record_at(st.records, id, 0);
    let now = without_record(st, id);
    let rest = now.records;
    assert forall|i: int| 0 <= i < rest.len() implies (#[trigger] rest[i]) == st.records[(if i < at {
        i
    } else {
        i + 1
    })] by {}
    assert forall|i: int| 0 <= i < rest.len() implies (#[trigger] rest[i]).id != id by {
        let a = if i < at { i } else { i + 1 };
        assert(rest[i] == st.records[a]);
        assert(st.records[at].id == id);
    }
    if st.active != Some(id) {
        let i = choose|i: int| 0 <= i < st.records.len() && (#[trigger] st.records[i]).id == st.active->0;
        let k = if i < at { i } else { i - 1 };
        assert(rest[k] == st.records[i]);
    } else if rest.len() > 0 {
        assert(rest[0].id == now.active->0);
    }
}

/// What a request does with the targets, and what is done with it.
pub open spec fn worked(
    st: ManagerV,
    op: Seq<char>,
    p: JsonV,
    target: Option<Seq<char>>,
) -> (ManagerV, WorkV) {
    if op == "target.load"@ {
        match need_text(p, "path"@) {
            Err(e) => (st, WorkV::Reply(Err(e))),
            Ok(path) => (
                st,
                WorkV::Load {
                    path,
                    auto_analyse: bool_or(p, "auto_analyse"@, true),
                    idb_out: text_field(p, "idb_out"@),
                },
            ),
        }
    } else if op == "target.close"@ {
        match need_text(p, "id"@) {
            Err(e) => (st, WorkV::Reply(Err(e))),
            Ok(id) => if recorded(st.records, id) {
                (
                    without_record(st, id),
                    WorkV::Reply(Ok(JsonV::Obj(no_fields().insert("closed"@, text_v(id))))),
                )
            } else {
                (st, WorkV::Reply(Err("Target not found: "@ + id)))
            },
        }
    } else if op == "target.list"@ {
        (
            st,
            WorkV::Reply(
                Ok(
                    JsonV::Obj(
                        no_fields().insert(
                            "targets"@,
                            JsonV::Arr(
                                st.records.map_values(
                                    |t: TargetInfoV| JsonV::Obj(info_fields(t)),
                                ),
                            ),
                        ).insert("active"@, opt_text_v(st.active)),
                    ),
                ),
            ),
        )
    } else if op == "target.switch"@ {
        match need_text(p, "id"@) {
            Err(e) => (st, WorkV::Reply(Err(e))),
            Ok(id) => if recorded(st.records, id) {
                (
                    ManagerV { active: Some(id), ..st },
                    WorkV::Reply(Ok(JsonV::Obj(no_fields().insert("active"@, text_v(id))))),
                )
            } else {
                (st, WorkV::Reply(Err("Target not found: "@ + id)))
            },
        }
    } else if op == "ping"@ {
        (st, WorkV::Reply(Ok(pong(st.records.len()))))
    } else if op == "shutdown"@ {
        (
            st,
            WorkV::Reply(
                Ok(JsonV::Obj(no_fields().insert("status"@, text_v("shutting_down"@)))),
            ),
        )
    } else if op == "int_convert"@ {
        (st, WorkV::Reply(conversion(p)))
    } else {
        (
            st,
            match resolved(target, st.active, st.entries()) {
                Err(e) => WorkV::Reply(Err(e)),
                Ok(id) => match analysis_call(op, p) {
                    Err(e) => WorkV::Reply(Err(e)),
                    Ok(call) => WorkV::Analyse { target: id, call },
                },
            },
        )
    }
}

/// How a database is opened.
#[derive(Debug)]
pub struct OpenPlan {
    pub auto_analyse: bool,
    /// Where the database of a raw binary is written to.
    pub out: Option<String>,
}

/// How a path is opened: an existing database as it is, a raw binary into its database.
pub fn open_idb(path: &str, auto_analyse: bool, idb_out: &Option<String>, home: &Option<String>) -> (r:
    OpenPlan)
    ensures
        r.auto_analyse == auto_analyse,
        opt_view(r.out) == database_output(path@, opt_view(*idb_out), opt_view(*home)),
        r.out is None <==> names_database(path@),
{
    OpenPlan { auto_analyse, out: effective_idb_out(path, idb_out, home) }
}

/// Why a path could not be opened.
pub open spec fn open_error(path: Seq<char>, cause: Seq<char>) -> Seq<char> {
    (if names_database(path) {
        "Failed to open IDB: "@
    } else {
        "Failed to open binary: "@
    }) + path + ": "@ + cause
}

/// Why a path could not be opened.
pub fn open_error_message(path: &str, cause: &str) -> (r: String)
    ensures
        r@ == open_error(path@, cause@),
{
    let mut m = if is_idb_path(path) {
        "Failed to open IDB: ".to_owned()
    } else {
        "Failed to open binary: ".to_owned()
    };
    m.push_str(path);
    m.push_str(": ");
    m.push_str(cause);
    m
}

impl TargetManager {
    /// No targets.
    pub fn new() -> (r: TargetManager)
        ensures
            r@.inv(),
            r@.records == Seq::<TargetInfoV>::empty(),
            r@.active is None,
            r@.next_id == 1,
    {
        let r = TargetManager { records: Vec::new(), active: None, next_id: 1 };
        assert(r@.records =~= Seq::<TargetInfoV>::empty());
        r
    }

    fn find(&self, id: &str) -> (r: usize)
        ensures
            r == record_at(self@.records, id@, 0),
            r <= self.records.len(),
            r < self.records.len() <==> recorded(self@.records, id@),
    {
        let ghost all = self@.records;
        let mut i: usize = 0;
        while i < self.records.len() && !same(self.records[i].id.as_str(), id)
            invariant
                i <= self.records.len(),
                all == list_views(self.records@),
                record_at(all, id@, 0) == record_at(all, id@, i as int),
            decreases self.records.len() - i,
        {
            assert(all[i as int] == self.records[i as int]@);
            i = i + 1;
        }
        proof {
            if i < self.records.len() {
                assert(all[i as int] == self.records[i as int]@);
                assert(all[i as int].id == id@);
            }
            lemma_record_at(all, id@, 0);
        }
        i
    }

    /// Records a target under the next ID.
    fn record(&mut self, info: TargetInfo)
        requires
            old(self).next_id < u64::MAX,
        ensures
            final(self)@ == with_record(old(self)@, info@),
            old(self)@.inv() ==> final(self)@.inv(),
    {
        let ghost st = self@;
        let ghost iv = info@;
        proof {
            if st.inv() {
                lemma_record_keeps_inv(st, iv);
            }
        }
        let id = info.id.clone();
        let at: usize = self.find(id.as_str());
        if at < self.records.len() {
            self.records.set(at, info);
            assert(list_views(self.records@) =~= st.records.update(at as int, iv));
        } else {
            self.records.push(info);
            assert(list_views(self.records@) =~= st.records.push(iv));
        }
        if self.active.is_none() {
            self.active = Some(id);
        }
        self.next_id = self.next_id + 1;
    }

    fn next_id_text(&self) -> (r: String)
        ensures
            r@ == id_of(self@.next_id as nat),
    {
        let mut id = String::new();
        id.push('t');
        id.push_str(decimal_text(self.next_id).as_str());
        assert(id@ =~= id_of(self.next_id as nat));
        id
    }

    /// Records a database that was opened for `path` as a target. It becomes the active one where
    /// there is none.
    pub fn load(&mut self, path: &str, home: &Option<String>, db: &Opened) -> (r: TargetInfo)
        requires
            old(self).next_id < u64::MAX,
        ensures
            r@ == described(id_of(old(self)@.next_id as nat), path@, opt_view(*home), *db),
            final(self)@ == with_record(old(self)@, r@),
            old(self)@.inv() ==> final(self)@.inv(),
    {
        let expanded = expand_path(path, home);
        let filename = match file_name(expanded.as_str()) {
            Some(name) => name,
            None => path.to_owned(),
        };
        let info = TargetInfo {
            id: self.next_id_text(),
            path: expanded,
            filename,
            file_type: db.file_type.clone(),
            processor: db.processor.clone(),
            bits: bits_of(db.is_64bit, db.is_32bit),
            function_count: db.function_count,
        };
        let copy = info.copy();
        self.record(info);
        copy
    }

    /// Records a target without a database, and returns its ID.
    pub fn insert_dummy(&mut self, filename: &str, path: &str) -> (r: String)
        requires
            old(self).next_id < u64::MAX,
        ensures
            r@ == id_of(old(self)@.next_id as nat),
            final(self)@ == with_record(
                old(self)@,
                (TargetInfoV {
                    id: r@,
                    path: path@,
                    filename: filename@,
                    file_type: Seq::<char>::empty(),
                    processor: Seq::<char>::empty(),
                    bits: 64,
                    function_count: 0,
                }),
            ),
            old(self)@.inv() ==> final(self)@.inv(),
    {
        let id = self.next_id_text();
        let info = TargetInfo {
            id: id.clone(),
            path: path.to_owned(),
            filename: filename.to_owned(),
            file_type: String::new(),
            processor: String::new(),
            bits: 64,
            function_count: 0,
        };
        self.record(info);
        id
    }

    /// Makes the next target get the number in `id`; an ID without a number changes nothing.
    pub fn seed_next_id(&mut self, id: &str)
        ensures
            final(self)@ == seeded(old(self)@, id@),
            old(self)@.inv() ==> final(self)@.inv(),
    {
        if let Some(n) = crate::targets::read_id(id) {
            self.next_id = n;
        }
    }

    /// Closes a target by its ID.
    pub fn close(&mut self, target_id: &str) -> (r: Result<(), String>)
        ensures
            r is Ok <==> recorded(old(self)@.records, target_id@),
            r is Ok ==> final(self)@ == without_record(old(self)@, target_id@),
            r matches Err(e) ==> *final(self) == *old(self) && e@ == "Target not found: "@
                + target_id@,
            old(self)@.inv() ==> final(self)@.inv(),
    {
        let ghost st = self@;
        let at: usize = self.find(target_id);
        if at == self.records.len() {
            let mut e = "Target not found: ".to_owned();
            e.push_str(target_id);
            return Err(e);
        }
        proof {
            if st.inv() {
                lemma_removal_keeps_inv(st, target_id@);
            }
        }
        let _ = self.records.remove(at);
        assert(list_views(self.records@) =~= st.records.remove(at as int));
        let was_active: bool = match &self.active {
            Some(a) => same(a.as_str(), target_id),
            None => false,
        };
        if was_active {
            if self.records.len() > 0 {
                assert(self@.records[0] == self.records[0]@);
                self.active = Some(self.records[0].id.clone());
            } else {
                self.active = None;
            }
        }
        Ok(())
    }

    /// The targets.
    pub fn list(&self) -> (r: Vec<TargetInfo>)
        ensures
            list_views(r@) == self@.records,
    {
        let mut out: Vec<TargetInfo> = Vec::new();
        let mut i: usize = 0;
        while i < self.records.len()
            invariant
                i <= self.records.len(),
                out.len() == i,
                forall|j: int| 0 <= j < i ==> (#[trigger] out[j])@ == self.records[j]@,
            decreases self.records.len() - i,
        {
            out.push(self.records[i].copy());
            i = i + 1;
        }
        assert(list_views(out@) =~= list_views(self.records@));
        out
    }

    /// The ID of the active target.
    pub fn active_id(&self) -> (r: Option<&String>)
        ensures
            match r {
                Some(id) => self@.active == Some(id@),
                None => self@.active is None,
            },
    {
        self.active.as_ref()
    }

    /// Makes the target with an ID the active one.
    pub fn set_active(&mut self, target_id: &str) -> (r: Result<(), String>)
        ensures
            r is Ok <==> recorded(old(self)@.records, target_id@),
            r is Ok ==> final(self)@ == (ManagerV { active: Some(target_id@), ..old(self)@ }),
            r matches Err(e) ==> *final(self) == *old(self) && e@ == "Target not found: "@
                + target_id@,
            old(self)@.inv() ==> final(self)@.inv(),
    {
        if self.find(target_id) == self.records.len() {
            let mut e = "Target not found: ".to_owned();
            e.push_str(target_id);
            return Err(e);
        }
        self.active = Some(target_id.to_owned());
        Ok(())
    }

    /// The target that a selector stands for.
    pub fn resolve(&self, selector: Option<&str>) -> (r: Result<String, String>)
        ensures
            ({
                let sel = match selector {
                    Some(s) => Some(s@),
                    None => None,
                };
                match r {
                    Ok(id) => resolved(sel, self@.active, self@.entries()) == Ok::<
                        Seq<char>,
                        Seq<char>,
                    >(id@),
                    Err(e) => resolved(sel, self@.active, self@.entries()) == Err::<
                        Seq<char>,
                        Seq<char>,
                    >(e@),
                }
            }),
    {
        let mut entries: Vec<(String, String, String)> = Vec::new();
        let mut i: usize = 0;
        while i < self.records.len()
            invariant
                i <= self.records.len(),
                entries.len() == i,
                forall|j: int|
                    0 <= j < i ==> ((#[trigger] entries[j]).0@, entries[j].1@, entries[j].2@) == (
                        self.records[j].id@,
                        self.records[j].filename@,
                        self.records[j].path@,
                    ),
            decreases self.records.len() - i,
        {
            let t = &self.records[i];
            entries.push((t.id.clone(), t.filename.clone(), t.path.clone()));
            i = i + 1;
        }
        assert(entry_views(entries@) =~= self@.entries());
        let act: Option<&str> = match &self.active {
            Some(s) => Some(s.as_str()),
            None => None,
        };
        resolve_selector(selector, act, &entries)
    }

    /// What a request does with the targets, and what is done with it.
    pub fn dispatch(&mut self, req: &Request) -> (r: Work)
        ensures
            (final(self)@, r@) == worked(
                old(self)@,
                req.op@,
                req.params@,
                opt_view(req.target),
            ),
            old(self)@.inv() ==> final(self)@.inv(),
    {
        let op = req.op.as_str();
        let p = &req.params;
        if same(op, "target.load") {
            return match param_str(p, "path") {
                Err(e) => WorkOf::Reply(Err(e)),
                Ok(path) => WorkOf::Load {
                    path,
                    auto_analyse: param_bool(p, "auto_analyse", true),
                    idb_out: param_opt_str(p, "idb_out"),
                },
            };
        }
        let mut o = JsonObject::new();
        if same(op, "target.close") {
            match param_str(p, "id") {
                Err(e) => WorkOf::Reply(Err(e)),
                Ok(id) => match self.close(id.as_str()) {
                    Err(e) => WorkOf::Reply(Err(e)),
                    Ok(()) => {
                        o.put("closed", Json::Str(id));
                        WorkOf::Reply(Ok(Json::Object(o)))
                    },
                },
            }
        } else if same(op, "target.list") {
            let list = self.list();
            let ghost all = self@.records;
            let mut items: Vec<Json> = Vec::new();
            let mut i: usize = 0;
            while i < list.len()
                invariant
                    i <= list.len(),
                    all == list_views(list@),
                    items.len() == i,
                    forall|j: int|
                        0 <= j < i ==> (#[trigger] items[j])@ == JsonV::Obj(info_fields(all[j])),
                decreases list.len() - i,
            {
                items.push(list[i].to_json());
                i = i + 1;
            }
            assert(values_of(items@) =~= all.map_values(
                |t: TargetInfoV| JsonV::Obj(info_fields(t)),
            ));
            o.put("targets", Json::list(items));
            o.put("active", Json::opt_text(&self.active));
            WorkOf::Reply(Ok(Json::Object(o)))
        } else if same(op, "target.switch") {
            match param_str(p, "id") {
                Err(e) => WorkOf::Reply(Err(e)),
                Ok(id) => match self.set_active(id.as_str()) {
                    Err(e) => WorkOf::Reply(Err(e)),
                    Ok(()) => {
                        o.put("active", Json::Str(id));
                        WorkOf::Reply(Ok(Json::Object(o)))
                    },
                },
            }
        } else if same(op, "ping") {
            o.put("pong", Json::Bool(true));
            o.put("targets", Json::count(self.records.len()));
            WorkOf::Reply(Ok(Json::Object(o)))
        } else if same(op, "shutdown") {
            o.put("status", Json::text("shutting_down"));
            WorkOf::Reply(Ok(Json::Object(o)))
        } else if same(op, "int_convert") {
            WorkOf::Reply(int_convert(p))
        } else {
            let sel: Option<&str> = match &req.target {
                Some(s) => Some(s.as_str()),
                None => None,
            };
            match self.resolve(sel) {
                Err(e) => WorkOf::Reply(Err(e)),
                Ok(target) => match plan_analysis(op, p) {
                    Err(e) => WorkOf::Reply(Err(e)),
                    Ok(call) => WorkOf::Analyse { target, call },
                },
            }
        }
    }
}

/// A worker that is told the ID of its target gives its target that ID.
pub proof fn lemma_worker_keeps_id(
    st: ManagerV,
    n: u64,
    path: Seq<char>,
    home: Option<Seq<char>>,
    db: Opened,
)
    ensures
        described(id_of(seeded(st, id_of(n as nat)).next_id as nat), path, home, db).id == id_of(
            n as nat,
        ),
{
    lemma_id_number(n);
}

/// Loading a target changes the active one only where there is none.
pub proof fn lemma_load_keeps_active(st: ManagerV, info: TargetInfoV)
    ensures
        st.active is Some ==> with_record(st, info).active == st.active,
        st.active is None ==> with_record(st, info).active == Some(info.id),
{
}

// ---------------------------------------------------------------------------
// What requests do to the records
// ---------------------------------------------------------------------------

/// A record takes the place of the one with its ID, and comes last where there
/// is none; every other record stays where it is.
pub proof fn lemma_stored(records: Seq<TargetInfoV>, info: TargetInfoV, at: int)
    ensures
        !recorded(records, info.id) ==> stored(records, info) == records.push(info),
        0 <= at < records.len() && records[at].id == info.id && (forall|j: int|
            0 <= j < at ==> (#[trigger] records[j]).id != info.id) ==> stored(records, info)
            == records.update(at, info),
{
    lemma_record_at(records, info.id, 0);
    let p = record_at(records, info.id, 0);
    if p < records.len() {
        assert(records[p].id == info.id);
    }
    if 0 <= at < records.len() && records[at].id == info.id && (forall|j: int|
        0 <= j < at ==> (#[trigger] records[j]).id != info.id) {
        lemma_first_record(records, info.id, 0, at);
    }
}

proof fn lemma_first_record(records: Seq<TargetInfoV>, id: Seq<char>, from: int, at: int)
    requires
        0 <= from <= at < records.len(),
        records[at].id == id,
        forall|j: int| from <= j < at ==> (#[trigger] records[j]).id != id,
    ensures
        record_at(records, id, from) == at,
    decreases at - from,
{
    if from < at {
        assert(records[from].id != id);
        lemma_first_record(records, id, from + 1, at);
    }
}

/// A close of a recorded ID takes that record out and leaves the others in
/// their order; where it was active, the first that is left becomes active.
/// A close of any other ID is an error and changes nothing.
pub proof fn lemma_close_of_a_record(
    st: ManagerV,
    m: FieldsV,
    id: Seq<char>,
    at: int,
    target: Option<Seq<char>>,
)
    requires
        st.inv(),
        m.dom().contains("id"@),
        m["id"@] == JsonV::Str(id),
    ensures
        0 <= at < st.records.len() && st.records[at].id == id ==> {
            let now = worked(st, "target.close"@, JsonV::Obj(m), target).0;
            &&& worked(st, "target.close"@, JsonV::Obj(m), target).1 matches WorkV::Reply(Ok(_))
            &&& now.records == st.records.take(at) + st.records.skip(at + 1)
            &&& now.next_id == st.next_id
            &&& st.active != Some(id) ==> now.active == st.active
            &&& st.active == Some(id) && now.records.len() > 0 ==> now.active == Some(
                now.records[0].id,
            )
            &&& now.records.len() == 0 ==> now.active is None
        },
        !recorded(st.records, id) ==> worked(st, "target.close"@, JsonV::Obj(m), target).0 == st
            && worked(st, "target.close"@, JsonV::Obj(m), target).1 == WorkV::Reply(
            Err("Target not found: "@ + id),
        ),
{
    lemma_operation_names();
    if 0 <= at < st.records.len() && st.records[at].id == id {
        assert(recorded(st.records, id));
        assert forall|j: int| 0 <= j < at implies (#[trigger] st.records[j]).id != id by {
            assert(st.records[at].id == id);
        }
        lemma_first_record(st.records, id, 0, at);
        let rest = st.records.remove(at);
        assert(rest =~= st.records.take(at) + st.records.skip(at + 1));
        if st.records.len() == 1 {
            let i = choose|i: int|
                0 <= i < st.records.len() && (#[trigger] st.records[i]).id == st.active->0;
            assert(st.records[i].id == id);
        }
    }
}

/// A switch to a recorded ID makes it active and changes nothing else; a switch
/// to any other is an error and changes nothing.
pub proof fn lemma_switch_to_a_record(
    st: ManagerV,
    m: FieldsV,
    id: Seq<char>,
    target: Option<Seq<char>>,
)
    requires
        m.dom().contains("id"@),
        m["id"@] == JsonV::Str(id),
    ensures
        recorded(st.records, id) ==> worked(st, "target.switch"@, JsonV::Obj(m), target).0 == (
        ManagerV { records: st.records, active: Some(id), next_id: st.next_id }),
        !recorded(st.records, id) ==> worked(st, "target.switch"@, JsonV::Obj(m), target).0 == st
            && worked(st, "target.switch"@, JsonV::Obj(m), target).1 == WorkV::Reply(
            Err("Target not found: "@ + id),
        ),
{
    lemma_operation_names();
}

/// No request but a switch and a close changes the records.
pub proof fn lemma_other_work_changes_nothing(
    st: ManagerV,
    op: Seq<char>,
    p: JsonV,
    target: Option<Seq<char>>,
)
    requires
        op != "target.switch"@,
        op != "target.close"@,
    ensures
        worked(st, op, p, target).0 == st,
{
}

proof fn lemma_operation_names()
    ensures
        "target.close"@ != "target.load"@,
        "target.switch"@ != "target.load"@,
        "target.switch"@ != "target.close"@,
        "target.switch"@ != "target.list"@,
{
    reveal_strlit("target.load");
    reveal_strlit("target.close");
    reveal_strlit("target.list");
    reveal_strlit("target.switch");
    assert("target.load"@.len() == 11);
    assert("target.close"@.len() == 12);
    assert("target.list"@.len() == 11);
    assert("target.switch"@.len() == 13);
    assert("target.list"@[8] == 'i');
    assert("target.load"@[8] == 'o');
}

/// A loaded file is described by what was read off it: its file name is the
/// last part of its path, its width what the database says.
pub proof fn lemma_described(
    id: Seq<char>,
    dir: Seq<char>,
    name: Seq<char>,
    home: Option<Seq<char>>,
    db: Opened,
)
    requires
        is_name(name),
        forall|j: int| 0 <= j < name.len() ==> name[j] != '/',
        dir.len() > 0,
        dir.last() != '/',
        dir[0] != '~',
    ensures
        ({
            let t = described(id, dir + seq!['/'] + name, home, db);
            &&& t.id == id
            &&& t.path == dir + seq!['/'] + name
            &&& t.filename == name
            &&& t.file_type == db.file_type@
            &&& t.processor == db.processor@
            &&& t.function_count == db.function_count
            &&& db.is_64bit ==> t.bits == 64
            &&& !db.is_64bit && db.is_32bit ==> t.bits == 32
            &&& !db.is_64bit && !db.is_32bit ==> t.bits == 16
        }),
{
    let p = dir + seq!['/'] + name;
    assert(p[0] == dir[0]);
    lemma_join_names(dir, name);
    assert(join_of(dir, name) =~= p) by {
        assert(name[0] != '/');
    }
}

/// The number of the next target follows the ID that a worker was given, and
/// each target takes the next number.
pub proof fn lemma_numbers_go_up(st: ManagerV, n: u64, info: TargetInfoV)
    requires
        st.next_id < u64::MAX,
    ensures
        seeded(st, seq!['t'] + decimal(n as nat)).next_id == n,
        seeded(st, seq!['t'] + decimal(n as nat)).records == st.records,
        with_record(st, info).next_id == st.next_id + 1,
{
    lemma_id_number(n);
}

/// A file that cannot be opened is reported with its path and the cause, and as
/// what it is: a database or a binary.
pub proof fn lemma_open_errors(path: Seq<char>, cause: Seq<char>)
    ensures
        names_database(path) ==> open_error(path, cause) == "Failed to open IDB: "@ + path + ": "@
            + cause,
        !names_database(path) ==> open_error(path, cause) == "Failed to open binary: "@ + path
            + ": "@ + cause,
{
}

/// An analysis operation is run on the target that it is for, as the call that its
/// parameters ask for; where either cannot be made out, that is the answer.
pub proof fn lemma_analysis_is_run(
    st: ManagerV,
    op: Seq<char>,
    p: JsonV,
    target: Option<Seq<char>>,
)
    requires
        op != "ping"@ && op != "shutdown"@ && op != "int_convert"@ && op != "target.load"@ && op
            != "target.list"@ && op != "target.switch"@ && op != "target.close"@,
    ensures
        resolved(target, st.active, st.entries()) matches Err(e) ==> worked(st, op, p, target).1
            == WorkV::Reply(Err(e)),
        resolved(target, st.active, st.entries()) matches Ok(id) ==> (analysis_call(op, p) matches Ok(
            call,
        ) ==> worked(st, op, p, target).1 == (WorkV::Analyse { target: id, call })),
        resolved(target, st.active, st.entries()) is Ok ==> (analysis_call(op, p) matches Err(e)
            ==> worked(st, op, p, target).1 == WorkV::Reply(Err(e))),
{
}

} // verus!
