//! How a database is opened: what is opened, under which lock, with which debug information.

use crate::errors::{ToolError, ToolErrorOf, ToolErrorV};
use crate::json::{no_fields, text_v, Json, JsonObject, JsonV};
use crate::output::Opened;
use crate::paths::{
    base_input, base_input_path_for_database, database_paths_match, expand_path, expanded_path,
    file_name, file_name_of, generated_database, idb_path_for_raw_binary, is_idb_path, is_name,
    join_of, join_path, lemma_parent_of_joined, names_database, one_database, unpacked_id0_path, unpacked_of,
};
use crate::targets::{bits_of, word_bits};
use crate::text::{
    copy_list, is_white, lemma_blank_is_trimmed_away, lemma_trim_padding, opt_view, same, trim, trimmed,
    views,
};
use crate::worker_loop::{flag_in, opt_error};
use vstd::prelude::*;

verus! {

// ---------------------------------------------------------------------------
// Arguments
// ---------------------------------------------------------------------------

/// The text without the white space around it, if anything is left of it.
pub open spec fn given_text(value: Option<Seq<char>>) -> Option<Seq<char>> {
    match value {
        Some(s) => if trimmed(s).len() > 0 {
            Some(trimmed(s))
        } else {
            None
        },
        None => None,
    }
}

/// The text without the white space around it, if anything is left of it.
pub fn non_empty_trimmed(value: &Option<String>) -> (r: Option<String>)
    ensures
        opt_view(r) == given_text(opt_view(*value)),
{
    match value {
        Some(s) => {
            let t = trim(s.as_str());
            if t.as_str().is_empty() {
                None
            } else {
                Some(t)
            }
        },
        None => None,
    }
}

/// The arguments that a database is opened with: the one that keeps the disassembler from asking
/// questions comes first, unless it is among the others.
pub open spec fn database_args(extra: Seq<Seq<char>>) -> Seq<Seq<char>> {
    if extra.contains("-A"@) {
        extra
    } else {
        seq!["-A"@] + extra
    }
}

/// The arguments that a database is opened with.
pub fn init_database_args(extra_args: &Vec<String>) -> (r: Vec<String>)
    ensures
        views(r@) == database_args(views(extra_args@)),
{
    let ghost extra = views(extra_args@);
    let mut found = false;
    let mut i: usize = 0;
    while i < extra_args.len() && !found
        invariant
            i <= extra_args.len(),
            extra == views(extra_args@),
            found ==> extra.contains("-A"@),
            !found ==> forall|j: int| 0 <= j < i ==> #[trigger] extra[j] != "-A"@,
        decreases extra_args.len() - i,
    {
        if same(extra_args[i].as_str(), "-A") {
            assert(extra[i as int] == "-A"@);
            found = true;
        }
        i = i + 1;
    }
    if found {
        return copy_list(extra_args);
    }
    let mut args: Vec<String> = Vec::new();
    args.push("-A".to_owned());
    let mut rest = copy_list(extra_args);
    let ghost tail = rest@;
    args.append(&mut rest);
    assert(views(args@) =~= seq!["-A"@] + views(tail));
    args
}

/// The argument that keeps the disassembler from asking questions is always there; it is put in at
/// most once; and the other arguments stay as they are, in their order.
pub proof fn lemma_database_args(extra: Seq<Seq<char>>)
    ensures
        database_args(extra).contains("-A"@),
        database_args(database_args(extra)) == database_args(extra),
        forall|i: int|
            0 <= i < extra.len() ==> #[trigger] extra[i] == database_args(extra)[i
                + database_args(extra).len() - extra.len()],
        !extra.contains("-A"@) ==> database_args(extra).len() == extra.len() + 1,
{
    assert(database_args(extra).contains("-A"@)) by {
        if !extra.contains("-A"@) {
            assert(database_args(extra)[0] == "-A"@);
        }
    }
}

// ---------------------------------------------------------------------------
// Debug information
// ---------------------------------------------------------------------------

/// Where the debug information of a binary is expected: in the bundle next to it.
pub open spec fn dsym_path(path: Seq<char>) -> Option<Seq<char>> {
    match file_name_of(path) {
        Some(name) => Some(
            join_of(
                join_of(
                    join_of(join_of(path + ".dSYM"@, "Contents"@), "Resources"@),
                    "DWARF"@,
                ),
                name,
            ),
        ),
        None => None,
    }
}

/// Where the debug information of a binary is expected.
pub fn dsym_expected_path_for_binary(path: &str) -> (r: Option<String>)
    ensures
        opt_view(r) == dsym_path(path@),
{
    match file_name(path) {
        Some(name) => {
            let mut root = path.to_owned();
            root.push_str(".dSYM");
            let a = join_path(root.as_str(), "Contents");
            let b = join_path(a.as_str(), "Resources");
            let c = join_path(b.as_str(), "DWARF");
            Some(join_path(c.as_str(), name.as_str()))
        },
        None => None,
    }
}

/// The debug information of a binary, where it exists.
pub fn dsym_path_for_binary(path: &str, exists: bool) -> (r: Option<String>)
    ensures
        opt_view(r) == (if exists {
            dsym_path(path@)
        } else {
            None
        }),
{
    if exists {
        dsym_expected_path_for_binary(path)
    } else {
        None
    }
}

/// The database that exists for a raw binary: the given one, else the generated one.
pub open spec fn existing_database(
    raw: Seq<char>,
    explicit: Option<Seq<char>>,
    exists: bool,
) -> Option<Seq<char>> {
    if exists {
        match explicit {
            Some(out) => Some(out),
            None => Some(generated_database(raw)),
        }
    } else {
        None
    }
}

/// The generated database of a raw binary, where it exists.
pub fn existing_idb_for_raw_binary(path: &str, exists: bool) -> (r: Option<String>)
    ensures
        opt_view(r) == existing_database(path@, None, exists),
{
    if exists {
        Some(idb_path_for_raw_binary(path))
    } else {
        None
    }
}

/// The database that exists for a raw binary. `exists` says whether the given one exists, or, where
/// none is given, the generated one.
pub fn existing_idb_for_raw_open(path: &str, explicit_idb_out: &Option<String>, exists: bool) -> (r:
    Option<String>)
    ensures
        opt_view(r) == existing_database(path@, opt_view(*explicit_idb_out), exists),
{
    match explicit_idb_out {
        Some(out) => if exists {
            Some(out.clone())
        } else {
            None
        },
        None => existing_idb_for_raw_binary(path, exists),
    }
}

// ---------------------------------------------------------------------------
// Opening
// ---------------------------------------------------------------------------

/// What is asked for when a database is opened, over the types of texts and lists of texts.
#[derive(Debug)]
pub struct OpenRequestOf<T, L> {
    pub path: T,
    pub load_debug_info: bool,
    pub debug_info_path: Option<T>,
    pub debug_info_verbose: bool,
    pub force: bool,
    pub rebuild: bool,
    pub file_type: Option<T>,
    pub auto_analyse: bool,
    pub extra_args: L,
    pub idb_out: Option<T>,
}

/// What is asked for when a database is opened.
pub type OpenRequest = OpenRequestOf<String, Vec<String>>;

/// What an [`OpenRequest`] is.
pub type OpenRequestV = OpenRequestOf<Seq<char>, Seq<Seq<char>>>;

impl View for OpenRequestOf<String, Vec<String>> {
    type V = OpenRequestV;

    open spec fn view(&self) -> OpenRequestV {
        OpenRequestOf {
            path: self.path@,
            load_debug_info: self.load_debug_info,
            debug_info_path: opt_view(self.debug_info_path),
            debug_info_verbose: self.debug_info_verbose,
            force: self.force,
            rebuild: self.rebuild,
            file_type: opt_view(self.file_type),
            auto_analyse: self.auto_analyse,
            extra_args: views(self.extra_args@),
            idb_out: opt_view(self.idb_out),
        }
    }
}

/// What comes first when a database is to be opened, over the types of texts and errors.
#[derive(Debug)]
pub enum OpenCheckOf<T, E> {
    /// It is open already, under this path: describe it.
    Same { current: T },
    /// It cannot be opened.
    Refused(E),
    /// Nothing is open: go on with this path.
    Proceed { expanded: T },
}

/// What comes first when a database is to be opened.
pub type OpenCheck = OpenCheckOf<String, ToolError>;

/// What an [`OpenCheck`] is.
pub type OpenCheckV = OpenCheckOf<Seq<char>, ToolErrorV>;

impl View for OpenCheckOf<String, ToolError> {
    type V = OpenCheckV;

    open spec fn view(&self) -> OpenCheckV {
        match self {
            OpenCheckOf::Same { current } => OpenCheckOf::Same { current: current@ },
            OpenCheckOf::Refused(e) => OpenCheckOf::Refused(e@),
            OpenCheckOf::Proceed { expanded } => OpenCheckOf::Proceed { expanded: expanded@ },
        }
    }
}

/// What comes first when a database is to be opened: a cancelled request is refused, an open
/// database that is the one asked for is described, and another one is in the way.
pub open spec fn open_checked(
    path: Seq<char>,
    home: Option<Seq<char>>,
    cancelled: Option<ToolErrorV>,
    current: Option<Seq<char>>,
) -> OpenCheckV {
    let expanded = expanded_path(path, home);
    match cancelled {
        Some(e) => OpenCheckOf::Refused(e),
        None => match current {
            Some(c) => if one_database(c, expanded) {
                OpenCheckOf::Same { current: c }
            } else {
                OpenCheckOf::Refused(ToolErrorOf::DatabaseAlreadyOpen(c))
            },
            None => OpenCheckOf::Proceed { expanded },
        },
    }
}

/// What comes first when a database is to be opened.
pub fn check_open(
    path: &str,
    home: &Option<String>,
    cancelled: Option<ToolError>,
    current: Option<String>,
) -> (r: OpenCheck)
    ensures
        r@ == open_checked(
            path@,
            opt_view(*home),
            opt_error(cancelled),
            opt_view(current),
        ),
{
    if let Some(e) = cancelled {
        return OpenCheckOf::Refused(e);
    }
    let expanded = expand_path(path, home);
    match current {
        Some(c) => if database_paths_match(c.as_str(), expanded.as_str()) {
            OpenCheckOf::Same { current: c }
        } else {
            OpenCheckOf::Refused(ToolErrorOf::DatabaseAlreadyOpen(c))
        },
        None => OpenCheckOf::Proceed { expanded },
    }
}

/// What is known of the files when a database is opened.
#[derive(Clone, Copy, Debug)]
pub struct OpenFacts {
    /// Whether the input exists.
    pub input_exists: bool,
    /// Whether the database that a raw binary is written to exists.
    pub output_exists: bool,
    /// Whether the debug information next to the input exists.
    pub dsym_exists: bool,
}

/// How a database is opened, over the types of texts and lists of texts.
#[derive(Debug)]
pub struct OpenPlanOf<T, L> {
    /// The database whose lock is taken.
    pub lock_target: T,
    /// The locks that are cleaned up before, where they are stale.
    pub clean_locks: L,
    /// What is opened.
    pub input: T,
    /// Whether it is a database; else it is a raw binary.
    pub existing: bool,
    /// Where the database of a raw binary is written to.
    pub output: Option<T>,
    /// What the open database is known as.
    pub opened: T,
    /// Whether the analysis runs at once.
    pub auto_analyse: bool,
    /// The loader for a raw binary, where one is chosen.
    pub file_type: Option<T>,
    /// The arguments for the disassembler.
    pub args: L,
    /// What is reported while it is opened.
    pub message: T,
    /// The debug information next to a raw binary that is loaded for the first time.
    pub sibling_dsym: Option<T>,
}

/// How a database is opened.
pub type OpenPlan = OpenPlanOf<String, Vec<String>>;

/// What an [`OpenPlan`] is.
pub type OpenPlanV = OpenPlanOf<Seq<char>, Seq<Seq<char>>>;

impl View for OpenPlanOf<String, Vec<String>> {
    type V = OpenPlanV;

    open spec fn view(&self) -> OpenPlanV {
        OpenPlanOf {
            lock_target: self.lock_target@,
            clean_locks: views(self.clean_locks@),
            input: self.input@,
            existing: self.existing,
            output: opt_view(self.output),
            opened: self.opened@,
            auto_analyse: self.auto_analyse,
            file_type: opt_view(self.file_type),
            args: views(self.args@),
            message: self.message@,
            sibling_dsym: opt_view(self.sibling_dsym),
        }
    }
}

/// Where the database of a raw binary is written to.
pub open spec fn raw_output(
    expanded: Seq<char>,
    idb_out: Option<Seq<char>>,
    home: Option<Seq<char>>,
) -> Seq<char> {
    match idb_out {
        Some(out) => expanded_path(out, home),
        None => generated_database(expanded),
    }
}

/// How a database is opened. A database that was generated for a raw binary before is used again,
/// unless it is to be rebuilt. The lock is that of the database, also for a raw binary, so that all
/// sessions agree on it. Debug information next to a raw binary is loaded only where no database
/// was there.
pub open spec fn open_planned(
    req: OpenRequest,
    expanded: Seq<char>,
    home: Option<Seq<char>>,
    facts: OpenFacts,
) -> Result<OpenPlanV, ToolErrorV> {
    if !facts.input_exists {
        Err(ToolErrorOf::InvalidPath("File not found: "@ + expanded))
    } else {
        let is_db = names_database(expanded);
        let out = raw_output(expanded, opt_view(req.idb_out), home);
        let reuse = !is_db && facts.output_exists && !req.rebuild;
        let existing = is_db || reuse;
        let lock_target = if is_db {
            expanded
        } else {
            out
        };
        Ok(
            OpenPlanOf {
                lock_target,
                clean_locks: if req.force {
                    seq![lock_target, expanded]
                } else {
                    seq![]
                },
                input: if reuse {
                    out
                } else {
                    expanded
                },
                existing,
                output: if existing {
                    None
                } else {
                    Some(out)
                },
                opened: if is_db {
                    expanded
                } else {
                    out
                },
                auto_analyse: !existing && req.auto_analyse,
                file_type: if existing {
                    None
                } else {
                    given_text(opt_view(req.file_type))
                },
                args: database_args(views(req.extra_args@)),
                message: if existing {
                    "Opening existing IDA database"@
                } else if req.auto_analyse {
                    "Opening raw binary and waiting for initial auto-analysis"@
                } else {
                    "Opening raw binary"@
                },
                sibling_dsym: if !is_db && !facts.output_exists && facts.dsym_exists {
                    dsym_path(expanded)
                } else {
                    None
                },
            },
        )
    }
}

/// How a database is opened, or why it is not.
pub fn plan_open(req: &OpenRequest, expanded: &str, home: &Option<String>, facts: OpenFacts) -> (r:
    Result<OpenPlan, ToolError>)
    ensures
        match r {
            Ok(plan) => open_planned(*req, expanded@, opt_view(*home), facts) == Ok::<
                OpenPlanV,
                ToolErrorV,
            >(plan@),
            Err(e) => open_planned(*req, expanded@, opt_view(*home), facts) == Err::<
                OpenPlanV,
                ToolErrorV,
            >(e@),
        },
{
    if !facts.input_exists {
        let mut m = "File not found: ".to_owned();
        m.push_str(expanded);
        return Err(ToolErrorOf::InvalidPath(m));
    }
    let is_db: bool = is_idb_path(expanded);
    let out = match &req.idb_out {
        Some(o) => expand_path(o.as_str(), home),
        None => idb_path_for_raw_binary(expanded),
    };
    let reuse: bool = !is_db && facts.output_exists && !req.rebuild;
    let existing: bool = is_db || reuse;
    let lock_target = if is_db {
        expanded.to_owned()
    } else {
        out.clone()
    };
    let mut clean_locks: Vec<String> = Vec::new();
    if req.force {
        clean_locks.push(lock_target.clone());
        clean_locks.push(expanded.to_owned());
        assert(views(clean_locks@) =~= seq![lock_target@, expanded@]);
    } else {
        assert(views(clean_locks@) =~= seq![]);
    }
    let message: &str = if existing {
        "Opening existing IDA database"
    } else if req.auto_analyse {
        "Opening raw binary and waiting for initial auto-analysis"
    } else {
        "Opening raw binary"
    };
    Ok(
        OpenPlanOf {
            lock_target,
            clean_locks,
            input: if reuse {
                out.clone()
            } else {
                expanded.to_owned()
            },
            existing,
            output: if existing {
                None
            } else {
                Some(out.clone())
            },
            opened: if is_db {
                expanded.to_owned()
            } else {
                out
            },
            auto_analyse: !existing && req.auto_analyse,
            file_type: if existing {
                None
            } else {
                non_empty_trimmed(&req.file_type)
            },
            args: init_database_args(&req.extra_args),
            message: message.to_owned(),
            sibling_dsym: if !is_db && !facts.output_exists {
                dsym_path_for_binary(expanded, facts.dsym_exists)
            } else {
                None
            },
        },
    )
}

/// A database that exists is opened as it is: it is not analysed again and written nowhere else.
pub proof fn lemma_existing_database_is_kept(
    req: OpenRequest,
    expanded: Seq<char>,
    home: Option<Seq<char>>,
    facts: OpenFacts,
)
    requires
        facts.input_exists,
        names_database(expanded) || facts.output_exists && !req.rebuild,
    ensures
        open_planned(req, expanded, home, facts) matches Ok(plan) && plan.existing
            && plan.output is None && !plan.auto_analyse && plan.sibling_dsym is None && plan.opened
            == plan.input && plan.lock_target == plan.input,
{
}

/// Opening a raw binary and opening the database that is generated for it take the same lock.
pub proof fn lemma_one_lock(
    req: OpenRequest,
    raw: Seq<char>,
    home: Option<Seq<char>>,
    facts: OpenFacts,
)
    requires
        facts.input_exists,
        req.idb_out is None,
        !names_database(raw),
        raw.len() > 0,
        raw.last() != '/',
    ensures
        open_planned(req, raw, home, facts) matches Ok(a) && (open_planned(
            req,
            generated_database(raw),
            home,
            facts,
        ) matches Ok(b) && a.lock_target == b.lock_target),
{
    crate::paths::lemma_generated_is_database(raw);
}

/// The unpacked database that is tried where a database could not be opened.
pub open spec fn fallback_of(plan: OpenPlanV, unpacked_exists: bool) -> Option<Seq<char>> {
    if plan.existing && unpacked_exists {
        unpacked_of(plan.input)
    } else {
        None
    }
}

/// The unpacked database that is tried where a database could not be opened.
pub fn open_fallback(plan: &OpenPlan, unpacked_exists: bool) -> (r: Option<String>)
    ensures
        opt_view(r) == fallback_of(plan@, unpacked_exists),
{
    if plan.existing && unpacked_exists {
        unpacked_id0_path(plan.input.as_str())
    } else {
        None
    }
}

/// Why a database could not be opened: somebody else holds it, or what the disassembler says.
pub open spec fn open_error(
    opened: Seq<char>,
    cause: Seq<char>,
    locked: Option<Seq<char>>,
) -> ToolErrorV {
    match locked {
        Some(m) => ToolErrorOf::DatabaseLocked(m),
        None => ToolErrorOf::OpenFailed(opened + ": "@ + cause),
    }
}

/// Why a database could not be opened.
pub fn open_failure(opened: &str, cause: &str, locked: Option<String>) -> (r: ToolError)
    ensures
        r@ == open_error(opened@, cause@, opt_view(locked)),
{
    match locked {
        Some(m) => ToolErrorOf::DatabaseLocked(m),
        None => {
            let mut m = opened.to_owned();
            m.push_str(": ");
            m.push_str(cause);
            ToolErrorOf::OpenFailed(m)
        },
    }
}

/// Whether it is reported, once a raw binary is open, that its analysis has been waited for.
pub fn reports_analysis(expanded: &str, auto_analyse: bool) -> (r: bool)
    ensures
        r == (!names_database(expanded@) && auto_analyse),
{
    !is_idb_path(expanded) && auto_analyse
}

/// Which debug information is loaded once a database is open, over the type of texts.
#[derive(Debug)]
pub enum DebugStepOf<T> {
    /// None.
    Nothing,
    /// The requested one, of which a report is made.
    Requested { path: T },
    /// The one next to the binary, of which no report is made.
    Sibling { path: T },
}

impl View for DebugStepOf<String> {
    type V = DebugStepOf<Seq<char>>;

    open spec fn view(&self) -> DebugStepOf<Seq<char>> {
        match self {
            DebugStepOf::Nothing => DebugStepOf::Nothing,
            DebugStepOf::Requested { path } => DebugStepOf::Requested { path: path@ },
            DebugStepOf::Sibling { path } => DebugStepOf::Sibling { path: path@ },
        }
    }
}

/// Which debug information is loaded once a database is open: where it is requested, the given one,
/// else the one expected next to the input; where it is not, the one that was found next to a raw
/// binary.
pub open spec fn debug_step(
    req: OpenRequest,
    expanded: Seq<char>,
    sibling_dsym: Option<Seq<char>>,
) -> DebugStepOf<Seq<char>> {
    if req.load_debug_info {
        match given_text(opt_view(req.debug_info_path)) {
            Some(path) => DebugStepOf::Requested { path },
            None => match dsym_path(base_input(expanded)) {
                Some(path) => DebugStepOf::Requested { path },
                None => DebugStepOf::Nothing,
            },
        }
    } else {
        match sibling_dsym {
            Some(path) => DebugStepOf::Sibling { path },
            None => DebugStepOf::Nothing,
        }
    }
}

/// Which debug information is loaded once a database is open.
pub fn plan_debug_info(req: &OpenRequest, expanded: &str, sibling_dsym: &Option<String>) -> (r:
    DebugStepOf<String>)
    ensures
        r@ == debug_step(*req, expanded@, opt_view(*sibling_dsym)),
{
    if req.load_debug_info {
        match non_empty_trimmed(&req.debug_info_path) {
            Some(path) => DebugStepOf::Requested { path },
            None => {
                let base = base_input_path_for_database(expanded);
                match dsym_expected_path_for_binary(base.as_str()) {
                    Some(path) => DebugStepOf::Requested { path },
                    None => DebugStepOf::Nothing,
                }
            },
        }
    } else {
        match sibling_dsym {
            Some(path) => DebugStepOf::Sibling { path: path.clone() },
            None => DebugStepOf::Nothing,
        }
    }
}

/// What came of requested debug information, over the type of texts.
#[derive(Debug)]
pub struct DebugInfoLoadOf<T> {
    pub path: T,
    pub loaded: bool,
    pub error: Option<T>,
}

/// What came of requested debug information.
pub type DebugInfoLoad = DebugInfoLoadOf<String>;

/// What a [`DebugInfoLoad`] is.
pub type DebugInfoLoadV = DebugInfoLoadOf<Seq<char>>;

impl View for DebugInfoLoadOf<String> {
    type V = DebugInfoLoadV;

    open spec fn view(&self) -> DebugInfoLoadV {
        DebugInfoLoadOf { path: self.path@, loaded: self.loaded, error: opt_view(self.error) }
    }
}

/// What came of loading debug information: it was not there, or what the disassembler said.
pub open spec fn debug_report(
    path: Seq<char>,
    exists: bool,
    outcome: Result<bool, Seq<char>>,
) -> DebugInfoLoadV {
    if !exists {
        DebugInfoLoadOf { path, loaded: false, error: Some("debug info not found"@) }
    } else {
        match outcome {
            Ok(true) => DebugInfoLoadOf { path, loaded: true, error: None },
            Ok(false) => DebugInfoLoadOf {
                path,
                loaded: false,
                error: Some("load returned false"@),
            },
            Err(e) => DebugInfoLoadOf { path, loaded: false, error: Some(e) },
        }
    }
}

/// What the disassembler said of debug information.
pub open spec fn load_view(outcome: Result<bool, String>) -> Result<bool, Seq<char>> {
    match outcome {
        Ok(loaded) => Ok(loaded),
        Err(e) => Err(e@),
    }
}

/// What came of loading debug information: it was not there, or what the disassembler said.
pub fn debug_info_report(path: String, exists: bool, outcome: Result<bool, String>) -> (r:
    DebugInfoLoad)
    ensures
        r@ == debug_report(path@, exists, load_view(outcome)),
{
    if !exists {
        return DebugInfoLoadOf {
            path,
            loaded: false,
            error: Some("debug info not found".to_owned()),
        };
    }
    match outcome {
        Ok(true) => DebugInfoLoadOf { path, loaded: true, error: None },
        Ok(false) => DebugInfoLoadOf {
            path,
            loaded: false,
            error: Some("load returned false".to_owned()),
        },
        Err(e) => DebugInfoLoadOf { path, loaded: false, error: Some(e) },
    }
}

/// What is known of an open database.
#[derive(Debug)]
pub struct DbInfo {
    pub path: String,
    pub file_type: String,
    pub processor: String,
    pub bits: u32,
    pub function_count: usize,
    pub debug_info: Option<DebugInfoLoad>,
    /// How far the analysis is, as the disassembler reports it.
    pub analysis_status: Json,
}

/// What is known of an open database.
pub fn build_db_info(
    path: &str,
    db: &Opened,
    debug_info: Option<DebugInfoLoad>,
    analysis_status: Json,
) -> (r: DbInfo)
    ensures
        r.path@ == path@,
        r.file_type@ == db.file_type@,
        r.processor@ == db.processor@,
        r.bits == word_bits(db.is_64bit, db.is_32bit),
        r.function_count == db.function_count,
        r.debug_info == debug_info,
        r.analysis_status == analysis_status,
{
    DbInfo {
        path: path.to_owned(),
        file_type: db.file_type.clone(),
        processor: db.processor.clone(),
        bits: bits_of(db.is_64bit, db.is_32bit),
        function_count: db.function_count,
        debug_info,
        analysis_status,
    }
}

/// Whether the analysis of an open database is done.
pub fn is_analysed(info: &DbInfo) -> (r: bool)
    ensures
        r == flag_in(info.analysis_status@, "auto_is_ok"@),
{
    match info.analysis_status.get("auto_is_ok") {
        Some(v) => match v.as_bool() {
            Some(b) => b,
            None => false,
        },
        None => false,
    }
}

/// Which debug information is loaded into an open database: the given one, else the one next to the
/// input that the database was made from.
pub open spec fn debug_target(
    given: Option<Seq<char>>,
    database: Option<Seq<char>>,
    sibling_exists: bool,
    exists: bool,
) -> Result<Seq<char>, ToolErrorV> {
    match database {
        None => Err(ToolErrorOf::NoDatabaseOpen),
        Some(db) => {
            let chosen = match given {
                Some(p) => Some(p),
                None => if sibling_exists {
                    dsym_path(base_input(db))
                } else {
                    None
                },
            };
            match chosen {
                None => Err(ToolErrorOf::InvalidPath("No sibling .dSYM found"@)),
                Some(p) => if exists {
                    Ok(p)
                } else {
                    Err(ToolErrorOf::InvalidPath("File not found: "@ + p))
                },
            }
        },
    }
}

/// Which debug information is loaded into an open database. `exists` says whether the chosen file
/// exists.
pub fn handle_load_debug_info(
    given: &Option<String>,
    database: &Option<String>,
    sibling_exists: bool,
    exists: bool,
) -> (r: Result<String, ToolError>)
    ensures
        match r {
            Ok(p) => debug_target(opt_view(*given), opt_view(*database), sibling_exists, exists)
                == Ok::<Seq<char>, ToolErrorV>(p@),
            Err(e) => debug_target(opt_view(*given), opt_view(*database), sibling_exists, exists)
                == Err::<Seq<char>, ToolErrorV>(e@),
        },
{
    match database {
        None => Err(ToolErrorOf::NoDatabaseOpen),
        Some(db) => {
            let chosen: Option<String> = match given {
                Some(p) => Some(p.clone()),
                None => {
                    let base = base_input_path_for_database(db.as_str());
                    dsym_path_for_binary(base.as_str(), sibling_exists)
                },
            };
            match chosen {
                None => Err(ToolErrorOf::InvalidPath("No sibling .dSYM found".to_owned())),
                Some(p) => if exists {
                    Ok(p)
                } else {
                    let mut m = "File not found: ".to_owned();
                    m.push_str(p.as_str());
                    Err(ToolErrorOf::InvalidPath(m))
                },
            }
        },
    }
}

/// What is answered once debug information was loaded.
pub fn debug_info_reply(path: &str, loaded: bool) -> (r: Json)
    ensures
        r@ == JsonV::Obj(
            no_fields().insert("path"@, text_v(path@)).insert("loaded"@, JsonV::Bool(loaded)),
        ),
{
    let mut o = JsonObject::new();
    o.put("path", Json::text(path));
    o.put("loaded", Json::Bool(loaded));
    Json::Object(o)
}

/// A text that is blank counts as not given; any other is taken without the
/// white space around it.
pub proof fn lemma_given_text(before: Seq<char>, s: Seq<char>, after: Seq<char>)
    requires
        forall|i: int| 0 <= i < before.len() ==> is_white(#[trigger] before[i]),
        forall|i: int| 0 <= i < after.len() ==> is_white(#[trigger] after[i]),
        s.len() > 0 && !is_white(s[0]) && !is_white(s.last()),
    ensures
        given_text(Some(before + s + after)) == Some(s),
        given_text(Some(before)) is None,
        given_text(None) is None,
{
    lemma_trim_padding(before, s, after);
    lemma_blank_is_trimmed_away(before);
}

/// The debug information of a file stands beside it, in a bundle that has the
/// file's name and `.dSYM`, under the file's name.
#[verifier::rlimit(50)]
pub proof fn lemma_debug_bundle(dir: Seq<char>, name: Seq<char>)
    requires
        dir.len() > 0 && dir.last() != '/',
        !(dir.len() >= 2 && dir.last() == '.' && dir[dir.len() - 2] == '/'),
        is_name(name) && !name.contains('/'),
    ensures
        dsym_path(dir + seq!['/'] + name) == Some(
            dir + seq!['/'] + name + ".dSYM/Contents/Resources/DWARF/"@ + name,
        ),
{
    lemma_parent_of_joined(dir, name);
    let p = dir + seq!['/'] + name;
    reveal_strlit(".dSYM");
    reveal_strlit("Contents");
    reveal_strlit("Resources");
    reveal_strlit("DWARF");
    reveal_strlit(".dSYM/Contents/Resources/DWARF/");
    let a = p + ".dSYM"@;
    assert(a.last() == 'M');
    let b = join_of(a, "Contents"@);
    assert(b == a + seq!['/'] + "Contents"@);
    assert(b.last() == 's');
    let c = join_of(b, "Resources"@);
    assert(c == b + seq!['/'] + "Resources"@);
    assert(c.last() == 's');
    let d = join_of(c, "DWARF"@);
    assert(d == c + seq!['/'] + "DWARF"@);
    assert(d.last() == 'F');
    assert(name.contains(name[0]));
    assert(join_of(d, name) == d + seq!['/'] + name);
    let tail = ".dSYM"@ + seq!['/'] + "Contents"@ + seq!['/'] + "Resources"@ + seq!['/'] + "DWARF"@
        + seq!['/'];
    assert(tail =~= ".dSYM/Contents/Resources/DWARF/"@);
    assert(d + seq!['/'] + name =~= p + tail + name);
}

/// A cancelled open is refused with the cause, whatever is open. Otherwise
/// another open database refuses it, the same one is kept, and where none is
/// open the work goes on.
pub proof fn lemma_open_checks(
    path: Seq<char>,
    home: Option<Seq<char>>,
    e: ToolErrorV,
    open: Seq<char>,
    current: Option<Seq<char>>,
)
    ensures
        open_checked(path, home, Some(e), current) == OpenCheckV::Refused(e),
        open_checked(path, home, None, None) == (OpenCheckV::Proceed {
            expanded: expanded_path(path, home),
        }),
        one_database(open, expanded_path(path, home)) ==> open_checked(path, home, None, Some(open))
            == (OpenCheckV::Same { current: open }),
        !one_database(open, expanded_path(path, home)) ==> open_checked(
            path,
            home,
            None,
            Some(open),
        ) == OpenCheckV::Refused(ToolErrorOf::DatabaseAlreadyOpen(open)),
{
}

/// A raw binary without a database, or one to be rebuilt, is analysed anew: it
/// is the input, its database the output and what is locked. A file that is
/// not there is refused.
pub proof fn lemma_new_database_is_made(
    req: OpenRequest,
    expanded: Seq<char>,
    home: Option<Seq<char>>,
    facts: OpenFacts,
)
    requires
        !names_database(expanded),
        !facts.output_exists || req.rebuild,
    ensures
        facts.input_exists ==> {
            let plan = open_planned(req, expanded, home, facts)->Ok_0;
            let out = if req.idb_out is Some {
                expanded_path(req.idb_out->0@, home)
            } else {
                expanded + seq!['.', 'i', '6', '4']
            };
            &&& open_planned(req, expanded, home, facts) is Ok
            &&& !plan.existing
            &&& plan.input == expanded
            &&& plan.output == Some(out)
            &&& plan.opened == out
            &&& plan.lock_target == out
            &&& plan.auto_analyse == req.auto_analyse
            &&& plan.args.contains("-A"@)
            &&& req.force ==> plan.clean_locks == seq![out, expanded]
            &&& !req.force ==> plan.clean_locks.len() == 0
        },
        !facts.input_exists ==> open_planned(req, expanded, home, facts) == Err::<
            OpenPlanV,
            ToolErrorV,
        >(ToolErrorOf::InvalidPath("File not found: "@ + expanded)),
{
    reveal_strlit(".i64");
    assert(".i64"@ =~= seq!['.', 'i', '6', '4']);
    lemma_database_args(views(req.extra_args@));
}

/// Debug information that is asked for is loaded from the path that is given,
/// else from the bundle of the input; what is not asked for is loaded only
/// from a bundle that stands beside a new input.
pub proof fn lemma_debug_steps(
    req: OpenRequest,
    expanded: Seq<char>,
    sibling: Option<Seq<char>>,
    path: Seq<char>,
)
    ensures
        req.load_debug_info && given_text(opt_view(req.debug_info_path)) == Some(path)
            ==> debug_step(req, expanded, sibling) == (DebugStepOf::Requested { path }),
        req.load_debug_info && given_text(opt_view(req.debug_info_path)) is None && dsym_path(
            base_input(expanded),
        ) == Some(path) ==> debug_step(req, expanded, sibling) == (DebugStepOf::Requested { path }),
        !req.load_debug_info && sibling == Some(path) ==> debug_step(req, expanded, sibling) == (
        DebugStepOf::Sibling { path }),
        !req.load_debug_info && sibling is None ==> debug_step(req, expanded, sibling)
            == DebugStepOf::<Seq<char>>::Nothing,
{
}

/// Debug information counts as loaded only where it is there and the load says
/// so; otherwise the report gives the reason.
pub proof fn lemma_debug_reports(path: Seq<char>, exists: bool, outcome: Result<bool, Seq<char>>)
    ensures
        debug_report(path, exists, outcome).path == path,
        debug_report(path, exists, outcome).loaded <==> exists && outcome == Ok::<bool, Seq<char>>(
            true,
        ),
        debug_report(path, exists, outcome).loaded <==> debug_report(path, exists, outcome).error
            is None,
        exists && outcome is Err ==> debug_report(path, exists, outcome).error == Some(
            outcome->Err_0,
        ),
{
}

/// What is loaded later is the path that is given, else the bundle of the open
/// database's input; it has to be there, and a database has to be open.
pub proof fn lemma_debug_targets(given: Seq<char>, db: Seq<char>, sibling: bool, exists: bool)
    ensures
        debug_target(Some(given), Some(db), sibling, true) == Ok::<Seq<char>, ToolErrorV>(given),
        debug_target(Some(given), Some(db), sibling, false) is Err,
        debug_target(None, Some(db), false, exists) is Err,
        dsym_path(base_input(db)) is Some ==> debug_target(None, Some(db), true, true) == Ok::<
            Seq<char>,
            ToolErrorV,
        >(dsym_path(base_input(db))->0),
        debug_target(Some(given), None, sibling, exists) == Err::<Seq<char>, ToolErrorV>(
            ToolErrorOf::NoDatabaseOpen,
        ),
{
}

/// The unpacked database beside a packed one takes its place only where the
/// plan opens an existing database and the unpacked one is there.
pub proof fn lemma_fallbacks(plan: OpenPlanV, unpacked_exists: bool)
    ensures
        fallback_of(plan, false) is None,
        !plan.existing ==> fallback_of(plan, unpacked_exists) is None,
        plan.existing ==> fallback_of(plan, true) == unpacked_of(plan.input),
{
}

/// The database of a raw binary that is there already is the one that the caller
/// names, else the one beside the binary.
pub proof fn lemma_database_that_is_there(raw: Seq<char>, out: Seq<char>)
    ensures
        existing_database(raw, Some(out), true) == Some(out),
        existing_database(raw, None, true) == Some(raw + seq!['.', 'i', '6', '4']),
        existing_database(raw, Some(out), false) is None,
        existing_database(raw, None, false) is None,
{
    reveal_strlit(".i64");
    assert(".i64"@ =~= seq!['.', 'i', '6', '4']);
}

/// A new database is made with the file type that is given, with `-A` before the
/// further arguments, and with the debug information of a bundle beside the input
/// where there is one; an existing one is opened as it is, with no file type.
pub proof fn lemma_how_a_database_is_made(
    req: OpenRequest,
    expanded: Seq<char>,
    home: Option<Seq<char>>,
    facts: OpenFacts,
)
    requires
        facts.input_exists,
    ensures
        open_planned(req, expanded, home, facts) matches Ok(plan) && {
            let made = !names_database(expanded) && (!facts.output_exists || req.rebuild);
            &&& plan.existing <==> !made
            &&& made ==> plan.file_type == given_text(opt_view(req.file_type))
            &&& !made ==> plan.file_type is None && plan.output is None
            &&& views(req.extra_args@).contains("-A"@) ==> plan.args == views(req.extra_args@)
            &&& !views(req.extra_args@).contains("-A"@) ==> plan.args == seq!["-A"@] + views(
                req.extra_args@,
            )
            &&& plan.sibling_dsym is Some ==> !names_database(expanded) && !facts.output_exists
                && facts.dsym_exists
            &&& !names_database(expanded) && !facts.output_exists && facts.dsym_exists
                ==> plan.sibling_dsym == dsym_path(expanded)
            &&& names_database(expanded) ==> plan.input == expanded && plan.lock_target == expanded
                && plan.opened == expanded
            &&& !names_database(expanded) && !made ==> plan.input == plan.opened
                && plan.lock_target == plan.opened
            &&& req.force ==> plan.clean_locks == seq![plan.lock_target, expanded]
            &&& !req.force ==> plan.clean_locks.len() == 0
            &&& !made ==> plan.message == "Opening existing IDA database"@
            &&& made && req.auto_analyse ==> plan.message
                == "Opening raw binary and waiting for initial auto-analysis"@
            &&& made && !req.auto_analyse ==> plan.message == "Opening raw binary"@
        },
{
}

} // verus!
