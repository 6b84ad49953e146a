//! Searches that a pool hands to a worker: they reach it as they were asked, and what it finds comes
//! back as it was found.

use crate::calls::{
    find_bytes_args, first_matches, page_limit, search_args, wide_nat, with_limits, WorkerCallV,
};
use crate::errors::{ToolErrorOf, ToolErrorV};
use crate::json::{
    no_fields, number_v, opt_number_v, signed_in, text_in, text_v, texts_v, FieldsV, JsonV,
};
use crate::numbers::{hex, lemma_address_read_back};
use crate::text::opt_view;
use crate::tools::{
    find_bytes_plan, matches_in, page_of, search_plan, searches_v, FindBytesRequest, Listed,
    SearchLimits, SearchRequest,
};
use crate::values::{all_texts, number_in};
use vstd::prelude::*;

verus! {

/// Whether a request for bytes holds these arguments.
pub open spec fn holds_find_bytes(req: FindBytesRequest, args: FieldsV) -> bool {
    &&& req.patterns@ == args["patterns"@]
    &&& req.limit == signed_in(args["limit"@])
    &&& req.offset == signed_in(args["offset"@])
    &&& req.timeout_secs == signed_in(args["timeout_secs"@])
    &&& req.worker_max_results == signed_in(args["_worker_max_results"@])
}

/// Whether a request for texts or numbers holds these arguments.
pub open spec fn holds_search(req: SearchRequest, args: FieldsV) -> bool {
    &&& req.targets@ == args["targets"@]
    &&& opt_view(req.kind) == text_in(args["kind"@])
    &&& req.limit == signed_in(args["limit"@])
    &&& req.offset == signed_in(args["offset"@])
    &&& req.timeout_secs == signed_in(args["timeout_secs"@])
    &&& req.worker_max_results == signed_in(args["_worker_max_results"@])
}

/// How a worker limits a search that a pool asked for: it answers all that it finds, as far as the
/// pool wants it.
pub open spec fn pool_limits(
    limits: SearchLimits,
    max_results: usize,
    timeout_secs: Option<u64>,
) -> bool {
    &&& limits.offset == 0
    &&& limits.wanted() == max_results
    &&& limits.shown() == max_results
    &&& limits.timeout_secs == timeout_secs
}

/// Whether numbers reach a worker unchanged: a search gives twenty thousand results at most, and the
/// wire has signed numbers of 64 bits.
pub open spec fn sendable(max_results: usize, timeout_secs: Option<u64>) -> bool {
    &&& max_results <= 20000
    &&& timeout_secs matches Some(n) ==> n <= i64::MAX
}

proof fn lemma_limits_kept(base: FieldsV, max_results: usize, timeout_secs: Option<u64>)
    ensures
        with_limits(base, max_results, timeout_secs)["limit"@]
            == number_v(page_limit(max_results)),
        with_limits(base, max_results, timeout_secs)["offset"@]
            == number_v(0),
        with_limits(base, max_results, timeout_secs)["timeout_secs"@]
            == opt_number_v(wide_nat(timeout_secs)),
        with_limits(base, max_results, timeout_secs)["_worker_max_results"@]
            == number_v(max_results as nat),
        forall|k: Seq<char>|
            k != "limit"@ && k != "offset"@ && k != "timeout_secs"@ && k != "_worker_max_results"@
                ==> #[trigger] with_limits(base, max_results, timeout_secs)[k] == base[k],
{
    reveal_strlit("limit");
    reveal_strlit("offset");
    reveal_strlit("timeout_secs");
    reveal_strlit("_worker_max_results");
    assert("_worker_max_results"@.len() == 19);
    assert("timeout_secs"@.len() == 12);
    assert("limit"@.len() == 5);
    assert("offset"@.len() == 6);
}

proof fn lemma_one_text(t: Seq<char>)
    ensures
        all_texts(texts_v(seq![t])->Arr_0) == Ok::<Seq<Seq<char>>, ToolErrorV>(seq![t]),
{
    let items = texts_v(seq![t])->Arr_0;
    assert(items.drop_last() =~= seq![]);
    assert(all_texts(items.drop_last()) == Ok::<Seq<Seq<char>>, ToolErrorV>(seq![]));
    assert(Seq::<Seq<char>>::empty().push(t) =~= seq![t]);
}

/// A search for bytes that a pool hands to a worker is one search for that pattern, with the limits
/// that the pool wants.
pub proof fn lemma_find_bytes_reaches_worker(
    pattern: Seq<char>,
    max_results: usize,
    timeout_secs: Option<u64>,
    req: FindBytesRequest,
)
    requires
        sendable(max_results, timeout_secs),
        holds_find_bytes(req, find_bytes_args(pattern, max_results, timeout_secs)),
    ensures
        ({
            let plan = find_bytes_plan(req, true);
            &&& plan is Ok
            &&& pool_limits(plan->Ok_0.0, max_results, timeout_secs)
            &&& plan->Ok_0.1 == seq![pattern]
            &&& plan->Ok_0.2 == seq![
                Ok::<WorkerCallV, ToolErrorV>(
                    WorkerCallV::FindBytes { pattern, max_results, timeout_secs },
                ),
            ]
        }),
{
    let base = no_fields().insert("patterns"@, texts_v(seq![pattern]));
    lemma_limits_kept(base, max_results, timeout_secs);
    reveal_strlit("patterns");
    reveal_strlit("limit");
    reveal_strlit("offset");
    reveal_strlit("timeout_secs");
    reveal_strlit("_worker_max_results");
    assert("patterns"@.len() == 8);
    assert("_worker_max_results"@.len() == 19);
    assert("timeout_secs"@.len() == 12);
    assert("limit"@.len() == 5);
    assert("offset"@.len() == 6);
    assert(req.patterns@ == base["patterns"@]);
    lemma_one_text(pattern);
    let plan = find_bytes_plan(req, true);
    assert(plan->Ok_0.2 =~= seq![
        Ok::<WorkerCallV, ToolErrorV>(WorkerCallV::FindBytes { pattern, max_results, timeout_secs }),
    ]);
}

/// A search for a text that a pool hands to a worker is one search for that text, with the limits
/// that the pool wants.
pub proof fn lemma_search_text_reaches_worker(
    text: Seq<char>,
    max_results: usize,
    timeout_secs: Option<u64>,
    req: SearchRequest,
)
    requires
        sendable(max_results, timeout_secs),
        holds_search(req, search_args(text, "text"@, max_results, timeout_secs)),
    ensures
        opt_view(req.kind) == Some("text"@),
        ({
            let plan = search_plan(req, "text"@, true);
            &&& plan is Ok
            &&& pool_limits(plan->Ok_0.0, max_results, timeout_secs)
            &&& plan->Ok_0.1 == seq![text]
            &&& plan->Ok_0.2 == seq![
                Ok::<WorkerCallV, ToolErrorV>(
                    WorkerCallV::SearchText { text, max_results, timeout_secs },
                ),
            ]
        }),
{
    lemma_search_args(text, "text"@, max_results, timeout_secs);
    reveal_strlit("text");
    reveal_strlit("imm");
    reveal_strlit("immediate");
    assert("text"@.len() == 4);
    assert("imm"@.len() == 3);
    assert("immediate"@.len() == 9);
    lemma_one_text(text);
    let plan = search_plan(req, "text"@, true);
    assert(plan->Ok_0.2 =~= seq![
        Ok::<WorkerCallV, ToolErrorV>(WorkerCallV::SearchText { text, max_results, timeout_secs }),
    ]);
}

/// A search for a number that a pool hands to a worker is one search for that number, with the
/// limits that the pool wants.
pub proof fn lemma_search_imm_reaches_worker(
    imm: u64,
    max_results: usize,
    timeout_secs: Option<u64>,
    req: SearchRequest,
)
    requires
        sendable(max_results, timeout_secs),
        holds_search(req, search_args(hex(imm as nat), "imm"@, max_results, timeout_secs)),
    ensures
        opt_view(req.kind) == Some("imm"@),
        ({
            let plan = search_plan(req, "imm"@, true);
            &&& plan is Ok
            &&& pool_limits(plan->Ok_0.0, max_results, timeout_secs)
            &&& plan->Ok_0.1 == seq![hex(imm as nat)]
            &&& plan->Ok_0.2 == seq![
                Ok::<WorkerCallV, ToolErrorV>(
                    WorkerCallV::SearchImm { imm, max_results, timeout_secs },
                ),
            ]
        }),
{
    let text = hex(imm as nat);
    lemma_search_args(text, "imm"@, max_results, timeout_secs);
    lemma_one_text(text);
    lemma_address_read_back(imm);
    assert(number_in(text) == Ok::<u64, ToolErrorV>(imm));
    let plan = search_plan(req, "imm"@, true);
    assert(plan->Ok_0.2 =~= seq![
        Ok::<WorkerCallV, ToolErrorV>(WorkerCallV::SearchImm { imm, max_results, timeout_secs }),
    ]);
}

proof fn lemma_search_args(
    target: Seq<char>,
    kind: Seq<char>,
    max_results: usize,
    timeout_secs: Option<u64>,
)
    ensures
        ({
            let args = search_args(target, kind, max_results, timeout_secs);
            &&& args["targets"@] == texts_v(seq![target])
            &&& args["kind"@] == text_v(kind)
            &&& args["limit"@] == number_v(page_limit(max_results))
            &&& args["offset"@] == number_v(0)
            &&& args["timeout_secs"@] == opt_number_v(
                wide_nat(timeout_secs),
            )
            &&& args["_worker_max_results"@] == number_v(max_results as nat)
        }),
{
    let base = no_fields().insert("targets"@, texts_v(seq![target])).insert(
        "kind"@,
        text_v(kind),
    );
    lemma_limits_kept(base, max_results, timeout_secs);
    reveal_strlit("targets");
    reveal_strlit("kind");
    reveal_strlit("limit");
    reveal_strlit("offset");
    reveal_strlit("timeout_secs");
    reveal_strlit("_worker_max_results");
    assert("targets"@.len() == 7);
    assert("kind"@.len() == 4);
    assert("_worker_max_results"@.len() == 19);
    assert("timeout_secs"@.len() == 12);
    assert("limit"@.len() == 5);
    assert("offset"@.len() == 6);
}

/// What a worker finds for a pool comes back to it: all matches, in order, where there are no more
/// than the pool wanted; and an error as that error.
pub proof fn lemma_matches_come_back(
    label: Seq<char>,
    item: Listed,
    limits: SearchLimits,
    max_results: usize,
    timeout_secs: Option<u64>,
    tool: Seq<char>,
)
    requires
        label == "pattern"@ || label == "target"@,
        pool_limits(limits, max_results, timeout_secs),
        item.outcome matches Ok(v) ==> matches_in(v@).len() <= max_results,
    ensures
        first_matches(searches_v(label, seq![item], limits), tool) == (match item.outcome {
            Ok(v) => Ok::<JsonV, ToolErrorV>(
                JsonV::Obj(no_fields().insert("matches"@, JsonV::Arr(matches_in(v@)))),
            ),
            Err(e) => Err::<JsonV, ToolErrorV>(ToolErrorOf::IdaError(e@)),
        }),
{
    reveal_strlit("pattern");
    reveal_strlit("target");
    reveal_strlit("matches");
    reveal_strlit("total");
    reveal_strlit("next_offset");
    reveal_strlit("error");
    reveal_strlit("results");
    assert("matches"@.len() == 7 && "matches"@[0] == 'm');
    assert("pattern"@.len() == 7 && "pattern"@[0] == 'p');
    assert("target"@.len() == 6 && "total"@.len() == 5 && "total"@[0] == 't');
    assert("error"@.len() == 5 && "error"@[0] == 'e');
    assert("next_offset"@.len() == 11);
    if let Ok(v) = item.outcome {
        let all = matches_in(v@);
        assert(page_of(all, 0, max_results as nat).0 =~= all);
    }
}

} // verus!
