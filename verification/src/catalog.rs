//! Which tools there are, what they are good for, and which of them a session may use.

use crate::errors::{ToolError, ToolErrorV};
use crate::json::{
    no_fields, number_v, text_v, texts_v, values_of, FieldsV, Json, JsonObject, JsonV, NumV,
};
use crate::schema::{
    lemma_json_is_finite, lemma_no_schema_key, normalize_schema_value, normalized,
    without_schema_key,
};
use crate::text::{opt_view, same, views};
use crate::values::{cap_count, capped, count_param, optional_count};
use vstd::prelude::*;

verus! {

/// A tool, as the catalog lists it.
#[derive(Debug)]
pub struct ToolEntry {
    pub name: String,
    pub description: String,
    pub category: String,
    /// Whether a session may use it.
    pub enabled: bool,
    /// The words of a query that it matches.
    pub matched: Vec<String>,
}

/// A group of tools.
#[derive(Debug)]
pub struct ToolGroup {
    pub name: String,
    pub description: String,
    pub tools: Vec<ToolEntry>,
}

/// How many tools are listed.
pub open spec fn catalog_limit(limit: Option<i64>) -> Result<usize, ToolErrorV> {
    match count_param(limit, "limit"@) {
        Ok(n) => Ok(capped(n, 7, 15)),
        Err(e) => Err(e),
    }
}

/// How many tools are listed.
pub fn read_catalog_limit(limit: Option<i64>) -> (r: Result<usize, ToolError>)
    ensures
        match r {
            Ok(n) => catalog_limit(limit) == Ok::<usize, ToolErrorV>(n),
            Err(e) => catalog_limit(limit) == Err::<usize, ToolErrorV>(e@),
        },
{
    let n: Option<usize> = optional_count(limit, "limit")?;
    Ok(cap_count(n, 7, 15))
}

/// How a tool is listed; with the words of the query that it matches, where there is a query.
pub open spec fn entry_fields(t: ToolEntry, queried: bool) -> FieldsV {
    let base = no_fields().insert("name"@, text_v(t.name@)).insert(
        "description"@,
        text_v(t.description@),
    ).insert("category"@, text_v(t.category@));
    if queried {
        base.insert("matched"@, texts_v(views(t.matched@)))
    } else {
        base
    }
}

/// The first of the tools that may be used, in order, as far as the limit goes.
pub open spec fn usable(tools: Seq<ToolEntry>, limit: nat, queried: bool) -> Seq<JsonV>
    decreases tools.len(),
{
    if tools.len() == 0 {
        seq![]
    } else {
        let front = usable(tools.drop_last(), limit, queried);
        if tools.last().enabled && front.len() < limit {
            front.push(JsonV::Obj(entry_fields(tools.last(), queried)))
        } else {
            front
        }
    }
}

fn entry_json(t: &ToolEntry, queried: bool) -> (r: Json)
    ensures
        r@ == JsonV::Obj(entry_fields(*t, queried)),
{
    let mut o = JsonObject::new();
    o.put("name", Json::text(t.name.as_str()));
    o.put("description", Json::text(t.description.as_str()));
    o.put("category", Json::text(t.category.as_str()));
    if queried {
        o.put("matched", Json::texts(&t.matched));
    }
    Json::Object(o)
}

fn usable_tools(tools: &Vec<ToolEntry>, limit: usize, queried: bool) -> (r: Json)
    ensures
        r@ == JsonV::Arr(usable(tools@, limit as nat, queried)),
{
    let mut out: Vec<Json> = Vec::new();
    let mut i: usize = 0;
    assert(tools@.take(0) =~= seq![]);
    assert(values_of(out@) =~= seq![]);
    while i < tools.len()
        invariant
            i <= tools.len(),
            values_of(out@) == usable(tools@.take(i as int), limit as nat, queried),
        decreases tools.len() - i,
    {
        let ghost before = out@;
        proof {
            let now = tools@.take(i + 1);
            assert(now.drop_last() =~= tools@.take(i as int));
            assert(now.last() == tools[i as int]);
            assert(values_of(before).len() == before.len());
        }
        if tools[i].enabled && out.len() < limit {
            let item = entry_json(&tools[i], queried);
            let ghost iv = item@;
            out.push(item);
            assert(values_of(out@) =~= values_of(before).push(iv));
        }
        i = i + 1;
    }
    assert(tools@.take(i as int) =~= tools@);
    Json::list(out)
}

/// No more tools are listed than the limit allows, and none that may not be used.
pub proof fn lemma_usable_bounds(tools: Seq<ToolEntry>, limit: nat, queried: bool)
    ensures
        usable(tools, limit, queried).len() <= limit,
        usable(tools, limit, queried).len() <= tools.len(),
        (forall|i: int| 0 <= i < tools.len() ==> !(#[trigger] tools[i]).enabled) ==> usable(
            tools,
            limit,
            queried,
        ).len() == 0,
    decreases tools.len(),
{
    if tools.len() > 0 {
        lemma_usable_bounds(tools.drop_last(), limit, queried);
        if forall|i: int| 0 <= i < tools.len() ==> !(#[trigger] tools[i]).enabled {
            assert forall|i: int| 0 <= i < tools.drop_last().len() implies !(
            #[trigger] tools.drop_last()[i]).enabled by {
                assert(tools.drop_last()[i] == tools[i]);
            }
            assert(!tools[tools.len() - 1].enabled);
        }
    }
}

/// Adds that not all tools are listed, where a filter is active.
pub open spec fn with_filter_note(o: FieldsV, filtering: bool) -> FieldsV {
    if filtering {
        o.insert("filtering_active"@, JsonV::Bool(true))
    } else {
        o
    }
}

/// The tools of a group.
pub open spec fn group_listing(g: ToolGroup, limit: nat, filtering: bool) -> FieldsV {
    with_filter_note(
        no_fields().insert("category"@, text_v(g.name@)).insert(
            "category_description"@,
            text_v(g.description@),
        ).insert("tools"@, JsonV::Arr(usable(g.tools@, limit, false))).insert(
            "hint"@,
            text_v("Use tool_help(name) for full documentation and examples"@),
        ),
        filtering,
    )
}

/// The tools that match a query, the best first.
pub open spec fn query_listing(
    query: Seq<char>,
    found: Seq<ToolEntry>,
    limit: nat,
    filtering: bool,
) -> FieldsV {
    with_filter_note(
        no_fields().insert("query"@, text_v(query)).insert(
            "tools"@,
            JsonV::Arr(usable(found, limit, true)),
        ).insert("hint"@, text_v("Use tool_help(name) for full documentation and examples"@)),
        filtering,
    )
}

/// How many tools may be used.
pub open spec fn enabled_in(tools: Seq<ToolEntry>) -> nat
    decreases tools.len(),
{
    if tools.len() == 0 {
        0
    } else {
        enabled_in(tools.drop_last()) + (if tools.last().enabled {
            1nat
        } else {
            0nat
        })
    }
}

fn count_enabled(tools: &Vec<ToolEntry>) -> (r: usize)
    ensures
        r == enabled_in(tools@),
        r <= tools.len(),
{
    let mut n: usize = 0;
    let mut i: usize = 0;
    assert(tools@.take(0) =~= seq![]);
    while i < tools.len()
        invariant
            i <= tools.len(),
            n <= i,
            n == enabled_in(tools@.take(i as int)),
        decreases tools.len() - i,
    {
        proof {
            let now = tools@.take(i + 1);
            assert(now.drop_last() =~= tools@.take(i as int));
            assert(now.last() == tools[i as int]);
        }
        if tools[i].enabled {
            n = n + 1;
        }
        i = i + 1;
    }
    assert(tools@.take(i as int) =~= tools@);
    n
}

/// How a group is listed: what it is for, and how many of its tools may be used.
pub open spec fn group_fields(g: ToolGroup) -> FieldsV {
    no_fields().insert("category"@, text_v(g.name@)).insert(
        "description"@,
        text_v(g.description@),
    ).insert("tool_count"@, number_v(enabled_in(g.tools@)))
}

/// All groups.
pub open spec fn overview(groups: Seq<ToolGroup>, filtering: bool, enabled_count: nat) -> FieldsV {
    let base = no_fields().insert(
        "categories"@,
        JsonV::Arr(groups.map_values(|g: ToolGroup| JsonV::Obj(group_fields(g)))),
    ).insert(
        "hint"@,
        text_v(
            if filtering {
                "Use tool_catalog(category='...') to list enabled tools in a category, or tool_catalog(query='...') to search enabled tools. tools/list includes only tools enabled by the current filter."@
            } else {
                "Use tool_catalog(category='...') to list tools in a category, or tool_catalog(query='...') to search. tools/list already includes all tools."@
            },
        ),
    );
    if filtering {
        base.insert("filtering_active"@, JsonV::Bool(true)).insert(
            "enabled_tool_count"@,
            number_v(enabled_count),
        )
    } else {
        base
    }
}

/// What the catalog is asked for.
#[derive(Debug)]
pub enum CatalogQuery {
    /// The tools of the group at this position.
    Group(usize),
    /// The tools that match a query, the best first.
    Search { query: String, found: Vec<ToolEntry> },
    /// All groups.
    Overview,
}

/// What the catalog is asked for: a group, where one is named that there is; else a query, where
/// there is one. `found` holds the tools that match the query.
pub fn choose_catalog(group: Option<usize>, query: &Option<String>, found: Vec<ToolEntry>) -> (r:
    CatalogQuery)
    ensures
        match r {
            CatalogQuery::Group(i) => group == Some(i),
            CatalogQuery::Search { query: q, found: f } => group is None && opt_view(*query)
                == Some(q@) && f == found,
            CatalogQuery::Overview => group is None && query is None,
        },
{
    match group {
        Some(i) => CatalogQuery::Group(i),
        None => match query {
            Some(q) => CatalogQuery::Search { query: q.clone(), found },
            None => CatalogQuery::Overview,
        },
    }
}

/// What the catalog answers.
pub open spec fn catalog(
    q: CatalogQuery,
    groups: Seq<ToolGroup>,
    limit: nat,
    filtering: bool,
    enabled_count: nat,
) -> FieldsV {
    match q {
        CatalogQuery::Group(i) => group_listing(groups[i as int], limit, filtering),
        CatalogQuery::Search { query, found } => query_listing(query@, found@, limit, filtering),
        CatalogQuery::Overview => overview(groups, filtering, enabled_count),
    }
}

/// What the catalog answers.
pub fn tool_catalog(
    q: &CatalogQuery,
    groups: &Vec<ToolGroup>,
    limit: usize,
    filtering: bool,
    enabled_count: usize,
) -> (r: Json)
    requires
        q matches CatalogQuery::Group(i) ==> i < groups.len(),
    ensures
        r@ == JsonV::Obj(catalog(*q, groups@, limit as nat, filtering, enabled_count as nat)),
{
    let mut o = JsonObject::new();
    match q {
        CatalogQuery::Group(i) => {
            let g = &groups[*i];
            o.put("category", Json::text(g.name.as_str()));
            o.put("category_description", Json::text(g.description.as_str()));
            o.put("tools", usable_tools(&g.tools, limit, false));
            o.put("hint", Json::text("Use tool_help(name) for full documentation and examples"));
            if filtering {
                o.put("filtering_active", Json::Bool(true));
            }
        },
        CatalogQuery::Search { query, found } => {
            o.put("query", Json::text(query.as_str()));
            o.put("tools", usable_tools(found, limit, true));
            o.put("hint", Json::text("Use tool_help(name) for full documentation and examples"));
            if filtering {
                o.put("filtering_active", Json::Bool(true));
            }
        },
        CatalogQuery::Overview => {
            let mut list: Vec<Json> = Vec::new();
            let mut i: usize = 0;
            while i < groups.len()
                invariant
                    i <= groups.len(),
                    list.len() == i,
                    forall|j: int|
                        0 <= j < i ==> (#[trigger] list[j])@ == JsonV::Obj(group_fields(groups[j])),
                decreases groups.len() - i,
            {
                let g = &groups[i];
                let mut c = JsonObject::new();
                c.put("category", Json::text(g.name.as_str()));
                c.put("description", Json::text(g.description.as_str()));
                c.put("tool_count", Json::count(count_enabled(&g.tools)));
                list.push(Json::Object(c));
                i = i + 1;
            }
            assert(values_of(list@) =~= groups@.map_values(
                |g: ToolGroup| JsonV::Obj(group_fields(g)),
            ));
            o.put("categories", Json::list(list));
            let hint: &str = if filtering {
                "Use tool_catalog(category='...') to list enabled tools in a category, or tool_catalog(query='...') to search enabled tools. tools/list includes only tools enabled by the current filter."
            } else {
                "Use tool_catalog(category='...') to list tools in a category, or tool_catalog(query='...') to search. tools/list already includes all tools."
            };
            o.put("hint", Json::text(hint));
            if filtering {
                o.put("filtering_active", Json::Bool(true));
                o.put("enabled_tool_count", Json::count(enabled_count));
            }
        },
    }
    Json::Object(o)
}

// ---------------------------------------------------------------------------
// Help
// ---------------------------------------------------------------------------

/// What is known of a tool.
#[derive(Debug)]
pub struct ToolDoc {
    pub name: String,
    pub category: String,
    pub description: String,
    pub example: String,
    pub keywords: Vec<String>,
    /// The schema of its arguments, where it has one.
    pub parameters: Option<Json>,
}

/// What is answered where a tool may not be used.
pub open spec fn disabled_help(name: Seq<char>) -> FieldsV {
    no_fields().insert(
        "error"@,
        text_v(
            "tool '"@ + name
                + "' is disabled by current filter (--toolsets/--tools/--exclude-tools/--read-only)"@,
        ),
    ).insert("filtering_active"@, JsonV::Bool(true)).insert(
        "hint"@,
        text_v("call tool_catalog to see enabled tools"@),
    )
}

/// What is answered where a tool is known.
pub open spec fn known_help(t: ToolDoc) -> FieldsV {
    no_fields().insert("name"@, text_v(t.name@)).insert("category"@, text_v(t.category@)).insert(
        "description"@,
        text_v(t.description@),
    ).insert(
        "parameters"@,
        match t.parameters {
            Some(p) => p@,
            None => JsonV::Null,
        },
    ).insert("example"@, text_v(t.example@)).insert("keywords"@, texts_v(views(t.keywords@)))
}

/// What is answered where a tool is not known.
pub open spec fn unknown_help(name: Seq<char>, suggestions: Seq<Seq<char>>) -> FieldsV {
    no_fields().insert("error"@, text_v("Tool '"@ + name + "' not found"@)).insert(
        "suggestions"@,
        texts_v(suggestions),
    ).insert("hint"@, text_v("Use tool_catalog to discover available tools"@))
}

/// What is answered to a question about a tool: a tool that may not be used is not described.
pub open spec fn help(
    name: Seq<char>,
    doc: Option<ToolDoc>,
    filtering: bool,
    enabled: bool,
    suggestions: Seq<Seq<char>>,
) -> FieldsV {
    match doc {
        Some(t) => if filtering && !enabled {
            disabled_help(name)
        } else {
            known_help(t)
        },
        None => unknown_help(name, suggestions),
    }
}

/// What is answered to a question about a tool.
pub fn tool_help(
    name: &str,
    doc: &Option<ToolDoc>,
    filtering: bool,
    enabled: bool,
    suggestions: &Vec<String>,
) -> (r: Json)
    ensures
        r@ == JsonV::Obj(help(name@, *doc, filtering, enabled, views(suggestions@))),
{
    let mut o = JsonObject::new();
    match doc {
        Some(t) => if filtering && !enabled {
            let mut m = "tool '".to_owned();
            m.push_str(name);
            m.push_str(
                "' is disabled by current filter (--toolsets/--tools/--exclude-tools/--read-only)",
            );
            o.put("error", Json::Str(m));
            o.put("filtering_active", Json::Bool(true));
            o.put("hint", Json::text("call tool_catalog to see enabled tools"));
        } else {
            o.put("name", Json::text(t.name.as_str()));
            o.put("category", Json::text(t.category.as_str()));
            o.put("description", Json::text(t.description.as_str()));
            let parameters = match &t.parameters {
                Some(p) => p.copy(),
                None => Json::Null,
            };
            o.put("parameters", parameters);
            o.put("example", Json::text(t.example.as_str()));
            o.put("keywords", Json::texts(&t.keywords));
        },
        None => {
            let mut m = "Tool '".to_owned();
            m.push_str(name);
            m.push_str("' not found");
            o.put("error", Json::Str(m));
            o.put("suggestions", Json::texts(suggestions));
            o.put("hint", Json::text("Use tool_catalog to discover available tools"));
        },
    }
    Json::Object(o)
}

/// Why a call of a tool is refused that may not be used.
pub open spec fn disabled_call(name: Seq<char>) -> Seq<char> {
    "tool '"@ + name
        + "' is disabled by current filter (--toolsets/--tools/--exclude-tools/--read-only); call tool_catalog to see enabled tools"@
}

/// Why a call of a tool is refused that may not be used.
pub fn disabled_tool_message(name: &str) -> (r: String)
    ensures
        r@ == disabled_call(name@),
{
    let mut m = "tool '".to_owned();
    m.push_str(name);
    m.push_str(
        "' is disabled by current filter (--toolsets/--tools/--exclude-tools/--read-only); call tool_catalog to see enabled tools",
    );
    m
}

/// Why a call is refused, if it is.
pub fn call_refusal(name: &str, filtering: bool, enabled: bool) -> (r: Option<String>)
    ensures
        opt_view(r) == (if filtering && !enabled {
            Some(disabled_call(name@))
        } else {
            None
        }),
{
    if filtering && !enabled {
        Some(disabled_tool_message(name))
    } else {
        None
    }
}

// ---------------------------------------------------------------------------
// Annotations
// ---------------------------------------------------------------------------

/// What clients are told of the effects of a tool; nothing where it is not said.
#[derive(Clone, Copy, Debug, PartialEq, Eq, Structural)]
pub struct Annotations {
    pub read_only: bool,
    pub destructive: bool,
    pub idempotent: Option<bool>,
    pub open_world: Option<bool>,
}

/// Whether a tool changes what is open, or the database in it.
pub open spec fn changes_state(name: Seq<char>) -> bool {
    ||| name == "open_idb"@
    ||| name == "open_dsc"@
    ||| name == "dsc_add_dylib"@
    ||| name == "dsc_add_region"@
    ||| name == "close_idb"@
    ||| name == "load_debug_info"@
    ||| name == "declare_type"@
    ||| name == "apply_types"@
    ||| name == "declare_stack"@
    ||| name == "delete_stack"@
    ||| name == "rename"@
    ||| name == "set_comments"@
}

/// What clients are told of the effects of a tool.
pub open spec fn annotations(name: Seq<char>) -> Annotations {
    if name == "run_script"@ {
        Annotations {
            read_only: false,
            destructive: true,
            idempotent: None,
            open_world: Some(true),
        }
    } else if name == "patch"@ || name == "patch_asm"@ {
        Annotations { read_only: false, destructive: true, idempotent: None, open_world: None }
    } else if changes_state(name) {
        Annotations {
            read_only: false,
            destructive: name == "close_idb"@,
            idempotent: None,
            open_world: Some(false),
        }
    } else {
        Annotations {
            read_only: true,
            destructive: false,
            idempotent: Some(true),
            open_world: Some(false),
        }
    }
}

/// What clients are told of the effects of a tool.
pub fn tool_annotations_for(name: &str) -> (r: Annotations)
    ensures
        r == annotations(name@),
{
    if same(name, "run_script") {
        return Annotations {
            read_only: false,
            destructive: true,
            idempotent: None,
            open_world: Some(true),
        };
    }
    if same(name, "patch") || same(name, "patch_asm") {
        return Annotations {
            read_only: false,
            destructive: true,
            idempotent: None,
            open_world: None,
        };
    }
    let changing: bool = same(name, "open_idb") || same(name, "open_dsc") || same(
        name,
        "dsc_add_dylib",
    ) || same(name, "dsc_add_region") || same(name, "close_idb") || same(name, "load_debug_info")
        || same(name, "declare_type") || same(name, "apply_types") || same(name, "declare_stack")
        || same(name, "delete_stack") || same(name, "rename") || same(name, "set_comments");
    if changing {
        return Annotations {
            read_only: false,
            destructive: same(name, "close_idb"),
            idempotent: None,
            open_world: Some(false),
        };
    }
    Annotations {
        read_only: true,
        destructive: false,
        idempotent: Some(true),
        open_world: Some(false),
    }
}

/// A tool that destroys something is never called read-only.
pub proof fn lemma_destructive_is_not_read_only(name: Seq<char>)
    ensures
        annotations(name).destructive ==> !annotations(name).read_only,
        annotations(name).idempotent == Some(true) ==> annotations(name).read_only,
{
}

/// Whether a tool can run as a task.
pub fn is_task_capable(name: &str) -> (r: bool)
    ensures
        r == (name@ == "open_dsc"@),
{
    same(name, "open_dsc")
}

// ---------------------------------------------------------------------------
// What is offered
// ---------------------------------------------------------------------------

/// A tool as it is made.
#[derive(Debug)]
pub struct ToolDef {
    pub name: String,
    pub input_schema: Json,
    /// Whether a session may use it.
    pub enabled: bool,
}

/// A tool as it is offered to clients, over the types of texts and values.
#[derive(Debug)]
pub struct OfferedToolOf<T, J> {
    pub name: T,
    pub input_schema: J,
    pub annotations: Annotations,
    /// Whether it can run as a task.
    pub task_support: bool,
}

/// A tool as it is offered to clients.
pub type OfferedTool = OfferedToolOf<String, Json>;

/// What an [`OfferedTool`] is.
pub type OfferedToolV = OfferedToolOf<Seq<char>, JsonV>;

impl View for OfferedToolOf<String, Json> {
    type V = OfferedToolV;

    open spec fn view(&self) -> OfferedToolV {
        OfferedToolOf {
            name: self.name@,
            input_schema: self.input_schema@,
            annotations: self.annotations,
            task_support: self.task_support,
        }
    }
}

/// How a tool is offered: with a schema that every client understands, and with what is said of its
/// effects.
pub open spec fn offered(t: ToolDef) -> OfferedToolV {
    OfferedToolOf {
        name: t.name@,
        input_schema: normalized(t.input_schema@),
        annotations: annotations(t.name@),
        task_support: t.name@ == "open_dsc"@,
    }
}

/// The tools that are offered, in order: those that may be used.
pub open spec fn offered_tools(tools: Seq<ToolDef>, filtering: bool) -> Seq<OfferedToolV>
    decreases tools.len(),
{
    if tools.len() == 0 {
        seq![]
    } else {
        let front = offered_tools(tools.drop_last(), filtering);
        if filtering && !tools.last().enabled {
            front
        } else {
            front.push(offered(tools.last()))
        }
    }
}

/// What a list of offered tools is.
pub open spec fn offered_views(list: Seq<OfferedTool>) -> Seq<OfferedToolV> {
    list.map_values(|t: OfferedTool| t@)
}

/// How a tool is offered.
pub fn offer(t: &ToolDef) -> (r: OfferedTool)
    ensures
        r@ == offered(*t),
{
    OfferedToolOf {
        name: t.name.clone(),
        input_schema: normalize_schema_value(&t.input_schema),
        annotations: tool_annotations_for(t.name.as_str()),
        task_support: is_task_capable(t.name.as_str()),
    }
}

/// The tools that are offered.
pub fn list_tools(tools: &Vec<ToolDef>, filtering: bool) -> (r: Vec<OfferedTool>)
    ensures
        offered_views(r@) == offered_tools(tools@, filtering),
{
    let mut out: Vec<OfferedTool> = Vec::new();
    let mut i: usize = 0;
    assert(tools@.take(0) =~= seq![]);
    assert(offered_views(out@) =~= seq![]);
    while i < tools.len()
        invariant
            i <= tools.len(),
            offered_views(out@) == offered_tools(tools@.take(i as int), filtering),
        decreases tools.len() - i,
    {
        let ghost before = out@;
        proof {
            let now = tools@.take(i + 1);
            assert(now.drop_last() =~= tools@.take(i as int));
            assert(now.last() == tools[i as int]);
        }
        if !filtering || tools[i].enabled {
            let t = offer(&tools[i]);
            let ghost tv = t@;
            out.push(t);
            assert(offered_views(out@) =~= offered_views(before).push(tv));
        }
        i = i + 1;
    }
    assert(tools@.take(i as int) =~= tools@);
    out
}

/// One tool as it is offered, if it may be used.
pub fn get_tool(t: &ToolDef, filtering: bool) -> (r: Option<OfferedTool>)
    ensures
        match r {
            Some(o) => o@ == offered(*t) && !(filtering && !t.enabled),
            None => filtering && !t.enabled,
        },
{
    if filtering && !t.enabled {
        None
    } else {
        Some(offer(t))
    }
}

/// No schema that is offered has a field `$schema`, at any depth.
pub proof fn lemma_offered_schemas_are_clean(tools: Seq<ToolDef>, filtering: bool)
    ensures
        forall|i: int|
            0 <= i < offered_tools(tools, filtering).len() ==> without_schema_key(
                (#[trigger] offered_tools(tools, filtering)[i]).input_schema,
            ),
    decreases tools.len(),
{
    if tools.len() > 0 {
        lemma_offered_schemas_are_clean(tools.drop_last(), filtering);
        lemma_json_is_finite(tools.last().input_schema);
        lemma_no_schema_key(tools.last().input_schema@);
    }
}

// ---------------------------------------------------------------------------
// Instructions
// ---------------------------------------------------------------------------

/// What clients are told first: how the tools are meant to be used, with a hint on how a session
/// is closed.
pub open spec fn instructions_with(close_hint: Seq<char>) -> Seq<char> {
    "IDA Pro headless analysis server for reverse engineering binaries. \n\nWorkflow: \n1. open_idb: Open a .i64/.idb file or a raw binary (Mach-O/ELF/PE). Large DBs may take 30+ seconds. \n   load_debug_info: Optional for existing .i64 to load DWARF/dSYM \n2. tool_catalog: Discover tools for your task (e.g., 'find callers', 'decompile') \n3. tool_help: Get full docs for a specific tool \n4. Use the discovered tools to analyze the binary \n5. close_idb: Optionally close when done \n\nNote: tools/list exposes the full tool set by default; use tool_catalog/tool_help to discover usage. \n"@
        + close_hint
        + " \n\nTool Categories: \n- core: open/close/discover (open_idb, close_idb, tool_catalog, tool_help, recent_operations, idb_meta) \n- functions: list, resolve, lookup functions \n- disassembly: disasm at addresses \n- decompile: Hex-Rays pseudocode \n- xrefs: cross-reference analysis \n- control_flow: CFG, callgraph, paths \n- memory: read bytes, strings, values \n- search: find patterns, strings \n- metadata: segments, imports, exports \n- types: declare_type, apply_types (addr/stack), infer_types, local_types, stack_frame, declare_stack, delete_stack, structs (list/info/read) \n- editing: comments/rename/patch/patch_asm \n- scripting: run_script (execute IDAPython code) \n\nTip: Use tool_catalog(query='what you want to do') to find the right tool. \nTip: If xrefs/decompile look incomplete, call analysis_status to check auto-analysis. \nTip: After a timeout or cancellation, call recent_operations to inspect the last recorded foreground phase. \nTip: After dsc_add_dylib or dsc_add_region, call analysis_status; if auto_is_ok=false, run analyze_funcs before xrefs/decompile."@
}

/// What clients are told first.
pub fn instructions(close_hint: &str) -> (r: String)
    ensures
        r@ == instructions_with(close_hint@),
{
    let mut m = "IDA Pro headless analysis server for reverse engineering binaries. \n\nWorkflow: \n1. open_idb: Open a .i64/.idb file or a raw binary (Mach-O/ELF/PE). Large DBs may take 30+ seconds. \n   load_debug_info: Optional for existing .i64 to load DWARF/dSYM \n2. tool_catalog: Discover tools for your task (e.g., 'find callers', 'decompile') \n3. tool_help: Get full docs for a specific tool \n4. Use the discovered tools to analyze the binary \n5. close_idb: Optionally close when done \n\nNote: tools/list exposes the full tool set by default; use tool_catalog/tool_help to discover usage. \n".to_owned();
    m.push_str(close_hint);
    m.push_str(
        " \n\nTool Categories: \n- core: open/close/discover (open_idb, close_idb, tool_catalog, tool_help, recent_operations, idb_meta) \n- functions: list, resolve, lookup functions \n- disassembly: disasm at addresses \n- decompile: Hex-Rays pseudocode \n- xrefs: cross-reference analysis \n- control_flow: CFG, callgraph, paths \n- memory: read bytes, strings, values \n- search: find patterns, strings \n- metadata: segments, imports, exports \n- types: declare_type, apply_types (addr/stack), infer_types, local_types, stack_frame, declare_stack, delete_stack, structs (list/info/read) \n- editing: comments/rename/patch/patch_asm \n- scripting: run_script (execute IDAPython code) \n\nTip: Use tool_catalog(query='what you want to do') to find the right tool. \nTip: If xrefs/decompile look incomplete, call analysis_status to check auto-analysis. \nTip: After a timeout or cancellation, call recent_operations to inspect the last recorded foreground phase. \nTip: After dsc_add_dylib or dsc_add_region, call analysis_status; if auto_is_ok=false, run analyze_funcs before xrefs/decompile.",
    );
    m
}

// ---------------------------------------------------------------------------
// What the catalog shows
// ---------------------------------------------------------------------------

/// A list shows as many tools as are asked for, seven where nothing is said and
/// fifteen at most; a number below zero is refused.
pub proof fn lemma_catalog_limits(n: i64)
    ensures
        0 <= n <= 15 ==> catalog_limit(Some(n)) == Ok::<usize, ToolErrorV>(n as usize),
        n > 15 && n <= usize::MAX ==> catalog_limit(Some(n)) == Ok::<usize, ToolErrorV>(15),
        n < 0 ==> catalog_limit(Some(n)) is Err,
        catalog_limit(None) == Ok::<usize, ToolErrorV>(7),
{
}

/// The tools that are shown are the first ones that are enabled, in their
/// order: one more tool adds itself where it is enabled and there is room, and
/// nothing otherwise.
pub proof fn lemma_shown_tools(tools: Seq<ToolEntry>, t: ToolEntry, limit: nat, queried: bool)
    ensures
        usable(Seq::empty(), limit, queried) == Seq::<JsonV>::empty(),
        t.enabled && usable(tools, limit, queried).len() < limit ==> usable(
            tools.push(t),
            limit,
            queried,
        ) == usable(tools, limit, queried).push(JsonV::Obj(entry_fields(t, queried))),
        !t.enabled || usable(tools, limit, queried).len() >= limit ==> usable(
            tools.push(t),
            limit,
            queried,
        ) == usable(tools, limit, queried),
{
    assert(tools.push(t).drop_last() =~= tools);
}

/// Every enabled tool counts, once each.
pub proof fn lemma_enabled_counts(tools: Seq<ToolEntry>)
    ensures
        enabled_in(tools) == tools.filter(|t: ToolEntry| t.enabled).len(),
    decreases tools.len(),
{
    reveal(Seq::filter);
    if tools.len() > 0 {
        lemma_enabled_counts(tools.drop_last());
    }
}

/// A tool is listed with its name, its description and its category, and with
/// what matched where it was searched for.
pub proof fn lemma_listed_tool(t: ToolEntry, queried: bool)
    ensures
        entry_fields(t, queried)["name"@] == JsonV::Str(t.name@),
        entry_fields(t, queried)["description"@] == JsonV::Str(t.description@),
        entry_fields(t, queried)["category"@] == JsonV::Str(t.category@),
        entry_fields(t, queried).dom().contains("matched"@) <==> queried,
{
    reveal_strlit("name");
    reveal_strlit("description");
    reveal_strlit("category");
    reveal_strlit("matched");
    assert("name"@.len() == 4);
    assert("description"@.len() == 11);
    assert("category"@.len() == 8);
    assert("matched"@.len() == 7);
}

/// Help for a tool that the filter disables says so; for any other known tool it
/// is the tool's documentation; for an unknown one it is an error.
pub proof fn lemma_help(
    name: Seq<char>,
    t: ToolDoc,
    filtering: bool,
    enabled: bool,
    suggestions: Seq<Seq<char>>,
)
    ensures
        help(name, Some(t), filtering, enabled, suggestions).dom().contains("error"@) <==> filtering
            && !enabled,
        !filtering || enabled ==> help(name, Some(t), filtering, enabled, suggestions)["name"@]
            == JsonV::Str(t.name@) && help(name, Some(t), filtering, enabled, suggestions)[
        "description"@] == JsonV::Str(t.description@) && help(
            name,
            Some(t),
            filtering,
            enabled,
            suggestions,
        )["example"@] == JsonV::Str(t.example@) && help(
            name,
            Some(t),
            filtering,
            enabled,
            suggestions,
        )["category"@] == JsonV::Str(t.category@),
        help(name, None, filtering, enabled, suggestions)["error"@] == JsonV::Str(
            "Tool '"@ + name + "' not found"@,
        ),
{
    reveal_strlit("name");
    reveal_strlit("category");
    reveal_strlit("description");
    reveal_strlit("parameters");
    reveal_strlit("example");
    reveal_strlit("keywords");
    reveal_strlit("error");
    reveal_strlit("filtering_active");
    reveal_strlit("hint");
    reveal_strlit("suggestions");
    assert("name"@.len() == 4);
    assert("category"@.len() == 8);
    assert("description"@.len() == 11);
    assert("parameters"@.len() == 10);
    assert("example"@.len() == 7);
    assert("keywords"@.len() == 8);
    assert("error"@.len() == 5);
    assert("filtering_active"@.len() == 16);
    assert("hint"@.len() == 4);
    assert("suggestions"@.len() == 11);
    assert("keywords"@[0] == 'k');
    assert("category"@[0] == 'c');
    assert("hint"@[0] == 'h');
    assert("name"@[0] == 'n');
    assert("suggestions"@[0] == 's');
    assert("description"@[0] == 'd');
}

/// Under a filter the tools that are not enabled are not offered; every other
/// one is, in its order, under its own name.
pub proof fn lemma_offered_tools(tools: Seq<ToolDef>, t: ToolDef, filtering: bool)
    ensures
        offered_tools(Seq::empty(), filtering) == Seq::<OfferedToolV>::empty(),
        filtering && !t.enabled ==> offered_tools(tools.push(t), filtering) == offered_tools(
            tools,
            filtering,
        ),
        !filtering || t.enabled ==> {
            let all = offered_tools(tools.push(t), filtering);
            &&& all.drop_last() == offered_tools(tools, filtering)
            &&& all.len() == offered_tools(tools, filtering).len() + 1
            &&& all.last().name == t.name@
            &&& all.last().input_schema == normalized(t.input_schema@)
            &&& all.last().task_support <==> t.name@ == "open_dsc"@
        },
{
    assert(tools.push(t).drop_last() =~= tools);
    let front = offered_tools(tools, filtering);
    assert(front.push(offered(t)).drop_last() =~= front);
}

/// A tool that changes something says so: a script, a patch, and what opens,
/// closes, loads, declares, applies, deletes, renames or comments. A script, a
/// patch and a close destroy; no other tool does.
pub proof fn lemma_annotated_tools(name: Seq<char>)
    ensures
        !annotations(name).read_only <==> name == "run_script"@ || name == "patch"@ || name
            == "patch_asm"@ || name == "open_idb"@ || name == "open_dsc"@ || name
            == "dsc_add_dylib"@ || name == "dsc_add_region"@ || name == "close_idb"@ || name
            == "load_debug_info"@ || name == "declare_type"@ || name == "apply_types"@ || name
            == "declare_stack"@ || name == "delete_stack"@ || name == "rename"@ || name
            == "set_comments"@,
        name == "run_script"@ || name == "patch"@ || name == "patch_asm"@ ==> annotations(
            name,
        ).destructive,
        annotations(name).destructive ==> name == "run_script"@ || name == "patch"@ || name
            == "patch_asm"@ || name == "close_idb"@,
        annotations(name).open_world == Some(true) ==> name == "run_script"@,
{
}

/// A group of tools is listed with its name, its description and the tools that
/// are shown; so is what a search found, with what was searched for.
pub proof fn lemma_listings(
    g: ToolGroup,
    query: Seq<char>,
    found: Seq<ToolEntry>,
    limit: nat,
    filtering: bool,
)
    ensures
        group_listing(g, limit, filtering)["category"@] == JsonV::Str(g.name@),
        group_listing(g, limit, filtering)["category_description"@] == JsonV::Str(g.description@),
        group_listing(g, limit, filtering)["tools"@] == JsonV::Arr(usable(g.tools@, limit, false)),
        query_listing(query, found, limit, filtering)["query"@] == JsonV::Str(query),
        query_listing(query, found, limit, filtering)["tools"@] == JsonV::Arr(
            usable(found, limit, true),
        ),
        group_listing(g, limit, filtering).dom().contains("filtering_active"@) <==> filtering,
        query_listing(query, found, limit, filtering).dom().contains("filtering_active"@)
            <==> filtering,
        group_fields(g)["category"@] == JsonV::Str(g.name@),
        group_fields(g)["description"@] == JsonV::Str(g.description@),
        group_fields(g)["tool_count"@] == JsonV::Num(NumV::Unsigned(enabled_in(g.tools@) as u64)),
{
    reveal_strlit("category");
    reveal_strlit("category_description");
    reveal_strlit("tools");
    reveal_strlit("hint");
    reveal_strlit("query");
    reveal_strlit("filtering_active");
    reveal_strlit("description");
    reveal_strlit("tool_count");
    assert("category"@.len() == 8);
    assert("category_description"@.len() == 20);
    assert("tools"@.len() == 5);
    assert("hint"@.len() == 4);
    assert("query"@.len() == 5);
    assert("filtering_active"@.len() == 16);
    assert("description"@.len() == 11);
    assert("tool_count"@.len() == 10);
    assert("query"@[0] == 'q');
    assert("tools"@[0] == 't');
}

/// The overview lists every group, in its order, and under a filter the number
/// of enabled tools.
pub proof fn lemma_overview(groups: Seq<ToolGroup>, filtering: bool, count: u64)
    ensures
        overview(groups, filtering, count as nat)["categories"@] matches JsonV::Arr(items)
            && items.len() == groups.len() && forall|i: int|
            0 <= i < items.len() ==> #[trigger] items[i] == JsonV::Obj(group_fields(groups[i])),
        overview(groups, filtering, count as nat).dom().contains("enabled_tool_count"@)
            <==> filtering,
        filtering ==> overview(groups, filtering, count as nat)["enabled_tool_count"@]
            == JsonV::Num(NumV::Unsigned(count)),
{
    reveal_strlit("categories");
    reveal_strlit("hint");
    reveal_strlit("filtering_active");
    reveal_strlit("enabled_tool_count");
    assert("categories"@.len() == 10);
    assert("hint"@.len() == 4);
    assert("filtering_active"@.len() == 16);
    assert("enabled_tool_count"@.len() == 18);
}

/// A tool that the filter disables cannot be called, and the refusal names it.
pub proof fn lemma_disabled_call(name: Seq<char>)
    ensures
        disabled_call(name) == "tool '"@ + name
            + "' is disabled by current filter (--toolsets/--tools/--exclude-tools/--read-only); call tool_catalog to see enabled tools"@,
{
}

} // verus!
