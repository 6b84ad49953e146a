//! The schemas of tool arguments, in a shape that every client understands.

use crate::json::{
    field, fields_before, no_fields, text_field, values_of, FieldsV, Json, JsonObject, JsonV,
};
use crate::text::same;
use vstd::prelude::*;

verus! {

/// Whether a schema only allows null.
pub open spec fn is_null_schema_v(v: JsonV) -> bool {
    text_field(v, "type"@) == Some("null"@)
}

/// Whether a schema only allows null.
pub fn is_null_schema(v: &Json) -> (r: bool)
    ensures
        r == is_null_schema_v(v@),
{
    match v.str_field("type") {
        Some(t) => same(t.as_str(), "null"),
        None => false,
    }
}

/// The alternatives of a schema that may be null: the position of the other one, if there is one
/// other one only and it can take the place of both.
pub open spec fn other_branch(m: FieldsV) -> Option<int> {
    match field(JsonV::Obj(m), "anyOf"@) {
        Some(JsonV::Arr(s)) => if s.len() == 2 && is_null_schema_v(s[0]) != is_null_schema_v(s[1]) {
            let i: int = if is_null_schema_v(s[0]) {
                1
            } else {
                0
            };
            match s[i] {
                JsonV::Obj(b) => if b.dom().finite() {
                    Some(i)
                } else {
                    None
                },
                JsonV::Bool(true) => Some(i),
                _ => None,
            }
        } else {
            None
        },
        _ => None,
    }
}

/// The fields of the alternative that takes the place of both.
pub open spec fn branch_fields(m: FieldsV, i: int) -> FieldsV {
    match m["anyOf"@] {
        JsonV::Arr(s) => match s[i] {
            JsonV::Obj(b) => b,
            _ => no_fields(),
        },
        _ => no_fields(),
    }
}

/// Where the value of a field comes from: from the schema itself, else from the alternative that
/// takes the place of two. There is no `$schema`, and no default of null where null is no longer
/// allowed.
pub open spec fn source(m: FieldsV, k: Seq<char>) -> Option<JsonV> {
    if k == "$schema"@ {
        None
    } else {
        match other_branch(m) {
            None => if m.dom().contains(k) {
                Some(m[k])
            } else {
                None
            },
            Some(i) => {
                let b = branch_fields(m, i);
                let found = if k != "anyOf"@ && m.dom().contains(k) {
                    Some(m[k])
                } else if b.dom().contains(k) {
                    Some(b[k])
                } else {
                    None
                };
                if k == "default"@ && found == Some(JsonV::Null) {
                    None
                } else {
                    found
                }
            },
        }
    }
}

/// What a field's value comes from is part of the schema.
proof fn lemma_source_smaller(m: FieldsV, k: Seq<char>)
    requires
        m.dom().finite(),
        source(m, k) is Some,
    ensures
        decreases_to!(JsonV::Obj(m) => source(m, k)->0),
{
    let v = source(m, k)->0;
    match other_branch(m) {
        None => {
            assert(decreases_to!(m => m[k]));
        },
        Some(i) => {
            if k != "anyOf"@ && m.dom().contains(k) {
                assert(decreases_to!(m => m[k]));
            } else {
                assert(m.dom().contains("anyOf"@));
                let a = m["anyOf"@];
                assert(decreases_to!(m => a));
                let s = a->Arr_0;
                assert(decreases_to!(a => s));
                assert(decreases_to!(s => s[i]));
                let b = s[i]->Obj_0;
                assert(s[i] is Obj) by {
                    if !(s[i] is Obj) {
                        assert(!no_fields().dom().contains(k));
                    }
                }
                assert(decreases_to!(s[i] => b));
                assert(decreases_to!(b => b[k]));
            }
        },
    }
}

/// The types of a list that are not null.
pub open spec fn real_types(types: Seq<JsonV>) -> Seq<JsonV> {
    types.filter(|t: JsonV| t != JsonV::Str("null"@))
}

/// The fields of a schema whose list of types no longer holds null: the only other type, the list of
/// the others, or no type at all.
pub open spec fn flattened(n: FieldsV) -> FieldsV {
    match field(JsonV::Obj(n), "type"@) {
        Some(JsonV::Arr(types)) => if types.contains(JsonV::Str("null"@)) {
            let rest = real_types(types);
            if rest.len() == 0 {
                n.remove("type"@)
            } else if rest.len() == 1 {
                n.insert("type"@, rest[0])
            } else {
                n.insert("type"@, JsonV::Arr(rest))
            }
        } else {
            n
        },
        _ => n,
    }
}

/// The schema in a shape that every client understands, at every depth: without `$schema`, with an
/// optional value written as the value, and with a list of types written without null.
pub open spec fn normalized(v: JsonV) -> JsonV
    decreases v, 1nat,
{
    match v {
        JsonV::Obj(m) => JsonV::Obj(flattened(normalized_fields(m))),
        JsonV::Arr(s) => JsonV::Arr(
            Seq::new(
                s.len(),
                |i: int|
                    if 0 <= i < s.len() {
                        normalized(s[i])
                    } else {
                        JsonV::Null
                    },
            ),
        ),
        _ => v,
    }
}

/// The fields of a normalized schema before its list of types is.
pub open spec fn normalized_fields(m: FieldsV) -> FieldsV
    decreases JsonV::Obj(m), 0nat,
    via normalized_fields_terminates
{
    Map::new(
        |k: Seq<char>| source(m, k) is Some,
        |k: Seq<char>|
            if m.dom().finite() && source(m, k) is Some {
                normalized(source(m, k)->0)
            } else {
                JsonV::Null
            },
    )
}

#[via_fn]
proof fn normalized_fields_terminates(m: FieldsV) {
    if m.dom().finite() {
        assert forall|k: Seq<char>| source(m, k) is Some implies decreases_to!(
            JsonV::Obj(m) => #[trigger] source(m, k)->0
        ) by {
            lemma_source_smaller(m, k);
        }
    }
}

proof fn lemma_map_finite(o: JsonObject)
    ensures
        o@.dom().finite(),
{
    crate::json::lemma_finite(o.entries, o.entries.len() as nat);
}

/// The alternatives of a schema that may be null: the one that takes the place of both.
fn nullable_branch(o: &JsonObject) -> (r: Option<usize>)
    ensures
        match r {
            Some(i) => {
                &&& other_branch(o@) == Some(i as int)
                &&& o@.dom().contains("anyOf"@)
                &&& o@["anyOf"@] is Arr
                &&& i < o@["anyOf"@]->Arr_0.len()
            },
            None => other_branch(o@) is None,
        },
{
    let branches: &Vec<Json> = match o.get("anyOf") {
        Some(Json::Array(a)) => a,
        _ => {
            return None;
        },
    };
    let ghost s = values_of(branches@);
    assert(o@["anyOf"@]->Arr_0 =~= s);
    if branches.len() != 2 {
        return None;
    }
    assert(s[0] == branches[0]@ && s[1] == branches[1]@);
    let first: bool = is_null_schema(&branches[0]);
    let second: bool = is_null_schema(&branches[1]);
    if first == second {
        return None;
    }
    let i: usize = if first {
        1
    } else {
        0
    };
    match &branches[i] {
        Json::Object(b) => {
            proof {
                lemma_map_finite(*b);
            }
            Some(i)
        },
        Json::Bool(t) => if *t {
            Some(i)
        } else {
            None
        },
        _ => None,
    }
}

/// The types of a list that are not null, and whether null was among them.
fn split_types(types: &Vec<Json>) -> (r: (Vec<Json>, bool))
    ensures
        values_of(r.0@) == real_types(values_of(types@)),
        r.1 == values_of(types@).contains(JsonV::Str("null"@)),
{
    let ghost all = values_of(types@);
    let ghost keep = |t: JsonV| t != JsonV::Str("null"@);
    let mut rest: Vec<Json> = Vec::new();
    let mut saw = false;
    let mut i: usize = 0;
    assert(all.take(0).filter(keep) =~= seq![]) by {
        reveal(Seq::filter);
    }
    assert(values_of(rest@) =~= seq![]);
    while i < types.len()
        invariant
            i <= types.len(),
            all == values_of(types@),
            keep == (|t: JsonV| t != JsonV::Str("null"@)),
            values_of(rest@) == all.take(i as int).filter(keep),
            saw ==> all.contains(JsonV::Str("null"@)),
            !saw ==> forall|j: int| 0 <= j < i ==> #[trigger] all[j] != JsonV::Str("null"@),
        decreases types.len() - i,
    {
        let ghost before = rest@;
        proof {
            let next = all.take(i + 1);
            assert(next.drop_last() =~= all.take(i as int));
            assert(next.last() == types[i as int]@);
            assert(all[i as int] == types[i as int]@);
            reveal(Seq::filter);
        }
        let null: bool = match types[i].as_str() {
            Some(t) => same(t.as_str(), "null"),
            None => false,
        };
        if null {
            saw = true;
        } else {
            rest.push(types[i].copy());
            assert(values_of(rest@) =~= values_of(before).push(all[i as int]));
        }
        i = i + 1;
    }
    assert(all.take(i as int) =~= all);
    (rest, saw)
}

/// Writes the list of types of a schema without null.
fn flatten_types(o: &mut JsonObject)
    ensures
        final(o)@ == flattened(old(o)@),
{
    let (rest, saw) = match o.get("type") {
        Some(Json::Array(types)) => {
            assert(o@["type"@]->Arr_0 =~= values_of(types@));
            split_types(types)
        },
        _ => {
            return;
        },
    };
    if !saw {
        return;
    }
    if rest.len() == 0 {
        o.take_away("type");
    } else if rest.len() == 1 {
        assert(values_of(rest@)[0] == rest[0]@);
        o.put("type", rest[0].copy());
    } else {
        o.put("type", Json::list(rest));
    }
}

/// What the fields of a schema are once those of the first `n` of its own are there, over those of
/// the alternative that takes the place of two.
spec fn gathered(
    base: FieldsV,
    entries: Vec<(String, Json)>,
    n: nat,
    skip: Option<Seq<char>>,
) -> FieldsV
    decreases n,
{
    if n == 0 || n > entries.len() {
        base
    } else {
        let front = gathered(base, entries, (n - 1) as nat, skip);
        let key = entries[n - 1].0@;
        if Some(key) == skip {
            front
        } else {
            front.insert(key, normalized(entries[n - 1].1@))
        }
    }
}

/// What is gathered is, name by name, what the fields say, and what was there where they say
/// nothing.
proof fn lemma_gathered(
    base: FieldsV,
    entries: Vec<(String, Json)>,
    n: nat,
    skip: Option<Seq<char>>,
)
    requires
        n <= entries.len(),
    ensures
        forall|k: Seq<char>|
            #![trigger gathered(base, entries, n, skip).dom().contains(k)]
            gathered(base, entries, n, skip).dom().contains(k) <==> base.dom().contains(k) || (
            Some(k) != skip && fields_before(entries, n).dom().contains(k)),
        forall|k: Seq<char>|
            #![trigger gathered(base, entries, n, skip)[k]]
            if Some(k) != skip && fields_before(entries, n).dom().contains(k) {
                gathered(base, entries, n, skip)[k] == normalized(fields_before(entries, n)[k])
            } else {
                gathered(base, entries, n, skip)[k] == base[k]
            },
    decreases n,
{
    if n > 0 {
        lemma_gathered(base, entries, (n - 1) as nat, skip);
        let front = gathered(base, entries, (n - 1) as nat, skip);
        let key = entries[n - 1].0@;
        assert forall|k: Seq<char>|
            #![trigger gathered(base, entries, n, skip)[k]]
            if Some(k) != skip && fields_before(entries, n).dom().contains(k) {
                gathered(base, entries, n, skip)[k] == normalized(fields_before(entries, n)[k])
            } else {
                gathered(base, entries, n, skip)[k] == base[k]
            } by {
            assert(front.dom().contains(k) || !front.dom().contains(k));
            let f = front[k];
        }
    }
}

proof fn lemma_entry_value_smaller(o: JsonObject, i: int)
    requires
        0 <= i < o.entries.len(),
    ensures
        decreases_to!(o => o.entries[i].1),
{
    assert(decreases_to!(o => o.entries));
    assert(decreases_to!(o.entries => o.entries[i]));
    assert(decreases_to!(o.entries[i] => o.entries[i].1));
}

/// Adds the normalized fields of an object, but for one.
fn gather(out: &mut JsonObject, o: &JsonObject, skip: Option<&str>)
    ensures
        final(out)@ == gathered(
            old(out)@,
            o.entries,
            o.entries.len() as nat,
            match skip {
                Some(s) => Some(s@),
                None => None,
            },
        ),
    decreases o, 1nat,
{
    let ghost base = out@;
    let ghost skipped = match skip {
        Some(s) => Some(s@),
        None => None,
    };
    let mut i: usize = 0;
    while i < o.entries.len()
        invariant
            i <= o.entries.len(),
            skipped == (match skip {
                Some(s) => Some(s@),
                None => None,
            }),
            out@ == gathered(base, o.entries, i as nat, skipped),
        decreases o.entries.len() - i,
    {
        let key = o.entries[i].0.as_str();
        let skipping: bool = match skip {
            Some(s) => same(s, key),
            None => false,
        };
        if !skipping {
            proof {
                lemma_entry_value_smaller(*o, i as int);
            }
            let v = normalize_schema_value(&o.entries[i].1);
            out.put(key, v);
        }
        i = i + 1;
    }
}

/// The schema in a shape that every client understands.
pub fn normalize_schema_value(value: &Json) -> (r: Json)
    ensures
        r@ == normalized(value@),
    decreases value, 0nat,
{
    match value {
        Json::Object(o) => {
            proof {
                lemma_map_finite(*o);
            }
            let mut out = JsonObject::new();
            let ghost start = out@;
            let branch: Option<usize> = nullable_branch(o);
            match branch {
                Some(i) => {
                    let ghost m = o@;
                    let ghost b = branch_fields(m, i as int);
                    gather_branch(&mut out, o, i);
                    let ghost mid = out@;
                    gather(&mut out, o, Some("anyOf"));
                    proof {
                        lemma_gathered(mid, o.entries, o.entries.len() as nat, Some("anyOf"@));
                    }
                    let ghost all = out@;
                    let no_default: bool = match out.get("default") {
                        Some(Json::Null) => true,
                        _ => false,
                    };
                    if no_default {
                        out.take_away("default");
                    }
                    out.take_away("$schema");
                    proof {
                        lemma_normalized_null();
                        assert(out@ =~= normalized_fields(m));
                    }
                },
                None => {
                    gather(&mut out, o, None);
                    proof {
                        lemma_gathered(start, o.entries, o.entries.len() as nat, None);
                    }
                    out.take_away("$schema");
                    assert(out@ =~= normalized_fields(o@));
                },
            }
            flatten_types(&mut out);
            Json::Object(out)
        },
        Json::Array(a) => {
            let items = normalize_items(a);
            let r = Json::list(items);
            assert(value@->Arr_0 =~= values_of(a@));
            assert(r@->Arr_0 =~= normalized(value@)->Arr_0);
            r
        },
        _ => value.copy(),
    }
}

/// Only null is normalized to null.
proof fn lemma_normalized_null()
    ensures
        forall|v: JsonV| #[trigger] normalized(v) == JsonV::Null <==> v == JsonV::Null,
{
}

/// Adds the normalized fields of the alternative that takes the place of two.
fn gather_branch(out: &mut JsonObject, o: &JsonObject, i: usize)
    requires
        old(out)@ == no_fields(),
        o@.dom().contains("anyOf"@),
        o@["anyOf"@] is Arr,
        i < o@["anyOf"@]->Arr_0.len(),
    ensures
        forall|k: Seq<char>|
            #![trigger final(out)@.dom().contains(k)]
            final(out)@.dom().contains(k) <==> branch_fields(o@, i as int).dom().contains(k),
        forall|k: Seq<char>|
            #![trigger final(out)@[k]]
            branch_fields(o@, i as int).dom().contains(k) ==> final(out)@[k] == normalized(
                branch_fields(o@, i as int)[k],
            ),
    decreases o, 0nat,
{
    let n: usize = o.entries.len();
    let at: usize = last_any_of(o);
    proof {
        lemma_entry_value_smaller(*o, at as int);
    }
    if let Json::Array(a) = &o.entries[at].1 {
        assert(o@["anyOf"@]->Arr_0 =~= values_of(a@));
        assert(values_of(a@)[i as int] == a[i as int]@);
        proof {
            assert(decreases_to!(o.entries[at as int].1 => *a));
            assert(decreases_to!(*a => a[i as int]));
        }
        if let Json::Object(b) = &a[i] {
            proof {
                assert(decreases_to!(a[i as int] => *b));
            }
            gather(out, b, None);
            proof {
                lemma_gathered(no_fields(), b.entries, b.entries.len() as nat, None);
            }
        }
    }
}

/// The position of the field `anyOf`.
fn last_any_of(o: &JsonObject) -> (r: usize)
    requires
        o@.dom().contains("anyOf"@),
    ensures
        r < o.entries.len(),
        o.entries[r as int].1@ == o@["anyOf"@],
{
    let r = o.position("anyOf");
    r
}

/// The normalized items of a list.
fn normalize_items(items: &Vec<Json>) -> (r: Vec<Json>)
    ensures
        values_of(r@) == values_of(items@).map_values(|v: JsonV| normalized(v)),
    decreases items, 0nat,
{
    let mut out: Vec<Json> = Vec::new();
    let mut i: usize = 0;
    while i < items.len()
        invariant
            i <= items.len(),
            out.len() == i,
            forall|j: int| 0 <= j < i ==> (#[trigger] out[j])@ == normalized(items[j]@),
        decreases items.len() - i,
    {
        proof {
            assert(decreases_to!(*items => items[i as int]));
        }
        out.push(normalize_schema_value(&items[i]));
        i = i + 1;
    }
    assert(values_of(out@) =~= values_of(items@).map_values(|v: JsonV| normalized(v)));
    out
}

/// Whether every object in a value has finitely many fields, as every JSON value has.
pub open spec fn is_finite(v: JsonV) -> bool
    decreases v,
{
    match v {
        JsonV::Obj(m) => m.dom().finite() && forall|k: Seq<char>|
            #![trigger m[k]]
            m.dom().contains(k) ==> is_finite(m[k]),
        JsonV::Arr(s) => forall|i: int| #![trigger s[i]] 0 <= i < s.len() ==> is_finite(s[i]),
        _ => true,
    }
}

/// Whether no object in a value has a field `$schema`.
pub open spec fn without_schema_key(v: JsonV) -> bool
    decreases v,
{
    match v {
        JsonV::Obj(m) => m.dom().finite() && !m.dom().contains("$schema"@) && forall|k: Seq<char>|
            #![trigger m[k]]
            m.dom().contains(k) ==> without_schema_key(m[k]),
        JsonV::Arr(s) => forall|i: int|
            #![trigger s[i]]
            0 <= i < s.len() ==> without_schema_key(s[i]),
        _ => true,
    }
}

/// The types that are not null are types of the list.
proof fn lemma_real_types(types: Seq<JsonV>)
    ensures
        forall|i: int|
            0 <= i < real_types(types).len() ==> types.contains(#[trigger] real_types(types)[i])
                && real_types(types)[i] != JsonV::Str("null"@),
    decreases types.len(),
{
    reveal(Seq::filter);
    if types.len() > 0 {
        let front = types.drop_last();
        lemma_real_types(front);
        let all = real_types(types);
        let f = real_types(front);
        assert forall|i: int| 0 <= i < all.len() implies types.contains(#[trigger] all[i]) && all[i]
            != JsonV::Str("null"@) by {
            if i < f.len() {
                assert(all[i] == f[i]);
                assert(front.contains(f[i]));
                let j = choose|j: int| 0 <= j < front.len() && front[j] == f[i];
                assert(types[j] == f[i]);
            } else {
                assert(all[i] == types[types.len() - 1]);
            }
        }
    }
}

/// Writing a list of types without null brings no field `$schema` in.
proof fn lemma_flattened_clean(n: FieldsV)
    requires
        without_schema_key(JsonV::Obj(n)),
    ensures
        without_schema_key(JsonV::Obj(flattened(n))),
{
    reveal_strlit("type");
    reveal_strlit("$schema");
    assert("type"@.len() != "$schema"@.len());
    if n.dom().contains("type"@) {
        let t = n["type"@];
        assert(without_schema_key(t));
        if t is Arr {
            let types = t->Arr_0;
            let rest = real_types(types);
            lemma_real_types(types);
            assert forall|i: int| 0 <= i < rest.len() implies without_schema_key(
                #[trigger] rest[i],
            ) by {
                assert(types.contains(rest[i]));
                let j = choose|j: int| 0 <= j < types.len() && types[j] == rest[i];
                assert(without_schema_key(types[j]));
            }
            assert(without_schema_key(JsonV::Arr(rest)));
            let now = flattened(n);
            assert forall|k: Seq<char>| now.dom().contains(k) implies without_schema_key(
                #[trigger] now[k],
            ) by {
                if k != "type"@ {
                    assert(now[k] == n[k]);
                } else if rest.len() == 1 {
                    assert(without_schema_key(rest[0]));
                }
            }
        }
    }
}

proof fn lemma_source_finite(m: FieldsV, k: Seq<char>)
    requires
        is_finite(JsonV::Obj(m)),
        source(m, k) is Some,
    ensures
        is_finite(source(m, k)->0),
{
    match other_branch(m) {
        None => {
            assert(is_finite(m[k]));
        },
        Some(i) => {
            if k != "anyOf"@ && m.dom().contains(k) {
                assert(is_finite(m[k]));
            } else {
                let a = m["anyOf"@];
                assert(is_finite(a));
                let s = a->Arr_0;
                assert(is_finite(s[i]));
                if s[i] is Obj {
                    let b = s[i]->Obj_0;
                    assert(is_finite(b[k]));
                } else {
                    assert(!no_fields().dom().contains(k));
                }
            }
        },
    }
}

proof fn lemma_fields_finite(m: FieldsV)
    requires
        is_finite(JsonV::Obj(m)),
    ensures
        normalized_fields(m).dom().finite(),
{
    let n = normalized_fields(m);
    match other_branch(m) {
        None => {
            assert(n.dom().subset_of(m.dom()));
            vstd::set_lib::lemma_len_subset(n.dom(), m.dom());
        },
        Some(i) => {
            let b = branch_fields(m, i);
            let both = m.dom().union(b.dom());
            assert(n.dom().subset_of(both));
            vstd::set_lib::lemma_len_subset(n.dom(), both);
        },
    }
}

proof fn lemma_fields_of_entries(o: JsonObject, n: nat)
    requires
        n <= o.entries.len(),
    ensures
        is_finite(JsonV::Obj(fields_before(o.entries, n))),
    decreases o, n,
{
    crate::json::lemma_finite(o.entries, n);
    if n > 0 {
        lemma_fields_of_entries(o, (n - 1) as nat);
        lemma_entry_value_smaller(o, n - 1);
        lemma_json_is_finite(o.entries[n - 1].1);
        let front = fields_before(o.entries, (n - 1) as nat);
        let m = fields_before(o.entries, n);
        assert forall|k: Seq<char>| m.dom().contains(k) implies is_finite(#[trigger] m[k]) by {
            if k != o.entries[n - 1].0@ {
                assert(is_finite(front[k]));
            }
        }
    }
}

/// Every object in a JSON value has finitely many fields.
pub proof fn lemma_json_is_finite(j: Json)
    ensures
        is_finite(j@),
    decreases j,
{
    match j {
        Json::Object(o) => {
            lemma_fields_of_entries(o, o.entries.len() as nat);
        },
        Json::Array(a) => {
            let s = j@->Arr_0;
            assert forall|i: int| 0 <= i < s.len() implies is_finite(#[trigger] s[i]) by {
                assert(decreases_to!(a => a[i]));
                lemma_json_is_finite(a[i]);
            }
        },
        _ => {},
    }
}

/// A normalized schema has no field `$schema`, at any depth.
pub proof fn lemma_no_schema_key(v: JsonV)
    requires
        is_finite(v),
    ensures
        without_schema_key(normalized(v)),
    decreases v,
{
    match v {
        JsonV::Obj(m) => {
            let n = normalized_fields(m);
            lemma_fields_finite(m);
            assert forall|k: Seq<char>| n.dom().contains(k) implies without_schema_key(
                #[trigger] n[k],
            ) by {
                lemma_source_smaller(m, k);
                lemma_source_finite(m, k);
                lemma_no_schema_key(source(m, k)->0);
            }
            assert(!n.dom().contains("$schema"@));
            lemma_flattened_clean(n);
        },
        JsonV::Arr(s) => {
            let t = normalized(v)->Arr_0;
            assert forall|i: int| 0 <= i < t.len() implies without_schema_key(#[trigger] t[i]) by {
                assert(is_finite(s[i]));
                lemma_no_schema_key(s[i]);
            }
        },
        _ => {},
    }
}

/// Every field of a schema but `$schema`, `anyOf`, `type` and `default` stays, normalized itself;
/// and where an alternative takes the place of two, no alternatives are left but those of its own.
pub proof fn lemma_fields_are_kept(m: FieldsV, k: Seq<char>)
    requires
        m.dom().finite(),
    ensures
        m.dom().contains(k) && k != "$schema"@ && k != "anyOf"@ && k != "type"@ && k != "default"@
            ==> field(normalized(JsonV::Obj(m)), k) == Some(normalized(m[k])),
        other_branch(m) matches Some(i) && !branch_fields(m, i).dom().contains("anyOf"@) ==> field(
            normalized(JsonV::Obj(m)),
            "anyOf"@,
        ) is None,
{
    reveal_strlit("anyOf");
    reveal_strlit("type");
    assert("anyOf"@.len() != "type"@.len());
    let n = normalized_fields(m);
    assert(n.dom().contains("anyOf"@) == (source(m, "anyOf"@) is Some));
    assert(n.dom().contains(k) == (source(m, k) is Some));
}

/// A list of types that holds null and one other type becomes that type.
pub proof fn lemma_single_type(t: Seq<char>)
    requires
        t != "null"@,
    ensures
        normalized(
            JsonV::Obj(
                no_fields().insert("type"@, JsonV::Arr(seq![JsonV::Str(t), JsonV::Str("null"@)])),
            ),
        ) == JsonV::Obj(no_fields().insert("type"@, JsonV::Str(t))),
{
    reveal_strlit("anyOf");
    reveal_strlit("type");
    reveal_strlit("$schema");
    assert("anyOf"@.len() != "type"@.len());
    assert("$schema"@.len() != "type"@.len());
    let types = seq![JsonV::Str(t), JsonV::Str("null"@)];
    let m = no_fields().insert("type"@, JsonV::Arr(types));
    let n = normalized_fields(m);
    assert(normalized(types[0]) == types[0]);
    assert(normalized(types[1]) == types[1]);
    assert(normalized(JsonV::Arr(types))->Arr_0 =~= types);
    assert(n =~= m);
    assert(types.contains(types[1]));
    assert(real_types(types) =~= seq![JsonV::Str(t)]) by {
        reveal(Seq::filter);
        reveal_with_fuel(Seq::filter, 3);
        assert(types.drop_last() =~= seq![JsonV::Str(t)]);
        assert(types.drop_last().drop_last() =~= Seq::<JsonV>::empty());
    }
    assert(flattened(n) =~= no_fields().insert("type"@, JsonV::Str(t)));
}

/// A schema that allows one thing or null becomes that thing: its fields come
/// up, whichever of the two comes first. What the schema says itself goes
/// before them, and a default of null goes.
#[verifier::rlimit(50)]
pub proof fn lemma_optional_schema(m: FieldsV, b: FieldsV, k: Seq<char>, null_first: bool)
    requires
        m.dom().finite(),
        b.dom().finite(),
        m.dom().contains("anyOf"@),
        m["anyOf"@] == JsonV::Arr(
            if null_first {
                seq![
                    JsonV::Obj(no_fields().insert("type"@, JsonV::Str("null"@))),
                    JsonV::Obj(b),
                ]
            } else {
                seq![
                    JsonV::Obj(b),
                    JsonV::Obj(no_fields().insert("type"@, JsonV::Str("null"@))),
                ]
            },
        ),
        !(b.dom().contains("type"@) && b["type"@] == JsonV::Str("null"@)),
        k != "type"@,
        k != "anyOf"@,
        k != "$schema"@,
    ensures
        !m.dom().contains(k) && b.dom().contains(k) && k != "default"@ ==> field(
            normalized(JsonV::Obj(m)),
            k,
        ) == Some(normalized(b[k])),
        m.dom().contains(k) && (k != "default"@ || m[k] != JsonV::Null) ==> field(
            normalized(JsonV::Obj(m)),
            k,
        ) == Some(normalized(m[k])),
        m.dom().contains("default"@) && m["default"@] == JsonV::Null ==> field(
            normalized(JsonV::Obj(m)),
            "default"@,
        ) is None,
        !m.dom().contains(k) && !b.dom().contains(k) ==> field(normalized(JsonV::Obj(m)), k) is None,
{
    reveal_strlit("default");
    reveal_strlit("anyOf");
    reveal_strlit("type");
    reveal_strlit("$schema");
    assert("default"@.len() == 7 && "anyOf"@.len() == 5 && "type"@.len() == 4);
    assert("default"@[0] == 'd' && "$schema"@[0] == '$');
    let s = m["anyOf"@]->Arr_0;
    let i: int = if null_first { 1 } else { 0 };
    let j = 1 - i;
    assert(s[i] == JsonV::Obj(b));
    assert(is_null_schema_v(s[j]));
    assert(!is_null_schema_v(s[i]));
    assert(other_branch(m) == Some(i));
    assert(branch_fields(m, i) == b);
    let n = normalized_fields(m);
    assert(n.dom().contains("default"@) == (source(m, "default"@) is Some));
    assert(n.dom().contains(k) == (source(m, k) is Some));
    if source(m, k) is Some {
        assert(n[k] == normalized(source(m, k)->0));
    }
    assert(flattened(n).dom().contains(k) == n.dom().contains(k));
    assert(n.dom().contains(k) ==> flattened(n)[k] == n[k]);
}

/// Of the types that a schema allows null goes and the others stay, in their
/// order: none is left out, one stands alone, more stand as a list.
pub proof fn lemma_types_without_null(n: FieldsV, types: Seq<JsonV>)
    requires
        n.dom().contains("type"@),
        n["type"@] == JsonV::Arr(types),
        types.contains(JsonV::Str("null"@)),
    ensures
        ({
            let rest = types.filter(|t: JsonV| t != JsonV::Str("null"@));
            &&& rest.len() == 0 ==> !flattened(n).dom().contains("type"@)
            &&& rest.len() == 1 ==> flattened(n)["type"@] == rest[0]
            &&& rest.len() > 1 ==> flattened(n)["type"@] == JsonV::Arr(rest)
            &&& forall|k: Seq<char>|
                k != "type"@ ==> (#[trigger] flattened(n).dom().contains(k) <==> n.dom().contains(k))
                    && (n.dom().contains(k) ==> flattened(n)[k] == n[k])
        }),
{
}

/// A list is normalised item by item; what is no list and no object stays.
pub proof fn lemma_normalized_items(s: Seq<JsonV>, v: JsonV)
    ensures
        normalized(JsonV::Arr(s)) matches JsonV::Arr(t) && t.len() == s.len() && forall|i: int|
            0 <= i < s.len() ==> #[trigger] t[i] == normalized(s[i]),
        !(v is Arr) && !(v is Obj) ==> normalized(v) == v,
{
}

} // verus!
