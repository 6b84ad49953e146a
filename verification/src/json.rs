//! JSON values, as requests, replies and schemas hold them.

use crate::numbers::{decimal, decimal_text, signed_decimal, signed_text};
use crate::text::{opt_view, same, views};
use vstd::prelude::*;

verus! {

/// A JSON number. A number that is no integer of 64 bits is kept as it is written.
#[derive(Debug, PartialEq)]
pub enum Num {
    Unsigned(u64),
    Negative(i64),
    Float(String),
}

/// A JSON value.
#[derive(Debug, PartialEq)]
pub enum Json {
    Null,
    Bool(bool),
    Number(Num),
    Str(String),
    Array(Vec<Json>),
    Object(JsonObject),
}

/// The fields of a JSON object. Of two fields with one name, the later one counts.
#[derive(Debug, PartialEq)]
pub struct JsonObject {
    pub entries: Vec<(String, Json)>,
}

/// What a JSON number is.
pub enum NumV {
    Unsigned(u64),
    Negative(i64),
    Float(Seq<char>),
}

/// What a JSON value is: an object is a map from names to values.
#[verifier::ext_equal]
pub enum JsonV {
    Null,
    Bool(bool),
    Num(NumV),
    Str(Seq<char>),
    Arr(Seq<JsonV>),
    Obj(Map<Seq<char>, JsonV>),
}

/// The fields of an object under construction.
pub type FieldsV = Map<Seq<char>, JsonV>;

impl View for Num {
    type V = NumV;

    open spec fn view(&self) -> NumV {
        match self {
            Num::Unsigned(n) => NumV::Unsigned(*n),
            Num::Negative(n) => NumV::Negative(*n),
            Num::Float(t) => NumV::Float(t@),
        }
    }
}

impl Json {
    /// What the value is.
    pub open spec fn value(self) -> JsonV
        decreases self,
    {
        match self {
            Json::Null => JsonV::Null,
            Json::Bool(b) => JsonV::Bool(b),
            Json::Number(n) => JsonV::Num(n@),
            Json::Str(s) => JsonV::Str(s@),
            Json::Array(a) => JsonV::Arr(
                Seq::new(
                    a.len() as nat,
                    |i: int|
                        if 0 <= i < a.len() {
                            a[i].value()
                        } else {
                            JsonV::Null
                        },
                ),
            ),
            Json::Object(o) => JsonV::Obj(fields_before(o.entries, o.entries.len() as nat)),
        }
    }
}

/// The fields among the first `n` entries.
pub open spec fn fields_before(entries: Vec<(String, Json)>, n: nat) -> FieldsV
    decreases entries, n,
{
    if n == 0 || n > entries.len() {
        Map::empty()
    } else {
        fields_before(entries, (n - 1) as nat).insert(
            entries[n - 1].0@,
            entries[n - 1].1.value(),
        )
    }
}

impl View for Json {
    type V = JsonV;

    open spec fn view(&self) -> JsonV {
        self.value()
    }
}

impl View for JsonObject {
    type V = FieldsV;

    open spec fn view(&self) -> FieldsV {
        fields_before(self.entries, self.entries.len() as nat)
    }
}

/// The views of a list of values.
pub open spec fn values_of(list: Seq<Json>) -> Seq<JsonV> {
    list.map_values(|v: Json| v@)
}

/// A value that is a text.
pub open spec fn text_v(s: Seq<char>) -> JsonV {
    JsonV::Str(s)
}

/// A value that is a whole number.
pub open spec fn number_v(n: nat) -> JsonV {
    JsonV::Num(NumV::Unsigned(n as u64))
}

/// A value that is a signed whole number.
pub open spec fn signed_v(n: i64) -> JsonV {
    if n < 0 {
        JsonV::Num(NumV::Negative(n))
    } else {
        JsonV::Num(NumV::Unsigned(n as u64))
    }
}

/// A value that is a text or null.
pub open spec fn opt_text_v(s: Option<Seq<char>>) -> JsonV {
    match s {
        Some(t) => JsonV::Str(t),
        None => JsonV::Null,
    }
}

/// A value that is a whole number or null.
pub open spec fn opt_number_v(n: Option<nat>) -> JsonV {
    match n {
        Some(v) => number_v(v),
        None => JsonV::Null,
    }
}

/// A value that is a signed whole number or null.
pub open spec fn opt_signed_v(n: Option<i64>) -> JsonV {
    match n {
        Some(v) => signed_v(v),
        None => JsonV::Null,
    }
}

/// A value that is a list of texts.
pub open spec fn texts_v(list: Seq<Seq<char>>) -> JsonV {
    JsonV::Arr(list.map_values(|s: Seq<char>| JsonV::Str(s)))
}

/// An object without fields.
pub open spec fn no_fields() -> FieldsV {
    Map::empty()
}

/// The field `key` of a value, if the value is an object that has it.
pub open spec fn field(v: JsonV, key: Seq<char>) -> Option<JsonV> {
    match v {
        JsonV::Obj(m) => if m.dom().contains(key) {
            Some(m[key])
        } else {
            None
        },
        _ => None,
    }
}

/// The text that a value is, if it is one.
pub open spec fn text_in(v: JsonV) -> Option<Seq<char>> {
    match v {
        JsonV::Str(s) => Some(s),
        _ => None,
    }
}

/// The boolean that a value is, if it is one.
pub open spec fn bool_in(v: JsonV) -> Option<bool> {
    match v {
        JsonV::Bool(b) => Some(b),
        _ => None,
    }
}

/// The unsigned integer that a value is, if it is one.
pub open spec fn unsigned_in(v: JsonV) -> Option<u64> {
    match v {
        JsonV::Num(NumV::Unsigned(n)) => Some(n),
        _ => None,
    }
}

/// The signed integer that a value is, if it is one.
pub open spec fn signed_in(v: JsonV) -> Option<i64> {
    match v {
        JsonV::Num(NumV::Unsigned(n)) => if n <= i64::MAX {
            Some(n as i64)
        } else {
            None
        },
        JsonV::Num(NumV::Negative(n)) => Some(n),
        _ => None,
    }
}

/// The list that a value is, if it is one.
pub open spec fn list_in(v: JsonV) -> Option<Seq<JsonV>> {
    match v {
        JsonV::Arr(a) => Some(a),
        _ => None,
    }
}

/// The text of the field `key`, if it is there and is a text.
pub open spec fn text_field(v: JsonV, key: Seq<char>) -> Option<Seq<char>> {
    match field(v, key) {
        Some(f) => text_in(f),
        None => None,
    }
}

/// How a number is written.
pub open spec fn num_text(n: NumV) -> Seq<char> {
    match n {
        NumV::Unsigned(u) => decimal(u as nat),
        NumV::Negative(i) => signed_decimal(i as int),
        NumV::Float(t) => t,
    }
}

impl Num {
    /// How the number is written.
    pub fn text(&self) -> (r: String)
        ensures
            r@ == num_text(self@),
    {
        match self {
            Num::Unsigned(n) => decimal_text(*n),
            Num::Negative(n) => signed_text(*n),
            Num::Float(t) => t.clone(),
        }
    }

    /// A copy of the number.
    pub fn copy(&self) -> (r: Num)
        ensures
            r@ == self@,
    {
        match self {
            Num::Unsigned(n) => Num::Unsigned(*n),
            Num::Negative(n) => Num::Negative(*n),
            Num::Float(t) => Num::Float(t.clone()),
        }
    }
}

proof fn lemma_entry_smaller(entries: Vec<(String, Json)>, i: int)
    requires
        0 <= i < entries.len(),
    ensures
        decreases_to!(entries => entries[i].1),
{
}

proof fn lemma_item_smaller(items: Vec<Json>, i: int)
    requires
        0 <= i < items.len(),
    ensures
        decreases_to!(items => items[i]),
{
}

/// Among the first `n` entries, a name that none of them has is not there.
proof fn lemma_absent(entries: Vec<(String, Json)>, n: nat, key: Seq<char>)
    requires
        n <= entries.len(),
        forall|j: int| 0 <= j < n ==> entries[j].0@ != key,
    ensures
        !fields_before(entries, n).dom().contains(key),
    decreases n,
{
    if n > 0 {
        lemma_absent(entries, (n - 1) as nat, key);
    }
}

/// Among the first `n` entries, the last one with a name has the value of that name.
proof fn lemma_present(entries: Vec<(String, Json)>, n: nat, at: int)
    requires
        n <= entries.len(),
        0 <= at < n,
        forall|j: int| at < j < n ==> entries[j].0@ != entries[at].0@,
    ensures
        fields_before(entries, n).dom().contains(entries[at].0@),
        fields_before(entries, n)[entries[at].0@] == entries[at].1@,
    decreases n,
{
    if at < n - 1 {
        lemma_present(entries, (n - 1) as nat, at);
    }
}

/// Entries that look alike make the same fields.
proof fn lemma_alike(a: Vec<(String, Json)>, b: Vec<(String, Json)>, n: nat)
    requires
        n <= a.len(),
        n <= b.len(),
        forall|j: int| 0 <= j < n ==> a[j].0@ == b[j].0@ && a[j].1@ == b[j].1@,
    ensures
        fields_before(a, n) == fields_before(b, n),
    decreases n,
{
    if n > 0 {
        lemma_alike(a, b, (n - 1) as nat);
    }
}

/// The names among the first `n` entries are finitely many.
pub proof fn lemma_finite(entries: Vec<(String, Json)>, n: nat)
    ensures
        fields_before(entries, n).dom().finite(),
    decreases n,
{
    if n > 0 && n <= entries.len() {
        lemma_finite(entries, (n - 1) as nat);
    }
}

impl JsonObject {
    /// An object without fields.
    pub fn new() -> (r: JsonObject)
        ensures
            r@ == no_fields(),
    {
        JsonObject { entries: Vec::new() }
    }

    /// The position of the last entry with the name `key`.
    fn find(&self, key: &str) -> (r: Option<usize>)
        ensures
            match r {
                Some(i) => {
                    &&& i < self.entries.len()
                    &&& self.entries[i as int].0@ == key@
                    &&& forall|j: int| i < j < self.entries.len() ==> self.entries[j].0@ != key@
                    &&& self@.dom().contains(key@)
                    &&& self@[key@] == self.entries[i as int].1@
                },
                None => {
                    &&& forall|j: int| 0 <= j < self.entries.len() ==> self.entries[j].0@ != key@
                    &&& !self@.dom().contains(key@)
                },
            },
    {
        let n = self.entries.len();
        let mut i: usize = n;
        while i > 0
            invariant
                i <= n,
                n == self.entries.len(),
                forall|j: int| i <= j < n ==> self.entries[j].0@ != key@,
            decreases i,
        {
            i = i - 1;
            if same(self.entries[i].0.as_str(), key) {
                proof {
                    lemma_present(self.entries, n as nat, i as int);
                }
                return Some(i);
            }
        }
        proof {
            lemma_absent(self.entries, n as nat, key@);
        }
        None
    }

    /// The value of the field `key`.
    pub fn get(&self, key: &str) -> (r: Option<&Json>)
        ensures
            r is Some <==> self@.dom().contains(key@),
            r matches Some(v) ==> v@ == self@[key@],
    {
        match self.find(key) {
            Some(i) => Some(&self.entries[i].1),
            None => None,
        }
    }

    /// The position of the entry that gives the field `key` its value.
    pub fn position(&self, key: &str) -> (r: usize)
        requires
            self@.dom().contains(key@),
        ensures
            r < self.entries.len(),
            self.entries[r as int].0@ == key@,
            self.entries[r as int].1@ == self@[key@],
    {
        match self.find(key) {
            Some(i) => i,
            None => 0,
        }
    }

    /// Whether there is a field `key`.
    pub fn has(&self, key: &str) -> (r: bool)
        ensures
            r == self@.dom().contains(key@),
    {
        self.find(key).is_some()
    }

    /// Gives the field `key` the value `value`, whether or not it was there.
    pub fn put(&mut self, key: &str, value: Json)
        ensures
            final(self)@ == old(self)@.insert(key@, value@),
    {
        let ghost old_entries = self.entries;
        let ghost n = self.entries.len() as nat;
        match self.find(key) {
            Some(i) => {
                let ghost old_len = self.entries.len();
                self.entries.set(i, (key.to_owned(), value));
                proof {
                    lemma_replaced(old_entries, self.entries, n, i as int, key@, value@);
                }
            },
            None => {
                self.entries.push((key.to_owned(), value));
                proof {
                    lemma_alike(old_entries, self.entries, n);
                    assert(self.entries[n as int].0@ == key@);
                }
            },
        }
    }

    /// Takes the field `key` away, if it is there.
    pub fn take_away(&mut self, key: &str)
        ensures
            final(self)@ == old(self)@.remove(key@),
    {
        let ghost start = self.entries;
        let mut kept: Vec<(String, Json)> = Vec::new();
        let mut i: usize = 0;
        assert(fields_before(kept, 0) =~= fields_before(start, 0).remove(key@));
        while i < self.entries.len()
            invariant
                i <= self.entries.len(),
                start == self.entries,
                fields_before(kept, kept.len() as nat) == fields_before(start, i as nat).remove(
                    key@,
                ),
            decreases self.entries.len() - i,
        {
            let ghost kept_old = kept;
            if !same(self.entries[i].0.as_str(), key) {
                let entry = (self.entries[i].0.clone(), self.entries[i].1.copy());
                kept.push(entry);
                proof {
                    lemma_alike(kept_old, kept, kept_old.len() as nat);
                }
            }
            proof {
                assert(fields_before(kept, kept.len() as nat) =~= fields_before(
                    start,
                    (i + 1) as nat,
                ).remove(key@));
            }
            i = i + 1;
        }
        self.entries = kept;
    }

    /// A copy of the object.
    pub fn copy(&self) -> (r: JsonObject)
        ensures
            r@ == self@,
        decreases self,
    {
        let mut out: Vec<(String, Json)> = Vec::new();
        let mut i: usize = 0;
        while i < self.entries.len()
            invariant
                i <= self.entries.len(),
                out.len() == i,
                forall|j: int|
                    0 <= j < i ==> out[j].0@ == self.entries[j].0@ && (#[trigger] out[j]).1@
                        == self.entries[j].1@,
            decreases self.entries.len() - i,
        {
            proof {
                lemma_entry_smaller(self.entries, i as int);
            }
            let entry = (self.entries[i].0.clone(), self.entries[i].1.copy());
            out.push(entry);
            i = i + 1;
        }
        proof {
            lemma_alike(out, self.entries, out.len() as nat);
        }
        JsonObject { entries: out }
    }
}

/// Replacing the last entry of a name changes the value of that name and nothing else.
proof fn lemma_replaced(
    a: Vec<(String, Json)>,
    b: Vec<(String, Json)>,
    n: nat,
    at: int,
    key: Seq<char>,
    value: JsonV,
)
    requires
        n <= a.len(),
        n <= b.len(),
        0 <= at < n,
        a[at].0@ == key,
        b[at].0@ == key,
        b[at].1@ == value,
        forall|j: int| 0 <= j < n && j != at ==> a[j] == b[j],
        forall|j: int| at < j < n ==> a[j].0@ != key,
    ensures
        fields_before(b, n) == fields_before(a, n).insert(key, value),
    decreases n,
{
    if at < n - 1 {
        lemma_replaced(a, b, (n - 1) as nat, at, key, value);
        assert(fields_before(b, n) =~= fields_before(a, n).insert(key, value));
    } else {
        lemma_alike(a, b, (n - 1) as nat);
        assert(fields_before(b, n) =~= fields_before(a, n).insert(key, value));
    }
}

/// A copy of a list of values.
pub fn copy_items(items: &Vec<Json>) -> (r: Vec<Json>)
    ensures
        values_of(r@) == values_of(items@),
    decreases items,
{
    let mut out: Vec<Json> = Vec::new();
    let mut i: usize = 0;
    while i < items.len()
        invariant
            i <= items.len(),
            out.len() == i,
            forall|j: int| 0 <= j < i ==> (#[trigger] out[j])@ == items[j]@,
        decreases items.len() - i,
    {
        proof {
            lemma_item_smaller(*items, i as int);
        }
        out.push(items[i].copy());
        i = i + 1;
    }
    assert(values_of(out@) =~= values_of(items@));
    out
}

impl Json {
    /// A copy of the value.
    pub fn copy(&self) -> (r: Json)
        ensures
            r@ == self@,
        decreases self,
    {
        match self {
            Json::Null => Json::Null,
            Json::Bool(b) => Json::Bool(*b),
            Json::Number(n) => Json::Number(n.copy()),
            Json::Str(s) => Json::Str(s.clone()),
            Json::Array(a) => {
                let r = Json::Array(copy_items(a));
                assert(r@->Arr_0 =~= values_of(a@));
                assert(self@->Arr_0 =~= values_of(a@));
                r
            },
            Json::Object(o) => Json::Object(o.copy()),
        }
    }

    /// The field `key`, if the value is an object that has it.
    pub fn get(&self, key: &str) -> (r: Option<&Json>)
        ensures
            r matches Some(v) ==> field(self@, key@) == Some(v@),
            r is None ==> field(self@, key@) is None,
    {
        match self {
            Json::Object(o) => o.get(key),
            _ => None,
        }
    }

    /// The text that the value is, if it is one.
    pub fn as_str(&self) -> (r: Option<&String>)
        ensures
            r matches Some(s) ==> text_in(self@) == Some(s@),
            r is None ==> text_in(self@) is None,
    {
        match self {
            Json::Str(s) => Some(s),
            _ => None,
        }
    }

    /// The boolean that the value is, if it is one.
    pub fn as_bool(&self) -> (r: Option<bool>)
        ensures
            r == bool_in(self@),
    {
        match self {
            Json::Bool(b) => Some(*b),
            _ => None,
        }
    }

    /// The unsigned integer that the value is, if it is one.
    pub fn as_u64(&self) -> (r: Option<u64>)
        ensures
            r == unsigned_in(self@),
    {
        match self {
            Json::Number(Num::Unsigned(n)) => Some(*n),
            _ => None,
        }
    }

    /// The signed integer that the value is, if it is one.
    pub fn as_i64(&self) -> (r: Option<i64>)
        ensures
            r == signed_in(self@),
    {
        match self {
            Json::Number(Num::Unsigned(n)) => if *n <= 0x7fff_ffff_ffff_ffff {
                Some(*n as i64)
            } else {
                None
            },
            Json::Number(Num::Negative(n)) => Some(*n),
            _ => None,
        }
    }

    /// The list that the value is, if it is one.
    pub fn as_array(&self) -> (r: Option<&Vec<Json>>)
        ensures
            r matches Some(a) ==> list_in(self@) == Some(values_of(a@)),
            r is None ==> list_in(self@) is None,
    {
        match self {
            Json::Array(a) => {
                assert(self@->Arr_0 =~= values_of(a@));
                Some(a)
            },
            _ => None,
        }
    }

    /// The text of the field `key`, if it is there and is a text.
    pub fn str_field(&self, key: &str) -> (r: Option<&String>)
        ensures
            r matches Some(s) ==> text_field(self@, key@) == Some(s@),
            r is None ==> text_field(self@, key@) is None,
    {
        match self.get(key) {
            Some(v) => v.as_str(),
            None => None,
        }
    }

    /// A value that is a text.
    pub fn text(s: &str) -> (r: Json)
        ensures
            r@ == text_v(s@),
    {
        Json::Str(s.to_owned())
    }

    /// A value that is a whole number.
    pub fn number(n: u64) -> (r: Json)
        ensures
            r@ == number_v(n as nat),
    {
        Json::Number(Num::Unsigned(n))
    }

    /// A value that is a count.
    pub fn count(n: usize) -> (r: Json)
        ensures
            r@ == number_v(n as nat),
    {
        Json::Number(Num::Unsigned(n as u64))
    }

    /// A value that is a signed whole number.
    pub fn signed(n: i64) -> (r: Json)
        ensures
            r@ == signed_v(n),
    {
        if n < 0 {
            Json::Number(Num::Negative(n))
        } else {
            Json::Number(Num::Unsigned(n as u64))
        }
    }

    /// A value that is a text or null.
    pub fn opt_text(s: &Option<String>) -> (r: Json)
        ensures
            r@ == opt_text_v(opt_view(*s)),
    {
        match s {
            Some(t) => Json::Str(t.clone()),
            None => Json::Null,
        }
    }

    /// A value that is a whole number or null.
    pub fn opt_number(n: Option<u64>) -> (r: Json)
        ensures
            r@ == opt_number_v(
                match n {
                    Some(v) => Some(v as nat),
                    None => None,
                },
            ),
    {
        match n {
            Some(v) => Json::number(v),
            None => Json::Null,
        }
    }

    /// A value that is a signed whole number or null.
    pub fn opt_signed(n: Option<i64>) -> (r: Json)
        ensures
            r@ == opt_signed_v(n),
    {
        match n {
            Some(v) => Json::signed(v),
            None => Json::Null,
        }
    }

    /// A value that is a list of texts.
    pub fn texts(list: &Vec<String>) -> (r: Json)
        ensures
            r@ == texts_v(views(list@)),
    {
        let mut out: Vec<Json> = Vec::new();
        let mut i: usize = 0;
        while i < list.len()
            invariant
                i <= list.len(),
                out.len() == i,
                forall|j: int| 0 <= j < i ==> (#[trigger] out[j])@ == JsonV::Str(list[j]@),
            decreases list.len() - i,
        {
            out.push(Json::Str(list[i].clone()));
            i = i + 1;
        }
        let r = Json::Array(out);
        assert(r@->Arr_0 =~= texts_v(views(list@))->Arr_0);
        r
    }

    /// A value that is a list of values.
    pub fn list(items: Vec<Json>) -> (r: Json)
        ensures
            r@ == JsonV::Arr(values_of(items@)),
    {
        let r = Json::Array(items);
        assert(r@->Arr_0 =~= values_of(items@));
        r
    }
}

/// What a value reads as: a text as that text, a flag as that flag, a number
/// from zero on as that number, with and without a sign where it fits, a list as
/// its items; and nothing as what it is not.
pub proof fn lemma_values_read_as_themselves(
    s: Seq<char>,
    b: bool,
    n: u64,
    i: i64,
    items: Seq<JsonV>,
    m: FieldsV,
    key: Seq<char>,
)
    ensures
        text_in(JsonV::Str(s)) == Some(s) && bool_in(JsonV::Str(s)) is None && unsigned_in(
            JsonV::Str(s),
        ) is None && list_in(JsonV::Str(s)) is None,
        bool_in(JsonV::Bool(b)) == Some(b) && text_in(JsonV::Bool(b)) is None && unsigned_in(
            JsonV::Bool(b),
        ) is None,
        unsigned_in(JsonV::Num(NumV::Unsigned(n))) == Some(n) && text_in(
            JsonV::Num(NumV::Unsigned(n)),
        ) is None,
        unsigned_in(JsonV::Num(NumV::Negative(i))) is None,
        signed_in(JsonV::Num(NumV::Negative(i))) == Some(i),
        n <= 0x7fff_ffff_ffff_ffff ==> signed_in(JsonV::Num(NumV::Unsigned(n))) == Some(n as i64),
        n > 0x7fff_ffff_ffff_ffff ==> signed_in(JsonV::Num(NumV::Unsigned(n))) is None,
        list_in(JsonV::Arr(items)) == Some(items),
        text_in(JsonV::Null) is None && bool_in(JsonV::Null) is None && unsigned_in(JsonV::Null)
            is None && list_in(JsonV::Null) is None,
        m.dom().contains(key) ==> field(JsonV::Obj(m), key) == Some(m[key]),
        !m.dom().contains(key) ==> field(JsonV::Obj(m), key) is None,
        field(JsonV::Str(s), key) is None && field(JsonV::Arr(items), key) is None && field(
            JsonV::Null,
            key,
        ) is None,
        signed_in(signed_v(i)) == Some(i),
        unsigned_in(number_v(n as nat)) == Some(n),
        text_in(text_v(s)) == Some(s),
        num_text(NumV::Unsigned(n)) == decimal(n as nat),
        num_text(NumV::Negative(i)) == signed_decimal(i as int),
{
}

} // verus!
