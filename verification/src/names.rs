//! The names of an object's fields, in alphabetical order.

use crate::json::{fields_before, JsonObject};
use crate::text::{chars_of, same, views};
use vstd::prelude::*;

verus! {

/// Whether a text comes before another one, character by character.
pub open spec fn before(a: Seq<char>, b: Seq<char>) -> bool
    decreases a.len(),
{
    if b.len() == 0 {
        false
    } else if a.len() == 0 {
        true
    } else if a[0] != b[0] {
        a[0] < b[0]
    } else {
        before(a.drop_first(), b.drop_first())
    }
}

/// Of two texts, one comes before the other, or they are the same.
pub proof fn lemma_before_total(a: Seq<char>, b: Seq<char>)
    ensures
        before(a, b) || a == b || before(b, a),
        !(before(a, b) && before(b, a)),
        !before(a, a),
    decreases a.len(),
{
    if a.len() > 0 && b.len() > 0 && a[0] == b[0] {
        lemma_before_total(a.drop_first(), b.drop_first());
        assert(a =~= seq![a[0]] + a.drop_first());
        assert(b =~= seq![b[0]] + b.drop_first());
    }
    if a.len() > 0 {
        lemma_before_irreflexive(a);
    }
    if a.len() == 0 && b.len() == 0 {
        assert(a =~= b);
    }
}

proof fn lemma_before_irreflexive(a: Seq<char>)
    ensures
        !before(a, a),
    decreases a.len(),
{
    if a.len() > 0 {
        lemma_before_irreflexive(a.drop_first());
    }
}

/// What comes before what comes before a text comes before the text.
pub proof fn lemma_before_transitive(a: Seq<char>, b: Seq<char>, c: Seq<char>)
    requires
        before(a, b),
        before(b, c),
    ensures
        before(a, c),
    decreases a.len(),
{
    if a.len() > 0 && b.len() > 0 && c.len() > 0 && a[0] == b[0] && b[0] == c[0] {
        lemma_before_transitive(a.drop_first(), b.drop_first(), c.drop_first());
    }
}

/// Whether a text comes before another one, character by character.
pub fn comes_before(a: &str, b: &str) -> (r: bool)
    ensures
        r == before(a@, b@),
{
    let x = chars_of(a);
    let y = chars_of(b);
    let mut i: usize = 0;
    assert(x@.skip(0) =~= a@);
    assert(y@.skip(0) =~= b@);
    while i < x.len() && i < y.len() && x[i] == y[i]
        invariant
            i <= x.len(),
            i <= y.len(),
            before(a@, b@) == before(x@.skip(i as int), y@.skip(i as int)),
        decreases x.len() - i,
    {
        assert(x@.skip(i as int).drop_first() =~= x@.skip(i + 1));
        assert(y@.skip(i as int).drop_first() =~= y@.skip(i + 1));
        i = i + 1;
    }
    if i >= y.len() {
        false
    } else if i >= x.len() {
        true
    } else {
        x[i] < y[i]
    }
}

/// Whether each name comes before the next ones.
pub open spec fn ascending(names: Seq<Seq<char>>) -> bool {
    forall|i: int, j: int|
        0 <= i < j < names.len() ==> before(#[trigger] names[i], #[trigger] names[j])
}

/// Whether a list holds exactly these names, in alphabetical order.
pub open spec fn lists(names: Seq<Seq<char>>, set: Set<Seq<char>>) -> bool {
    ascending(names) && names.to_set() == set
}

/// There is one list of given names in alphabetical order only.
pub proof fn lemma_one_listing(a: Seq<Seq<char>>, b: Seq<Seq<char>>, set: Set<Seq<char>>)
    requires
        lists(a, set),
        lists(b, set),
    ensures
        a == b,
    decreases a.len(),
{
    if a.len() == 0 {
        if b.len() > 0 {
            assert(b.to_set().contains(b[0]));
            assert(a.to_set().contains(b[0]));
        }
        assert(a =~= b);
    } else if b.len() == 0 {
        assert(a.to_set().contains(a[0]));
        assert(b.to_set().contains(a[0]));
    } else {
        lemma_same_last(a, b, set);
        lemma_same_last(b, a, set);
        let x = a.last();
        lemma_before_total(x, b.last());
        let fa = a.drop_last();
        let fb = b.drop_last();
        lemma_drop_last_listing(a, set);
        lemma_drop_last_listing(b, set);
        lemma_one_listing(fa, fb, set.remove(x));
        assert(fa.push(x) =~= a);
        assert(fb.push(x) =~= b);
    }
}

/// The last name of a list is not before the last name of another list of the same names.
proof fn lemma_same_last(a: Seq<Seq<char>>, b: Seq<Seq<char>>, set: Set<Seq<char>>)
    requires
        lists(a, set),
        lists(b, set),
        a.len() > 0,
        b.len() > 0,
    ensures
        !before(a.last(), b.last()),
{
    assert(b.to_set().contains(b.last()));
    assert(a.to_set().contains(b.last()));
    let k = choose|k: int| 0 <= k < a.len() && a[k] == b.last();
    lemma_before_total(a.last(), b.last());
    if k < a.len() - 1 {
        assert(before(a[k], a[a.len() - 1]));
    }
}

proof fn lemma_drop_last_listing(a: Seq<Seq<char>>, set: Set<Seq<char>>)
    requires
        lists(a, set),
        a.len() > 0,
    ensures
        lists(a.drop_last(), set.remove(a.last())),
{
    let f = a.drop_last();
    let x = a.last();
    assert forall|n: Seq<char>| f.to_set().contains(n) <==> set.remove(x).contains(n) by {
        if f.to_set().contains(n) {
            let k = choose|k: int| 0 <= k < f.len() && f[k] == n;
            assert(a[k] == n);
            assert(a.to_set().contains(n));
            assert(before(a[k], a[a.len() - 1]));
            lemma_before_total(n, x);
        }
        if set.remove(x).contains(n) {
            assert(a.to_set().contains(n));
            let k = choose|k: int| 0 <= k < a.len() && a[k] == n;
            assert(f[k] == n);
        }
    }
    assert(f.to_set() =~= set.remove(x));
}

/// Puts a name where it belongs in a list in alphabetical order, unless it is there already.
fn place_name(names: &mut Vec<String>, name: &str)
    requires
        ascending(views(old(names)@)),
    ensures
        ascending(views(final(names)@)),
        views(final(names)@).to_set() == views(old(names)@).to_set().insert(name@),
{
    let ghost all = views(names@);
    let mut at: usize = names.len();
    while at > 0 && comes_before(name, names[at - 1].as_str())
        invariant
            at <= names.len(),
            all == views(names@),
            ascending(all),
            forall|j: int| at <= j < names.len() ==> before(name@, #[trigger] all[j]),
        decreases at,
    {
        assert(all[at - 1] == names[at - 1]@);
        at = at - 1;
    }
    if at > 0 && same(names[at - 1].as_str(), name) {
        proof {
            assert(all[at - 1] == name@);
            assert(all.to_set().contains(all[at - 1]));
            assert(all.to_set() =~= all.to_set().insert(name@));
        }
        return;
    }
    proof {
        if at > 0 {
            assert(all[at - 1] == names[at - 1]@);
            lemma_before_total(name@, all[at - 1]);
        }
        assert forall|j: int| 0 <= j < at implies before(#[trigger] all[j], name@) by {
            if j < at - 1 {
                assert(before(all[j], all[at - 1]));
                lemma_before_transitive(all[j], all[at - 1], name@);
            }
        }
    }
    names.insert(at, name.to_owned());
    proof {
        let now = views(names@);
        assert(now =~= all.insert(at as int, name@));
        assert forall|i: int, j: int| 0 <= i < j < now.len() implies before(
            #[trigger] now[i],
            #[trigger] now[j],
        ) by {
            let a = if i <= at { i } else { i - 1 };
            let b = if j <= at { j } else { j - 1 };
            if i < at {
                assert(now[i] == all[i]);
            }
            if i > at {
                assert(now[i] == all[i - 1]);
            }
            if j < at {
                assert(now[j] == all[j]);
            }
            if j > at {
                assert(now[j] == all[j - 1]);
            }
        }
        assert forall|n: Seq<char>|
            now.to_set().contains(n) <==> all.to_set().insert(name@).contains(n) by {
            if now.to_set().contains(n) {
                let k = choose|k: int| 0 <= k < now.len() && now[k] == n;
                if k < at {
                    assert(all[k] == n);
                } else if k > at {
                    assert(all[k - 1] == n);
                }
            }
            if all.to_set().contains(n) {
                let k = choose|k: int| 0 <= k < all.len() && all[k] == n;
                let m = if k < at { k } else { k + 1 };
                assert(now[m] == n);
            }
            if n == name@ {
                assert(now[at as int] == n);
            }
        }
        assert(now.to_set() =~= all.to_set().insert(name@));
    }
}

impl JsonObject {
    /// The names of the fields, in alphabetical order.
    pub fn names(&self) -> (r: Vec<String>)
        ensures
            lists(views(r@), self@.dom()),
    {
        let mut out: Vec<String> = Vec::new();
        let mut i: usize = 0;
        assert(views(out@).to_set() =~= fields_before(self.entries, 0).dom());
        while i < self.entries.len()
            invariant
                i <= self.entries.len(),
                ascending(views(out@)),
                views(out@).to_set() == fields_before(self.entries, i as nat).dom(),
            decreases self.entries.len() - i,
        {
            place_name(&mut out, self.entries[i].0.as_str());
            i = i + 1;
            assert(views(out@).to_set() =~= fields_before(self.entries, i as nat).dom());
        }
        out
    }
}

/// Names are ordered by the first character in which they differ, and a name
/// comes before the names that begin with it.
pub proof fn lemma_first_difference_decides(
    common: Seq<char>,
    x: char,
    y: char,
    a: Seq<char>,
    b: Seq<char>,
)
    requires
        x < y,
    ensures
        before(common + seq![x] + a, common + seq![y] + b),
        !before(common + seq![y] + b, common + seq![x] + a),
        before(common, common + seq![x] + a),
    decreases common.len(),
{
    let p = common + seq![x] + a;
    let q = common + seq![y] + b;
    if common.len() == 0 {
        assert(p[0] == x && q[0] == y);
    } else {
        let rest = common.drop_first();
        lemma_first_difference_decides(rest, x, y, a, b);
        assert(p[0] == common[0] && q[0] == common[0]);
        assert(p.drop_first() =~= rest + seq![x] + a);
        assert(q.drop_first() =~= rest + seq![y] + b);
    }
}

} // verus!
