//! The pool of workers: who has which worker, and when workers come and go.

use crate::errors::{ToolError, ToolErrorOf, ToolErrorV};
use crate::text::{copy_opt, opt_view};
use vstd::prelude::*;

verus! {

/// How long a worker has to close its database when it is released.
pub const CHILD_CLOSE_TIMEOUT_SECS: u64 = 5;

/// How much longer than a worker the pool waits for it.
pub const CHILD_TIMEOUT_GRACE_SECS: u64 = 10;

/// How long an operation may take at most.
pub const MAX_TIMEOUT_SECS: u64 = 600;

/// How a pool is set up.
#[derive(Clone, Copy, Debug)]
pub struct WorkerPoolConfig {
    pub max_workers: usize,
    pub min_workers: usize,
    pub worker_idle_timeout_millis: u64,
    pub worker_op_timeout_secs: u64,
}

/// What a worker is doing, over the type of texts.
#[derive(Debug)]
pub enum ChildStateOf<T> {
    /// It waits for a session.
    Idle,
    /// A session has it.
    Leased { session_id: T },
    /// It closes its database.
    Closing,
    /// It is gone.
    Dead,
}

/// What a worker is doing.
pub type ChildState = ChildStateOf<String>;

/// What a [`ChildState`] is.
pub type ChildStateV = ChildStateOf<Seq<char>>;

impl View for ChildStateOf<String> {
    type V = ChildStateV;

    open spec fn view(&self) -> ChildStateV {
        match self {
            ChildStateOf::Idle => ChildStateOf::Idle,
            ChildStateOf::Leased { session_id } => ChildStateOf::Leased {
                session_id: session_id@,
            },
            ChildStateOf::Closing => ChildStateOf::Closing,
            ChildStateOf::Dead => ChildStateOf::Dead,
        }
    }
}

/// A worker of the pool, over the type of texts. Times are in milliseconds.
#[derive(Debug)]
pub struct SlotOf<T> {
    pub id: usize,
    pub state: ChildStateOf<T>,
    pub pid: Option<u32>,
    pub spawned_at: u64,
    pub last_used: u64,
    /// The database that it has open.
    pub idb_path: Option<T>,
}

/// A worker of the pool.
pub type ChildSlot = SlotOf<String>;

/// What a [`ChildSlot`] is.
pub type SlotV = SlotOf<Seq<char>>;

impl View for SlotOf<String> {
    type V = SlotV;

    open spec fn view(&self) -> SlotV {
        SlotOf {
            id: self.id,
            state: self.state@,
            pid: self.pid,
            spawned_at: self.spawned_at,
            last_used: self.last_used,
            idb_path: opt_view(self.idb_path),
        }
    }
}

/// The workers, those that are being started, and the number of the next one.
#[derive(Debug)]
pub struct WorkerPool {
    pub config: WorkerPoolConfig,
    pub children: Vec<ChildSlot>,
    pub spawning: Vec<usize>,
    pub next_id: usize,
}

/// What a [`WorkerPool`] is.
pub struct PoolV {
    pub config: WorkerPoolConfig,
    pub children: Seq<SlotV>,
    pub spawning: Seq<usize>,
    pub next_id: usize,
}

/// The views of slots.
pub open spec fn slots(children: Seq<ChildSlot>) -> Seq<SlotV> {
    children.map_values(|s: ChildSlot| s@)
}

impl View for WorkerPool {
    type V = PoolV;

    open spec fn view(&self) -> PoolV {
        PoolV {
            config: self.config,
            children: slots(self.children@),
            spawning: self.spawning@,
            next_id: self.next_id,
        }
    }
}

/// How many of the workers are not gone.
pub open spec fn alive(children: Seq<SlotV>) -> nat
    decreases children.len(),
{
    if children.len() == 0 {
        0
    } else {
        alive(children.drop_last()) + (if children.last().state is Dead {
            0nat
        } else {
            1nat
        })
    }
}

/// The position of the first idle worker from `from` on, or the number of workers.
pub open spec fn first_idle(children: Seq<SlotV>, from: int) -> int
    decreases children.len() - from,
{
    if from < 0 || from >= children.len() {
        children.len() as int
    } else if children[from].state is Idle {
        from
    } else {
        first_idle(children, from + 1)
    }
}

/// The position of the worker with an ID from `from` on, or the number of workers.
pub open spec fn slot_at(children: Seq<SlotV>, id: usize, from: int) -> int
    decreases children.len() - from,
{
    if from < 0 || from >= children.len() {
        children.len() as int
    } else if children[from].id == id {
        from
    } else {
        slot_at(children, id, from + 1)
    }
}

/// The workers that are not gone.
pub open spec fn without_dead(children: Seq<SlotV>) -> Seq<SlotV> {
    children.filter(|s: SlotV| !(s.state is Dead))
}

/// The workers without the one with an ID.
pub open spec fn without_id(children: Seq<SlotV>, id: usize) -> Seq<SlotV> {
    children.filter(|s: SlotV| s.id != id)
}

impl PoolV {
    /// How many workers there are or will be.
    pub open spec fn live(self) -> nat {
        self.spawning.len() + alive(self.children)
    }

    /// Every worker, and every one that is being started, has a number of its own that has been
    /// given out, and there are never more than allowed.
    pub open spec fn inv(self) -> bool {
        &&& forall|i: int, j: int|
            0 <= i < j < self.children.len() ==> (#[trigger] self.children[i]).id != (
            #[trigger] self.children[j]).id
        &&& forall|i: int|
            0 <= i < self.children.len() ==> (#[trigger] self.children[i]).id < self.next_id
        &&& self.spawning.no_duplicates()
        &&& forall|i: int|
            0 <= i < self.spawning.len() ==> #[trigger] self.spawning[i] < self.next_id
        &&& forall|i: int, j: int|
            0 <= i < self.children.len() && 0 <= j < self.spawning.len() ==> (
            #[trigger] self.children[i]).id != #[trigger] self.spawning[j]
        &&& self.live() <= self.config.max_workers
    }

    /// The state of a worker: one that is not in the pool is gone.
    pub open spec fn state_of(self, id: usize) -> ChildStateV {
        let at = slot_at(self.children, id, 0);
        if at < self.children.len() {
            self.children[at].state
        } else {
            ChildStateOf::Dead
        }
    }

    /// The pool with one more worker that is being started.
    pub open spec fn reserved(self) -> PoolV {
        PoolV {
            spawning: self.spawning.push(self.next_id),
            next_id: (self.next_id + 1) as usize,
            ..self
        }
    }
}

// ---------------------------------------------------------------------------
// Counting and finding
// ---------------------------------------------------------------------------

proof fn lemma_slot_at(children: Seq<SlotV>, id: usize, from: int)
    requires
        0 <= from <= children.len(),
    ensures
        from <= slot_at(children, id, from) <= children.len(),
        slot_at(children, id, from) < children.len() ==> children[slot_at(
            children,
            id,
            from,
        )].id == id,
        slot_at(children, id, from) == children.len() ==> forall|j: int|
            from <= j < children.len() ==> (#[trigger] children[j]).id != id,
    decreases children.len() - from,
{
    if from < children.len() && children[from].id != id {
        lemma_slot_at(children, id, from + 1);
    }
}

proof fn lemma_first_idle(children: Seq<SlotV>, from: int)
    requires
        0 <= from <= children.len(),
    ensures
        from <= first_idle(children, from) <= children.len(),
        first_idle(children, from) < children.len() ==> children[first_idle(
            children,
            from,
        )].state is Idle,
        forall|j: int|
            from <= j < first_idle(children, from) ==> !((#[trigger] children[j]).state is Idle),
    decreases children.len() - from,
{
    if from < children.len() && !(children[from].state is Idle) {
        lemma_first_idle(children, from + 1);
    }
}

/// A worker that is not gone counts as one.
proof fn lemma_alive_update(children: Seq<SlotV>, at: int, s: SlotV)
    requires
        0 <= at < children.len(),
    ensures
        alive(children.update(at, s)) + (if children[at].state is Dead { 0nat } else { 1nat })
            == alive(children) + (if s.state is Dead { 0nat } else { 1nat }),
    decreases children.len(),
{
    let now = children.update(at, s);
    if at == children.len() - 1 {
        assert(now.drop_last() =~= children.drop_last());
    } else {
        assert(now.drop_last() =~= children.drop_last().update(at, s));
        lemma_alive_update(children.drop_last(), at, s);
    }
}

proof fn lemma_alive_bound(children: Seq<SlotV>)
    ensures
        alive(children) <= children.len(),
    decreases children.len(),
{
    if children.len() > 0 {
        lemma_alive_bound(children.drop_last());
    }
}

/// What a filter keeps is no longer, in the order it was in, and dead workers do not count.
proof fn lemma_filter_children(children: Seq<SlotV>, keep: spec_fn(SlotV) -> bool)
    ensures
        children.filter(keep).len() <= children.len(),
        alive(children.filter(keep)) <= alive(children),
        (forall|i: int| 0 <= i < children.len() && !keep(#[trigger] children[i])
            ==> children[i].state is Dead) ==> alive(children.filter(keep)) == alive(children),
        forall|k: int|
            0 <= k < children.filter(keep).len() ==> keep(#[trigger] children.filter(keep)[k])
                && children.contains(children.filter(keep)[k]),
    decreases children.len(),
{
    reveal(Seq::filter);
    if children.len() > 0 {
        let front = children.drop_last();
        lemma_filter_children(front, keep);
        let f = front.filter(keep);
        let all = children.filter(keep);
        assert forall|k: int| 0 <= k < all.len() implies keep(#[trigger] all[k])
            && children.contains(all[k]) by {
            if k < f.len() {
                assert(all[k] == f[k]);
                assert(front.contains(f[k]));
                let i = choose|i: int| 0 <= i < front.len() && front[i] == f[k];
                assert(children[i] == f[k]);
            } else {
                assert(all[k] == children[children.len() - 1]);
            }
        }
        if keep(children.last()) {
            assert(all.drop_last() =~= f);
        }
        if forall|i: int| 0 <= i < children.len() && !keep(#[trigger] children[i])
            ==> children[i].state is Dead {
            assert forall|i: int| 0 <= i < front.len() && !keep(#[trigger] front[i]) implies
                front[i].state is Dead by {
                assert(front[i] == children[i]);
            }
        }
    }
}

/// Filtering keeps the numbers apart.
proof fn lemma_filter_distinct(children: Seq<SlotV>, keep: spec_fn(SlotV) -> bool)
    requires
        forall|i: int, j: int|
            0 <= i < j < children.len() ==> (#[trigger] children[i]).id != (
            #[trigger] children[j]).id,
    ensures
        forall|i: int, j: int|
            0 <= i < j < children.filter(keep).len() ==> (#[trigger] children.filter(keep)[i]).id
                != (#[trigger] children.filter(keep)[j]).id,
    decreases children.len(),
{
    reveal(Seq::filter);
    if children.len() > 0 {
        let front = children.drop_last();
        lemma_filter_distinct(front, keep);
        lemma_filter_children(front, keep);
        let f = front.filter(keep);
        let all = children.filter(keep);
        assert forall|i: int, j: int| 0 <= i < j < all.len() implies (#[trigger] all[i]).id != (
        #[trigger] all[j]).id by {
            assert(all[i] == f[i]);
            if j < f.len() {
                assert(all[j] == f[j]);
            } else {
                assert(front.contains(f[i]));
                let k = choose|k: int| 0 <= k < front.len() && front[k] == f[i];
                assert(children[k] == f[i]);
                assert(all[j] == children[children.len() - 1]);
            }
        }
    }
}

/// Filtering the workers keeps what holds of a pool.
proof fn lemma_filter_keeps_inv(st: PoolV, keep: spec_fn(SlotV) -> bool)
    requires
        st.inv(),
    ensures
        (PoolV { children: st.children.filter(keep), ..st }).inv(),
{
    lemma_filter_children(st.children, keep);
    lemma_filter_distinct(st.children, keep);
    let now = PoolV { children: st.children.filter(keep), ..st };
    assert forall|i: int| 0 <= i < now.children.len() implies (#[trigger] now.children[i]).id
        < now.next_id by {
        assert(st.children.contains(now.children[i]));
    }
    assert forall|i: int, j: int|
        0 <= i < now.children.len() && 0 <= j < now.spawning.len() implies (
    #[trigger] now.children[i]).id != #[trigger] now.spawning[j] by {
        assert(st.children.contains(now.children[i]));
        let k = choose|k: int| 0 <= k < st.children.len() && st.children[k] == now.children[i];
        assert(st.children[k].id != st.spawning[j]);
    }
}

/// Giving a worker another state, but not its life back, keeps what holds of a pool.
proof fn lemma_update_keeps_inv(st: PoolV, at: int, s: SlotV)
    requires
        st.inv(),
        0 <= at < st.children.len(),
        s.id == st.children[at].id,
        s.state is Dead || !(st.children[at].state is Dead),
    ensures
        (PoolV { children: st.children.update(at, s), ..st }).inv(),
{
    let now = PoolV { children: st.children.update(at, s), ..st };
    lemma_alive_update(st.children, at, s);
    assert forall|i: int| 0 <= i < now.children.len() implies (#[trigger] now.children[i]).id
        == st.children[i].id by {}
}

/// A worker that is being started keeps what holds of a pool, where there is room for it.
proof fn lemma_reserve_keeps_inv(st: PoolV)
    requires
        st.inv(),
        st.live() < st.config.max_workers,
        st.next_id < usize::MAX,
    ensures
        st.reserved().inv(),
        st.reserved().live() == st.live() + 1,
{
}

// ---------------------------------------------------------------------------
// Leasing
// ---------------------------------------------------------------------------

/// Where the worker of a lease comes from.
#[derive(Clone, Copy, Debug, PartialEq, Eq, Structural)]
pub enum Lease {
    /// It was idle.
    Existing { worker_id: usize },
    /// It has to be started.
    Spawn { worker_id: usize },
}

/// The pool and the worker for a session, or why there is none: an idle worker if there is one,
/// else a new one if there is room.
pub open spec fn leased(st: PoolV, session: Seq<char>, now: u64) -> (
    PoolV,
    Result<Lease, ToolErrorV>,
) {
    let at = first_idle(st.children, 0);
    if at < st.children.len() {
        let s = SlotOf {
            state: ChildStateOf::Leased { session_id: session },
            last_used: now,
            ..st.children[at]
        };
        (
            PoolV { children: st.children.update(at, s), ..st },
            Ok(Lease::Existing { worker_id: st.children[at].id }),
        )
    } else {
        let rest = PoolV { children: without_dead(st.children), ..st };
        if st.live() >= st.config.max_workers {
            (
                rest,
                Err(
                    ToolErrorOf::PoolExhausted {
                        active: st.live() as usize,
                        max: st.config.max_workers,
                    },
                ),
            )
        } else {
            (rest.reserved(), Ok(Lease::Spawn { worker_id: st.next_id }))
        }
    }
}

impl WorkerPool {
    /// A pool without workers.
    pub fn new(config: WorkerPoolConfig) -> (r: WorkerPool)
        ensures
            r@.inv(),
            r@.config == config,
            r@.live() == 0,
            r@.children == Seq::<SlotV>::empty(),
            r@.spawning == Seq::<usize>::empty(),
            r@.next_id == 0,
    {
        let r = WorkerPool { config, children: Vec::new(), spawning: Vec::new(), next_id: 0 };
        assert(r@.children =~= Seq::<SlotV>::empty());
        r
    }

    /// How many workers there are or will be.
    pub fn live_or_reserved_count(&self) -> (r: usize)
        requires
            self@.inv(),
        ensures
            r == self@.live(),
    {
        let ghost all = self@.children;
        let mut count: usize = self.spawning.len();
        let mut i: usize = 0;
        assert(all.take(0).len() == 0);
        while i < self.children.len()
            invariant
                i <= self.children.len(),
                all == slots(self.children@),
                count == self.spawning.len() + alive(all.take(i as int)),
                self@.inv(),
            decreases self.children.len() - i,
        {
            proof {
                let next = all.take(i + 1);
                assert(next.drop_last() =~= all.take(i as int));
                assert(next.last() == self.children[i as int]@);
                lemma_alive_prefix(all, i + 1);
            }
            let dead: bool = match &self.children[i].state {
                ChildStateOf::Dead => true,
                _ => false,
            };
            if !dead {
                count = count + 1;
            }
            i = i + 1;
        }
        assert(all.take(i as int) =~= all);
        count
    }

    /// Takes the workers out that are gone.
    fn drop_dead(&mut self)
        ensures
            final(self)@ == (PoolV { children: without_dead(old(self)@.children), ..old(self)@ }),
    {
        let ghost all = self@.children;
        let ghost keep = |s: SlotV| !(s.state is Dead);
        let mut kept: Vec<ChildSlot> = Vec::new();
        let mut rest: Vec<ChildSlot> = Vec::new();
        rest.append(&mut self.children);
        proof {
            assert(slots(rest@) == all);
            assert(slots(kept@) + all.filter(keep) =~= all.filter(keep));
            assert(slots(rest@) =~= all);
        }
        while rest.len() > 0
            invariant
                keep == (|s: SlotV| !(s.state is Dead)),
                slots(kept@) + slots(rest@).filter(keep) == all.filter(keep),
            decreases rest.len(),
        {
            let ghost before = slots(rest@);
            let ghost kept_before = slots(kept@);
            let s = rest.remove(0);
            proof {
                assert(slots(rest@) =~= before.drop_first());
                lemma_filter_front(before, keep);
            }
            let dead: bool = match &s.state {
                ChildStateOf::Dead => true,
                _ => false,
            };
            if !dead {
                kept.push(s);
                assert(slots(kept@) =~= kept_before.push(s@));
                assert(slots(kept@) + slots(rest@).filter(keep) =~= kept_before + before.filter(
                    keep,
                ));
            }
        }
        proof {
            assert(slots(rest@) =~= seq![]);
            assert(slots(rest@).filter(keep) =~= seq![]) by {
                reveal(Seq::filter);
            }
            assert(slots(kept@) =~= all.filter(keep));
        }
        self.children = kept;
    }

    /// Takes the worker with an ID out.
    pub fn forget_slot(&mut self, id: usize)
        ensures
            final(self)@ == (PoolV { children: without_id(old(self)@.children, id), ..old(self)@ }),
            old(self)@.inv() ==> final(self)@.inv(),
    {
        let ghost st = self@;
        let ghost all = self@.children;
        let ghost keep = |s: SlotV| s.id != id;
        proof {
            if st.inv() {
                lemma_filter_keeps_inv(st, keep);
            }
        }
        let mut kept: Vec<ChildSlot> = Vec::new();
        let mut rest: Vec<ChildSlot> = Vec::new();
        rest.append(&mut self.children);
        proof {
            assert(slots(kept@) + all.filter(keep) =~= all.filter(keep));
            assert(slots(rest@) =~= all);
        }
        while rest.len() > 0
            invariant
                keep == (|s: SlotV| s.id != id),
                slots(kept@) + slots(rest@).filter(keep) == all.filter(keep),
            decreases rest.len(),
        {
            let ghost before = slots(rest@);
            let ghost kept_before = slots(kept@);
            let s = rest.remove(0);
            proof {
                assert(slots(rest@) =~= before.drop_first());
                lemma_filter_front(before, keep);
            }
            if s.id != id {
                kept.push(s);
                assert(slots(kept@) =~= kept_before.push(s@));
                assert(slots(kept@) + slots(rest@).filter(keep) =~= kept_before + before.filter(
                    keep,
                ));
            }
        }
        proof {
            assert(slots(rest@) =~= seq![]);
            assert(slots(rest@).filter(keep) =~= seq![]) by {
                reveal(Seq::filter);
            }
            assert(slots(kept@) =~= all.filter(keep));
        }
        self.children = kept;
    }

    /// Notes that a worker is being started, and gives it its number.
    pub fn reserve_spawn_slot(&mut self) -> (r: usize)
        requires
            old(self)@.next_id < usize::MAX,
        ensures
            r == old(self)@.next_id,
            final(self)@ == old(self)@.reserved(),
            old(self)@.inv() && old(self)@.live() < old(self)@.config.max_workers
                ==> final(self)@.inv(),
    {
        proof {
            if self@.inv() && self@.live() < self@.config.max_workers {
                lemma_reserve_keeps_inv(self@);
            }
        }
        let id: usize = self.next_id;
        self.next_id = self.next_id + 1;
        self.spawning.push(id);
        id
    }

    /// Finds a worker for a session.
    pub fn lease(&mut self, session_id: &str, now: u64) -> (r: Result<Lease, ToolError>)
        requires
            old(self)@.inv(),
            old(self)@.next_id < usize::MAX,
        ensures
            final(self)@ == leased(old(self)@, session_id@, now).0,
            match r {
                Ok(l) => leased(old(self)@, session_id@, now).1 == Ok::<Lease, ToolErrorV>(l),
                Err(e) => leased(old(self)@, session_id@, now).1 == Err::<Lease, ToolErrorV>(e@),
            },
            final(self)@.inv(),
    {
        let ghost st = self@;
        let active: usize = self.live_or_reserved_count();
        let mut i: usize = 0;
        while i < self.children.len()
            invariant
                i <= self.children.len(),
                self@ == st,
                st == old(self)@,
                st.inv(),
                first_idle(st.children, 0) == first_idle(st.children, i as int),
            decreases self.children.len() - i,
        {
            assert(st.children[i as int] == self.children[i as int]@);
            let idle: bool = match &self.children[i].state {
                ChildStateOf::Idle => true,
                _ => false,
            };
            if idle {
                let old_slot = &self.children[i];
                let id: usize = old_slot.id;
                let fresh = SlotOf {
                    id,
                    state: ChildStateOf::Leased { session_id: session_id.to_owned() },
                    pid: old_slot.pid,
                    spawned_at: old_slot.spawned_at,
                    last_used: now,
                    idb_path: copy_opt(&old_slot.idb_path),
                };
                let ghost fv = fresh@;
                self.children.set(i, fresh);
                proof {
                    assert(slots(self.children@) =~= st.children.update(i as int, fv));
                    lemma_update_keeps_inv(st, i as int, fv);
                }
                return Ok(Lease::Existing { worker_id: id });
            }
            i = i + 1;
        }
        self.drop_dead();
        proof {
            let keep = |s: SlotV| !(s.state is Dead);
            lemma_filter_keeps_inv(st, keep);
            lemma_filter_children(st.children, keep);
        }
        if active >= self.config.max_workers {
            return Err(ToolErrorOf::PoolExhausted { active, max: self.config.max_workers });
        }
        let id: usize = self.reserve_spawn_slot();
        Ok(Lease::Spawn { worker_id: id })
    }
}

proof fn lemma_alive_prefix(children: Seq<SlotV>, k: int)
    requires
        0 <= k <= children.len(),
    ensures
        alive(children.take(k)) <= alive(children),
    decreases children.len() - k,
{
    if k < children.len() {
        assert(children.take(k + 1).drop_last() =~= children.take(k));
        lemma_alive_prefix(children, k + 1);
    } else {
        assert(children.take(k) =~= children);
    }
}

/// A filter goes item by item from the front.
proof fn lemma_filter_front(s: Seq<SlotV>, keep: spec_fn(SlotV) -> bool)
    requires
        s.len() > 0,
    ensures
        s.filter(keep) == (if keep(s[0]) {
            seq![s[0]] + s.drop_first().filter(keep)
        } else {
            s.drop_first().filter(keep)
        }),
    decreases s.len(),
{
    reveal(Seq::filter);
    if s.len() == 1 {
        assert(s.drop_first() =~= Seq::<SlotV>::empty());
        assert(s.drop_last() =~= Seq::<SlotV>::empty());
        assert(Seq::<SlotV>::empty().filter(keep) =~= Seq::<SlotV>::empty());
        assert(s.filter(keep) =~= (if keep(s[0]) {
            seq![s[0]] + s.drop_first().filter(keep)
        } else {
            s.drop_first().filter(keep)
        }));
    } else {
        lemma_filter_front(s.drop_last(), keep);
        assert(s.drop_last().drop_first() =~= s.drop_first().drop_last());
        assert(s.filter(keep) =~= (if keep(s[0]) {
            seq![s[0]] + s.drop_first().filter(keep)
        } else {
            s.drop_first().filter(keep)
        }));
    }
}

// ---------------------------------------------------------------------------
// Workers that come and go
// ---------------------------------------------------------------------------

/// What is left to do for a worker that is gone: its process and the database that it had open.
#[derive(Debug)]
pub struct DeadWorker {
    pub pid: Option<u32>,
    pub age_secs: u64,
    pub idb_path: Option<String>,
}

/// Whether this is what is left to do for a worker: its process, its age in whole seconds, and the
/// database that it had open.
pub open spec fn left_of(dead: DeadWorker, s: SlotV, now: u64) -> bool {
    &&& dead.pid == s.pid
    &&& opt_view(dead.idb_path) == s.idb_path
    &&& dead.age_secs == (if now >= s.spawned_at {
        (now - s.spawned_at) / 1000
    } else {
        0
    })
}

/// The numbers without one of them.
pub open spec fn without_number(s: Seq<usize>, id: usize) -> Seq<usize> {
    s.filter(|n: usize| n != id)
}

/// The pool once the start of a worker has ended: with the worker, or without.
pub open spec fn spawned(st: PoolV, id: usize, slot: Option<SlotV>) -> PoolV {
    PoolV {
        spawning: without_number(st.spawning, id),
        children: match slot {
            Some(s) => st.children.push(s),
            None => st.children,
        },
        ..st
    }
}

/// The pool with a worker marked as gone.
pub open spec fn killed(st: PoolV, id: usize) -> PoolV {
    let at = slot_at(st.children, id, 0);
    if at < st.children.len() && !(st.children[at].state is Dead) {
        PoolV {
            children: st.children.update(
                at,
                SlotOf { state: ChildStateOf::Dead, idb_path: None, ..st.children[at] },
            ),
            ..st
        }
    } else {
        st
    }
}

/// What an optional worker is.
pub open spec fn opt_slot(slot: Option<ChildSlot>) -> Option<SlotV> {
    match slot {
        Some(s) => Some(s@),
        None => None,
    }
}

/// How many workers there have to be.
pub open spec fn wanted(config: WorkerPoolConfig) -> usize {
    if config.min_workers < config.max_workers {
        config.min_workers
    } else {
        config.max_workers
    }
}

proof fn lemma_without_one(s: Seq<usize>, id: usize)
    requires
        s.no_duplicates(),
    ensures
        without_number(s, id).no_duplicates(),
        s.contains(id) ==> without_number(s, id).len() == s.len() - 1,
        !s.contains(id) ==> without_number(s, id) == s,
        forall|k: int|
            0 <= k < without_number(s, id).len() ==> s.contains(#[trigger] without_number(s, id)[k])
                && without_number(s, id)[k] != id,
    decreases s.len(),
{
    reveal(Seq::filter);
    if s.len() > 0 {
        let front = s.drop_last();
        lemma_without_one(front, id);
        let f = without_number(front, id);
        let all = without_number(s, id);
        assert forall|k: int| 0 <= k < all.len() implies s.contains(#[trigger] all[k]) && all[k]
            != id by {
            if k < f.len() {
                assert(all[k] == f[k]);
                assert(front.contains(f[k]));
                let i = choose|i: int| 0 <= i < front.len() && front[i] == f[k];
                assert(s[i] == f[k]);
            } else {
                assert(all[k] == s[s.len() - 1]);
            }
        }
        assert(s.last() == s[s.len() - 1]);
        if s.last() == id {
            assert(s.contains(id));
            assert(!front.contains(id)) by {
                if front.contains(id) {
                    let i = choose|i: int| 0 <= i < front.len() && front[i] == id;
                    assert(s[i] == s[s.len() - 1]);
                }
            }
        } else {
            assert(s.contains(id) == front.contains(id)) by {
                if s.contains(id) {
                    let i = choose|i: int| 0 <= i < s.len() && s[i] == id;
                    assert(front[i] == id);
                }
                if front.contains(id) {
                    let i = choose|i: int| 0 <= i < front.len() && front[i] == id;
                    assert(s[i] == id);
                }
            }
            assert(all =~= f.push(s.last()));
            assert forall|i: int, j: int| 0 <= i < j < all.len() implies all[i] != all[j] by {
                if j == f.len() {
                    assert(front.contains(f[i]));
                    let k = choose|k: int| 0 <= k < front.len() && front[k] == f[i];
                    assert(s[k] != s[s.len() - 1]);
                }
            }
            if !front.contains(id) {
                assert(front.push(s.last()) =~= s);
            }
        }
    } else {
        assert(without_number(s, id) =~= s);
    }
}

proof fn lemma_spawned_keeps_inv(st: PoolV, id: usize, slot: Option<SlotV>)
    requires
        st.inv(),
        slot is Some ==> st.spawning.contains(id) && slot->0.id == id,
    ensures
        spawned(st, id, slot).inv(),
        slot is Some ==> spawned(st, id, slot).live() + (if slot->0.state is Dead { 1nat } else {
            0nat
        }) == st.live(),
{
    let now = spawned(st, id, slot);
    lemma_without_one(st.spawning, id);
    assert forall|i: int| 0 <= i < now.spawning.len() implies #[trigger] now.spawning[i]
        < now.next_id by {
        assert(st.spawning.contains(now.spawning[i]));
    }
    if slot is Some {
        let s = slot->0;
        assert(now.children.drop_last() =~= st.children);
        let k = choose|k: int| 0 <= k < st.spawning.len() && st.spawning[k] == id;
        assert forall|i: int, j: int| 0 <= i < j < now.children.len() implies (
        #[trigger] now.children[i]).id != (#[trigger] now.children[j]).id by {
            assert(now.children[i] == st.children[i]);
            if j == st.children.len() {
                assert(st.children[i].id != st.spawning[k]);
            }
        }
        assert(st.spawning[k] < st.next_id);
    }
    assert forall|i: int, j: int|
        0 <= i < now.children.len() && 0 <= j < now.spawning.len() implies (
    #[trigger] now.children[i]).id != #[trigger] now.spawning[j] by {
        assert(st.spawning.contains(now.spawning[j]));
        let k = choose|k: int| 0 <= k < st.spawning.len() && st.spawning[k] == now.spawning[j];
        if i < st.children.len() {
            assert(now.children[i] == st.children[i]);
            assert(st.children[i].id != st.spawning[k]);
        }
    }
}

impl WorkerPool {
    /// Notes how the start of a worker has ended.
    pub fn finish_spawn_reservation(&mut self, worker_id: usize, slot: Option<ChildSlot>)
        ensures
            final(self)@ == spawned(old(self)@, worker_id, opt_slot(slot)),
            old(self)@.inv() && (slot is Some ==> old(self)@.spawning.contains(worker_id)
                && slot->0.id == worker_id) ==> final(self)@.inv(),
    {
        let ghost st = self@;
        let ghost sv = opt_slot(slot);
        proof {
            if st.inv() && (slot is Some ==> st.spawning.contains(worker_id) && slot->0.id
                == worker_id) {
                lemma_spawned_keeps_inv(st, worker_id, sv);
            }
        }
        let mut kept: Vec<usize> = Vec::new();
        let mut i: usize = 0;
        assert(without_number(self.spawning@.take(0), worker_id) =~= seq![]) by {
            reveal(Seq::filter);
        }
        while i < self.spawning.len()
            invariant
                i <= self.spawning.len(),
                self@ == st,
                kept@ == without_number(self.spawning@.take(i as int), worker_id),
            decreases self.spawning.len() - i,
        {
            proof {
                let next = self.spawning@.take(i + 1);
                assert(next.drop_last() =~= self.spawning@.take(i as int));
                reveal(Seq::filter);
            }
            if self.spawning[i] != worker_id {
                kept.push(self.spawning[i]);
            }
            i = i + 1;
        }
        assert(self.spawning@.take(i as int) =~= self.spawning@);
        assert(kept@ == without_number(st.spawning, worker_id));
        self.spawning = kept;
        if let Some(s) = slot {
            self.children.push(s);
            assert(slots(self.children@) =~= st.children.push(s@));
        }
    }

    fn find(&self, id: usize) -> (r: usize)
        ensures
            r == slot_at(self@.children, id, 0),
            r <= self.children.len(),
    {
        let ghost all = self@.children;
        let mut i: usize = 0;
        while i < self.children.len() && self.children[i].id != id
            invariant
                i <= self.children.len(),
                all == slots(self.children@),
                slot_at(all, id, 0) == slot_at(all, id, i as int),
            decreases self.children.len() - i,
        {
            assert(all[i as int] == self.children[i as int]@);
            i = i + 1;
        }
        if i < self.children.len() {
            assert(all[i as int] == self.children[i as int]@);
        }
        i
    }

    /// The state of a worker: one that is not in the pool is gone.
    pub fn state(&self, id: usize) -> (r: ChildState)
        ensures
            r@ == self@.state_of(id),
    {
        let at: usize = self.find(id);
        if at < self.children.len() {
            assert(self@.children[at as int] == self.children[at as int]@);
            match &self.children[at].state {
                ChildStateOf::Idle => ChildStateOf::Idle,
                ChildStateOf::Leased { session_id } => ChildStateOf::Leased {
                    session_id: session_id.clone(),
                },
                ChildStateOf::Closing => ChildStateOf::Closing,
                ChildStateOf::Dead => ChildStateOf::Dead,
            }
        } else {
            ChildStateOf::Dead
        }
    }

    /// Gives the worker at a position another state, time of use and database.
    fn put(&mut self, at: usize, state: ChildState, last_used: u64, idb_path: Option<String>)
        requires
            at < old(self).children.len(),
        ensures
            final(self)@ == (PoolV {
                children: old(self)@.children.update(
                    at as int,
                    SlotOf {
                        state: state@,
                        last_used,
                        idb_path: opt_view(idb_path),
                        ..old(self)@.children[at as int]
                    },
                ),
                ..old(self)@
            }),
    {
        let ghost st = self@;
        let s = &self.children[at];
        let fresh = SlotOf {
            id: s.id,
            state,
            pid: s.pid,
            spawned_at: s.spawned_at,
            last_used,
            idb_path,
        };
        let ghost fv = fresh@;
        assert(st.children[at as int] == self.children[at as int]@);
        self.children.set(at, fresh);
        assert(slots(self.children@) =~= st.children.update(at as int, fv));
    }

    /// Marks a worker as gone, unless it is already, and says what is left to do for it.
    pub fn take_dead_worker(&mut self, id: usize, now: u64) -> (r: Option<DeadWorker>)
        ensures
            final(self)@ == killed(old(self)@, id),
            r is Some <==> !(old(self)@.state_of(id) is Dead),
            r matches Some(dead) ==> left_of(
                dead,
                old(self)@.children[slot_at(old(self)@.children, id, 0)],
                now,
            ),
            old(self)@.inv() ==> final(self)@.inv(),
            final(self)@.state_of(id) is Dead,
    {
        let ghost st = self@;
        let at: usize = self.find(id);
        proof {
            lemma_slot_at(st.children, id, 0);
        }
        if at == self.children.len() {
            return None;
        }
        assert(st.children[at as int] == self.children[at as int]@);
        let gone: bool = match &self.children[at].state {
            ChildStateOf::Dead => true,
            _ => false,
        };
        if gone {
            return None;
        }
        let s = &self.children[at];
        let dead = DeadWorker {
            pid: s.pid,
            age_secs: if now >= s.spawned_at {
                (now - s.spawned_at) / 1000
            } else {
                0
            },
            idb_path: copy_opt(&s.idb_path),
        };
        let used: u64 = s.last_used;
        self.put(at, ChildStateOf::Dead, used, None);
        proof {
            let s = SlotOf {
                state: ChildStateOf::Dead,
                idb_path: None,
                ..st.children[at as int]
            };
            assert(self@.children =~= killed(st, id).children);
            if st.inv() {
                lemma_update_keeps_inv(st, at as int, s);
            }
            lemma_slot_update(st.children, id, at as int, s);
        }
        Some(dead)
    }

    /// Takes a worker out of the pool for good: it is marked as gone and forgotten.
    pub fn mark_dead(&mut self, id: usize, now: u64) -> (r: Option<DeadWorker>)
        ensures
            final(self)@ == (PoolV {
                children: without_id(killed(old(self)@, id).children, id),
                ..old(self)@
            }),
            r is Some <==> !(old(self)@.state_of(id) is Dead),
            r matches Some(dead) ==> left_of(
                dead,
                old(self)@.children[slot_at(old(self)@.children, id, 0)],
                now,
            ),
            old(self)@.inv() ==> final(self)@.inv(),
            final(self)@.state_of(id) is Dead,
    {
        let dead = self.take_dead_worker(id, now);
        self.forget_slot(id);
        proof {
            lemma_forgotten(killed(old(self)@, id).children, id);
        }
        dead
    }

    /// Marks an idle worker as gone that nobody has used since `since`, if there are more workers
    /// than there have to be.
    pub fn take_stale_idle_worker_if_above_min(&mut self, id: usize, since: u64, now: u64) -> (r:
        Option<DeadWorker>)
        requires
            old(self)@.inv(),
        ensures
            ({
                let st = old(self)@;
                let at = slot_at(st.children, id, 0);
                let stale = st.live() > st.config.min_workers && st.state_of(id) is Idle
                    && st.children[at].last_used <= since;
                &&& r is Some <==> stale
                &&& r is Some <==> is_stale(st, id, since)
                &&& r matches Some(dead) ==> left_of(dead, st.children[at], now)
                &&& final(self)@ == (if stale {
                    killed(st, id)
                } else {
                    st
                })
            }),
            final(self)@.inv(),
    {
        let live: usize = self.live_or_reserved_count();
        if live <= self.config.min_workers {
            return None;
        }
        let at: usize = self.find(id);
        if at == self.children.len() {
            return None;
        }
        assert(self@.children[at as int] == self.children[at as int]@);
        let idle: bool = match &self.children[at].state {
            ChildStateOf::Idle => true,
            _ => false,
        };
        if !idle || self.children[at].last_used > since {
            return None;
        }
        self.take_dead_worker(id, now)
    }

    /// Notes that one more worker is being started, if there are fewer than there have to be.
    pub fn ensure_min_workers(&mut self) -> (r: Option<usize>)
        requires
            old(self)@.inv(),
            old(self)@.next_id < usize::MAX,
        ensures
            ({
                let st = old(self)@;
                let too_few = st.spawning.len() + st.children.len() < wanted(st.config);
                &&& r is Some <==> has_too_few(st)
                &&& r == (if too_few {
                    Some(st.next_id)
                } else {
                    None
                })
                &&& final(self)@ == (if too_few {
                    st.reserved()
                } else {
                    st
                })
            }),
            final(self)@.inv(),
    {
        let min: usize = if self.config.min_workers < self.config.max_workers {
            self.config.min_workers
        } else {
            self.config.max_workers
        };
        proof {
            lemma_alive_bound(self@.children);
        }
        if self.spawning.len() >= min || self.children.len() >= min - self.spawning.len() {
            return None;
        }
        Some(self.reserve_spawn_slot())
    }

    /// How many workers are started when the pool is opened.
    pub fn warm_min(&self) -> (r: usize)
        ensures
            r == wanted(self@.config),
    {
        if self.config.min_workers < self.config.max_workers {
            self.config.min_workers
        } else {
            self.config.max_workers
        }
    }

    /// The numbers of all workers, for them to be taken out without others in their place.
    pub fn shutdown_all(&self) -> (r: Vec<usize>)
        ensures
            r@.len() == self@.children.len(),
            forall|i: int| 0 <= i < r@.len() ==> #[trigger] r@[i] == self@.children[i].id,
    {
        let mut out: Vec<usize> = Vec::new();
        let mut i: usize = 0;
        while i < self.children.len()
            invariant
                i <= self.children.len(),
                out.len() == i,
                forall|j: int| 0 <= j < i ==> #[trigger] out[j] == self.children[j].id,
            decreases self.children.len() - i,
        {
            out.push(self.children[i].id);
            i = i + 1;
        }
        out
    }

    /// Notes which database a worker has open.
    pub fn set_database(&mut self, id: usize, path: &str)
        ensures
            ({
                let st = old(self)@;
                let at = slot_at(st.children, id, 0);
                final(self)@ == (if at < st.children.len() {
                    PoolV {
                        children: st.children.update(
                            at,
                            SlotOf { idb_path: Some(path@), ..st.children[at] },
                        ),
                        ..st
                    }
                } else {
                    st
                })
            }),
            old(self)@.inv() ==> final(self)@.inv(),
    {
        let ghost st = self@;
        let at: usize = self.find(id);
        if at < self.children.len() {
            assert(st.children[at as int] == self.children[at as int]@);
            let state = self.state(id);
            let used: u64 = self.children[at].last_used;
            self.put(at, state, used, Some(path.to_owned()));
            proof {
                let s = SlotOf { idb_path: Some(path@), ..st.children[at as int] };
                assert(self@.children =~= st.children.update(at as int, s));
                if st.inv() {
                    lemma_update_keeps_inv(st, at as int, s);
                }
            }
        }
    }
}

/// Changing a worker does not move it.
proof fn lemma_slot_update(children: Seq<SlotV>, id: usize, at: int, s: SlotV)
    requires
        0 <= at < children.len(),
        at == slot_at(children, id, 0),
        s.id == id,
    ensures
        slot_at(children.update(at, s), id, 0) == at,
{
    lemma_slot_at(children, id, 0);
    lemma_slot_first(children, id, 0);
    let now = children.update(at, s);
    lemma_slot_at(now, id, 0);
    lemma_slot_first(now, id, 0);
    let b = slot_at(now, id, 0);
    if b == now.len() {
        assert(now[at].id != id);
    } else if b < at {
        assert(now[b] == children[b]);
    } else if b > at {
        assert(now[at].id == id);
    }
}

/// No worker before the one that is found has its number.
proof fn lemma_slot_first(children: Seq<SlotV>, id: usize, from: int)
    requires
        0 <= from <= children.len(),
    ensures
        forall|j: int|
            from <= j < slot_at(children, id, from) ==> (#[trigger] children[j]).id != id,
    decreases children.len() - from,
{
    if from < children.len() && children[from].id != id {
        lemma_slot_first(children, id, from + 1);
    }
}

/// A forgotten worker is not found.
proof fn lemma_forgotten(children: Seq<SlotV>, id: usize)
    ensures
        slot_at(without_id(children, id), id, 0) == without_id(children, id).len(),
{
    let keep = |s: SlotV| s.id != id;
    lemma_filter_children(children, keep);
    lemma_slot_at(without_id(children, id), id, 0);
}

impl WorkerPool {
    /// Gives a worker that is not gone another state. Where a time is given, the worker is used at
    /// that time and has no database open.
    pub fn set_state(&mut self, id: usize, state: ChildState, unused_since: Option<u64>)
        requires
            !(state@ is Dead),
            !(old(self)@.state_of(id) is Dead),
        ensures
            ({
                let st = old(self)@;
                let at = slot_at(st.children, id, 0);
                &&& at < st.children.len()
                &&& final(self)@ == (PoolV {
                    children: st.children.update(
                        at,
                        match unused_since {
                            Some(now) => SlotOf {
                                state: state@,
                                last_used: now,
                                idb_path: None,
                                ..st.children[at]
                            },
                            None => SlotOf { state: state@, ..st.children[at] },
                        },
                    ),
                    ..st
                })
            }),
            old(self)@.inv() ==> final(self)@.inv(),
    {
        let ghost st = self@;
        let at: usize = self.find(id);
        proof {
            lemma_slot_at(st.children, id, 0);
        }
        assert(st.children[at as int] == self.children[at as int]@);
        let ghost sv = match unused_since {
            Some(now) => SlotOf {
                state: state@,
                last_used: now,
                idb_path: None,
                ..st.children[at as int]
            },
            None => SlotOf { state: state@, ..st.children[at as int] },
        };
        match unused_since {
            Some(now) => {
                self.put(at, state, now, None);
            },
            None => {
                let used: u64 = self.children[at].last_used;
                let path = copy_opt(&self.children[at].idb_path);
                self.put(at, state, used, path);
            },
        }
        proof {
            assert(self@.children =~= st.children.update(at as int, sv));
            if st.inv() {
                lemma_update_keeps_inv(st, at as int, sv);
            }
        }
    }
}

/// A worker that is found has the number that it is found by.
pub proof fn lemma_slot_found(children: Seq<SlotV>, id: usize)
    ensures
        0 <= slot_at(children, id, 0) <= children.len(),
        slot_at(children, id, 0) < children.len() ==> children[slot_at(children, id, 0)].id == id,
{
    lemma_slot_at(children, id, 0);
}

/// A worker that is changed is found where it was, and no worker comes or goes with a change that
/// leaves it alive.
pub proof fn lemma_changed_slot(st: PoolV, id: usize, s: SlotV)
    requires
        slot_at(st.children, id, 0) < st.children.len(),
        s.id == id,
        !(s.state is Dead),
        !(st.state_of(id) is Dead),
    ensures
        ({
            let now = PoolV { children: st.children.update(slot_at(st.children, id, 0), s), ..st };
            now.state_of(id) == s.state && now.live() == st.live()
        }),
{
    let at = slot_at(st.children, id, 0);
    lemma_slot_at(st.children, id, 0);
    lemma_slot_update(st.children, id, at, s);
    lemma_alive_update(st.children, at, s);
}

/// The worker of a lease was idle or is new.
pub proof fn lemma_leased_was_free(st: PoolV, session: Seq<char>, now: u64)
    requires
        st.inv(),
    ensures
        leased(st, session, now).1 matches Ok(Lease::Existing { worker_id }) ==> st.state_of(
            worker_id,
        ) is Idle,
        leased(st, session, now).1 matches Ok(Lease::Spawn { worker_id }) ==> st.state_of(
            worker_id,
        ) is Dead && forall|i: int|
            0 <= i < st.children.len() ==> (#[trigger] st.children[i]).id != worker_id,
{
    lemma_first_idle(st.children, 0);
    let at = first_idle(st.children, 0);
    if at < st.children.len() {
        let id = st.children[at].id;
        lemma_slot_at(st.children, id, 0);
        lemma_slot_first(st.children, id, 0);
        let b = slot_at(st.children, id, 0);
        if b < at {
            assert(st.children[b].id != st.children[at].id);
        }
        if b > at {
            assert(st.children[at].id != id);
        }
    } else {
        lemma_slot_at(st.children, st.next_id, 0);
    }
}

/// A pool never has more workers than allowed, whatever is leased.
pub proof fn lemma_never_too_many(st: PoolV, session: Seq<char>, now: u64)
    requires
        st.inv(),
        st.next_id < usize::MAX,
    ensures
        leased(st, session, now).0.live() <= st.config.max_workers,
        leased(st, session, now).1 is Err <==> st.live() >= st.config.max_workers && first_idle(
            st.children,
            0,
        ) == st.children.len(),
{
    lemma_first_idle(st.children, 0);
    let at = first_idle(st.children, 0);
    let keep = |s: SlotV| !(s.state is Dead);
    lemma_filter_children(st.children, keep);
    if at < st.children.len() {
        lemma_alive_update(st.children, at, leased(st, session, now).0.children[at]);
    }
}

/// A worker that is being started counts as one, and its place is free again where the start comes
/// to nothing: where it takes the last place and nobody is idle, no session gets a worker meanwhile.
pub proof fn lemma_reservation_counts(st: PoolV, session: Seq<char>, now: u64)
    requires
        st.inv(),
        st.live() < st.config.max_workers,
        st.next_id < usize::MAX,
    ensures
        st.reserved().live() == st.live() + 1,
        spawned(st.reserved(), st.next_id, None).live() == st.live(),
        st.reserved().live() == st.config.max_workers && first_idle(st.children, 0)
            == st.children.len() ==> leased(st.reserved(), session, now).1 == Err::<
            Lease,
            ToolErrorV,
        >(
            ToolErrorOf::PoolExhausted {
                active: st.config.max_workers,
                max: st.config.max_workers,
            },
        ),
{
    lemma_reserve_keeps_inv(st);
    let res = st.reserved();
    assert(res.spawning[res.spawning.len() - 1] == st.next_id);
    lemma_without_one(res.spawning, st.next_id);
}

// ---------------------------------------------------------------------------
// Who gets which worker
// ---------------------------------------------------------------------------

/// Every worker that is not dead counts, once each, and no other does.
pub proof fn lemma_alive_counts(children: Seq<SlotV>)
    ensures
        alive(children) == children.filter(|s: SlotV| s.state != ChildStateV::Dead).len(),
    decreases children.len(),
{
    reveal(Seq::filter);
    if children.len() > 0 {
        lemma_alive_counts(children.drop_last());
    }
}

/// A session gets the first worker that waits: that one is marked as its own
/// and as used now, and every other worker stays as it was.
pub proof fn lemma_first_waiting_worker_is_leased(
    st: PoolV,
    session: Seq<char>,
    now: u64,
    at: int,
)
    requires
        0 <= at < st.children.len(),
        st.children[at].state == ChildStateV::Idle,
        forall|j: int| 0 <= j < at ==> (#[trigger] st.children[j]).state != ChildStateV::Idle,
    ensures
        ({
            let after = leased(st, session, now).0;
            &&& leased(st, session, now).1 == Ok::<Lease, ToolErrorV>(
                Lease::Existing { worker_id: st.children[at].id },
            )
            &&& after.children.len() == st.children.len()
            &&& after.children[at].state == (ChildStateV::Leased { session_id: session })
            &&& after.children[at].last_used == now
            &&& after.children[at].id == st.children[at].id
            &&& after.children[at].pid == st.children[at].pid
            &&& after.children[at].spawned_at == st.children[at].spawned_at
            &&& after.children[at].idb_path == st.children[at].idb_path
            &&& forall|j: int|
                0 <= j < st.children.len() && j != at ==> #[trigger] after.children[j]
                    == st.children[j]
            &&& after.spawning == st.spawning && after.next_id == st.next_id
        }),
{
    lemma_first_waiting(st.children, 0, at);
}

proof fn lemma_first_waiting(children: Seq<SlotV>, from: int, at: int)
    requires
        0 <= from <= at < children.len(),
        children[at].state == ChildStateV::Idle,
        forall|j: int| from <= j < at ==> (#[trigger] children[j]).state != ChildStateV::Idle,
    ensures
        first_idle(children, from) == at,
    decreases at - from,
{
    if from < at {
        assert(children[from].state != ChildStateV::Idle);
        lemma_first_waiting(children, from + 1, at);
    }
}

/// Where no worker waits, a new one is started as long as there is room, and
/// the room counts the workers that are not dead and those that are being
/// started; where there is none, the session is told how many there are.
pub proof fn lemma_room_for_one_more(st: PoolV, session: Seq<char>, now: u64)
    requires
        st.next_id < usize::MAX,
        st.inv(),
        forall|j: int|
            0 <= j < st.children.len() ==> (#[trigger] st.children[j]).state != ChildStateV::Idle,
    ensures
        ({
            let busy = st.children.filter(|s: SlotV| s.state != ChildStateV::Dead).len()
                + st.spawning.len();
            let after = leased(st, session, now).0;
            &&& busy < st.config.max_workers ==> leased(st, session, now).1 == Ok::<
                Lease,
                ToolErrorV,
            >(Lease::Spawn { worker_id: st.next_id }) && after.spawning == st.spawning.push(
                st.next_id,
            ) && after.next_id == st.next_id + 1
            &&& busy >= st.config.max_workers ==> leased(st, session, now).1 == Err::<
                Lease,
                ToolErrorV,
            >(
                ToolErrorOf::PoolExhausted { active: busy as usize, max: st.config.max_workers },
            ) && after.spawning == st.spawning && after.next_id == st.next_id
            &&& after.children == st.children.filter(|s: SlotV| s.state != ChildStateV::Dead)
        }),
{
    lemma_nobody_waits(st.children, 0);
    lemma_alive_counts(st.children);
    let a = |s: SlotV| !(s.state is Dead);
    let b = |s: SlotV| s.state != ChildStateV::Dead;
    assert(a =~= b);
}

proof fn lemma_nobody_waits(children: Seq<SlotV>, from: int)
    requires
        0 <= from <= children.len(),
        forall|j: int|
            from <= j < children.len() ==> (#[trigger] children[j]).state != ChildStateV::Idle,
    ensures
        first_idle(children, from) == children.len(),
    decreases children.len() - from,
{
    if from < children.len() {
        assert(children[from].state != ChildStateV::Idle);
        lemma_nobody_waits(children, from + 1);
    }
}

/// A worker that is taken out of the pool is dead and has no database; every
/// other worker stays as it was.
pub proof fn lemma_killed_worker(st: PoolV, at: int)
    requires
        st.inv(),
        0 <= at < st.children.len(),
        st.children[at].state != ChildStateV::Dead,
    ensures
        ({
            let after = killed(st, st.children[at].id);
            &&& after.children.len() == st.children.len()
            &&& after.children[at].state == ChildStateV::Dead
            &&& after.children[at].idb_path is None
            &&& after.children[at].id == st.children[at].id
            &&& forall|j: int|
                0 <= j < st.children.len() && j != at ==> #[trigger] after.children[j]
                    == st.children[j]
            &&& after.spawning == st.spawning && after.next_id == st.next_id
            &&& after.live() == st.live() - 1
        }),
{
    lemma_place_of_worker(st.children, 0, at);
    let s = SlotOf { state: ChildStateV::Dead, idb_path: None, ..st.children[at] };
    lemma_alive_update(st.children, at, s);
}

proof fn lemma_place_of_worker(children: Seq<SlotV>, from: int, at: int)
    requires
        0 <= from <= at < children.len(),
        forall|i: int, j: int|
            0 <= i < j < children.len() ==> (#[trigger] children[i]).id != (
            #[trigger] children[j]).id,
    ensures
        slot_at(children, children[at].id, from) == at,
    decreases at - from,
{
    if from < at {
        assert(children[from].id != children[at].id);
        lemma_place_of_worker(children, from + 1, at);
    }
}

/// A worker that came up takes the place that was kept for it; one that did not
/// gives the place back.
pub proof fn lemma_kept_place(st: PoolV, id: usize, slot: SlotV)
    ensures
        spawned(st, id, Some(slot)).children == st.children.push(slot),
        spawned(st, id, None).children == st.children,
        !spawned(st, id, None).spawning.contains(id),
        !spawned(st, id, Some(slot)).spawning.contains(id),
        forall|n: usize|
            n != id && st.spawning.contains(n) ==> spawned(st, id, None).spawning.contains(n)
                && spawned(st, id, Some(slot)).spawning.contains(n),
{
    broadcast use vstd::seq_lib::group_filter_ensures;

    let keep = |n: usize| n != id;
    let left = st.spawning.filter(keep);
    if left.contains(id) {
        let i = choose|i: int| 0 <= i < left.len() && left[i] == id;
        assert(keep(left[i]));
    }
    assert forall|n: usize| n != id && st.spawning.contains(n) implies left.contains(n) by {
        let i = choose|i: int| 0 <= i < st.spawning.len() && st.spawning[i] == n;
        assert(keep(st.spawning[i]));
    }
}

/// The workers that are kept ready are the smaller of the two settings.
pub proof fn lemma_workers_kept_ready(config: WorkerPoolConfig)
    ensures
        wanted(config) <= config.min_workers,
        wanted(config) <= config.max_workers,
        wanted(config) == config.min_workers || wanted(config) == config.max_workers,
{
}

/// The age of a worker is the whole seconds since it was started, at a thousand
/// milliseconds each.
pub proof fn lemma_age_in_seconds(dead: DeadWorker, s: SlotV, now: u64)
    requires
        left_of(dead, s, now),
    ensures
        dead.pid == s.pid,
        now >= s.spawned_at ==> dead.age_secs * 1000 <= now - s.spawned_at && now - s.spawned_at < (
        dead.age_secs + 1) * 1000,
        now < s.spawned_at ==> dead.age_secs == 0,
{
}

/// A request has at most ten minutes of its own, and the worker ten seconds
/// more; a worker has five seconds to close its database.
pub proof fn lemma_pool_times()
    ensures
        MAX_TIMEOUT_SECS == 600,
        CHILD_TIMEOUT_GRACE_SECS == 10,
        CHILD_CLOSE_TIMEOUT_SECS == 5,
{
}

/// Whether a worker has waited unused since a time, with more workers there than
/// are to be kept.
pub open spec fn is_stale(st: PoolV, id: usize, since: u64) -> bool {
    let at = slot_at(st.children, id, 0);
    &&& st.live() > st.config.min_workers
    &&& at < st.children.len()
    &&& st.children[at].state is Idle
    &&& st.children[at].last_used <= since
}

/// A worker goes for being unused only where it waits, was not used after the
/// time that is asked about, and more workers are there than are to be kept; so
/// no fewer than those are left.
pub proof fn lemma_stale_workers(st: PoolV, at: int, since: u64)
    requires
        st.inv(),
        0 <= at < st.children.len(),
    ensures
        is_stale(st, st.children[at].id, since) <==> {
            &&& st.children[at].state == ChildStateV::Idle
            &&& st.children[at].last_used <= since
            &&& st.children.filter(|s: SlotV| s.state != ChildStateV::Dead).len()
                + st.spawning.len() > st.config.min_workers
        },
        is_stale(st, st.children[at].id, since) ==> killed(st, st.children[at].id).live()
            >= st.config.min_workers,
{
    lemma_place_of_worker(st.children, 0, at);
    lemma_alive_counts(st.children);
    if is_stale(st, st.children[at].id, since) {
        lemma_killed_worker(st, at);
    }
}

/// Whether fewer workers are there or on their way than are to be kept ready.
pub open spec fn has_too_few(st: PoolV) -> bool {
    st.spawning.len() + st.children.len() < wanted(st.config)
}

/// A worker is started ahead of need only while fewer are there than are to be
/// kept and than there may be.
pub proof fn lemma_started_ahead(st: PoolV)
    ensures
        has_too_few(st) <==> st.spawning.len() + st.children.len() < st.config.min_workers
            && st.spawning.len() + st.children.len() < st.config.max_workers,
{
}

} // verus!
