//! Shared ownership of device resources.
//!
//! Every resource sits in a slot of a [`ResourceTable`]. A slot counts the
//! handles that the application holds on it, and it names the resources that
//! it depends on. A resource lives for as long as someone holds a handle to
//! it or a living resource depends on it; when neither is the case any more
//! it is retired, exactly once, before the resources it depended on.

use vstd::prelude::*;
use crate::error::{custom_error, Error};

verus! {

/// What a slot of the table stands for.
#[derive(Debug, Clone, Copy, PartialEq, Eq, Structural)]
pub enum ResourceKind {
    Context,
    ProtectionDomain,
    MemoryRegion,
    MemoryWindow,
    CompletionChannel,
    CompletionQueue,
    SharedReceiveQueue,
    AddressHandle,
    QueuePair,
    QueuePairEx,
}

/// The mathematical content of one slot.
pub struct ResourceView {
    pub kind: ResourceKind,
    pub token: usize,
    pub handles: nat,
    pub deps: Seq<usize>,
    pub live: bool,
}

/// How often `d` is named in `deps`.
pub open spec fn occurrences(deps: Seq<usize>, d: int) -> nat
    decreases deps.len(),
{
    if deps.len() == 0 {
        0
    } else {
        occurrences(deps.drop_last(), d) + if deps.last() == d {
            1nat
        } else {
            0nat
        }
    }
}

/// How often the living resources among the first `n` slots name `d` as a
/// dependency.
pub open spec fn referrers_below(v: Seq<ResourceView>, d: int, n: int) -> nat
    decreases n,
{
    if n <= 0 {
        0
    } else {
        referrers_below(v, d, n - 1) + if v[n - 1].live {
            occurrences(v[n - 1].deps, d)
        } else {
            0nat
        }
    }
}

/// How often the living resources name `d` as a dependency.
pub open spec fn referrers(v: Seq<ResourceView>, d: int) -> nat {
    referrers_below(v, d, v.len() as int)
}

/// The ownership graph is sound: dependencies point to older, living
/// resources; whatever lives is held by a handle or by a living dependent;
/// and nobody holds a handle on what is gone.
pub open spec fn well_formed(v: Seq<ResourceView>) -> bool {
    &&& forall|i: int, k: int|
        0 <= i < v.len() && v[i].live && 0 <= k < v[i].deps.len() ==> {
            &&& (#[trigger] v[i].deps[k]) < i
            &&& v[v[i].deps[k] as int].live
        }
    &&& forall|i: int| 0 <= i < v.len() && #[trigger] v[i].live ==> v[i].handles + referrers(v, i) > 0
    &&& forall|i: int| 0 <= i < v.len() && !(#[trigger] v[i].live) ==> v[i].handles == 0
}

/// Whether the application holds a handle on `id`.
pub open spec fn holds_handle(v: Seq<ResourceView>, id: int) -> bool {
    0 <= id < v.len() && v[id].handles >= 1
}

/// A list names `d` at least once exactly when `d` is at some place of it.
pub proof fn lemma_occurrences_positive(deps: Seq<usize>, d: int)
    ensures
        occurrences(deps, d) > 0 <==> exists|k: int| 0 <= k < deps.len() && deps[k] == d,
    decreases deps.len(),
{
    if deps.len() > 0 {
        let front = deps.drop_last();
        lemma_occurrences_positive(front, d);
        if occurrences(deps, d) > 0 {
            if deps.last() == d {
                assert(deps[deps.len() - 1] == d);
            } else {
                let k = choose|k: int| 0 <= k < front.len() && front[k] == d;
                assert(deps[k] == d);
            }
        }
        if exists|k: int| 0 <= k < deps.len() && deps[k] == d {
            let k = choose|k: int| 0 <= k < deps.len() && deps[k] == d;
            if k < deps.len() - 1 {
                assert(front[k] == d);
            }
        }
    }
}

/// Counting one place further adds one where that place names `d`, and a
/// part of the list never names `d` more often than the whole.
pub proof fn lemma_occurrences_prefix(deps: Seq<usize>, d: int, k: int)
    requires
        0 <= k < deps.len(),
    ensures
        occurrences(deps.take(k + 1), d) == occurrences(deps.take(k), d) + if deps[k] == d {
            1nat
        } else {
            0nat
        },
        occurrences(deps.take(k + 1), d) <= occurrences(deps, d),
    decreases deps.len() - k,
{
    assert(deps.take(k + 1).drop_last() =~= deps.take(k));
    if k + 1 == deps.len() {
        assert(deps.take(k + 1) =~= deps);
    } else {
        lemma_occurrences_prefix(deps, d, k + 1);
    }
}

/// The count over the first `n` slots reads nothing but `live` and `deps` of
/// those slots.
pub proof fn lemma_referrers_frame(v: Seq<ResourceView>, w: Seq<ResourceView>, d: int, n: int)
    requires
        n <= v.len(),
        n <= w.len(),
        forall|i: int| 0 <= i < n ==> v[i].live == w[i].live && v[i].deps == w[i].deps,
    ensures
        referrers_below(v, d, n) == referrers_below(w, d, n),
    decreases n,
{
    if n > 0 {
        lemma_referrers_frame(v, w, d, n - 1);
    }
}

/// What one slot adds to the count of `d`.
pub open spec fn share(r: ResourceView, d: int) -> nat {
    if r.live {
        occurrences(r.deps, d)
    } else {
        0
    }
}

/// Changing one slot changes the count by that slot's share.
pub proof fn lemma_referrers_update(v: Seq<ResourceView>, w: Seq<ResourceView>, at: int, d: int, n: int)
    requires
        0 <= at < v.len(),
        v.len() == w.len(),
        n <= v.len(),
        forall|i: int| 0 <= i < v.len() && i != at ==> v[i].live == w[i].live && v[i].deps == w[i].deps,
    ensures
        at < n ==> referrers_below(w, d, n) + share(v[at], d) == referrers_below(v, d, n) + share(w[at], d),
        at >= n ==> referrers_below(w, d, n) == referrers_below(v, d, n),
    decreases n,
{
    if n > 0 {
        lemma_referrers_update(v, w, at, d, n - 1);
    }
}

/// Whether `r` names `d` as a dependency.
pub open spec fn names(r: ResourceView, d: int) -> bool {
    exists|k: int| 0 <= k < r.deps.len() && r.deps[k] == d
}

/// The count is positive exactly when a living slot names `d`.
pub proof fn lemma_referrers_positive(v: Seq<ResourceView>, d: int, n: int)
    requires
        n <= v.len(),
    ensures
        referrers_below(v, d, n) > 0 <==> exists|e: int| 0 <= e < n && v[e].live && #[trigger] names(v[e], d),
    decreases n,
{
    if n > 0 {
        lemma_referrers_positive(v, d, n - 1);
        lemma_occurrences_positive(v[n - 1].deps, d);
        if referrers_below(v, d, n) > 0 {
            if referrers_below(v, d, n - 1) > 0 {
                let e = choose|e: int| 0 <= e < n - 1 && v[e].live && #[trigger] names(v[e], d);
                assert(0 <= e < n && v[e].live && names(v[e], d));
            } else {
                assert(v[n - 1].live && names(v[n - 1], d));
            }
        }
    }
}

/// The table after the application gave up one handle on `id`, before
/// anything is retired.
pub open spec fn without_handle(v: Seq<ResourceView>, id: int) -> Seq<ResourceView> {
    v.update(id, ResourceView { handles: (v[id].handles - 1) as nat, ..v[id] })
}

/// Whether `x` stays: it lives, and a handle is held on it or a younger
/// resource that stays depends on it.
pub open spec fn survives(v: Seq<ResourceView>, x: int) -> bool
    decreases v.len() - x,
{
    &&& 0 <= x < v.len()
    &&& v[x].live
    &&& (v[x].handles > 0 || exists|e: int| x < e < v.len() && #[trigger] names(v[e], x) && survives(v, e))
}

/// The table after the application gave up one handle on `id`: what does not
/// stay is retired, everything else is as before.
pub open spec fn after_release(v: Seq<ResourceView>, id: int) -> Seq<ResourceView> {
    let w = without_handle(v, id);
    Seq::new(v.len(), |x: int| ResourceView { live: survives(w, x), ..w[x] })
}

/// `out` lists what giving up one handle on `id` retires: each such resource
/// once, the youngest first, so that every resource comes before those that
/// it depended on.
pub open spec fn is_retirement(v: Seq<ResourceView>, id: int, out: Seq<Retired>) -> bool {
    let w = without_handle(v, id);
    &&& forall|a: int, b: int| 0 <= a < b < out.len() ==> (#[trigger] out[a]).id > (#[trigger] out[b]).id
    &&& forall|a: int|
        0 <= a < out.len() ==> {
            let x = (#[trigger] out[a]).id as int;
            &&& x < v.len()
            &&& v[x].live
            &&& !survives(w, x)
            &&& out[a].kind == v[x].kind
            &&& out[a].token == v[x].token
        }
    &&& forall|x: int|
        0 <= x < v.len() && v[x].live && !(#[trigger] survives(w, x)) ==> exists|a: int|
            0 <= a < out.len() && (#[trigger] out[a]).id == x
}

/// `cur` is `w` with some resources retired. From `hi` upwards `cur` has
/// settled: there a resource lives in it exactly if it stays in `w`. Below
/// `hi` nothing was retired, and whatever lives is held by a handle or by a
/// dependent that lives in `cur`. Then `cur` has settled from `lo` upwards.
pub proof fn lemma_settled(cur: Seq<ResourceView>, w: Seq<ResourceView>, lo: int, hi: int, x: int)
    requires
        0 <= lo <= x < w.len(),
        cur.len() == w.len(),
        forall|i: int| 0 <= i < w.len() ==> (#[trigger] cur[i]).deps == w[i].deps && cur[i].handles == w[i].handles,
        forall|i: int| 0 <= i < w.len() && (#[trigger] cur[i]).live ==> w[i].live,
        forall|i: int, k: int|
            0 <= i < w.len() && w[i].live && 0 <= k < w[i].deps.len() ==> (#[trigger] w[i].deps[k]) < i,
        forall|i: int| hi <= i < w.len() ==> (#[trigger] cur[i]).live == survives(w, i),
        forall|i: int|
            lo <= i < hi && i < w.len() ==> (#[trigger] cur[i]).live == w[i].live && (cur[i].live
                ==> cur[i].handles + referrers(cur, i) > 0),
    ensures
        cur[x].live == survives(w, x),
    decreases w.len() - x,
{
    if x < hi {
        if cur[x].live && cur[x].handles == 0 {
            lemma_referrers_positive(cur, x, cur.len() as int);
            let e = choose|e: int| 0 <= e < cur.len() && cur[e].live && #[trigger] names(cur[e], x);
            let k = choose|k: int| 0 <= k < cur[e].deps.len() && cur[e].deps[k] == x;
            assert(w[e].deps[k] < e);
            lemma_settled(cur, w, lo, hi, e);
            assert(x < e < w.len() && names(w[e], x) && survives(w, e));
            assert(survives(w, x));
        } else if cur[x].live {
            assert(survives(w, x));
        } else {
            assert(!survives(w, x));
        }
    }
}

/// One slot of the table as the program holds it.
struct Slot {
    kind: ResourceKind,
    token: usize,
    handles: usize,
    dependents: usize,
    deps: Vec<usize>,
    live: bool,
}

impl Slot {
    spec fn view(&self) -> ResourceView {
        ResourceView {
            kind: self.kind,
            token: self.token,
            handles: self.handles as nat,
            deps: self.deps@,
            live: self.live,
        }
    }
}

/// A resource that has just been retired: the caller destroys it on the
/// device, in the order in which the table hands such records out.
#[derive(Debug, Clone, Copy, PartialEq, Eq, Structural)]
pub struct Retired {
    pub id: usize,
    pub kind: ResourceKind,
    pub token: usize,
}

/// The arena of all resources of one process.
pub struct ResourceTable {
    slots: Vec<Slot>,
}

impl ResourceTable {
    /// The slots, oldest first.
    pub closed spec fn view(&self) -> Seq<ResourceView> {
        Seq::new(self.slots@.len(), |i: int| self.slots@[i].view())
    }

    /// Each slot knows how many living resources depend on it.
    pub closed spec fn counted(&self) -> bool {
        forall|d: int| 0 <= d < self.slots@.len() ==> (#[trigger] self.slots@[d]).dependents == referrers(self@, d)
    }

    /// What holds of every table: the ownership graph is sound, and the
    /// counts that the table keeps agree with it.
    pub open spec fn wf(&self) -> bool {
        well_formed(self@) && self.counted()
    }

    /// An empty table.
    pub fn new() -> (t: Self)
        ensures
            t.wf(),
            t@.len() == 0,
    {
        ResourceTable { slots: Vec::new() }
    }

    /// The number of slots ever filled.
    pub fn len(&self) -> (n: usize)
        ensures
            n == self@.len(),
    {
        self.slots.len()
    }

    /// Whether `id` names a resource that has not been retired.
    pub fn is_live(&self, id: usize) -> (b: bool)
        ensures
            b == (id < self@.len() && self@[id as int].live),
    {
        id < self.slots.len() && self.slots[id].live
    }

    /// The number of handles that the application holds on `id`.
    pub fn handles(&self, id: usize) -> (n: usize)
        ensures
            n == if id < self@.len() {
                self@[id as int].handles
            } else {
                0
            },
    {
        if id < self.slots.len() {
            self.slots[id].handles
        } else {
            0
        }
    }

    /// The number of living resources that depend on `id`, each counted as
    /// often as it names `id`.
    pub fn dependents(&self, id: usize) -> (n: usize)
        requires
            self.wf(),
        ensures
            n == if id < self@.len() {
                referrers(self@, id as int)
            } else {
                0
            },
    {
        if id < self.slots.len() {
            self.slots[id].dependents
        } else {
            0
        }
    }

    /// What kind of resource `id` is or was.
    pub fn kind(&self, id: usize) -> (k: Option<ResourceKind>)
        ensures
            k == if id < self@.len() {
                Some(self@[id as int].kind)
            } else {
                None
            },
    {
        if id < self.slots.len() {
            Some(self.slots[id].kind)
        } else {
            None
        }
    }

    /// The device's name for `id`, for as long as it lives.
    pub fn token(&self, id: usize) -> (t: Option<usize>)
        ensures
            t == if id < self@.len() && self@[id as int].live {
                Some(self@[id as int].token)
            } else {
                None
            },
    {
        if id < self.slots.len() && self.slots[id].live {
            Some(self.slots[id].token)
        } else {
            None
        }
    }

    /// Decides whether a new resource may depend on `deps`. Who asks before
    /// the device makes the resource never has to undo the making.
    pub fn can_hold(&self, deps: &Vec<usize>) -> (b: bool)
        requires
            self.wf(),
        ensures
            b == can_depend_on(self@, deps@),
    {
        let n = deps.len();
        let len = self.slots.len();
        let mut k: usize = 0;
        while k < n
            invariant
                k <= n,
                n == deps@.len(),
                len == self.slots@.len(),
                self.wf(),
                forall|j: int|
                    0 <= j < k ==> {
                        &&& (#[trigger] deps@[j]) < len
                        &&& self@[deps@[j] as int].live
                        &&& referrers(self@, deps@[j] as int) + n <= usize::MAX
                    },
            decreases n - k,
        {
            let d = deps[k];
            if d >= len || !self.slots[d].live || self.slots[d].dependents > usize::MAX - n {
                proof {
                    assert(!can_depend_on(self@, deps@)) by {
                        if can_depend_on(self@, deps@) {
                            assert(deps@[k as int] < self@.len());
                        }
                    }
                }
                return false;
            }
            k = k + 1;
        }
        true
    }

    /// Enters a new resource that depends on `deps`, and hands out the one
    /// handle on it. Its dependencies are kept alive from now on.
    pub fn insert(&mut self, kind: ResourceKind, token: usize, deps: Vec<usize>) -> (r: Result<usize, Error>)
        requires
            old(self).wf(),
        ensures
            final(self).wf(),
            r is Ok <==> can_depend_on(old(self)@, deps@),
            r matches Ok(id) ==> id == old(self)@.len() && final(self)@ == old(self)@.push(
                fresh(kind, token, deps@),
            ),
            r is Err ==> r->Err_0 is InvalidArgument && final(self)@ == old(self)@,
    {
        if !self.can_hold(&deps) {
            return Err(Error::InvalidArgument);
        }
        let n = deps.len();
        let len = self.slots.len();
        let mut k: usize = 0;
        let ghost before = self@;
        while k < n
            invariant
                k <= n,
                n == deps@.len(),
                len == self.slots@.len(),
                self@ == before,
                can_depend_on(before, deps@),
                forall|d: int|
                    0 <= d < len ==> (#[trigger] self.slots@[d]).dependents == referrers(before, d)
                        + occurrences(deps@.take(k as int), d),
            decreases n - k,
        {
            let d = deps[k];
            proof {
                assert(deps@[k as int] == d);
                lemma_occurrences_bound(deps@.take(k as int), d as int);
                assert forall|x: int| 0 <= x < len implies occurrences(deps@.take(k + 1), x) == occurrences(
                    deps@.take(k as int),
                    x,
                ) + if x == d {
                    1nat
                } else {
                    0nat
                } by {
                    lemma_occurrences_prefix(deps@, x, k as int);
                }
            }
            self.slots[d].dependents = self.slots[d].dependents + 1;
            proof {
                assert(self@ =~= before);
            }
            k = k + 1;
        }
        let ghost deps_view = deps@;
        self.slots.push(Slot { kind, token, handles: 1, dependents: 0, deps, live: true });
        proof {
            let after = self@;
            assert(deps_view.take(n as int) =~= deps_view);
            assert(after =~= before.push(fresh(kind, token, deps_view)));
            assert forall|d: int| 0 <= d < after.len() implies (#[trigger] self.slots@[d]).dependents
                == referrers(after, d) by {
                lemma_referrers_frame(before, after, d, len as int);
                if d == len {
                    lemma_referrers_positive(before, d, len as int);
                    lemma_occurrences_positive(deps_view, d);
                }
            }
            assert forall|i: int| 0 <= i < after.len() && #[trigger] after[i].live implies after[i].handles
                + referrers(after, i) > 0 by {
                lemma_referrers_frame(before, after, i, len as int);
            }
        }
        Ok(len)
    }

    /// Gives up one handle on `id`, as dropping a handle does, and retires
    /// what nothing holds any more. The caller destroys the retired
    /// resources on the device in the order of the list.
    pub fn release(&mut self, id: usize) -> (r: Result<Vec<Retired>, Error>)
        requires
            old(self).wf(),
        ensures
            final(self).wf(),
            r is Ok <==> holds_handle(old(self)@, id as int),
            r matches Ok(out) ==> final(self)@ == after_release(old(self)@, id as int) && is_retirement(
                old(self)@,
                id as int,
                out@,
            ),
            r is Err ==> r->Err_0 is InvalidArgument && final(self)@ == old(self)@,
    {
        let len = self.slots.len();
        if id >= len || self.slots[id].handles == 0 {
            return Err(Error::InvalidArgument);
        }
        let ghost pre = self@;
        let ghost w = without_handle(pre, id as int);
        self.slots[id].handles = self.slots[id].handles - 1;
        proof {
            assert(self@ =~= w);
            assert forall|d: int| 0 <= d < len implies referrers(w, d) == referrers(pre, d) by {
                lemma_referrers_frame(pre, w, d, len as int);
            }
            assert forall|x: int| id < x < len implies w[x].live == survives(w, x) by {
                lemma_settled(w, w, id + 1, len as int, x);
            }
        }
        let mut out: Vec<Retired> = Vec::new();
        // Only `id` and what it depends on can have lost its last holder:
        // the sweep runs from `id` down to the oldest such slot.
        let mut lowest: usize = id;
        let mut i: usize = id + 1;
        while i > lowest
            invariant
                lowest <= i <= id + 1 <= len,
                forall|x: int|
                    0 <= x < lowest && (#[trigger] self@[x]).live ==> self@[x].handles + referrers(self@, x) > 0,
                len == self.slots@.len(),
                len == pre.len(),
                well_formed(pre),
                holds_handle(pre, id as int),
                w == without_handle(pre, id as int),
                self.counted(),
                forall|x: int|
                    0 <= x < len ==> {
                        &&& (#[trigger] self@[x]).kind == w[x].kind
                        &&& self@[x].token == w[x].token
                        &&& self@[x].handles == w[x].handles
                        &&& self@[x].deps == w[x].deps
                    },
                forall|x: int| i <= x < len ==> (#[trigger] self@[x]).live == survives(w, x),
                forall|x: int| 0 <= x < i ==> (#[trigger] self@[x]).live == w[x].live,
                forall|a: int, b: int| 0 <= a < b < out@.len() ==> (#[trigger] out@[a]).id > (#[trigger] out@[b]).id,
                forall|a: int|
                    0 <= a < out@.len() ==> {
                        let x = (#[trigger] out@[a]).id as int;
                        &&& i <= x < len
                        &&& pre[x].live
                        &&& !survives(w, x)
                        &&& out@[a].kind == pre[x].kind
                        &&& out@[a].token == pre[x].token
                    },
                forall|x: int|
                    i <= x < len && pre[x].live && !(#[trigger] survives(w, x)) ==> exists|a: int|
                        0 <= a < out@.len() && (#[trigger] out@[a]).id == x,
            decreases i,
        {
            i = i - 1;
            let ghost cur = self@;
            proof {
                // A living dependent of `i` is younger than `i`, so the sweep has settled it.
                lemma_referrers_positive(cur, i as int, len as int);
                if referrers(cur, i as int) > 0 {
                    let e = choose|e: int| 0 <= e < len && cur[e].live && #[trigger] names(cur[e], i as int);
                    let k = choose|k: int| 0 <= k < cur[e].deps.len() && cur[e].deps[k] == i;
                    assert(pre[e].live);
                    assert(pre[e].deps[k] < e);
                    assert(i < e < len && names(w[e], i as int) && survives(w, e));
                }
                if w[i as int].live && w[i as int].handles == 0 && survives(w, i as int) {
                    let e = choose|e: int| i < e < len && #[trigger] names(w[e], i as int) && survives(w, e);
                    assert(cur[e].live && names(cur[e], i as int));
                }
                assert(survives(w, i as int) == (cur[i as int].live && (cur[i as int].handles > 0 || referrers(
                    cur,
                    i as int,
                ) > 0)));
            }
            if self.slots[i].live && self.slots[i].handles == 0 && self.slots[i].dependents == 0 {
                self.slots[i].live = false;
                let ghost dead = self@;
                let ghost gone = cur[i as int].deps;
                let ghost listed = out@;
                out.push(Retired { id: i, kind: self.slots[i].kind, token: self.slots[i].token });
                let n = self.slots[i].deps.len();
                let mut k: usize = 0;
                proof {
                    assert(dead =~= cur.update(i as int, ResourceView { live: false, ..cur[i as int] }));
                    assert(gone.take(0) =~= Seq::<usize>::empty());
                }
                while k < n
                    invariant
                        k <= n,
                        n == gone.len(),
                        i < len,
                        len == self.slots@.len(),
                        len == cur.len(),
                        self@ == dead,
                        dead == cur.update(i as int, ResourceView { live: false, ..cur[i as int] }),
                        cur[i as int].live,
                        gone == cur[i as int].deps,
                        self.slots@[i as int].deps@ == gone,
                        forall|j: int| 0 <= j < gone.len() ==> (#[trigger] gone[j]) < i,
                        lowest <= i,
                        forall|x: int|
                            0 <= x < lowest && (#[trigger] dead[x]).live ==> dead[x].handles
                                + self.slots@[x].dependents > 0,
                        forall|d: int|
                            0 <= d < len ==> (#[trigger] self.slots@[d]).dependents + occurrences(
                                gone.take(k as int),
                                d,
                            ) == referrers(cur, d),
                    decreases n - k,
                {
                    let d = self.slots[i].deps[k];
                    proof {
                        assert(gone[k as int] == d);
                        assert forall|x: int| 0 <= x < len implies occurrences(gone.take(k + 1), x)
                            == occurrences(gone.take(k as int), x) + if x == d {
                            1nat
                        } else {
                            0nat
                        } by {
                            lemma_occurrences_prefix(gone, x, k as int);
                        }
                        lemma_occurrences_prefix(gone, d as int, k as int);
                        lemma_referrers_update(cur, dead, i as int, d as int, len as int);
                    }
                    self.slots[d].dependents = self.slots[d].dependents - 1;
                    if d < lowest {
                        lowest = d;
                    }
                    proof {
                        assert(self@ =~= dead);
                    }
                    k = k + 1;
                }
                proof {
                    assert(gone.take(n as int) =~= gone);
                    assert forall|d: int| 0 <= d < len implies (#[trigger] self.slots@[d]).dependents
                        == referrers(self@, d) by {
                        lemma_referrers_update(cur, dead, i as int, d, len as int);
                    }
                    assert forall|x: int|
                        i <= x < len && pre[x].live && !(#[trigger] survives(w, x)) implies exists|a: int|
                        0 <= a < out@.len() && (#[trigger] out@[a]).id == x by {
                        if x == i {
                            assert(out@[listed.len() as int].id == x);
                        } else {
                            let a = choose|a: int| 0 <= a < listed.len() && (#[trigger] listed[a]).id == x;
                            assert(out@[a].id == x);
                        }
                    }
                }
            }
        }
        proof {
            let after = self@;
            assert forall|x: int| 0 <= x < len implies (#[trigger] after[x]).live == survives(w, x) by {
                lemma_settled(after, w, 0, i as int, x);
            }
            assert(after =~= after_release(pre, id as int));
            assert forall|x: int, k: int|
                0 <= x < len && after[x].live && 0 <= k < after[x].deps.len() implies (#[trigger] after[x].deps[k])
                < x && after[after[x].deps[k] as int].live by {
                let d = after[x].deps[k] as int;
                assert(pre[x].live);
                assert(pre[x].deps[k] < x && pre[d].live);
                assert(names(w[x], d) && survives(w, x));
            }
            assert forall|x: int| 0 <= x < len && #[trigger] after[x].live implies after[x].handles + referrers(
                after,
                x,
            ) > 0 by {
                if after[x].handles == 0 {
                    let e = choose|e: int| x < e < len && #[trigger] names(w[e], x) && survives(w, e);
                    assert(after[e].live && names(after[e], x));
                    lemma_referrers_positive(after, x, len as int);
                }
            }
            assert forall|x: int| 0 <= x < len && pre[x].live && !(#[trigger] survives(w, x)) implies exists|
                a: int,
            | 0 <= a < out@.len() && (#[trigger] out@[a]).id == x by {
                assert(after[x].live == survives(w, x));
                assert(x >= i);
            }
            assert(is_retirement(pre, id as int, out@));
        }
        Ok(out)
    }

    /// Enters what an allocation call of the device handed back. A null
    /// token means that the call failed; `context` says what was asked for.
    pub fn create_resource(
        &mut self,
        kind: ResourceKind,
        token: usize,
        deps: Vec<usize>,
        context: &str,
    ) -> (r: Result<usize, Error>)
        requires
            old(self).wf(),
        ensures
            final(self).wf(),
            r is Ok <==> token != 0 && can_depend_on(old(self)@, deps@),
            r matches Ok(id) ==> id == old(self)@.len() && final(self)@ == old(self)@.push(
                fresh(kind, token, deps@),
            ),
            r matches Err(e) ==> final(self)@ == old(self)@ && if token == 0 {
                e matches Error::ResourceCreationFailed { context: c } && c@ == context@
            } else {
                e is InvalidArgument
            },
    {
        if token == 0 {
            return Err(custom_error(context));
        }
        self.insert(kind, token, deps)
    }

    /// Takes one more handle on `id`, as cloning a handle does.
    ///
    /// Only who holds a handle can clone it. The count of handles is a
    /// machine word; a clone that would overflow it is refused.
    pub fn acquire(&mut self, id: usize) -> (r: Result<(), Error>)
        requires
            old(self).wf(),
        ensures
            final(self).wf(),
            r is Ok <==> holds_handle(old(self)@, id as int) && old(self)@[id as int].handles < usize::MAX,
            r is Ok ==> final(self)@ == with_handle(old(self)@, id as int),
            r is Err ==> r->Err_0 is InvalidArgument && final(self)@ == old(self)@,
    {
        if id >= self.slots.len() || self.slots[id].handles == 0 || self.slots[id].handles == usize::MAX {
            return Err(Error::InvalidArgument);
        }
        let ghost before = self@;
        self.slots[id].handles = self.slots[id].handles + 1;
        proof {
            let after = self@;
            assert(after =~= with_handle(before, id as int));
            assert forall|d: int| 0 <= d < after.len() implies referrers(after, d) == referrers(before, d) by {
                lemma_referrers_frame(before, after, d, before.len() as int);
            }
            assert(before[id as int].live);
        }
        Ok(())
    }
}

/// Whether a new resource may depend on `deps`: each of them lives, and each
/// has room in its count for every time that `deps` names it.
pub open spec fn can_depend_on(v: Seq<ResourceView>, deps: Seq<usize>) -> bool {
    forall|k: int|
        0 <= k < deps.len() ==> {
            &&& (#[trigger] deps[k]) < v.len()
            &&& v[deps[k] as int].live
            &&& referrers(v, deps[k] as int) + deps.len() <= usize::MAX
        }
}

/// A fresh resource, held by one handle.
pub open spec fn fresh(kind: ResourceKind, token: usize, deps: Seq<usize>) -> ResourceView {
    ResourceView { kind, token, handles: 1, deps, live: true }
}

/// A list names `d` no more often than it is long.
pub proof fn lemma_occurrences_bound(deps: Seq<usize>, d: int)
    ensures
        occurrences(deps, d) <= deps.len(),
    decreases deps.len(),
{
    if deps.len() > 0 {
        lemma_occurrences_bound(deps.drop_last(), d);
    }
}

/// The table after one more handle was taken on `id`.
pub open spec fn with_handle(v: Seq<ResourceView>, id: int) -> Seq<ResourceView> {
    v.update(id, ResourceView { handles: v[id].handles + 1, ..v[id] })
}

/// Whether giving up one handle on `id` retires `x`.
pub open spec fn retires(v: Seq<ResourceView>, id: int, x: int) -> bool {
    0 <= x < v.len() && v[x].live && !survives(without_handle(v, id), x)
}

/// Giving up a handle on a resource that is still held, by another handle or
/// by a living dependent, retires nothing.
pub proof fn lemma_release_keeps(v: Seq<ResourceView>, id: int)
    requires
        well_formed(v),
        holds_handle(v, id),
        v[id].handles > 1 || referrers(v, id) > 0,
    ensures
        after_release(v, id) == without_handle(v, id),
        well_formed(after_release(v, id)),
        forall|x: int| !retires(v, id, x),
        forall|d: int| referrers(after_release(v, id), d) == referrers(v, d),
{
    let w = without_handle(v, id);
    assert forall|d: int| referrers(w, d) == referrers(v, d) by {
        lemma_referrers_frame(v, w, d, v.len() as int);
    }
    assert forall|x: int| 0 <= x < v.len() implies w[x].live == survives(w, x) by {
        lemma_settled(w, w, 0, v.len() as int, x);
    }
    assert(after_release(v, id) =~= w);
}

/// Dependency keep-alive. While a living resource depends on `dep`, giving
/// up the application's handle on `dep` retires nothing: `dep` lives on, and
/// so does its dependent.
pub proof fn law_dependency_kept_alive(v: Seq<ResourceView>, dependent: int, dep: int)
    requires
        well_formed(v),
        0 <= dependent < v.len(),
        v[dependent].live,
        names(v[dependent], dep),
        holds_handle(v, dep),
    ensures
        after_release(v, dep)[dep].live,
        after_release(v, dep)[dependent].live,
        forall|x: int| !retires(v, dep, x),
        forall|out: Seq<Retired>| is_retirement(v, dep, out) ==> out.len() == 0,
{
    lemma_referrers_positive(v, dep, v.len() as int);
    lemma_release_keeps(v, dep);
    assert forall|out: Seq<Retired>| is_retirement(v, dep, out) implies out.len() == 0 by {
        if out.len() > 0 {
            assert(retires(v, dep, out[0].id as int));
        }
    }
}

/// Dependency release. When the last handle on a resource goes and nothing
/// depends on it, it is retired; a dependency of it that nobody else holds
/// is retired with it, and after it.
pub proof fn law_dependency_released_after(v: Seq<ResourceView>, dependent: int, dep: int, out: Seq<Retired>)
    requires
        well_formed(v),
        holds_handle(v, dependent),
        v[dependent].handles == 1,
        referrers(v, dependent) == 0,
        names(v[dependent], dep),
        v[dep].handles == 0,
        referrers(v, dep) == occurrences(v[dependent].deps, dep),
        is_retirement(v, dependent, out),
    ensures
        !after_release(v, dependent)[dependent].live,
        !after_release(v, dependent)[dep].live,
        exists|a: int, b: int|
            0 <= a < b < out.len() && (#[trigger] out[a]).id == dependent && (#[trigger] out[b]).id == dep,
{
    let w = without_handle(v, dependent);
    let n = v.len() as int;
    let k = choose|k: int| 0 <= k < v[dependent].deps.len() && v[dependent].deps[k] == dep;
    assert(v[dependent].deps[k] < dependent);
    assert(!survives(w, dependent)) by {
        if survives(w, dependent) {
            let e = choose|e: int| dependent < e < n && #[trigger] names(w[e], dependent) && survives(w, e);
            assert(v[e].live && names(v[e], dependent));
            lemma_referrers_positive(v, dependent, n);
        }
    }
    assert(!survives(w, dep)) by {
        if survives(w, dep) {
            let e = choose|e: int| dep < e < n && #[trigger] names(w[e], dep) && survives(w, e);
            let alone = v.update(dependent, ResourceView { live: false, ..v[dependent] });
            lemma_referrers_update(v, alone, dependent, dep, n);
            lemma_referrers_positive(alone, dep, n);
            assert(e != dependent);
            assert(alone[e].live && names(alone[e], dep));
        }
    }
    assert(v[dep].live);
    let a = choose|a: int| 0 <= a < out.len() && (#[trigger] out[a]).id == dependent;
    let b = choose|b: int| 0 <= b < out.len() && (#[trigger] out[b]).id == dep;
    if b <= a {
        if b < a {
            assert(out[b].id > out[a].id);
        }
    }
}

/// Retirement order. In what one release retires, no resource is listed
/// twice, each is gone afterwards, and each comes before every resource
/// that it depended on.
pub proof fn law_retired_once_in_order(v: Seq<ResourceView>, id: int, out: Seq<Retired>)
    requires
        well_formed(v),
        holds_handle(v, id),
        is_retirement(v, id, out),
    ensures
        forall|a: int, b: int| 0 <= a < out.len() && 0 <= b < out.len() && a != b ==> (#[trigger] out[a]).id != (
        #[trigger] out[b]).id,
        forall|a: int| 0 <= a < out.len() ==> !after_release(v, id)[(#[trigger] out[a]).id as int].live,
        forall|a: int, b: int|
            0 <= a < out.len() && 0 <= b < out.len() && names(v[(#[trigger] out[a]).id as int], (
            #[trigger] out[b]).id as int) ==> a < b,
        forall|x: int| 0 <= x < v.len() && after_release(v, id)[x].live ==> v[x].live,
{
    assert forall|a: int, b: int| 0 <= a < out.len() && 0 <= b < out.len() && a != b implies (
    #[trigger] out[a]).id != (#[trigger] out[b]).id by {
        if a < b {
            assert(out[a].id > out[b].id);
        } else {
            assert(out[b].id > out[a].id);
        }
    }
    assert forall|a: int, b: int|
        0 <= a < out.len() && 0 <= b < out.len() && names(v[(#[trigger] out[a]).id as int], (
        #[trigger] out[b]).id as int) implies a < b by {
        let x = out[a].id as int;
        let d = out[b].id as int;
        let k = choose|k: int| 0 <= k < v[x].deps.len() && v[x].deps[k] == d;
        assert(v[x].deps[k] < x);
        if b < a {
            assert(out[b].id > out[a].id);
        }
    }
}

/// The table after `n` more handles were taken on `id`.
pub open spec fn cloned(v: Seq<ResourceView>, id: int, n: nat) -> Seq<ResourceView>
    decreases n,
{
    if n == 0 {
        v
    } else {
        with_handle(cloned(v, id, (n - 1) as nat), id)
    }
}

/// How many of `n` releases of `id` in a row retire `id` itself.
pub open spec fn times_retired(v: Seq<ResourceView>, id: int, n: nat) -> nat
    decreases n,
{
    if n == 0 {
        0
    } else {
        times_retired(after_release(v, id), id, (n - 1) as nat) + if retires(v, id, id) {
            1nat
        } else {
            0nat
        }
    }
}

/// Cloning changes nothing but the count of handles, and keeps the graph
/// sound.
pub proof fn lemma_cloned(v: Seq<ResourceView>, id: int, n: nat)
    requires
        well_formed(v),
        holds_handle(v, id),
    ensures
        well_formed(cloned(v, id, n)),
        cloned(v, id, n) == v.update(id, ResourceView { handles: v[id].handles + n, ..v[id] }),
        forall|d: int| referrers(cloned(v, id, n), d) == referrers(v, d),
    decreases n,
{
    if n > 0 {
        let c = cloned(v, id, (n - 1) as nat);
        lemma_cloned(v, id, (n - 1) as nat);
        let w = with_handle(c, id);
        assert forall|d: int| referrers(w, d) == referrers(c, d) by {
            lemma_referrers_frame(c, w, d, v.len() as int);
        }
        assert(w =~= v.update(id, ResourceView { handles: v[id].handles + n, ..v[id] }));
    } else {
        assert(v =~= v.update(id, ResourceView { handles: v[id].handles + n, ..v[id] }));
    }
}

/// A resource that is held by handles alone is retired by the release that
/// gives up the last of them, and by no release before.
pub proof fn lemma_times_retired(v: Seq<ResourceView>, id: int, n: nat)
    requires
        well_formed(v),
        holds_handle(v, id),
        referrers(v, id) == 0,
        n <= v[id].handles,
    ensures
        times_retired(v, id, n) == if n == v[id].handles {
            1nat
        } else {
            0nat
        },
    decreases n,
{
    if n > 0 {
        let w = without_handle(v, id);
        if v[id].handles > 1 {
            lemma_release_keeps(v, id);
            lemma_times_retired(w, id, (n - 1) as nat);
        } else {
            assert(!survives(w, id)) by {
                if survives(w, id) {
                    let e = choose|e: int| id < e < v.len() && #[trigger] names(w[e], id) && survives(w, e);
                    assert(v[e].live && names(v[e], id));
                    lemma_referrers_positive(v, id, v.len() as int);
                }
            }
            assert(times_retired(after_release(v, id), id, 0) == 0);
        }
    }
}

/// Single destruction. A resource that is held by handles alone is cloned
/// `n` times. Giving up every handle but one retires it not at all; giving
/// up all of them retires it exactly once.
pub proof fn law_single_destruction(v: Seq<ResourceView>, id: int, n: nat, drops: nat)
    requires
        well_formed(v),
        holds_handle(v, id),
        referrers(v, id) == 0,
        drops <= v[id].handles + n,
    ensures
        drops < v[id].handles + n ==> times_retired(cloned(v, id, n), id, drops) == 0,
        drops == v[id].handles + n ==> times_retired(cloned(v, id, n), id, drops) == 1,
{
    lemma_cloned(v, id, n);
    lemma_times_retired(cloned(v, id, n), id, drops);
}

/// Nothing comes back. No operation of the table makes a resource live
/// that was retired: a handle can only be taken where one is held, a new
/// resource gets a new slot, and a release only retires.
pub proof fn law_never_revived(v: Seq<ResourceView>, id: int, x: int, entered: ResourceView)
    requires
        well_formed(v),
        0 <= x < v.len(),
        !v[x].live,
    ensures
        holds_handle(v, id) ==> !with_handle(v, id)[x].live,
        holds_handle(v, id) ==> !after_release(v, id)[x].live,
        !v.push(entered)[x].live,
        !holds_handle(v, x),
        forall|from: int| !retires(v, from, x),
{
}

} // verus!
