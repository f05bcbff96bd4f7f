//! Reference-counted shared ownership with owning and observing
//! handles.
//!
//! Every payload lives in a cell with two counters: `strong`, the
//! number of owning handles, and `weak`, the number of observing
//! handles plus one unit shared by all strong handles together. The
//! payload is destroyed exactly once, by the release decrement of
//! `strong` that reaches zero (paired with an acquire fence so the
//! destroyer sees every other handle's prior writes); the cell's
//! storage is freed exactly once, by the decrement of `weak` that
//! reaches zero, and only after the payload is gone.
//!
//! The heap itself is modelled as an arena of cells, and a handle as
//! the index of its cell — the raw-pointer-equivalent owned by the
//! counter protocol. Every operation takes the arena alongside the
//! handle and performs the same counter transition the atomic
//! implementation performs; the transitions are named ([`clone_step`],
//! [`release_step`], …) so that the lifecycle law
//! [`lemma_payload_destroyed_once`] can speak about whole histories of
//! handles. Counter growth past half the representable maximum is
//! fatal misuse (the atomic implementation aborts the process rather
//! than risk wraparound) and is excluded by precondition.

use core::marker::PhantomData;
use vstd::prelude::*;

verus! {

/// The counters and payload presence of one cell, as a ghost value.
pub struct CellModel {
    /// Number of owning handles.
    pub strong: nat,
    /// Number of observing handles, plus one unit shared by all owning
    /// handles while any of them lives.
    pub weak: nat,
    /// Whether the payload has not yet been destroyed.
    pub present: bool,
}

/// One less, stopping at zero.
pub open spec fn one_less(n: nat) -> nat {
    if n > 0 {
        (n - 1) as nat
    } else {
        0
    }
}

/// The cell a fresh allocation starts with: one owner, the owners'
/// shared weak unit, payload in place.
pub open spec fn fresh_cell() -> CellModel {
    CellModel { strong: 1, weak: 1, present: true }
}

/// Cloning an owning handle: one more owner, nothing else moves.
pub open spec fn clone_step(c: CellModel) -> CellModel {
    CellModel { strong: c.strong + 1, weak: c.weak, present: c.present }
}

/// Releasing an owning handle: one owner less; the release that drops
/// the count to zero destroys the payload and gives back the owners'
/// shared weak unit.
pub open spec fn release_step(c: CellModel) -> CellModel {
    if c.strong <= 1 {
        CellModel { strong: 0, weak: one_less(c.weak), present: false }
    } else {
        CellModel { strong: (c.strong - 1) as nat, weak: c.weak, present: c.present }
    }
}

/// Gaining an observing handle (downgrade, or cloning a weak handle):
/// one more weak unit.
pub open spec fn weak_retain_step(c: CellModel) -> CellModel {
    CellModel { strong: c.strong, weak: c.weak + 1, present: c.present }
}

/// Releasing an observing handle: one weak unit less; the decrement
/// that reaches zero frees the cell's storage.
pub open spec fn weak_release_step(c: CellModel) -> CellModel {
    CellModel { strong: c.strong, weak: one_less(c.weak), present: c.present }
}

/// A well-formed cell: the payload is in place exactly while owners
/// remain, and live owners keep their shared weak unit.
pub open spec fn cell_ok(c: CellModel) -> bool {
    &&& (c.present <==> c.strong > 0)
    &&& (c.strong > 0 ==> c.weak >= 1)
}

/// One reference-counted allocation.
struct ArcCell<T> {
    strong: usize,
    weak: usize,
    slot: Option<T>,
}

/// The arena all cells live in. Cells are created by [`Arc::new`] and
/// become permanently empty tombstones when their weak count reaches
/// zero; an index is never reused, so a handle's index identifies its
/// cell for good.
pub struct ArcHeap<T> {
    cells: Vec<ArcCell<T>>,
}

/// An owning handle: the payload of its cell stays alive at least as
/// long as this handle is not released.
pub struct Arc<T> {
    index: usize,
    marker: PhantomData<T>,
}

/// An observing handle: it keeps the cell's storage alive, but not the
/// payload, and can try to become an owner with [`Weak::upgrade`].
pub struct Weak<T> {
    index: usize,
    marker: PhantomData<T>,
}

impl<T> ArcHeap<T> {
    /// How many cells have ever been allocated.
    pub closed spec fn cell_count(&self) -> nat {
        self.cells@.len()
    }

    /// The counters and payload presence of cell `i`.
    pub closed spec fn model(&self, i: int) -> CellModel {
        CellModel {
            strong: self.cells@[i].strong as nat,
            weak: self.cells@[i].weak as nat,
            present: self.cells@[i].slot is Some,
        }
    }

    /// The payload of cell `i`, while it has not been destroyed.
    pub closed spec fn payload(&self, i: int) -> Option<T> {
        self.cells@[i].slot
    }

    /// Every cell is well-formed.
    pub closed spec fn wf(&self) -> bool {
        forall|i: int| 0 <= i < self.cell_count() ==> cell_ok(#[trigger] self.model(i))
    }

    /// Cell `i` has at least one owning handle to account for.
    pub open spec fn valid_strong(&self, i: int) -> bool {
        &&& 0 <= i < self.cell_count()
        &&& self.model(i).strong > 0
    }

    /// Cell `i` has at least one weak unit to account for.
    pub open spec fn valid_weak(&self, i: int) -> bool {
        &&& 0 <= i < self.cell_count()
        &&& self.model(i).weak > 0
    }

    /// Exclusive access to the slot of cell `index`, leaving the
    /// counters alone.
    fn slot_mut<'a>(&'a mut self, index: usize) -> (r: &'a mut Option<T>)
        requires
            index < old(self).cell_count(),
        ensures
            *r == old(self).payload(index as int),
            final(self).cell_count() == old(self).cell_count(),
            final(self).payload(index as int) == *final(r),
            final(self).model(index as int).strong == old(self).model(index as int).strong,
            final(self).model(index as int).weak == old(self).model(index as int).weak,
            final(self).model(index as int).present == (*final(r) is Some),
            forall|j: int|
                0 <= j < old(self).cell_count() && j != index ==> #[trigger] final(self).model(j)
                    == old(self).model(j),
            forall|j: int|
                0 <= j < old(self).cell_count() && j != index ==> #[trigger] final(self).payload(j)
                    == old(self).payload(j),
    {
        let cell = &mut self.cells[index];
        &mut cell.slot
    }

    /// A fresh arena with no cells.
    pub fn new() -> (h: Self)
        ensures
            h.wf(),
            h.cell_count() == 0,
    {
        ArcHeap { cells: Vec::new() }
    }
}

impl<T> Arc<T> {
    /// The index of the cell this handle owns a share of.
    pub closed spec fn id(&self) -> int {
        self.index as int
    }

    /// Allocate a cell for `data`: one owner, one shared weak unit.
    pub fn new(heap: &mut ArcHeap<T>, data: T) -> (a: Arc<T>)
        requires
            old(heap).wf(),
        ensures
            final(heap).wf(),
            final(heap).cell_count() == old(heap).cell_count() + 1,
            a.id() == old(heap).cell_count(),
            final(heap).model(a.id()) == fresh_cell(),
            final(heap).payload(a.id()) == Some(data),
            forall|j: int|
                0 <= j < old(heap).cell_count() ==> #[trigger] final(heap).model(j) == old(heap).model(j),
            forall|j: int|
                0 <= j < old(heap).cell_count() ==> #[trigger] final(heap).payload(j) == old(heap).payload(j),
    {
        let index = heap.cells.len();
        heap.cells.push(ArcCell { strong: 1, weak: 1, slot: Some(data) });
        proof {
            assert forall|j: int| 0 <= j < heap.cell_count() implies cell_ok(
                #[trigger] heap.model(j),
            ) by {
                if j < old(heap).cell_count() {
                    assert(cell_ok(old(heap).model(j)));
                    assert(heap.model(j) == old(heap).model(j));
                } else {
                    assert(heap.model(j) == fresh_cell());
                }
            }
        }
        Arc { index, marker: PhantomData }
    }

    /// Clone this owning handle: a relaxed increment of `strong`. Past
    /// half the representable maximum the implementation aborts the
    /// process instead — fatal misuse, excluded here.
    pub fn clone(&self, heap: &mut ArcHeap<T>) -> (b: Arc<T>)
        requires
            old(heap).wf(),
            old(heap).valid_strong(self.id()),
            old(heap).model(self.id()).strong <= usize::MAX / 2,
        ensures
            final(heap).wf(),
            final(heap).cell_count() == old(heap).cell_count(),
            b.id() == self.id(),
            final(heap).model(self.id()) == clone_step(old(heap).model(self.id())),
            final(heap).payload(self.id()) == old(heap).payload(self.id()),
            forall|j: int|
                0 <= j < old(heap).cell_count() && j != self.id() ==> #[trigger] final(heap).model(j) == old(heap).model(j),
            forall|j: int|
                0 <= j < old(heap).cell_count() && j != self.id() ==> #[trigger] final(heap).payload(j) == old(heap).payload(j),
    {
        let cell = &mut heap.cells[self.index];
        cell.strong = cell.strong + 1;
        proof {
            assert forall|j: int| 0 <= j < heap.cell_count() implies cell_ok(
                #[trigger] heap.model(j),
            ) by {
                assert(cell_ok(old(heap).model(j)));
                if j != self.id() {
                    assert(heap.model(j) == old(heap).model(j));
                }
            }
        }
        Arc { index: self.index, marker: PhantomData }
    }

    /// Shared access to the payload, which an owning handle keeps
    /// alive.
    pub fn borrow<'a>(&self, heap: &'a ArcHeap<T>) -> (r: &'a T)
        requires
            heap.wf(),
            heap.valid_strong(self.id()),
        ensures
            Some(*r) == heap.payload(self.id()),
    {
        match &heap.cells[self.index].slot {
            Some(v) => v,
            None => unreached(),
        }
    }

    /// Release this owning handle: a release-ordered decrement of
    /// `strong`. The decrement that reaches zero — and only that one —
    /// destroys the payload in place, after an acquire fence, and then
    /// gives back the owners' shared weak unit, which may in turn free
    /// the cell.
    pub fn release(self, heap: &mut ArcHeap<T>)
        requires
            old(heap).wf(),
            old(heap).valid_strong(self.id()),
        ensures
            final(heap).wf(),
            final(heap).cell_count() == old(heap).cell_count(),
            final(heap).model(self.id()) == release_step(old(heap).model(self.id())),
            old(heap).model(self.id()).strong > 1 ==> final(heap).payload(self.id()) == old(heap).payload(self.id()),
            old(heap).model(self.id()).strong == 1 ==> final(heap).payload(self.id()) is None,
            forall|j: int|
                0 <= j < old(heap).cell_count() && j != self.id() ==> #[trigger] final(heap).model(j) == old(heap).model(j),
            forall|j: int|
                0 <= j < old(heap).cell_count() && j != self.id() ==> #[trigger] final(heap).payload(j) == old(heap).payload(j),
    {
        let cell = &mut heap.cells[self.index];
        if cell.strong == 1 {
            // Last owner leaving: the release decrement hits zero; the
            // acquire fence pairs with every earlier release, then the
            // payload is destroyed in place.
            cell.strong = 0;
            cell.slot = None;
            // The owners' shared weak unit goes with the last owner; if
            // it was the final weak unit the cell becomes a tombstone.
            cell.weak = cell.weak - 1;
        } else {
            cell.strong = cell.strong - 1;
        }
        proof {
            assert forall|j: int| 0 <= j < heap.cell_count() implies cell_ok(
                #[trigger] heap.model(j),
            ) by {
                assert(cell_ok(old(heap).model(j)));
                if j != self.id() {
                    assert(heap.model(j) == old(heap).model(j));
                }
            }
        }
    }

    /// Add an observing handle: a retry loop that increments `weak`,
    /// spinning while [`Self::is_unique`] holds the count at its
    /// transient sentinel (the all-ones word, excluded here along with
    /// wraparound).
    pub fn downgrade(&self, heap: &mut ArcHeap<T>) -> (w: Weak<T>)
        requires
            old(heap).wf(),
            old(heap).valid_strong(self.id()),
            old(heap).model(self.id()).weak < usize::MAX,
        ensures
            final(heap).wf(),
            final(heap).cell_count() == old(heap).cell_count(),
            w.id() == self.id(),
            final(heap).model(self.id()) == weak_retain_step(old(heap).model(self.id())),
            final(heap).payload(self.id()) == old(heap).payload(self.id()),
            forall|j: int|
                0 <= j < old(heap).cell_count() && j != self.id() ==> #[trigger] final(heap).model(j) == old(heap).model(j),
            forall|j: int|
                0 <= j < old(heap).cell_count() && j != self.id() ==> #[trigger] final(heap).payload(j) == old(heap).payload(j),
    {
        let cell = &mut heap.cells[self.index];
        cell.weak = cell.weak + 1;
        proof {
            assert forall|j: int| 0 <= j < heap.cell_count() implies cell_ok(
                #[trigger] heap.model(j),
            ) by {
                assert(cell_ok(old(heap).model(j)));
                if j != self.id() {
                    assert(heap.model(j) == old(heap).model(j));
                }
            }
        }
        Weak { index: self.index, marker: PhantomData }
    }

    /// Is this the only handle of any kind? Lock `weak` at its sentinel
    /// with an acquire compare-exchange from one — failing at once if
    /// observers exist — so no downgrade can slip in, look at `strong`,
    /// and release the sentinel. The arena is exactly as before.
    pub fn is_unique(&self, heap: &mut ArcHeap<T>) -> (u: bool)
        requires
            old(heap).wf(),
            old(heap).valid_strong(self.id()),
        ensures
            final(heap).wf(),
            final(heap).cell_count() == old(heap).cell_count(),
            u <==> (old(heap).model(self.id()).strong == 1 && old(heap).model(self.id()).weak
                == 1),
            forall|j: int|
                0 <= j < old(heap).cell_count() ==> #[trigger] final(heap).model(j) == old(heap).model(j),
            forall|j: int|
                0 <= j < old(heap).cell_count() ==> #[trigger] final(heap).payload(j) == old(heap).payload(j),
    {
        if heap.cells[self.index].weak != 1 {
            // The compare-exchange from one fails: observers exist.
            return false;
        }
        let cell = &mut heap.cells[self.index];
        // Hold the sentinel while looking at the owner count.
        cell.weak = usize::MAX;
        let unique = cell.strong == 1;
        // Release the sentinel.
        cell.weak = 1;
        proof {
            assert(heap.cells@ =~= old(heap).cells@);
            assert forall|j: int| 0 <= j < heap.cell_count() implies cell_ok(
                #[trigger] heap.model(j),
            ) by {
                assert(cell_ok(old(heap).model(j)));
                assert(heap.model(j) == old(heap).model(j));
            }
        }
        unique
    }

    /// Exclusive access to the payload of a cell this handle is the
    /// only handle of, strong or weak — established with
    /// [`Self::is_unique`], whose sentinel also shuts out concurrent
    /// downgrades. No new allocation, no clone: the payload is mutated
    /// in place.
    pub fn get_mut<'a>(&self, heap: &'a mut ArcHeap<T>) -> (r: &'a mut T)
        requires
            old(heap).wf(),
            old(heap).valid_strong(self.id()),
            old(heap).model(self.id()).strong == 1,
            old(heap).model(self.id()).weak == 1,
        ensures
            final(heap).wf(),
            final(heap).cell_count() == old(heap).cell_count(),
            *r == old(heap).payload(self.id()).unwrap(),
            final(heap).payload(self.id()) == Some(*final(r)),
            final(heap).model(self.id()) == old(heap).model(self.id()),
            forall|j: int|
                0 <= j < old(heap).cell_count() && j != self.id() ==> #[trigger] final(heap).model(j) == old(heap).model(j),
            forall|j: int|
                0 <= j < old(heap).cell_count() && j != self.id() ==> #[trigger] final(heap).payload(j) == old(heap).payload(j),
    {
        let slot = heap.slot_mut(self.index);
        match slot {
            Some(v) => v,
            None => unreached(),
        }
    }
}

impl<T> Weak<T> {
    /// The index of the cell this handle observes.
    pub closed spec fn id(&self) -> int {
        self.index as int
    }

    /// Try to become an owner: a compare-exchange loop that increments
    /// `strong` only while it is still positive. Once the owners are
    /// gone — the payload destroyed or being destroyed — no new owner
    /// can ever be made, and the call reports that instead of failing.
    pub fn upgrade(&self, heap: &mut ArcHeap<T>) -> (r: Option<Arc<T>>)
        requires
            old(heap).wf(),
            old(heap).valid_weak(self.id()),
            old(heap).model(self.id()).strong < usize::MAX,
        ensures
            final(heap).wf(),
            final(heap).cell_count() == old(heap).cell_count(),
            r is Some <==> old(heap).model(self.id()).strong > 0,
            r is Some ==> r.unwrap().id() == self.id() && final(heap).model(self.id())
                == clone_step(old(heap).model(self.id())),
            r is None ==> final(heap).model(self.id()) == old(heap).model(self.id()),
            final(heap).payload(self.id()) == old(heap).payload(self.id()),
            forall|j: int|
                0 <= j < old(heap).cell_count() && j != self.id() ==> #[trigger] final(heap).model(j) == old(heap).model(j),
            forall|j: int|
                0 <= j < old(heap).cell_count() && j != self.id() ==> #[trigger] final(heap).payload(j) == old(heap).payload(j),
    {
        if heap.cells[self.index].strong == 0 {
            return None;
        }
        let cell = &mut heap.cells[self.index];
        cell.strong = cell.strong + 1;
        proof {
            assert forall|j: int| 0 <= j < heap.cell_count() implies cell_ok(
                #[trigger] heap.model(j),
            ) by {
                assert(cell_ok(old(heap).model(j)));
                if j != self.id() {
                    assert(heap.model(j) == old(heap).model(j));
                }
            }
        }
        Some(Arc { index: self.index, marker: PhantomData })
    }

    /// Clone this observing handle: an increment of `weak`. Past half
    /// the representable maximum the implementation aborts the process
    /// instead — fatal misuse, excluded here.
    pub fn clone(&self, heap: &mut ArcHeap<T>) -> (w: Weak<T>)
        requires
            old(heap).wf(),
            old(heap).valid_weak(self.id()),
            old(heap).model(self.id()).weak <= usize::MAX / 2,
        ensures
            final(heap).wf(),
            final(heap).cell_count() == old(heap).cell_count(),
            w.id() == self.id(),
            final(heap).model(self.id()) == weak_retain_step(old(heap).model(self.id())),
            final(heap).payload(self.id()) == old(heap).payload(self.id()),
            forall|j: int|
                0 <= j < old(heap).cell_count() && j != self.id() ==> #[trigger] final(heap).model(j) == old(heap).model(j),
            forall|j: int|
                0 <= j < old(heap).cell_count() && j != self.id() ==> #[trigger] final(heap).payload(j) == old(heap).payload(j),
    {
        let cell = &mut heap.cells[self.index];
        cell.weak = cell.weak + 1;
        proof {
            assert forall|j: int| 0 <= j < heap.cell_count() implies cell_ok(
                #[trigger] heap.model(j),
            ) by {
                assert(cell_ok(old(heap).model(j)));
                if j != self.id() {
                    assert(heap.model(j) == old(heap).model(j));
                }
            }
        }
        Weak { index: self.index, marker: PhantomData }
    }

    /// Release this observing handle: a release-ordered decrement of
    /// `weak`. The decrement that reaches zero — possible only after
    /// the owners and their shared unit are gone, so never while the
    /// payload lives — frees the cell's storage, exactly once. This
    /// handle's unit is its own: while owners remain, their shared
    /// unit is still counted beside it.
    pub fn release(self, heap: &mut ArcHeap<T>)
        requires
            old(heap).wf(),
            old(heap).valid_weak(self.id()),
            old(heap).model(self.id()).strong > 0 ==> old(heap).model(self.id()).weak >= 2,
        ensures
            final(heap).wf(),
            final(heap).cell_count() == old(heap).cell_count(),
            final(heap).model(self.id()) == weak_release_step(old(heap).model(self.id())),
            final(heap).payload(self.id()) == old(heap).payload(self.id()),
            forall|j: int|
                0 <= j < old(heap).cell_count() && j != self.id() ==> #[trigger] final(heap).model(j) == old(heap).model(j),
            forall|j: int|
                0 <= j < old(heap).cell_count() && j != self.id() ==> #[trigger] final(heap).payload(j) == old(heap).payload(j),
    {
        let cell = &mut heap.cells[self.index];
        // If this was the final weak unit the acquire fence pairs with
        // the decrement and the cell's storage is freed: a tombstone
        // here.
        cell.weak = cell.weak - 1;
        proof {
            assert forall|j: int| 0 <= j < heap.cell_count() implies cell_ok(
                #[trigger] heap.model(j),
            ) by {
                assert(cell_ok(old(heap).model(j)));
                if j != self.id() {
                    assert(heap.model(j) == old(heap).model(j));
                }
            }
        }
    }
}

/// The counters after `n` more owners join cell `c`.
pub open spec fn after_clones(c: CellModel, n: nat) -> CellModel
    decreases n,
{
    if n == 0 {
        c
    } else {
        clone_step(after_clones(c, (n - 1) as nat))
    }
}

/// The counters after `k` owners of cell `c` leave, one by one.
pub open spec fn after_releases(c: CellModel, k: nat) -> CellModel
    decreases k,
{
    if k == 0 {
        c
    } else {
        release_step(after_releases(c, (k - 1) as nat))
    }
}

proof fn lemma_after_clones(c: CellModel, n: nat)
    ensures
        after_clones(c, n) == (CellModel {
            strong: (c.strong + n) as nat,
            weak: c.weak,
            present: c.present,
        }),
    decreases n,
{
    if n > 0 {
        lemma_after_clones(c, (n - 1) as nat);
    }
}

proof fn lemma_release_run(s: nat, k: nat)
    requires
        s >= 1,
        k <= s,
    ensures
        k < s ==> after_releases(CellModel { strong: s, weak: 1, present: true }, k) == (CellModel {
            strong: (s - k) as nat,
            weak: 1,
            present: true,
        }),
        k == s ==> after_releases(CellModel { strong: s, weak: 1, present: true }, k) == (CellModel {
            strong: 0,
            weak: 0,
            present: false,
        }),
    decreases k,
{
    if k > 0 {
        lemma_release_run(s, (k - 1) as nat);
    }
}

/// After one `new` and `n` clones, a cell has `n + 1` owners and its
/// payload in place. Releasing the owners one by one, every release
/// but the last leaves the payload untouched; the last release — and
/// only it — destroys the payload, exactly once, and takes the owners'
/// shared weak unit with it, freeing a cell that was never observed.
pub proof fn lemma_payload_destroyed_once(n: nat, k: nat)
    requires
        k <= n + 1,
    ensures
        after_clones(fresh_cell(), n) == (CellModel { strong: n + 1, weak: 1, present: true }),
        k <= n ==> after_releases(after_clones(fresh_cell(), n), k) == (CellModel {
            strong: (n + 1 - k) as nat,
            weak: 1,
            present: true,
        }),
        k == n + 1 ==> after_releases(after_clones(fresh_cell(), n), k) == (CellModel {
            strong: 0,
            weak: 0,
            present: false,
        }),
{
    lemma_after_clones(fresh_cell(), n);
    lemma_release_run(n + 1, k);
}

} // verus!
