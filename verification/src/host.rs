//! The composite-object model behind every interface handle.
//!
//! A composite object is one allocation that exposes several interfaces at
//! once: one vtable slot per interface, each at a distinct, known offset (in
//! pointer-sized units) inside the object. A handle's raw pointer is the
//! address of one such slot; the object model resolves any slot address back
//! to the owning object. Objects are reference counted: the count reaches
//! zero exactly when the object is destroyed.

use vstd::prelude::*;
use crate::uid::FUID;
use crate::funknown::{ENoInterface, FUnknownPrivate};
use crate::ipluginbase::{FactoryInfo, PClassInfo};

verus! {

/// The address of one interface slot inside a composite object, in
/// pointer-sized units.
pub type Ptr = usize;

/// One composite object: a span of interface slots starting at `base`, a
/// reference count, and the object's own state.
pub struct HostObject {
    /// Address of the object's first slot.
    pub base: Ptr,
    /// The capability served at each slot: slot `k` (address `base + k`)
    /// serves the interface whose identifier is `slots[k]`.
    pub slots: Vec<FUID>,
    /// Number of owned references currently held on the object.
    pub ref_count: u32,
    /// False once the object has been destroyed (count reached zero).
    pub alive: bool,
    /// Whether the object's plugin base has been initialized.
    pub initialized: bool,
    /// Factory metadata, read through the factory capability.
    pub info: FactoryInfo,
    /// Classes the object can enumerate through the factory capability.
    pub classes: Vec<PClassInfo>,
}

impl HostObject {
    /// Structural well-formedness of one object.
    pub open spec fn wf(self) -> bool {
        &&& self.slots@.len() >= 1
        &&& self.base + self.slots@.len() <= usize::MAX
        &&& self.classes@.len() <= u32::MAX
    }

    /// One past the object's last slot address.
    pub open spec fn end(self) -> int {
        self.base + self.slots@.len()
    }

    /// Whether `p` addresses one of the object's slots.
    pub open spec fn contains(self, p: Ptr) -> bool {
        self.base <= p < self.end()
    }

    /// Whether the object exposes an interface with the given identifier.
    pub open spec fn supports(self, iid: Seq<u8>) -> bool {
        exists|j: int| 0 <= j < self.slots@.len() && self.slots@[j].data@ == iid
    }
}

/// The object with its reference count replaced.
pub open spec fn with_rc(o: HostObject, rc: u32) -> HostObject {
    HostObject { ref_count: rc, ..o }
}

/// The object with its reference count and liveness replaced.
pub open spec fn with_rc_alive(o: HostObject, rc: u32, alive: bool) -> HostObject {
    HostObject { ref_count: rc, alive, ..o }
}

/// The object with its initialized flag replaced.
pub open spec fn with_init(o: HostObject, initialized: bool) -> HostObject {
    HostObject { initialized, ..o }
}

/// Index of the first slot at or after `k` serving `iid`, or -1 if none.
pub open spec fn first_slot_from(slots: Seq<FUID>, iid: Seq<u8>, k: int) -> int
    decreases slots.len() - k,
{
    if k < 0 || k >= slots.len() {
        -1
    } else if slots[k].data@ == iid {
        k
    } else {
        first_slot_from(slots, iid, k + 1)
    }
}

/// Index of the first slot serving `iid`, or -1 if none.
pub open spec fn first_slot(slots: Seq<FUID>, iid: Seq<u8>) -> int {
    first_slot_from(slots, iid, 0)
}

/// What `first_slot_from` returns: -1 exactly when no slot at or after `k`
/// serves the identifier, and otherwise the first such index.
pub proof fn lemma_first_slot_from_props(slots: Seq<FUID>, iid: Seq<u8>, k: int)
    requires
        0 <= k <= slots.len(),
    ensures
        (first_slot_from(slots, iid, k) == -1 <==> (forall|j: int|
            k <= j < slots.len() ==> slots[j].data@ != iid)),
        first_slot_from(slots, iid, k) != -1 ==> k <= first_slot_from(slots, iid, k) < slots.len()
            && slots[first_slot_from(slots, iid, k)].data@ == iid && (forall|j: int|
            k <= j < first_slot_from(slots, iid, k) ==> slots[j].data@ != iid),
    decreases slots.len() - k,
{
    if k < slots.len() && slots[k].data@ != iid {
        lemma_first_slot_from_props(slots, iid, k + 1);
    }
}

/// The whole set of objects known to a hosting process: the model of the
/// foreign side of the binary boundary.
pub struct Host {
    /// Every object ever created, dead ones kept as tombstones so that slot
    /// addresses are never reused.
    pub objects: Vec<HostObject>,
}

impl Host {
    /// Objects are individually well-formed and occupy disjoint, ordered
    /// address ranges, so every slot address has at most one owner.
    pub open spec fn wf(self) -> bool {
        &&& forall|i: int| 0 <= i < self.objects@.len() ==> (#[trigger] self.objects@[i]).wf()
        &&& forall|i: int, j: int|
            #![trigger self.objects@[i], self.objects@[j]]
            0 <= i < j < self.objects@.len() ==> self.objects@[i].end() <= self.objects@[j].base
    }

    /// Whether object `i` owns slot address `p`.
    pub open spec fn in_obj(self, i: int, p: Ptr) -> bool {
        0 <= i < self.objects@.len() && self.objects@[i].contains(p)
    }

    /// Whether some object owns slot address `p`.
    pub open spec fn contains_ptr(self, p: Ptr) -> bool {
        exists|i: int| self.in_obj(i, p)
    }

    /// The index of the object owning slot address `p`.
    pub open spec fn owner(self, p: Ptr) -> int {
        choose|i: int| self.in_obj(i, p)
    }

    /// The object owning slot address `p`.
    pub open spec fn obj_at(self, p: Ptr) -> HostObject {
        self.objects@[self.owner(p)]
    }

    /// In a well-formed host, a slot address has exactly one owner.
    pub proof fn lemma_owner_unique(self, i: int, p: Ptr)
        requires
            self.wf(),
            self.in_obj(i, p),
        ensures
            self.owner(p) == i,
            self.contains_ptr(p),
    {
        assert(self.contains_ptr(p));
        let j = self.owner(p);
        if i < j {
            assert(self.objects@[i].end() <= self.objects@[j].base);
        } else if j < i {
            assert(self.objects@[j].end() <= self.objects@[i].base);
        }
    }

    /// Address of the next object to be created.
    pub open spec fn next_base(self) -> int {
        if self.objects@.len() == 0 {
            0
        } else {
            self.objects@.last().end()
        }
    }

    /// An empty host with no objects.
    pub fn new() -> (r: Host)
        ensures
            r.wf(),
            r.objects@.len() == 0,
    {
        Host { objects: Vec::new() }
    }

    /// Creates a composite object exposing the given interfaces, one slot
    /// per entry, with reference count 1, and returns the address of its
    /// first slot. The caller owns the initial reference.
    pub fn create_object(&mut self, slots: Vec<FUID>, info: FactoryInfo, classes: Vec<PClassInfo>) -> (r: Ptr)
        requires
            old(self).wf(),
            slots@.len() >= 1,
            old(self).next_base() + slots@.len() <= usize::MAX,
            classes@.len() <= u32::MAX,
        ensures
            final(self).wf(),
            r == old(self).next_base(),
            final(self).objects@ == old(self).objects@.push(
                HostObject {
                    base: r,
                    slots,
                    ref_count: 1,
                    alive: true,
                    initialized: false,
                    info,
                    classes,
                },
            ),
            final(self).in_obj(old(self).objects@.len() as int, r),
            final(self).owner(r) == old(self).objects@.len(),
    {
        let base: usize = if self.objects.len() == 0 {
            0
        } else {
            let last = &self.objects[self.objects.len() - 1];
            last.base + last.slots.len()
        };
        let o = HostObject {
            base,
            slots,
            ref_count: 1,
            alive: true,
            initialized: false,
            info,
            classes,
        };
        self.objects.push(o);
        proof {
            let n = old(self).objects@.len() as int;
            assert forall|i: int, j: int|
                #![trigger self.objects@[i], self.objects@[j]]
                0 <= i < j < self.objects@.len() implies self.objects@[i].end()
                <= self.objects@[j].base by {
                if j == n && i < n {
                    if i < n - 1 {
                        assert(old(self).objects@[i].end() <= old(self).objects@[n - 1].base);
                    }
                }
            }
            self.lemma_owner_unique(n, base);
        }
        base
    }

    /// Finds the index of the object owning slot address `p`.
    pub(crate) fn find_owner(&self, p: Ptr) -> (r: usize)
        requires
            self.wf(),
            self.contains_ptr(p),
        ensures
            self.in_obj(r as int, p),
            r as int == self.owner(p),
    {
        let mut i: usize = 0;
        while i < self.objects.len()
            invariant
                self.wf(),
                self.contains_ptr(p),
                i <= self.objects@.len(),
                forall|k: int| 0 <= k < i ==> !self.in_obj(k, p),
            decreases self.objects@.len() - i,
        {
            let o = &self.objects[i];
            if o.base <= p && p - o.base < o.slots.len() {
                proof {
                    self.lemma_owner_unique(i as int, p);
                }
                return i;
            }
            i += 1;
        }
        proof {
            assert(false);
        }
        vstd::pervasive::unreached()
    }
}

/// Two hosts with the same object layout (bases, slots, class counts) are
/// equally well-formed and agree on which object owns which slot address.
pub proof fn lemma_same_layout(h1: Host, h2: Host)
    requires
        h1.wf(),
        h2.objects@.len() == h1.objects@.len(),
        forall|k: int|
            0 <= k < h1.objects@.len() ==> (#[trigger] h2.objects@[k]).base == h1.objects@[k].base
                && h2.objects@[k].slots@ == h1.objects@[k].slots@ && h2.objects@[k].classes@.len()
                == h1.objects@[k].classes@.len(),
    ensures
        h2.wf(),
        forall|k: int, p: Ptr| #[trigger] h2.in_obj(k, p) <==> h1.in_obj(k, p),
{
    assert forall|k: int, p: Ptr| #[trigger] h2.in_obj(k, p) <==> h1.in_obj(k, p) by {
        if 0 <= k < h1.objects@.len() {
            assert(h2.objects@[k].base == h1.objects@[k].base);
        }
    }
}

/// Finds the first slot of `slots` serving `iid`, if any.
fn find_first_slot(slots: &Vec<FUID>, iid: &FUID) -> (r: Option<usize>)
    ensures
        match r {
            Some(j) => first_slot(slots@, iid.data@) == j as int,
            None => first_slot(slots@, iid.data@) == -1,
        },
{
    let mut j: usize = 0;
    while j < slots.len()
        invariant
            j <= slots@.len(),
            forall|k: int| 0 <= k < j ==> slots@[k].data@ != iid.data@,
        decreases slots@.len() - j,
    {
        if FUnknownPrivate::iid_equal(&slots[j].data, &iid.data) {
            proof {
                lemma_first_slot_skip(slots@, iid.data@, j as int);
            }
            return Some(j);
        }
        j += 1;
    }
    proof {
        lemma_first_slot_skip(slots@, iid.data@, slots@.len() as int);
    }
    None
}

/// If no slot before `j` serves the identifier, the search may start at `j`.
proof fn lemma_first_slot_skip(slots: Seq<FUID>, iid: Seq<u8>, j: int)
    requires
        0 <= j <= slots.len(),
        forall|k: int| 0 <= k < j ==> slots[k].data@ != iid,
    ensures
        first_slot(slots, iid) == first_slot_from(slots, iid, j),
    decreases j,
{
    if j > 0 {
        lemma_first_slot_skip(slots, iid, j - 1);
    }
}

impl Host {
    /// The root contract's capability query, serviced by the object that
    /// owns the queried slot address. If the object exposes the requested
    /// identifier, the object gains one reference count — owned by the
    /// caller — and the address of the first slot serving the identifier is
    /// returned; otherwise nothing changes and "no such interface" is
    /// reported.
    pub fn query_interface(&mut self, this: Ptr, iid: &FUID) -> (r: Result<Ptr, ENoInterface>)
        requires
            old(self).wf(),
            old(self).contains_ptr(this),
            old(self).obj_at(this).alive,
            old(self).obj_at(this).ref_count < u32::MAX,
        ensures
            final(self).wf(),
            ({
                let i = old(self).owner(this);
                let o = old(self).objects@[i];
                match r {
                    Ok(p) => {
                        &&& o.supports(iid.data@)
                        &&& first_slot(o.slots@, iid.data@) >= 0
                        &&& p == o.base + first_slot(o.slots@, iid.data@)
                        &&& final(self).objects@ == old(self).objects@.update(
                            i,
                            with_rc(o, (o.ref_count + 1) as u32),
                        )
                        &&& final(self).in_obj(i, p)
                        &&& final(self).owner(p) == i
                    },
                    Err(_) => {
                        &&& !o.supports(iid.data@)
                        &&& *final(self) == *old(self)
                    },
                }
            }),
    {
        let i = self.find_owner(this);
        proof {
            lemma_first_slot_from_props(self.objects@[i as int].slots@, iid.data@, 0);
        }
        match find_first_slot(&self.objects[i].slots, iid) {
            Some(j) => {
                let base = self.objects[i].base;
                let mut o = self.objects.remove(i);
                let rc = o.ref_count;
                o.ref_count = rc + 1;
                self.objects.insert(i, o);
                proof {
                    let pre = *old(self);
                    let oo = pre.objects@[i as int];
                    assert(self.objects@ =~= pre.objects@.update(
                        i as int,
                        with_rc(oo, (oo.ref_count + 1) as u32),
                    ));
                    lemma_same_layout(pre, *self);
                    assert(self.in_obj(i as int, (base + j) as usize));
                    self.lemma_owner_unique(i as int, (base + j) as usize);
                }
                Ok(base + j)
            },
            None => Err(ENoInterface),
        }
    }

    /// The root contract's reference increment; returns the new count.
    pub fn add_ref(&mut self, this: Ptr) -> (r: u32)
        requires
            old(self).wf(),
            old(self).contains_ptr(this),
            old(self).obj_at(this).alive,
            old(self).obj_at(this).ref_count < u32::MAX,
        ensures
            final(self).wf(),
            r == old(self).obj_at(this).ref_count + 1,
            final(self).objects@ == old(self).objects@.update(
                old(self).owner(this),
                with_rc(old(self).obj_at(this), r),
            ),
    {
        let i = self.find_owner(this);
        let mut o = self.objects.remove(i);
        let rc = o.ref_count;
        o.ref_count = rc + 1;
        self.objects.insert(i, o);
        proof {
            let pre = *old(self);
            assert(self.objects@ =~= pre.objects@.update(
                i as int,
                with_rc(pre.objects@[i as int], (pre.objects@[i as int].ref_count + 1) as u32),
            ));
            lemma_same_layout(pre, *self);
        }
        rc + 1
    }

    /// The root contract's reference decrement; returns the new count. When
    /// the count reaches zero the object is destroyed before returning.
    /// Releasing without a matching prior increment is a caller contract
    /// violation, excluded by the precondition.
    pub fn release(&mut self, this: Ptr) -> (r: u32)
        requires
            old(self).wf(),
            old(self).contains_ptr(this),
            old(self).obj_at(this).alive,
            old(self).obj_at(this).ref_count >= 1,
        ensures
            final(self).wf(),
            r == old(self).obj_at(this).ref_count - 1,
            final(self).objects@ == old(self).objects@.update(
                old(self).owner(this),
                with_rc_alive(old(self).obj_at(this), r, r > 0),
            ),
    {
        let i = self.find_owner(this);
        let mut o = self.objects.remove(i);
        let rc = o.ref_count;
        o.ref_count = rc - 1;
        o.alive = rc - 1 > 0;
        self.objects.insert(i, o);
        proof {
            let pre = *old(self);
            assert(self.objects@ =~= pre.objects@.update(
                i as int,
                with_rc_alive(
                    pre.objects@[i as int],
                    (pre.objects@[i as int].ref_count - 1) as u32,
                    pre.objects@[i as int].ref_count - 1 > 0,
                ),
            ));
            lemma_same_layout(pre, *self);
        }
        rc - 1
    }

    /// Marks the owning object's plugin base as initialized; reports whether
    /// it was uninitialized before.
    pub fn obj_initialize(&mut self, this: Ptr) -> (r: bool)
        requires
            old(self).wf(),
            old(self).contains_ptr(this),
            old(self).obj_at(this).alive,
        ensures
            final(self).wf(),
            r == !old(self).obj_at(this).initialized,
            final(self).objects@ == old(self).objects@.update(
                old(self).owner(this),
                with_init(old(self).obj_at(this), true),
            ),
    {
        let i = self.find_owner(this);
        let mut o = self.objects.remove(i);
        let was = o.initialized;
        o.initialized = true;
        self.objects.insert(i, o);
        proof {
            let pre = *old(self);
            assert(self.objects@ =~= pre.objects@.update(
                i as int,
                with_init(pre.objects@[i as int], true),
            ));
            lemma_same_layout(pre, *self);
        }
        !was
    }

    /// Marks the owning object's plugin base as terminated (uninitialized).
    pub fn obj_terminate(&mut self, this: Ptr)
        requires
            old(self).wf(),
            old(self).contains_ptr(this),
            old(self).obj_at(this).alive,
        ensures
            final(self).wf(),
            final(self).objects@ == old(self).objects@.update(
                old(self).owner(this),
                with_init(old(self).obj_at(this), false),
            ),
    {
        let i = self.find_owner(this);
        let mut o = self.objects.remove(i);
        o.initialized = false;
        self.objects.insert(i, o);
        proof {
            let pre = *old(self);
            assert(self.objects@ =~= pre.objects@.update(
                i as int,
                with_init(pre.objects@[i as int], false),
            ));
            lemma_same_layout(pre, *self);
        }
    }

    /// Reads the owning object's reference count.
    pub fn ref_count_of(&self, this: Ptr) -> (r: u32)
        requires
            self.wf(),
            self.contains_ptr(this),
        ensures
            r == self.obj_at(this).ref_count,
    {
        let i = self.find_owner(this);
        self.objects[i].ref_count
    }

    /// Reads whether the owning object is still alive (not yet destroyed).
    pub fn is_alive(&self, this: Ptr) -> (r: bool)
        requires
            self.wf(),
            self.contains_ptr(this),
        ensures
            r == self.obj_at(this).alive,
    {
        let i = self.find_owner(this);
        self.objects[i].alive
    }

    /// Reads whether the owning object's plugin base is initialized.
    pub fn is_initialized(&self, this: Ptr) -> (r: bool)
        requires
            self.wf(),
            self.contains_ptr(this),
        ensures
            r == self.obj_at(this).initialized,
    {
        let i = self.find_owner(this);
        self.objects[i].initialized
    }
}

/// One reference-count event on an object: a duplication (increment, as
/// performed by `Host::add_ref`) or a release (decrement-with-destroy, as
/// performed by `Host::release`).
pub enum RcOp {
    /// Duplicate an owned handle: the count grows by one.
    Dup,
    /// Release an owned handle: the count shrinks by one; the object is
    /// destroyed exactly when the count reaches zero.
    Release,
}

/// One step of the reference-count discipline: the count and the
/// has-been-destroyed flag after applying `op`.
pub open spec fn rc_step(count: nat, destroyed: bool, op: RcOp) -> (nat, bool) {
    match op {
        RcOp::Dup => ((count + 1) as nat, destroyed),
        RcOp::Release => (
            if count > 0 {
                (count - 1) as nat
            } else {
                0
            },
            destroyed || count == 1,
        ),
    }
}

/// The count and the has-been-destroyed flag after applying `ops` in order.
pub open spec fn rc_run(count: nat, destroyed: bool, ops: Seq<RcOp>) -> (nat, bool)
    decreases ops.len(),
{
    if ops.len() == 0 {
        (count, destroyed)
    } else {
        let s = rc_step(count, destroyed, ops[0]);
        rc_run(s.0, s.1, ops.drop_first())
    }
}

/// `n` duplications in a row.
pub open spec fn rc_dups(n: nat) -> Seq<RcOp> {
    Seq::new(n, |i: int| RcOp::Dup)
}

/// `n` releases in a row.
pub open spec fn rc_releases(n: nat) -> Seq<RcOp> {
    Seq::new(n, |i: int| RcOp::Release)
}

/// Running two event sequences in a row equals running their concatenation.
proof fn lemma_rc_run_append(count: nat, destroyed: bool, s1: Seq<RcOp>, s2: Seq<RcOp>)
    ensures
        rc_run(count, destroyed, s1 + s2) == rc_run(
            rc_run(count, destroyed, s1).0,
            rc_run(count, destroyed, s1).1,
            s2,
        ),
    decreases s1.len(),
{
    if s1.len() == 0 {
        assert(s1 + s2 =~= s2);
    } else {
        let s = rc_step(count, destroyed, s1[0]);
        assert((s1 + s2).drop_first() =~= s1.drop_first() + s2);
        lemma_rc_run_append(s.0, s.1, s1.drop_first(), s2);
    }
}

/// `n` duplications raise the count by `n` and never destroy.
proof fn lemma_rc_run_dups(count: nat, destroyed: bool, n: nat)
    ensures
        rc_run(count, destroyed, rc_dups(n)) == (((count + n) as nat, destroyed)),
    decreases n,
{
    if n > 0 {
        assert(rc_dups(n).drop_first() =~= rc_dups((n - 1) as nat));
        lemma_rc_run_dups((count + 1) as nat, destroyed, (n - 1) as nat);
    }
}

/// Fewer releases than the count lower the count and never destroy; exactly
/// as many releases as the count destroy, at the last release only.
proof fn lemma_rc_run_releases(count: nat, k: nat)
    requires
        k <= count,
    ensures
        k < count ==> rc_run(count, false, rc_releases(k)) == (((count - k) as nat, false)),
        k == count && k > 0 ==> rc_run(count, false, rc_releases(k)) == ((0nat, true)),
    decreases k,
{
    if k > 0 {
        assert(rc_releases(k)[0] == RcOp::Release);
        assert(rc_releases(k).drop_first() =~= rc_releases((k - 1) as nat));
        if k == 1 && count == 1 {
            assert(rc_run(count, false, rc_releases(k)) == rc_run(0, true, rc_releases(0)));
        } else {
            lemma_rc_run_releases((count - 1) as nat, (k - 1) as nat);
        }
    }
}

/// The reference-count discipline: for an object starting at count 1, `n`
/// duplications followed by `k <= n` releases leave the object alive at
/// count `1 + n - k` — fewer releases than increments never destroy — while
/// `n` duplications followed by `n + 1` releases drive the count to zero and
/// destroy the object, exactly once, at the final release. `Host::add_ref`
/// steps the count as `RcOp::Dup` does and `Host::release` as
/// `RcOp::Release` does.
pub proof fn lemma_ref_count_discipline(n: nat, k: nat)
    requires
        k <= n,
    ensures
        rc_run(1, false, rc_dups(n) + rc_releases(k)) == (((1 + n - k) as nat, false)),
        rc_run(1, false, rc_dups(n) + rc_releases((n + 1) as nat)) == ((0nat, true)),
{
    lemma_rc_run_append(1, false, rc_dups(n), rc_releases(k));
    lemma_rc_run_dups(1, false, n);
    lemma_rc_run_releases((1 + n) as nat, k);
    lemma_rc_run_append(1, false, rc_dups(n), rc_releases((n + 1) as nat));
    lemma_rc_run_releases((1 + n) as nat, (n + 1) as nat);
}

} // verus!
