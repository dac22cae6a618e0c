//! The vtable construction facility: dispatch-table entries (thunks) built
//! for a concrete object at a known offset, and the forwarding step each
//! thunk performs.
//!
//! An interface's vtable slot sits at a fixed offset, in pointer-sized
//! units, inside the full composite object. Every generated thunk receives
//! the opaque `this` pointer of its own slot and applies the inverse of that
//! offset to recover the composite object, so that every interface of one
//! object dispatches into the same shared state. Supplying a wrong offset is
//! a caller contract violation, excluded by the preconditions here.

use vstd::prelude::*;
use crate::funknown::ENoInterface;
use crate::host::{with_init, with_rc, with_rc_alive, Host, Ptr};
use crate::interface::EInterface;
use crate::uid::FUID;

verus! {

/// Which operation a dispatch-table entry forwards to.
#[derive(Clone, Copy, PartialEq, Eq, Structural)]
pub enum MethodId {
    /// The root contract's capability query.
    QueryInterface,
    /// The root contract's reference increment.
    AddRef,
    /// The root contract's reference decrement-with-destroy.
    Release,
    /// Plugin-base initialization.
    Initialize,
    /// Plugin-base termination.
    Terminate,
    /// Reads the factory's vendor record.
    GetFactoryInfo,
    /// Counts the classes a factory exposes.
    CountClasses,
    /// Reads one class record of a factory.
    GetClassInfo,
    /// Reads one extended class record of a factory.
    GetClassInfo2,
}

/// One dispatch-table entry: the operation it forwards to and the offset,
/// in pointer-sized units, of the interface's slot inside the composite
/// object. The thunk undoes that offset to recover the object.
#[derive(Clone, Copy, PartialEq, Eq, Structural)]
pub struct Thunk {
    /// The forwarded operation.
    pub method: MethodId,
    /// The slot's offset inside the composite object.
    pub offset: usize,
}

/// Whether `t.offset` is the true offset of slot address `this` inside the
/// object that owns it. Building a table with any other offset is the
/// caller's contract violation.
pub open spec fn correct_offset(h: Host, this: Ptr, t: Thunk) -> bool {
    h.contains_ptr(this) && t.offset == this - h.obj_at(this).base
}

/// The forwarding step every thunk performs: applies the inverse of the
/// offset to the opaque `this` pointer to recover the composite object's
/// address.
pub fn thunk_target(this: Ptr, thunk: &Thunk) -> (r: Ptr)
    requires
        thunk.offset <= this,
    ensures
        r == this - thunk.offset,
{
    this - thunk.offset
}

/// Offset recovery reaches shared state: any two slots of one composite
/// object, each dispatched through a thunk carrying its own correct offset,
/// recover the same composite object address — so an operation invoked
/// through either interface observes and mutates the same state.
pub proof fn lemma_shared_state_recovery(h: Host, pa: Ptr, pb: Ptr, ta: Thunk, tb: Thunk)
    requires
        h.wf(),
        correct_offset(h, pa, ta),
        correct_offset(h, pb, tb),
        h.owner(pa) == h.owner(pb),
    ensures
        pa - ta.offset == pb - tb.offset,
        pa - ta.offset == h.obj_at(pa).base,
{
}

/// A correct thunk's target address is the base slot of the same object.
proof fn lemma_thunk_target_in_object(h: Host, this: Ptr, t: Thunk)
    requires
        h.wf(),
        correct_offset(h, this, t),
    ensures
        t.offset <= this,
        h.in_obj(h.owner(this), (this - t.offset) as Ptr),
        h.owner((this - t.offset) as Ptr) == h.owner(this),
        h.obj_at((this - t.offset) as Ptr) == h.obj_at(this),
{
    let i = h.owner(this);
    assert(h.in_obj(i, this));
    assert(this - t.offset == h.objects@[i].base);
    h.lemma_owner_unique(i, (this - t.offset) as Ptr);
}

/// The generated capability-query thunk: recovers the composite object from
/// `this` and services the query on it.
pub fn dispatch_query_interface(host: &mut Host, this: Ptr, thunk: &Thunk, iid: &FUID) -> (r:
    Result<Ptr, ENoInterface>)
    requires
        thunk.method is QueryInterface,
        old(host).wf(),
        correct_offset(*old(host), this, *thunk),
        old(host).obj_at(this).alive,
        old(host).obj_at(this).ref_count < u32::MAX,
    ensures
        final(host).wf(),
        ({
            let i = old(host).owner(this);
            let o = old(host).objects@[i];
            match r {
                Ok(p) => {
                    &&& o.supports(iid.data@)
                    &&& p == o.base + crate::host::first_slot(o.slots@, iid.data@)
                    &&& final(host).objects@ == old(host).objects@.update(
                        i,
                        with_rc(o, (o.ref_count + 1) as u32),
                    )
                },
                Err(_) => {
                    &&& !o.supports(iid.data@)
                    &&& *final(host) == *old(host)
                },
            }
        }),
{
    proof {
        lemma_thunk_target_in_object(*old(host), this, *thunk);
    }
    let base = thunk_target(this, thunk);
    host.query_interface(base, iid)
}

/// The generated reference-increment thunk: recovers the composite object
/// from `this` and increments its count.
pub fn dispatch_add_ref(host: &mut Host, this: Ptr, thunk: &Thunk) -> (r: u32)
    requires
        thunk.method is AddRef,
        old(host).wf(),
        correct_offset(*old(host), this, *thunk),
        old(host).obj_at(this).alive,
        old(host).obj_at(this).ref_count < u32::MAX,
    ensures
        final(host).wf(),
        r == old(host).obj_at(this).ref_count + 1,
        final(host).objects@ == old(host).objects@.update(
            old(host).owner(this),
            with_rc(old(host).obj_at(this), r),
        ),
{
    proof {
        lemma_thunk_target_in_object(*old(host), this, *thunk);
    }
    let base = thunk_target(this, thunk);
    host.add_ref(base)
}

/// The generated reference-decrement thunk: recovers the composite object
/// from `this` and decrements its count, destroying the object when the
/// count reaches zero.
pub fn dispatch_release(host: &mut Host, this: Ptr, thunk: &Thunk) -> (r: u32)
    requires
        thunk.method is Release,
        old(host).wf(),
        correct_offset(*old(host), this, *thunk),
        old(host).obj_at(this).alive,
        old(host).obj_at(this).ref_count >= 1,
    ensures
        final(host).wf(),
        r == old(host).obj_at(this).ref_count - 1,
        final(host).objects@ == old(host).objects@.update(
            old(host).owner(this),
            with_rc_alive(old(host).obj_at(this), r, r > 0),
        ),
{
    proof {
        lemma_thunk_target_in_object(*old(host), this, *thunk);
    }
    let base = thunk_target(this, thunk);
    host.release(base)
}

/// The generated plugin-base initialization thunk: recovers the composite
/// object and initializes it. Initializing an already initialized object
/// reports failure.
pub fn dispatch_initialize(host: &mut Host, this: Ptr, thunk: &Thunk) -> (r: Result<
    (),
    EInterface,
>)
    requires
        thunk.method is Initialize,
        old(host).wf(),
        correct_offset(*old(host), this, *thunk),
        old(host).obj_at(this).alive,
    ensures
        final(host).wf(),
        final(host).objects@ == old(host).objects@.update(
            old(host).owner(this),
            with_init(old(host).obj_at(this), true),
        ),
        r is Ok <==> !old(host).obj_at(this).initialized,
        r matches Err(e) ==> e is InitFailed,
{
    proof {
        lemma_thunk_target_in_object(*old(host), this, *thunk);
    }
    let base = thunk_target(this, thunk);
    if host.obj_initialize(base) {
        Ok(())
    } else {
        Err(EInterface::InitFailed)
    }
}

/// The generated plugin-base termination thunk: recovers the composite
/// object and marks it uninitialized.
pub fn dispatch_terminate(host: &mut Host, this: Ptr, thunk: &Thunk)
    requires
        thunk.method is Terminate,
        old(host).wf(),
        correct_offset(*old(host), this, *thunk),
        old(host).obj_at(this).alive,
    ensures
        final(host).wf(),
        final(host).objects@ == old(host).objects@.update(
            old(host).owner(this),
            with_init(old(host).obj_at(this), false),
        ),
{
    proof {
        lemma_thunk_target_in_object(*old(host), this, *thunk);
    }
    let base = thunk_target(this, thunk);
    host.obj_terminate(base)
}

} // verus!
