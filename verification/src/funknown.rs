//! The root object contract: the three universal operations (capability
//! query, reference increment, reference decrement-with-destroy) and the
//! owned handle type for the root capability.

use vstd::prelude::*;
use crate::host::{with_rc, with_rc_alive, Host, Ptr};
use crate::interface::Interface;
use crate::uid::{tuid_of_words, FUID, TUID};
use crate::vtable::{MethodId, Thunk};

verus! {

/// Signal returned by an object's capability query when it does not support
/// the requested identifier.
pub struct ENoInterface;

/// Marker for the error condition of writing an interface pointer into an
/// absent destination slot.
pub struct EInterfacePtr;

/// Internal helpers shared by the root contract's implementation.
pub struct FUnknownPrivate {}

impl FUnknownPrivate {
    /// Compares two 16-byte identifiers as two 64-bit values each; the
    /// result agrees with a full byte-wise comparison.
    pub(crate) fn iid_equal(iid1: &TUID, iid2: &TUID) -> (r: bool)
        ensures
            r == (iid1@ == iid2@),
    {
        let p1_0 = pack_u64(
            iid1[0], iid1[1], iid1[2], iid1[3], iid1[4], iid1[5], iid1[6], iid1[7],
        );
        let p1_1 = pack_u64(
            iid1[8], iid1[9], iid1[10], iid1[11], iid1[12], iid1[13], iid1[14], iid1[15],
        );
        let p2_0 = pack_u64(
            iid2[0], iid2[1], iid2[2], iid2[3], iid2[4], iid2[5], iid2[6], iid2[7],
        );
        let p2_1 = pack_u64(
            iid2[8], iid2[9], iid2[10], iid2[11], iid2[12], iid2[13], iid2[14], iid2[15],
        );
        let r = p1_0 == p2_0 && p1_1 == p2_1;
        proof {
            lemma_pack_u64_injective(
                iid1@[0], iid1@[1], iid1@[2], iid1@[3], iid1@[4], iid1@[5], iid1@[6], iid1@[7],
                iid2@[0], iid2@[1], iid2@[2], iid2@[3], iid2@[4], iid2@[5], iid2@[6], iid2@[7],
            );
            lemma_pack_u64_injective(
                iid1@[8], iid1@[9], iid1@[10], iid1@[11], iid1@[12], iid1@[13], iid1@[14],
                iid1@[15], iid2@[8], iid2@[9], iid2@[10], iid2@[11], iid2@[12], iid2@[13],
                iid2@[14], iid2@[15],
            );
            if r {
                assert(iid1@ =~= iid2@);
            }
        }
        r
    }
}

/// Eight bytes packed into a 64-bit value, least significant byte first.
pub open spec fn spec_pack_u64(
    b0: u8,
    b1: u8,
    b2: u8,
    b3: u8,
    b4: u8,
    b5: u8,
    b6: u8,
    b7: u8,
) -> u64 {
    (b0 as u64) | ((b1 as u64) << 8) | ((b2 as u64) << 16) | ((b3 as u64) << 24) | ((b4
        as u64) << 32) | ((b5 as u64) << 40) | ((b6 as u64) << 48) | ((b7 as u64) << 56)
}

fn pack_u64(b0: u8, b1: u8, b2: u8, b3: u8, b4: u8, b5: u8, b6: u8, b7: u8) -> (r: u64)
    ensures
        r == spec_pack_u64(b0, b1, b2, b3, b4, b5, b6, b7),
{
    (b0 as u64) | ((b1 as u64) << 8) | ((b2 as u64) << 16) | ((b3 as u64) << 24) | ((b4
        as u64) << 32) | ((b5 as u64) << 40) | ((b6 as u64) << 48) | ((b7 as u64) << 56)
}

/// An owned handle for the root capability: it wraps the address of one
/// interface slot of a live object and stands for exactly one held reference
/// count on that object. Duplicating it increments the count first;
/// releasing it decrements the count and destroys the object at zero.
#[derive(Debug)]
pub struct FUnknown(pub Ptr);

impl Interface for FUnknown {
    /// The root capability's identifier words.
    open spec fn iid_seq() -> Seq<u8> {
        tuid_of_words(0x0000_0000, 0x0000_0000, 0xC000_0000, 0x0000_0046)
    }

    open spec fn unknown_spec() -> bool {
        true
    }

    open spec fn ptr_spec(&self) -> Ptr {
        self.0
    }

    fn iid() -> (r: FUID) {
        FUID::new(0x0000_0000, 0x0000_0000, 0xC000_0000, 0x0000_0046)
    }

    fn unknown() -> (r: bool) {
        true
    }

    fn as_raw(&self) -> (p: Ptr) {
        self.0
    }

    fn from_raw(raw: Ptr) -> (r: Self) {
        FUnknown(raw)
    }
}

impl FUnknown {
    /// Duplicates the owned handle: increments the object's count, then
    /// copies the pointer. The copy stands for the new count.
    pub fn duplicate(&self, host: &mut Host) -> (r: FUnknown)
        requires
            old(host).wf(),
            old(host).contains_ptr(self.0),
            old(host).obj_at(self.0).alive,
            old(host).obj_at(self.0).ref_count < u32::MAX,
        ensures
            final(host).wf(),
            r.0 == self.0,
            final(host).objects@ == old(host).objects@.update(
                old(host).owner(self.0),
                with_rc(
                    old(host).obj_at(self.0),
                    (old(host).obj_at(self.0).ref_count + 1) as u32,
                ),
            ),
    {
        host.add_ref(self.0);
        FUnknown(self.0)
    }

    /// Releases the owned handle: decrements the object's count and destroys
    /// the object exactly when the count reaches zero. Returns the new count.
    pub fn release(self, host: &mut Host) -> (r: u32)
        requires
            old(host).wf(),
            old(host).contains_ptr(self.0),
            old(host).obj_at(self.0).alive,
            old(host).obj_at(self.0).ref_count >= 1,
        ensures
            final(host).wf(),
            r == old(host).obj_at(self.0).ref_count - 1,
            final(host).objects@ == old(host).objects@.update(
                old(host).owner(self.0),
                with_rc_alive(old(host).obj_at(self.0), r, r > 0),
            ),
    {
        host.release(self.0)
    }

    /// The identity rule: two handles denote the same object exactly when
    /// querying the root capability from each yields pointer-identical
    /// results — not when their raw pointers are equal, since distinct
    /// interfaces of one object sit at distinct addresses. Tries the
    /// raw-pointer shortcut first, then canonicalizes through the root
    /// query; reference counts are restored before returning.
    pub fn same_object(&self, other: &FUnknown, host: &mut Host) -> (r: bool)
        requires
            old(host).wf(),
            old(host).contains_ptr(self.0),
            old(host).obj_at(self.0).alive,
            1 <= old(host).obj_at(self.0).ref_count < u32::MAX,
            old(host).contains_ptr(other.0),
            old(host).obj_at(other.0).alive,
            1 <= old(host).obj_at(other.0).ref_count < u32::MAX,
            old(host).obj_at(self.0).supports(FUnknown::iid_seq()),
            old(host).obj_at(other.0).supports(FUnknown::iid_seq()),
        ensures
            final(host).objects@ == old(host).objects@,
            r == (old(host).owner(self.0) == old(host).owner(other.0)),
    {
        if self.0 == other.0 {
            return true;
        }
        let iid = FUnknown::iid();
        let p1 = canonical_root_ptr(host, self.0, &iid);
        proof {
            let h = *old(host);
            let j = h.owner(other.0);
            assert(h.in_obj(j, other.0));
            assert(host.in_obj(j, other.0));
            host.lemma_owner_unique(j, other.0);
            assert(host.obj_at(other.0) == h.obj_at(other.0));
        }
        let p2 = canonical_root_ptr(host, other.0, &iid);
        proof {
            let h = *old(host);
            let i = h.owner(self.0);
            let j = h.owner(other.0);
            if i == j {
                crate::interface::lemma_identity_same_object(h, self.0, other.0, iid.data@);
            } else {
                crate::interface::lemma_identity_distinct_objects(h, self.0, other.0, iid.data@);
                assert(h.in_obj(i, self.0));
                assert(h.in_obj(j, other.0));
                crate::host::lemma_first_slot_from_props(h.obj_at(self.0).slots@, iid.data@, 0);
                crate::host::lemma_first_slot_from_props(h.obj_at(other.0).slots@, iid.data@, 0);
            }
        }
        p1 == p2
    }
}

/// Queries the root capability through a handle's slot address and releases
/// the temporary count again, returning the canonical root slot address.
fn canonical_root_ptr(host: &mut Host, p: Ptr, iid: &FUID) -> (r: Ptr)
    requires
        old(host).wf(),
        old(host).contains_ptr(p),
        old(host).obj_at(p).alive,
        1 <= old(host).obj_at(p).ref_count < u32::MAX,
        old(host).obj_at(p).supports(iid.data@),
    ensures
        final(host).wf(),
        final(host).objects@ == old(host).objects@,
        r == old(host).obj_at(p).base + crate::host::first_slot(
            old(host).obj_at(p).slots@,
            iid.data@,
        ),
{
    let q = match host.query_interface(p, iid) {
        Ok(q) => q,
        Err(_) => {
            proof {
                assert(false);
            }
            vstd::pervasive::unreached()
        },
    };
    proof {
        let h = *old(host);
        let i = h.owner(p);
        assert(h.in_obj(i, p));
        // after the query, the owning object holds one extra count and q
        // addresses a slot of the same object
        assert(host.in_obj(i, q));
        host.lemma_owner_unique(i, q);
    }
    host.release(q);
    proof {
        let h = *old(host);
        let i = h.owner(p);
        let o = h.objects@[i];
        let o1 = with_rc(o, (o.ref_count + 1) as u32);
        let o2 = with_rc_alive(o1, (o1.ref_count - 1) as u32, o1.ref_count - 1 > 0);
        assert(o2 == o);
        assert(host.objects@ =~= h.objects@);
    }
    q
}

/// The root contract's dispatch table: exactly three entries in fixed
/// order — capability query, reference increment, reference decrement.
/// Every interface's table begins with these three.
pub struct FUnknownVtable {
    /// Thunk forwarding to the capability query.
    pub query_interface: Thunk,
    /// Thunk forwarding to the reference increment.
    pub add_ref: Thunk,
    /// Thunk forwarding to the reference decrement.
    pub release: Thunk,
}

impl FUnknownVtable {
    /// Every entry forwards to its own operation and carries the offset of
    /// the interface slot the table was built for.
    pub open spec fn wf_at(self, offset: usize) -> bool {
        &&& self.query_interface == (Thunk { method: MethodId::QueryInterface, offset })
        &&& self.add_ref == (Thunk { method: MethodId::AddRef, offset })
        &&& self.release == (Thunk { method: MethodId::Release, offset })
    }

    /// The table's operations in declaration order.
    pub open spec fn methods(self) -> Seq<MethodId> {
        seq![self.query_interface.method, self.add_ref.method, self.release.method]
    }

    /// The root table's fixed operation order, the literal prefix of every
    /// derived interface's table.
    pub open spec fn root_methods() -> Seq<MethodId> {
        seq![MethodId::QueryInterface, MethodId::AddRef, MethodId::Release]
    }

    /// Builds the root dispatch table for an interface slot sitting at
    /// `offset`, in pointer-sized units, inside its composite object: one
    /// forwarding thunk per root operation, each recovering the composite
    /// object by undoing that offset.
    pub fn new(offset: usize) -> (r: Self)
        ensures
            r.wf_at(offset),
            r.methods() == FUnknownVtable::root_methods(),
    {
        let r = FUnknownVtable {
            query_interface: Thunk { method: MethodId::QueryInterface, offset },
            add_ref: Thunk { method: MethodId::AddRef, offset },
            release: Thunk { method: MethodId::Release, offset },
        };
        proof {
            assert(r.methods() =~= FUnknownVtable::root_methods());
        }
        r
    }
}

/// Two packed 64-bit values are equal exactly when the packed bytes are.
proof fn lemma_pack_u64_injective(
    x0: u8, x1: u8, x2: u8, x3: u8, x4: u8, x5: u8, x6: u8, x7: u8,
    y0: u8, y1: u8, y2: u8, y3: u8, y4: u8, y5: u8, y6: u8, y7: u8,
)
    ensures
        (spec_pack_u64(x0, x1, x2, x3, x4, x5, x6, x7) == spec_pack_u64(
            y0, y1, y2, y3, y4, y5, y6, y7,
        )) <==> (x0 == y0 && x1 == y1 && x2 == y2 && x3 == y3 && x4 == y4 && x5 == y5 && x6 == y6
            && x7 == y7),
{
    assert(((x0 as u64) | ((x1 as u64) << 8) | ((x2 as u64) << 16) | ((x3 as u64) << 24) | ((x4
        as u64) << 32) | ((x5 as u64) << 40) | ((x6 as u64) << 48) | ((x7 as u64) << 56) == (y0
        as u64) | ((y1 as u64) << 8) | ((y2 as u64) << 16) | ((y3 as u64) << 24) | ((y4
        as u64) << 32) | ((y5 as u64) << 40) | ((y6 as u64) << 48) | ((y7 as u64) << 56)) <==> (x0
        == y0 && x1 == y1 && x2 == y2 && x3 == y3 && x4 == y4 && x5 == y5 && x6 == y6 && x7 == y7))
        by (bit_vector);
}

} // verus!
