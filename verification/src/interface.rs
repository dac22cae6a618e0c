//! The capability contract: what every interface handle type provides, the
//! safe capability query/cast built on the root contract, and the borrowed,
//! non-counted view of an owned handle.

use vstd::prelude::*;
use crate::host::{first_slot, with_rc, Host, Ptr};
use crate::uid::FUID;

verus! {

/// Recoverable failures of capability queries and plugin-base
/// initialization. All are ordinary outcome values returned to the caller.
#[derive(Clone, Copy, Debug, PartialEq, Eq, Structural)]
pub enum EInterface {
    /// The queried object reported that it has no usable pointer for the
    /// requested capability.
    BadCast,
    /// The capability query was attempted on a capability that is not
    /// root-queryable.
    BadQuery,
    /// The destination slot for a query held no pointer after a reported
    /// success.
    Pointer,
    /// A plugin-base initialization step reported failure.
    InitFailed,
}

impl EInterface {
    /// The failure's descriptive message.
    pub open spec fn spec_message(self) -> Seq<char> {
        match self {
            EInterface::BadCast => "Bad interface cast"@,
            EInterface::BadQuery => "Bad interface query"@,
            EInterface::Pointer => "Tried to write interface to null-pointer"@,
            EInterface::InitFailed => "IPluginBase initialization failed"@,
        }
    }

    /// Returns the failure's descriptive message.
    pub fn message(&self) -> (r: &'static str)
        ensures
            r@ == self.spec_message(),
    {
        match self {
            EInterface::BadCast => "Bad interface cast",
            EInterface::BadQuery => "Bad interface query",
            EInterface::Pointer => "Tried to write interface to null-pointer",
            EInterface::InitFailed => "IPluginBase initialization failed",
        }
    }
}

/// The contract every capability (interface) handle type implements: its
/// identifier, whether it is root-queryable, and the raw-pointer view of a
/// handle.
pub trait Interface: Sized {
    /// The identifier bytes of this capability.
    spec fn iid_seq() -> Seq<u8>;

    /// Whether the capability can service capability queries at all; true
    /// for everything except marker-only capabilities.
    spec fn unknown_spec() -> bool;

    /// The slot address a handle wraps.
    spec fn ptr_spec(&self) -> Ptr;

    /// The capability's identifier.
    fn iid() -> (r: FUID)
        ensures
            r.data@ == Self::iid_seq(),
    ;

    /// Whether the capability is root-queryable.
    fn unknown() -> (r: bool)
        ensures
            r == Self::unknown_spec(),
    ;

    /// Returns the handle's underlying slot address without transferring
    /// ownership of the reference count it holds.
    fn as_raw(&self) -> (p: Ptr)
        ensures
            p == self.ptr_spec(),
    ;

    /// Creates a handle by taking ownership of a slot address already
    /// counted on the caller's behalf.
    fn from_raw(raw: Ptr) -> (r: Self)
        ensures
            r.ptr_spec() == raw,
    ;
}

/// The low-level capability query through a handle: on success writes the
/// new owned pointer into `interface` and increments the object's count; on
/// failure leaves `interface` untouched and reports the failure rather than
/// writing an empty value.
pub fn query<T: Interface>(
    host: &mut Host,
    this: &T,
    iid: &FUID,
    interface: &mut Option<Ptr>,
) -> (r: Result<(), EInterface>)
    requires
        old(host).wf(),
        old(host).contains_ptr(this.ptr_spec()),
        old(host).obj_at(this.ptr_spec()).alive,
        old(host).obj_at(this.ptr_spec()).ref_count < u32::MAX,
    ensures
        final(host).wf(),
        ({
            let i = old(host).owner(this.ptr_spec());
            let o = old(host).objects@[i];
            match r {
                Ok(_) => {
                    &&& T::unknown_spec()
                    &&& o.supports(iid.data@)
                    &&& *final(interface) == Some((o.base + first_slot(o.slots@, iid.data@)) as Ptr)
                    &&& final(host).objects@ == old(host).objects@.update(
                        i,
                        with_rc(o, (o.ref_count + 1) as u32),
                    )
                },
                Err(e) => {
                    &&& *final(interface) == *old(interface)
                    &&& *final(host) == *old(host)
                    &&& (e is BadQuery <==> !T::unknown_spec())
                    &&& (e is BadCast <==> T::unknown_spec() && !o.supports(iid.data@))
                    &&& (e is BadQuery || e is BadCast)
                },
            }
        }),
{
    if T::unknown() {
        match host.query_interface(this.as_raw(), iid) {
            Ok(p) => {
                *interface = Some(p);
                Ok(())
            },
            Err(_) => Err(EInterface::BadCast),
        }
    } else {
        Err(EInterface::BadQuery)
    }
}

/// Attempts to cast a handle to another capability on the same object using
/// the root contract's query. On success returns a new owned handle; on any
/// failure nothing is changed — the source handle stays valid and no
/// reference count moves.
pub fn cast<T: Interface, U: Interface>(host: &mut Host, this: &T) -> (r: Result<
    U,
    EInterface,
>)
    requires
        old(host).wf(),
        old(host).contains_ptr(this.ptr_spec()),
        old(host).obj_at(this.ptr_spec()).alive,
        old(host).obj_at(this.ptr_spec()).ref_count < u32::MAX,
    ensures
        final(host).wf(),
        ({
            let i = old(host).owner(this.ptr_spec());
            let o = old(host).objects@[i];
            match r {
                Ok(u) => {
                    &&& T::unknown_spec()
                    &&& o.supports(U::iid_seq())
                    &&& u.ptr_spec() == o.base + first_slot(o.slots@, U::iid_seq())
                    &&& final(host).objects@ == old(host).objects@.update(
                        i,
                        with_rc(o, (o.ref_count + 1) as u32),
                    )
                },
                Err(e) => {
                    &&& *final(host) == *old(host)
                    &&& (e is BadQuery <==> !T::unknown_spec())
                    &&& (e is BadCast <==> T::unknown_spec() && !o.supports(U::iid_seq()))
                    &&& (e is BadQuery || e is BadCast)
                },
            }
        }),
{
    let mut result: Option<Ptr> = None;
    let u_iid = U::iid();
    match query(host, this, &u_iid, &mut result) {
        Ok(_) => match result {
            Some(p) => {
                proof {
                    let i = old(host).owner(this.ptr_spec());
                    let o = old(host).objects@[i];
                    assert(old(host).in_obj(i, this.ptr_spec()));
                    crate::host::lemma_first_slot_from_props(o.slots@, U::iid_seq(), 0);
                }
                Ok(U::from_raw(p))
            },
            None => Err(EInterface::Pointer),
        },
        Err(e) => Err(e),
    }
}

/// A borrowed, non-owning view of an interface handle, tied to the handle's
/// lifetime; it carries no reference count and costs no count traffic.
pub struct InterfaceRef<'a, I: Interface> {
    ptr: Ptr,
    _interface: core::marker::PhantomData<&'a I>,
}

impl<'a, I: Interface> InterfaceRef<'a, I> {
    /// The slot address the view refers to.
    pub closed spec fn ptr_spec(&self) -> Ptr {
        self.ptr
    }

    /// Creates a borrowed view of an owned handle without touching the
    /// reference count; the view cannot outlive the handle.
    pub fn from_interface(interface: &'a I) -> (r: Self)
        ensures
            r.ptr_spec() == interface.ptr_spec(),
    {
        InterfaceRef { ptr: interface.as_raw(), _interface: core::marker::PhantomData }
    }

    /// Upgrades the borrowed view to an owned (counted) handle by the normal
    /// increment rule.
    pub fn to_owned(self, host: &mut Host) -> (r: I)
        requires
            old(host).wf(),
            old(host).contains_ptr(self.ptr_spec()),
            old(host).obj_at(self.ptr_spec()).alive,
            old(host).obj_at(self.ptr_spec()).ref_count < u32::MAX,
        ensures
            final(host).wf(),
            r.ptr_spec() == self.ptr_spec(),
            final(host).objects@ == old(host).objects@.update(
                old(host).owner(self.ptr_spec()),
                with_rc(
                    old(host).obj_at(self.ptr_spec()),
                    (old(host).obj_at(self.ptr_spec()).ref_count + 1) as u32,
                ),
            ),
    {
        host.add_ref(self.ptr);
        I::from_raw(self.ptr)
    }
}

/// A marker-only capability: it names a capability through its identifier
/// but is not root-queryable, so a `cast` through a handle of it fails with
/// `BadQuery` and moves no reference count.
pub struct MarkerCapability(pub Ptr);

impl Interface for MarkerCapability {
    /// The marker capability's identifier words.
    open spec fn iid_seq() -> Seq<u8> {
        crate::uid::tuid_of_words(0x6D61_726B, 0x0000_0001, 0x0000_0002, 0x0000_0003)
    }

    open spec fn unknown_spec() -> bool {
        false
    }

    open spec fn ptr_spec(&self) -> Ptr {
        self.0
    }

    fn iid() -> (r: FUID) {
        FUID::new(0x6D61_726B, 0x0000_0001, 0x0000_0002, 0x0000_0003)
    }

    fn unknown() -> (r: bool) {
        false
    }

    fn as_raw(&self) -> (p: Ptr) {
        self.0
    }

    fn from_raw(raw: Ptr) -> (r: Self) {
        MarkerCapability(raw)
    }
}

/// The identity rule, first half: the root capability query resolves to the
/// same slot address through every handle of one object, because the address
/// depends only on the owning object.
pub proof fn lemma_identity_same_object(h: Host, p1: Ptr, p2: Ptr, iid: Seq<u8>)
    requires
        h.wf(),
        h.contains_ptr(p1),
        h.contains_ptr(p2),
        h.owner(p1) == h.owner(p2),
    ensures
        h.obj_at(p1).base + first_slot(h.obj_at(p1).slots@, iid) == h.obj_at(p2).base + first_slot(
            h.obj_at(p2).slots@,
            iid,
        ),
{
}

/// The identity rule, second half: handles of two distinct objects resolve
/// the root capability to distinct slot addresses, because the objects'
/// address ranges are disjoint.
pub proof fn lemma_identity_distinct_objects(h: Host, p1: Ptr, p2: Ptr, iid: Seq<u8>)
    requires
        h.wf(),
        h.contains_ptr(p1),
        h.contains_ptr(p2),
        h.owner(p1) != h.owner(p2),
        h.obj_at(p1).supports(iid),
        h.obj_at(p2).supports(iid),
    ensures
        h.obj_at(p1).base + first_slot(h.obj_at(p1).slots@, iid) != h.obj_at(p2).base + first_slot(
            h.obj_at(p2).slots@,
            iid,
        ),
{
    let i = h.owner(p1);
    let j = h.owner(p2);
    crate::host::lemma_first_slot_from_props(h.obj_at(p1).slots@, iid, 0);
    crate::host::lemma_first_slot_from_props(h.obj_at(p2).slots@, iid, 0);
    if i < j {
        assert(h.objects@[i].end() <= h.objects@[j].base);
    } else {
        assert(h.objects@[j].end() <= h.objects@[i].base);
    }
}

} // verus!
