//! Plugin-base and factory capabilities: the initialize/terminate contract,
//! factory and class metadata records, and their dispatch tables.
//!
//! Metadata records are fixed-capacity, zero-padded byte buffers plus small
//! integer fields. Inputs longer than a buffer's capacity are truncated.

use vstd::prelude::*;
use crate::funknown::{FUnknown, FUnknownVtable};
use crate::host::{with_init, Host, Ptr};
use crate::interface::{EInterface, Interface};
use crate::uid::{tuid_of_words, FUID, TUID};
use crate::vtable::{MethodId, Thunk};

verus! {

/// The basic plugin contract every plugin class supports: initialization
/// with a host context and termination, on top of the root contract.
pub struct IPluginBase(pub FUnknown);

impl Interface for IPluginBase {
    /// The plugin-base capability's identifier words.
    open spec fn iid_seq() -> Seq<u8> {
        tuid_of_words(0x2288_8DD8, 0x156E_45AE, 0x8358_B348, 0x0819_0625)
    }

    open spec fn unknown_spec() -> bool {
        true
    }

    open spec fn ptr_spec(&self) -> Ptr {
        self.0.0
    }

    fn iid() -> (r: FUID) {
        FUID::new(0x2288_8DD8, 0x156E_45AE, 0x8358_B348, 0x0819_0625)
    }

    fn unknown() -> (r: bool) {
        true
    }

    fn as_raw(&self) -> (p: Ptr) {
        self.0.0
    }

    fn from_raw(raw: Ptr) -> (r: Self) {
        IPluginBase(FUnknown(raw))
    }
}

impl IPluginBase {
    /// Initializes the object's plugin base, handing it the host context.
    /// Initializing an object that is already initialized reports
    /// `InitFailed`; the object stays initialized either way.
    #[allow(unused_variables)]
    pub fn initialize(&self, host: &mut Host, context: Ptr) -> (r: Result<(), EInterface>)
        requires
            old(host).wf(),
            old(host).contains_ptr(self.ptr_spec()),
            old(host).obj_at(self.ptr_spec()).alive,
        ensures
            final(host).wf(),
            final(host).objects@ == old(host).objects@.update(
                old(host).owner(self.ptr_spec()),
                with_init(old(host).obj_at(self.ptr_spec()), true),
            ),
            r is Ok <==> !old(host).obj_at(self.ptr_spec()).initialized,
            r matches Err(e) ==> e is InitFailed,
    {
        if host.obj_initialize(self.0.0) {
            Ok(())
        } else {
            Err(EInterface::InitFailed)
        }
    }

    /// Terminates the object's plugin base: it is uninitialized afterwards.
    pub fn terminate(&self, host: &mut Host)
        requires
            old(host).wf(),
            old(host).contains_ptr(self.ptr_spec()),
            old(host).obj_at(self.ptr_spec()).alive,
        ensures
            final(host).wf(),
            final(host).objects@ == old(host).objects@.update(
                old(host).owner(self.ptr_spec()),
                with_init(old(host).obj_at(self.ptr_spec()), false),
            ),
    {
        host.obj_terminate(self.0.0)
    }
}

/// The plugin-base dispatch table: the root table as a literal prefix,
/// followed by the initialize and terminate entries.
pub struct IPluginBaseVtable {
    /// The root contract's three entries, a literal prefix of this table.
    pub base: FUnknownVtable,
    /// Thunk forwarding to plugin-base initialization.
    pub initialize: Thunk,
    /// Thunk forwarding to plugin-base termination.
    pub terminate: Thunk,
}

impl IPluginBaseVtable {
    /// Every entry forwards to its own operation and carries the offset of
    /// the interface slot the table was built for.
    pub open spec fn wf_at(self, offset: usize) -> bool {
        &&& self.base.wf_at(offset)
        &&& self.initialize == (Thunk { method: MethodId::Initialize, offset })
        &&& self.terminate == (Thunk { method: MethodId::Terminate, offset })
    }

    /// The table's operations in declaration order.
    pub open spec fn methods(self) -> Seq<MethodId> {
        self.base.methods() + seq![self.initialize.method, self.terminate.method]
    }

    /// Builds the plugin-base dispatch table for an interface slot at
    /// `offset` inside its composite object: the root table first, then one
    /// forwarding thunk per plugin-base operation.
    pub fn new(offset: usize) -> (r: Self)
        ensures
            r.wf_at(offset),
            r.methods() == FUnknownVtable::root_methods() + seq![
                MethodId::Initialize,
                MethodId::Terminate,
            ],
    {
        let r = IPluginBaseVtable {
            base: FUnknownVtable::new(offset),
            initialize: Thunk { method: MethodId::Initialize, offset },
            terminate: Thunk { method: MethodId::Terminate, offset },
        };
        proof {
            assert(r.methods() =~= FUnknownVtable::root_methods() + seq![
                MethodId::Initialize,
                MethodId::Terminate,
            ]);
        }
        r
    }
}

/// Derived dispatch tables are literal prefix-extensions: the plugin-base
/// table interprets correctly as the root table for its first three entries.
pub proof fn lemma_ipluginbase_vtable_prefix(v: IPluginBaseVtable)
    ensures
        v.methods().subrange(0, 3) == v.base.methods(),
{
    assert(v.methods().subrange(0, 3) =~= v.base.methods());
}

/// Factory behaviour flags, combined by bitwise or of their values.
pub enum FactoryFlags {
    /// No flag set.
    NoFlags,
    /// The host may unload the component's classes when unused.
    ClassesDiscardable,
    /// The component performs a license check.
    LicenseCheck,
    /// Component will not be unloaded until process exit.
    ComponentNonDiscardable,
    /// Strings in the component's metadata are Unicode.
    Unicode,
}

impl FactoryFlags {
    /// The flag's bit value.
    pub open spec fn spec_value(self) -> u32 {
        match self {
            FactoryFlags::NoFlags => 0u32,
            FactoryFlags::ClassesDiscardable => 1u32,
            FactoryFlags::LicenseCheck => 2u32,
            FactoryFlags::ComponentNonDiscardable => 8u32,
            FactoryFlags::Unicode => 16u32,
        }
    }

    /// Returns the flag's bit value.
    pub fn value(&self) -> (r: u32)
        ensures
            r == self.spec_value(),
    {
        match self {
            FactoryFlags::NoFlags => 0,
            FactoryFlags::ClassesDiscardable => 1,
            FactoryFlags::LicenseCheck => 2,
            FactoryFlags::ComponentNonDiscardable => 8,
            FactoryFlags::Unicode => 16,
        }
    }
}

/// Combines a flag set with one more factory flag.
pub fn or_flag(bits: u32, flag: FactoryFlags) -> (r: u32)
    ensures
        r == bits | flag.spec_value(),
{
    bits | flag.value()
}

/// How many instances of a class may exist at once.
pub enum ClassCardinality {
    /// Any number of instances may be created.
    ManyInstances,
}

impl ClassCardinality {
    /// The cardinality's integer value.
    pub open spec fn spec_value(self) -> u32 {
        match self {
            ClassCardinality::ManyInstances => 0x7FFF_FFFFu32,
        }
    }

    /// Returns the cardinality's integer value.
    pub fn value(&self) -> (r: u32)
        ensures
            r == self.spec_value(),
    {
        match self {
            ClassCardinality::ManyInstances => 0x7FFF_FFFF,
        }
    }
}

/// A byte buffer of capacity `n`, holding `s` truncated to `n` bytes and
/// zero-padded to exactly `n` bytes.
pub open spec fn spec_zero_padded(s: Seq<u8>, n: nat) -> Seq<u8> {
    Seq::new(n, |i: int| if i < s.len() { s[i] } else { 0u8 })
}

/// Copies a bounded string's bytes into a fresh buffer of capacity `n`,
/// truncating past capacity and zero-padding the remainder.
fn zero_padded(src: &[u8], n: usize) -> (v: Vec<u8>)
    ensures
        v@ == spec_zero_padded(src@, n as nat),
{
    let mut v: Vec<u8> = Vec::new();
    let mut i: usize = 0;
    while i < n
        invariant
            i <= n,
            v@.len() == i,
            forall|k: int|
                0 <= k < i ==> v@[k] == (if k < src@.len() {
                    src@[k]
                } else {
                    0u8
                }),
        decreases n - i,
    {
        if i < src.len() {
            v.push(src[i]);
        } else {
            v.push(0);
        }
        i += 1;
    }
    proof {
        assert(v@ =~= spec_zero_padded(src@, n as nat));
    }
    v
}

/// The vendor identification record of a class factory: fixed-capacity,
/// zero-padded byte buffers plus a flag word.
pub struct FactoryInfo {
    /// Vendor name, 64 bytes, zero-padded.
    pub vendor: Vec<u8>,
    /// Vendor URL, 256 bytes, zero-padded.
    pub url: Vec<u8>,
    /// Vendor contact address, 128 bytes, zero-padded.
    pub email: Vec<u8>,
    /// Combination of `FactoryFlags` bit values.
    pub flags: u32,
}

impl FactoryInfo {
    /// The buffers have exactly their declared capacity.
    pub open spec fn wf(self) -> bool {
        &&& self.vendor@.len() == 64
        &&& self.url@.len() == 256
        &&& self.email@.len() == 128
    }

    /// Builds the record, truncating each field to its capacity and
    /// zero-padding the remainder.
    pub fn new(vendor: &[u8], url: &[u8], email: &[u8], flags: u32) -> (r: Self)
        ensures
            r.wf(),
            r.vendor@ == spec_zero_padded(vendor@, 64),
            r.url@ == spec_zero_padded(url@, 256),
            r.email@ == spec_zero_padded(email@, 128),
            r.flags == flags,
    {
        FactoryInfo {
            vendor: zero_padded(vendor, 64),
            url: zero_padded(url, 256),
            email: zero_padded(email, 128),
            flags,
        }
    }

    /// Returns a copy of the record.
    pub fn clone_info(&self) -> (r: Self)
        ensures
            r.vendor@ == self.vendor@,
            r.url@ == self.url@,
            r.email@ == self.email@,
            r.flags == self.flags,
    {
        FactoryInfo {
            vendor: clone_bytes(&self.vendor),
            url: clone_bytes(&self.url),
            email: clone_bytes(&self.email),
            flags: self.flags,
        }
    }
}

/// Copies a byte vector.
fn clone_bytes(v: &Vec<u8>) -> (r: Vec<u8>)
    ensures
        r@ == v@,
{
    let mut r: Vec<u8> = Vec::new();
    let mut i: usize = 0;
    while i < v.len()
        invariant
            i <= v@.len(),
            r@ == v@.subrange(0, i as int),
        decreases v@.len() - i,
    {
        r.push(v[i]);
        proof {
            assert(r@ =~= v@.subrange(0, i + 1 as int));
        }
        i += 1;
    }
    proof {
        assert(v@.subrange(0, v@.len() as int) =~= v@);
    }
    r
}

/// Basic metadata of one class a factory can create.
pub struct PClassInfo {
    /// Class ID: 16-byte class identifier.
    pub cid: TUID,
    /// Instance cardinality, normally `ClassCardinality::ManyInstances`.
    pub cardinality: i32,
    /// Class category, 32 bytes, zero-padded.
    pub category: Vec<u8>,
    /// Class name, 64 bytes, zero-padded.
    pub name: Vec<u8>,
}

impl PClassInfo {
    /// The buffers have exactly their declared capacity.
    pub open spec fn wf(self) -> bool {
        &&& self.category@.len() == 32
        &&& self.name@.len() == 64
    }

    /// Builds the record, truncating each string to its capacity and
    /// zero-padding the remainder.
    pub fn new(cid: TUID, cardinality: i32, category_str: &[u8], name_str: &[u8]) -> (r: Self)
        ensures
            r.wf(),
            r.cid@ == cid@,
            r.cardinality == cardinality,
            r.category@ == spec_zero_padded(category_str@, 32),
            r.name@ == spec_zero_padded(name_str@, 64),
    {
        PClassInfo {
            cid,
            cardinality,
            category: zero_padded(category_str, 32),
            name: zero_padded(name_str, 64),
        }
    }

    /// Returns a copy of the record.
    pub fn clone_info(&self) -> (r: Self)
        ensures
            r.cid@ == self.cid@,
            r.cardinality == self.cardinality,
            r.category@ == self.category@,
            r.name@ == self.name@,
    {
        PClassInfo {
            cid: self.cid,
            cardinality: self.cardinality,
            category: clone_bytes(&self.category),
            name: clone_bytes(&self.name),
        }
    }
}

/// The class factory capability: enumerates the classes a component
/// exposes and reports the vendor record.
pub struct IPluginFactory(pub FUnknown);

impl Interface for IPluginFactory {
    /// The factory capability's identifier words.
    open spec fn iid_seq() -> Seq<u8> {
        tuid_of_words(0x7A4D_811C, 0x5211_4A1F, 0xAED9_D2EE, 0x0B43_BF9F)
    }

    open spec fn unknown_spec() -> bool {
        true
    }

    open spec fn ptr_spec(&self) -> Ptr {
        self.0.0
    }

    fn iid() -> (r: FUID) {
        FUID::new(0x7A4D_811C, 0x5211_4A1F, 0xAED9_D2EE, 0x0B43_BF9F)
    }

    fn unknown() -> (r: bool) {
        true
    }

    fn as_raw(&self) -> (p: Ptr) {
        self.0.0
    }

    fn from_raw(raw: Ptr) -> (r: Self) {
        IPluginFactory(FUnknown(raw))
    }
}

impl IPluginFactory {
    /// Reads the factory's vendor identification record.
    pub fn get_factory_info(&self, host: &Host) -> (r: FactoryInfo)
        requires
            host.wf(),
            host.contains_ptr(self.ptr_spec()),
        ensures
            r.vendor@ == host.obj_at(self.ptr_spec()).info.vendor@,
            r.url@ == host.obj_at(self.ptr_spec()).info.url@,
            r.email@ == host.obj_at(self.ptr_spec()).info.email@,
            r.flags == host.obj_at(self.ptr_spec()).info.flags,
    {
        let i = host.find_owner(self.0.0);
        host.objects[i].info.clone_info()
    }

    /// Counts the classes the factory can create.
    pub fn count_classes(&self, host: &Host) -> (r: u32)
        requires
            host.wf(),
            host.contains_ptr(self.ptr_spec()),
        ensures
            r as nat == host.obj_at(self.ptr_spec()).classes@.len(),
    {
        let i = host.find_owner(self.0.0);
        proof {
            assert(host.in_obj(i as int, self.0.0));
        }
        host.objects[i].classes.len() as u32
    }

    /// Creates one instance of the class named by `cid`, handing back an
    /// owned handle of the requested capability: the new object exposes the
    /// root capability at its first slot and the requested capability at its
    /// second, and starts at reference count 1, owned by the caller. When
    /// the factory knows no class with that identifier, nothing is created
    /// and `BadCast` is reported.
    #[verifier::rlimit(30)]
    pub fn create_instance<I: Interface>(&self, host: &mut Host, cid: TUID, iid: &FUID) -> (r:
        Result<I, EInterface>)
        requires
            old(host).wf(),
            old(host).contains_ptr(self.ptr_spec()),
            iid.data@ == I::iid_seq(),
            old(host).next_base() + 2 <= usize::MAX,
        ensures
            final(host).wf(),
            r is Ok <==> exists|k: int|
                0 <= k < old(host).obj_at(self.ptr_spec()).classes@.len()
                    && old(host).obj_at(self.ptr_spec()).classes@[k].cid@ == cid@,
            r is Ok ==> final(host).objects@.len() == old(host).objects@.len() + 1
                && final(host).objects@.subrange(0, old(host).objects@.len() as int)
                == old(host).objects@,
            r is Ok ==> final(host).objects@.last().base == old(host).next_base()
                && final(host).objects@.last().ref_count == 1
                && final(host).objects@.last().alive,
            r is Ok ==> final(host).objects@.last().slots@.len() == 2
                && final(host).objects@.last().slots@[0].data@
                == <FUnknown as Interface>::iid_seq()
                && final(host).objects@.last().slots@[1].data@ == I::iid_seq(),
            r matches Ok(u) ==> u.ptr_spec() == old(host).next_base() + 1
                && final(host).in_obj(old(host).objects@.len() as int, u.ptr_spec()),
            r is Err ==> *final(host) == *old(host),
            r matches Err(e) ==> e is BadCast,
    {
        let i = host.find_owner(self.0.0);
        proof {
            assert(self.ptr_spec() == self.0.0);
            assert(old(host).obj_at(self.0.0) == old(host).objects@[i as int]);
        }
        if has_class(&host.objects[i].classes, &cid) {
            let slots = vec![FUnknown::iid(), *iid];
            let empty: Vec<u8> = Vec::new();
            let info = FactoryInfo::new(empty.as_slice(), empty.as_slice(), empty.as_slice(), 0);
            let base = host.create_object(slots, info, Vec::new());
            proof {
                assert(host.objects@.subrange(0, old(host).objects@.len() as int)
                    =~= old(host).objects@);
                assert(host.in_obj(old(host).objects@.len() as int, (base + 1) as usize));
                assert(host.objects@.last().slots@[0].data@
                    == <FUnknown as Interface>::iid_seq());
                assert(host.objects@.last().slots@[1].data@ == I::iid_seq());
                assert(host.objects@.last().slots@.len() == 2);
                assert(host.objects@.last().base == old(host).next_base());
            }
            Ok(I::from_raw(base + 1))
        } else {
            Err(EInterface::BadCast)
        }
    }

    /// Reads the class record at `index`; yields a record exactly when the
    /// index is below the class count.
    pub fn get_class_info(&self, host: &Host, index: u32) -> (r: Option<PClassInfo>)
        requires
            host.wf(),
            host.contains_ptr(self.ptr_spec()),
        ensures
            ({
                let cs = host.obj_at(self.ptr_spec()).classes@;
                match r {
                    Some(c) => {
                        &&& (index as int) < cs.len()
                        &&& c.cid@ == cs[index as int].cid@
                        &&& c.cardinality == cs[index as int].cardinality
                        &&& c.category@ == cs[index as int].category@
                        &&& c.name@ == cs[index as int].name@
                    },
                    None => index as int >= cs.len(),
                }
            }),
    {
        let i = host.find_owner(self.0.0);
        if (index as usize) < host.objects[i].classes.len() {
            Some(host.objects[i].classes[index as usize].clone_info())
        } else {
            None
        }
    }
}

/// Whether some class record carries the given class identifier.
fn has_class(classes: &Vec<PClassInfo>, cid: &TUID) -> (r: bool)
    ensures
        r == exists|k: int| 0 <= k < classes@.len() && classes@[k].cid@ == cid@,
{
    let mut k: usize = 0;
    while k < classes.len()
        invariant
            k <= classes@.len(),
            forall|j: int| 0 <= j < k ==> classes@[j].cid@ != cid@,
        decreases classes@.len() - k,
    {
        if crate::funknown::FUnknownPrivate::iid_equal(&classes[k].cid, cid) {
            proof {
                assert(classes@[k as int].cid@ == cid@);
            }
            return true;
        }
        k += 1;
    }
    false
}

/// The factory dispatch table: the root table as a literal prefix, followed
/// by the factory entries.
pub struct IPluginFactoryVtable {
    /// The root contract's three entries, a literal prefix of this table.
    pub base: FUnknownVtable,
    /// Thunk forwarding to the vendor record read.
    pub get_factory_info: Thunk,
    /// Thunk forwarding to the class count.
    pub count_classes: Thunk,
    /// Thunk forwarding to the class record read.
    pub get_class_info: Thunk,
}

impl IPluginFactoryVtable {
    /// Every entry forwards to its own operation and carries the offset of
    /// the interface slot the table was built for.
    pub open spec fn wf_at(self, offset: usize) -> bool {
        &&& self.base.wf_at(offset)
        &&& self.get_factory_info == (Thunk { method: MethodId::GetFactoryInfo, offset })
        &&& self.count_classes == (Thunk { method: MethodId::CountClasses, offset })
        &&& self.get_class_info == (Thunk { method: MethodId::GetClassInfo, offset })
    }

    /// The table's operations in declaration order.
    pub open spec fn methods(self) -> Seq<MethodId> {
        self.base.methods() + seq![
            self.get_factory_info.method,
            self.count_classes.method,
            self.get_class_info.method,
        ]
    }

    /// Builds the factory dispatch table for an interface slot at `offset`
    /// inside its composite object: the root table first, then one
    /// forwarding thunk per factory operation.
    pub fn new(offset: usize) -> (r: Self)
        ensures
            r.wf_at(offset),
            r.methods() == FUnknownVtable::root_methods() + seq![
                MethodId::GetFactoryInfo,
                MethodId::CountClasses,
                MethodId::GetClassInfo,
            ],
    {
        let r = IPluginFactoryVtable {
            base: FUnknownVtable::new(offset),
            get_factory_info: Thunk { method: MethodId::GetFactoryInfo, offset },
            count_classes: Thunk { method: MethodId::CountClasses, offset },
            get_class_info: Thunk { method: MethodId::GetClassInfo, offset },
        };
        proof {
            assert(r.methods() =~= FUnknownVtable::root_methods() + seq![
                MethodId::GetFactoryInfo,
                MethodId::CountClasses,
                MethodId::GetClassInfo,
            ]);
        }
        r
    }

    /// Whether the identifier names the factory capability.
    pub fn matches(iid: &FUID) -> (r: bool)
        ensures
            r == (iid.data@ == <IPluginFactory as Interface>::iid_seq()),
    {
        *iid == IPluginFactory::iid()
    }
}

/// The factory table interprets correctly as the root table for its first
/// three entries: a literal prefix-extension.
pub proof fn lemma_ipluginfactory_vtable_prefix(v: IPluginFactoryVtable)
    ensures
        v.methods().subrange(0, 3) == v.base.methods(),
{
    assert(v.methods().subrange(0, 3) =~= v.base.methods());
}

/// Extended metadata of one class: the basic record plus class flags,
/// subcategories and version strings.
pub struct PClassInfo2 {
    /// The basic class record.
    pub base: PClassInfo,
    /// Class-level flag bits.
    pub class_flags: u32,
    /// Subcategory list, 128 bytes, zero-padded.
    pub sub_categories: Vec<u8>,
    /// Vendor name, 64 bytes, zero-padded.
    pub vendor: Vec<u8>,
    /// Class version, 64 bytes, zero-padded.
    pub version: Vec<u8>,
    /// Version of the development kit the class was built against,
    /// 64 bytes, zero-padded.
    pub sdk_version: Vec<u8>,
}

impl PClassInfo2 {
    /// The buffers have exactly their declared capacity.
    pub open spec fn wf(self) -> bool {
        &&& self.base.wf()
        &&& self.sub_categories@.len() == 128
        &&& self.vendor@.len() == 64
        &&& self.version@.len() == 64
        &&& self.sdk_version@.len() == 64
    }

    /// Builds the extended record, truncating each string to its capacity
    /// and zero-padding the remainder.
    pub fn new(
        cid: TUID,
        cardinality: i32,
        category_str: &[u8],
        name_str: &[u8],
        class_flags: u32,
        sub_categories_str: &[u8],
        vendor_str: &[u8],
        version_str: &[u8],
        sdk_version_str: &[u8],
    ) -> (r: Self)
        ensures
            r.wf(),
            r.base.cid@ == cid@,
            r.base.cardinality == cardinality,
            r.base.category@ == spec_zero_padded(category_str@, 32),
            r.base.name@ == spec_zero_padded(name_str@, 64),
            r.class_flags == class_flags,
            r.sub_categories@ == spec_zero_padded(sub_categories_str@, 128),
            r.vendor@ == spec_zero_padded(vendor_str@, 64),
            r.version@ == spec_zero_padded(version_str@, 64),
            r.sdk_version@ == spec_zero_padded(sdk_version_str@, 64),
    {
        PClassInfo2 {
            base: PClassInfo::new(cid, cardinality, category_str, name_str),
            class_flags,
            sub_categories: zero_padded(sub_categories_str, 128),
            vendor: zero_padded(vendor_str, 64),
            version: zero_padded(version_str, 64),
            sdk_version: zero_padded(sdk_version_str, 64),
        }
    }
}

/// The extended class factory capability: the factory contract plus the
/// extended class record read.
pub struct IPluginFactory2(pub FUnknown);

impl Interface for IPluginFactory2 {
    /// The extended factory capability's identifier words.
    open spec fn iid_seq() -> Seq<u8> {
        tuid_of_words(0x0007_B650, 0xF24B_4C0B, 0xA464_EDB9, 0xF00B_2ABB)
    }

    open spec fn unknown_spec() -> bool {
        true
    }

    open spec fn ptr_spec(&self) -> Ptr {
        self.0.0
    }

    fn iid() -> (r: FUID) {
        FUID::new(0x0007_B650, 0xF24B_4C0B, 0xA464_EDB9, 0xF00B_2ABB)
    }

    fn unknown() -> (r: bool) {
        true
    }

    fn as_raw(&self) -> (p: Ptr) {
        self.0.0
    }

    fn from_raw(raw: Ptr) -> (r: Self) {
        IPluginFactory2(FUnknown(raw))
    }
}

/// The extended factory dispatch table: the factory table as a literal
/// prefix, followed by the extended class record entry.
pub struct IPluginFactory2Vtable {
    /// The factory table, itself prefixed by the root table.
    pub base: IPluginFactoryVtable,
    /// Thunk forwarding to the extended class record read.
    pub get_class_info_2: Thunk,
}

impl IPluginFactory2Vtable {
    /// Every entry forwards to its own operation and carries the offset of
    /// the interface slot the table was built for.
    pub open spec fn wf_at(self, offset: usize) -> bool {
        &&& self.base.wf_at(offset)
        &&& self.get_class_info_2 == (Thunk { method: MethodId::GetClassInfo2, offset })
    }

    /// The table's operations in declaration order.
    pub open spec fn methods(self) -> Seq<MethodId> {
        self.base.methods() + seq![self.get_class_info_2.method]
    }

    /// Builds the extended factory dispatch table for an interface slot at
    /// `offset` inside its composite object.
    pub fn new(offset: usize) -> (r: Self)
        ensures
            r.wf_at(offset),
            r.methods() == FUnknownVtable::root_methods() + seq![
                MethodId::GetFactoryInfo,
                MethodId::CountClasses,
                MethodId::GetClassInfo,
                MethodId::GetClassInfo2,
            ],
    {
        let r = IPluginFactory2Vtable {
            base: IPluginFactoryVtable::new(offset),
            get_class_info_2: Thunk { method: MethodId::GetClassInfo2, offset },
        };
        proof {
            assert(r.methods() =~= FUnknownVtable::root_methods() + seq![
                MethodId::GetFactoryInfo,
                MethodId::CountClasses,
                MethodId::GetClassInfo,
                MethodId::GetClassInfo2,
            ]);
        }
        r
    }

    /// Whether the identifier names the extended factory capability or its
    /// base factory capability.
    pub fn matches(iid: &FUID) -> (r: bool)
        ensures
            r == (iid.data@ == <IPluginFactory2 as Interface>::iid_seq() || iid.data@
                == <IPluginFactory as Interface>::iid_seq()),
    {
        *iid == IPluginFactory2::iid() || *iid == IPluginFactory::iid()
    }
}

/// The extended factory table interprets correctly as the factory table for
/// its first six entries, and so as the root table for its first three:
/// prefix-extensions compose without breaking any ancestor's prefix.
pub proof fn lemma_ipluginfactory2_vtable_prefix(v: IPluginFactory2Vtable)
    ensures
        v.methods().subrange(0, 6) == v.base.methods(),
        v.methods().subrange(0, 3) == v.base.base.methods(),
{
    assert(v.methods().subrange(0, 6) =~= v.base.methods());
    assert(v.methods().subrange(0, 3) =~= v.base.base.methods());
}

impl From<IPluginBase> for FUnknown {
    /// Representation-preserving conversion to the base capability: the
    /// derived table's prefix is literally the root table, so the handle's
    /// pointer does not change.
    fn from(v: IPluginBase) -> (r: FUnknown) {
        v.0
    }
}

impl vstd::std_specs::convert::FromSpecImpl<IPluginBase> for FUnknown {
    open spec fn obeys_from_spec() -> bool {
        true
    }

    open spec fn from_spec(v: IPluginBase) -> FUnknown {
        v.0
    }
}

impl From<IPluginFactory> for FUnknown {
    /// Representation-preserving conversion to the base capability.
    fn from(v: IPluginFactory) -> (r: FUnknown) {
        v.0
    }
}

impl vstd::std_specs::convert::FromSpecImpl<IPluginFactory> for FUnknown {
    open spec fn obeys_from_spec() -> bool {
        true
    }

    open spec fn from_spec(v: IPluginFactory) -> FUnknown {
        v.0
    }
}

impl From<IPluginFactory2> for FUnknown {
    /// Representation-preserving conversion to the root capability.
    fn from(v: IPluginFactory2) -> (r: FUnknown) {
        v.0
    }
}

impl vstd::std_specs::convert::FromSpecImpl<IPluginFactory2> for FUnknown {
    open spec fn obeys_from_spec() -> bool {
        true
    }

    open spec fn from_spec(v: IPluginFactory2) -> FUnknown {
        v.0
    }
}

impl From<IPluginFactory2> for IPluginFactory {
    /// Representation-preserving conversion to the base factory capability.
    fn from(v: IPluginFactory2) -> (r: IPluginFactory) {
        IPluginFactory(v.0)
    }
}

impl vstd::std_specs::convert::FromSpecImpl<IPluginFactory2> for IPluginFactory {
    open spec fn obeys_from_spec() -> bool {
        true
    }

    open spec fn from_spec(v: IPluginFactory2) -> IPluginFactory {
        IPluginFactory(v.0)
    }
}

} // verus!
