use plugininterfaces::funknown::{FUnknown, FUnknownVtable};
use plugininterfaces::host::Host;
use plugininterfaces::interface::{cast, query, EInterface, Interface, InterfaceRef, MarkerCapability};
use plugininterfaces::ipluginbase::{
    FactoryInfo, IPluginBase, IPluginBaseVtable, IPluginFactory, IPluginFactory2,
    IPluginFactory2Vtable, IPluginFactoryVtable, PClassInfo,
};
use plugininterfaces::uid::FUID;
use plugininterfaces::vtable::{dispatch_add_ref, dispatch_initialize, dispatch_query_interface, dispatch_release, dispatch_terminate};

fn empty_info() -> FactoryInfo {
    FactoryInfo::new(b"", b"", b"", 0)
}

/// One object exposing the root capability at offset 0 and the plugin-base
/// capability at offset 1.
fn composite(host: &mut Host) -> usize {
    host.create_object(
        vec![FUnknown::iid(), IPluginBase::iid()],
        empty_info(),
        Vec::new(),
    )
}

#[test]
fn identity_rule_same_object() {
    let mut host = Host::new();
    let base = composite(&mut host);

    // a second handle on the same object, through the plugin-base interface
    let p1 = host
        .query_interface(base, &IPluginBase::iid())
        .ok()
        .expect("the object exposes the plugin base");
    assert_eq!(p1, base + 1);
    assert_ne!(p1, base);

    // querying the root capability from both handles yields pointer-identical
    // results
    let r0 = host
        .query_interface(base, &FUnknown::iid())
        .ok()
        .expect("the object exposes the root capability");
    let r1 = host
        .query_interface(p1, &FUnknown::iid())
        .ok()
        .expect("the object exposes the root capability");
    assert_eq!(r0, r1);
    assert_eq!(r0, base);

    // the equality check canonicalizes the same way
    let a = FUnknown(base);
    let b = FUnknown(p1);
    assert!(a.same_object(&b, &mut host));

    // a handle on a different object is not the same object
    let other = composite(&mut host);
    let c = FUnknown(other);
    assert!(!a.same_object(&c, &mut host));
    assert!(c.same_object(&c, &mut host));
}

#[test]
fn refcount_discipline_destroys_exactly_once() {
    let mut host = Host::new();
    let base = composite(&mut host);
    let h = FUnknown(base);
    assert_eq!(host.ref_count_of(base), 1);

    // three duplications
    let d1 = h.duplicate(&mut host);
    let d2 = h.duplicate(&mut host);
    let d3 = h.duplicate(&mut host);
    assert_eq!(host.ref_count_of(base), 4);
    assert!(host.is_alive(base));

    // fewer releases than increments never destroy
    assert_eq!(d1.release(&mut host), 3);
    assert!(host.is_alive(base));
    assert_eq!(d2.release(&mut host), 2);
    assert!(host.is_alive(base));
    assert_eq!(d3.release(&mut host), 1);
    assert!(host.is_alive(base));

    // the final release drives the count to zero and destroys, exactly once
    assert_eq!(h.release(&mut host), 0);
    assert!(!host.is_alive(base));
}

#[test]
fn cast_failure_leaves_source_untouched() {
    let mut host = Host::new();
    // this object exposes only the root capability
    let base = host.create_object(vec![FUnknown::iid()], empty_info(), Vec::new());
    let h = FUnknown(base);

    // unsupported capability: BadCast, no count moved, handle still valid
    let r: Result<IPluginBase, EInterface> = cast(&mut host, &h);
    assert!(matches!(r, Err(EInterface::BadCast)));
    assert_eq!(host.ref_count_of(base), 1);
    assert!(host.is_alive(base));

    // a marker-only capability cannot query at all: BadQuery, nothing moves
    let m = MarkerCapability(base);
    let r2: Result<FUnknown, EInterface> = cast(&mut host, &m);
    assert!(matches!(r2, Err(EInterface::BadQuery)));
    assert_eq!(host.ref_count_of(base), 1);
    assert!(host.is_alive(base));

    // the same object still casts fine to a capability it has
    let ok: Result<FUnknown, EInterface> = cast(&mut host, &h);
    let dup = ok.ok().expect("the root capability is always exposed");
    assert_eq!(dup.as_raw(), base);
    assert_eq!(host.ref_count_of(base), 2);
    assert_eq!(dup.release(&mut host), 1);
}

#[test]
fn query_leaves_out_slot_untouched_on_failure() {
    let mut host = Host::new();
    let base = host.create_object(vec![FUnknown::iid()], empty_info(), Vec::new());
    let h = FUnknown(base);

    let mut slot: Option<usize> = None;
    let r = query(&mut host, &h, &IPluginBase::iid(), &mut slot);
    assert!(matches!(r, Err(EInterface::BadCast)));
    assert!(slot.is_none());

    let r2 = query(&mut host, &h, &FUnknown::iid(), &mut slot);
    assert!(r2.is_ok());
    assert_eq!(slot, Some(base));
    assert_eq!(host.ref_count_of(base), 2);
    assert_eq!(host.release(base), 1);
}

#[test]
fn composite_dispatch_reaches_shared_state() {
    let mut host = Host::new();
    let base = composite(&mut host);

    // interface A (root) at offset 0, interface B (plugin base) at offset 1
    let vt_a = FUnknownVtable::new(0);
    let vt_b = IPluginBaseVtable::new(1);

    // the reference count is shared state: increments through either
    // interface's table observe each other
    assert_eq!(dispatch_add_ref(&mut host, base, &vt_a.add_ref), 2);
    assert_eq!(dispatch_add_ref(&mut host, base + 1, &vt_b.base.add_ref), 3);
    assert_eq!(dispatch_release(&mut host, base + 1, &vt_b.base.release), 2);
    assert_eq!(dispatch_release(&mut host, base, &vt_a.release), 1);

    // initialization through B's table is observable at A's address
    assert!(!host.is_initialized(base));
    let first = dispatch_initialize(&mut host, base + 1, &vt_b.initialize);
    assert!(first.is_ok());
    assert!(host.is_initialized(base));

    // a second initialization sees the shared flag and fails
    let second = dispatch_initialize(&mut host, base + 1, &vt_b.initialize);
    assert!(matches!(second, Err(EInterface::InitFailed)));

    dispatch_terminate(&mut host, base + 1, &vt_b.terminate);
    assert!(!host.is_initialized(base));

    // the query thunk reaches the same object from either slot
    let r0 = dispatch_query_interface(&mut host, base, &vt_a.query_interface, &FUnknown::iid());
    let r1 = dispatch_query_interface(
        &mut host,
        base + 1,
        &vt_b.base.query_interface,
        &FUnknown::iid(),
    );
    let p0 = r0.ok().expect("the root capability is always exposed");
    let p1 = r1.ok().expect("the root capability is always exposed");
    assert_eq!(p0, p1);
    assert_eq!(host.release(p0), 2);
    assert_eq!(host.release(p1), 1);
}

#[test]
fn error_messages() {
    assert_eq!(EInterface::BadCast.message(), "Bad interface cast");
    assert_eq!(EInterface::BadQuery.message(), "Bad interface query");
    assert_eq!(
        EInterface::Pointer.message(),
        "Tried to write interface to null-pointer"
    );
    assert_eq!(
        EInterface::InitFailed.message(),
        "IPluginBase initialization failed"
    );
}

#[test]
fn initialize_and_terminate_through_handle() {
    let mut host = Host::new();
    let base = composite(&mut host);
    let pb: IPluginBase = {
        let h = FUnknown(base);
        cast(&mut host, &h).ok().expect("the object exposes the plugin base")
    };
    assert_eq!(pb.as_raw(), base + 1);

    let context = base; // any live pointer serves as the host context
    assert!(pb.initialize(&mut host, context).is_ok());
    assert!(host.is_initialized(base));
    assert!(matches!(
        pb.initialize(&mut host, context),
        Err(EInterface::InitFailed)
    ));
    pb.terminate(&mut host);
    assert!(!host.is_initialized(base));
}

#[test]
fn borrowed_reference_upgrades_by_increment() {
    let mut host = Host::new();
    let base = composite(&mut host);
    let h = FUnknown(base);

    // the borrowed view costs no reference count
    let view = InterfaceRef::from_interface(&h);
    assert_eq!(host.ref_count_of(base), 1);

    // upgrading applies the normal increment rule
    let owned: FUnknown = view.to_owned(&mut host);
    assert_eq!(owned.as_raw(), base);
    assert_eq!(host.ref_count_of(base), 2);
    assert_eq!(owned.release(&mut host), 1);
}

#[test]
fn hierarchy_conversions_preserve_representation() {
    let mut host = Host::new();
    let base = host.create_object(
        vec![FUnknown::iid(), IPluginFactory::iid(), IPluginFactory2::iid()],
        empty_info(),
        Vec::new(),
    );
    let h = FUnknown(base);
    let f2: IPluginFactory2 = cast(&mut host, &h)
        .ok()
        .expect("the object exposes the extended factory");
    assert_eq!(f2.as_raw(), base + 2);

    let ptr = f2.as_raw();
    let f1: IPluginFactory = IPluginFactory::from(f2);
    assert_eq!(f1.as_raw(), ptr);
    let root: FUnknown = FUnknown::from(f1);
    assert_eq!(root.as_raw(), ptr);
    assert_eq!(root.release(&mut host), 1);
}

#[test]
fn create_instance_by_class_id() {
    let mut host = Host::new();
    let cid = FUID::new(0x1234_5678, 1, 2, 3).data;
    let classes = vec![PClassInfo::new(cid, 0x7FFF_FFFF, b"Audio Module Class", b"Gain")];
    let base = host.create_object(
        vec![FUnknown::iid(), IPluginFactory::iid()],
        empty_info(),
        classes,
    );
    let h = FUnknown(base);
    let factory: IPluginFactory = cast(&mut host, &h)
        .ok()
        .expect("the object exposes the factory");

    // an unknown class identifier creates nothing
    let missing = FUID::new(0, 0, 0, 1).data;
    let r: Result<IPluginBase, EInterface> =
        factory.create_instance(&mut host, missing, &IPluginBase::iid());
    assert!(matches!(r, Err(EInterface::BadCast)));

    // the known class identifier yields a fresh object, count 1, exposing
    // the requested capability beside the root capability
    let inst: IPluginBase = factory
        .create_instance(&mut host, cid, &IPluginBase::iid())
        .ok()
        .expect("the class identifier is known");
    let p = inst.as_raw();
    assert_eq!(host.ref_count_of(p), 1);
    assert!(host.is_alive(p));
    let root: FUnknown = cast(&mut host, &inst)
        .ok()
        .expect("every created instance answers the root query");
    assert_eq!(host.ref_count_of(p), 2);
    assert_eq!(root.release(&mut host), 1);
}

#[test]
fn vtables_carry_their_offset_and_order() {
    let root = FUnknownVtable::new(5);
    assert_eq!(root.query_interface.offset, 5);
    assert_eq!(root.add_ref.offset, 5);
    assert_eq!(root.release.offset, 5);

    let base = IPluginBaseVtable::new(1);
    assert_eq!(base.base.query_interface.offset, 1);
    assert_eq!(base.initialize.offset, 1);
    assert_eq!(base.terminate.offset, 1);

    let factory = IPluginFactoryVtable::new(2);
    assert_eq!(factory.base.release.offset, 2);
    assert_eq!(factory.get_factory_info.offset, 2);
    assert_eq!(factory.count_classes.offset, 2);
    assert_eq!(factory.get_class_info.offset, 2);

    let factory2 = IPluginFactory2Vtable::new(3);
    assert_eq!(factory2.base.base.add_ref.offset, 3);
    assert_eq!(factory2.get_class_info_2.offset, 3);
}

#[test]
fn factory_enumerates_its_classes() {
    let mut host = Host::new();
    let info = FactoryInfo::new(b"Vendor", b"https://vendor.example", b"devs@vendor.example", 16);
    let cid = FUID::new(1, 2, 3, 4).data;
    let classes = vec![
        PClassInfo::new(cid, 0x7FFF_FFFF, b"Audio Module Class", b"Gain"),
        PClassInfo::new(cid, 0x7FFF_FFFF, b"Audio Module Class", b"Echo"),
    ];
    let base = host.create_object(
        vec![FUnknown::iid(), IPluginFactory::iid()],
        info,
        classes,
    );
    let h = FUnknown(base);
    let factory: IPluginFactory = cast(&mut host, &h)
        .ok()
        .expect("the object exposes the factory");

    let got = factory.get_factory_info(&host);
    let mut vendor = b"Vendor".to_vec();
    vendor.resize(64, 0);
    assert_eq!(got.vendor, vendor);
    assert_eq!(got.flags, 16);
    assert_eq!(got.url.len(), 256);
    assert_eq!(got.email.len(), 128);

    assert_eq!(factory.count_classes(&host), 2);

    let c0 = factory.get_class_info(&host, 0).expect("index 0 is in range");
    assert_eq!(c0.cid, cid);
    assert_eq!(c0.cardinality, 0x7FFF_FFFF);
    let mut name = b"Gain".to_vec();
    name.resize(64, 0);
    assert_eq!(c0.name, name);

    let c1 = factory.get_class_info(&host, 1).expect("index 1 is in range");
    let mut name1 = b"Echo".to_vec();
    name1.resize(64, 0);
    assert_eq!(c1.name, name1);

    assert!(factory.get_class_info(&host, 2).is_none());
    assert_eq!(FUnknown::from(factory).release(&mut host), 1);
}
