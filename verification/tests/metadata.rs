use plugininterfaces::funknown::FUnknown;
use plugininterfaces::interface::Interface;
use plugininterfaces::ipluginbase::{
    or_flag, ClassCardinality, FactoryFlags, FactoryInfo, IPluginFactory, IPluginFactory2,
    IPluginFactory2Vtable, IPluginFactoryVtable, PClassInfo, PClassInfo2,
};
use plugininterfaces::markers::GetTUID;
use plugininterfaces::uid::{FUID, UID};
use plugininterfaces::vstaudioprocessor::{kFx, PlugType};

#[test]
fn factory_flags_values() {
    assert_eq!(FactoryFlags::NoFlags.value(), 0);
    assert_eq!(FactoryFlags::ClassesDiscardable.value(), 1);
    assert_eq!(FactoryFlags::LicenseCheck.value(), 2);
    assert_eq!(FactoryFlags::ComponentNonDiscardable.value(), 8);
    assert_eq!(FactoryFlags::Unicode.value(), 16);

    let mut flags: u32 = 0;
    flags = or_flag(flags, FactoryFlags::ClassesDiscardable);
    flags = or_flag(flags, FactoryFlags::Unicode);
    assert_eq!(flags, 17);
    // or-ing a flag twice changes nothing
    assert_eq!(or_flag(flags, FactoryFlags::Unicode), 17);
}

#[test]
fn class_cardinality_value() {
    assert_eq!(ClassCardinality::ManyInstances.value(), 0x7FFF_FFFF);
}

#[test]
fn factory_info_pads_and_truncates() {
    let info = FactoryInfo::new(b"Vendor", b"url", b"mail", 3);
    assert_eq!(info.vendor.len(), 64);
    assert_eq!(&info.vendor[0..6], b"Vendor");
    assert!(info.vendor[6..].iter().all(|b| *b == 0));
    assert_eq!(info.url.len(), 256);
    assert_eq!(info.email.len(), 128);
    assert_eq!(info.flags, 3);

    // input longer than capacity is truncated at the capacity
    let long = [0x41u8; 300];
    let info2 = FactoryInfo::new(&long, &long, &long, 0);
    assert_eq!(info2.vendor.len(), 64);
    assert!(info2.vendor.iter().all(|b| *b == 0x41));
    assert_eq!(info2.url.len(), 256);
    assert!(info2.url.iter().all(|b| *b == 0x41));
}

#[test]
fn class_info_pads_and_truncates() {
    let cid = UID::to_tuid(1, 2, 3, 4);
    let c = PClassInfo::new(cid, 0x7FFF_FFFF, b"Audio Module Class", b"Gain");
    assert_eq!(c.cid, cid);
    assert_eq!(c.cardinality, 0x7FFF_FFFF);
    assert_eq!(c.category.len(), 32);
    assert_eq!(&c.category[0..18], b"Audio Module Class");
    assert!(c.category[18..].iter().all(|b| *b == 0));
    assert_eq!(c.name.len(), 64);
    assert_eq!(&c.name[0..4], b"Gain");

    let long = [0x42u8; 100];
    let t = PClassInfo::new(cid, 1, &long, &long);
    assert_eq!(t.category.len(), 32);
    assert!(t.category.iter().all(|b| *b == 0x42));
    assert_eq!(t.name.len(), 64);
    assert!(t.name.iter().all(|b| *b == 0x42));
}

#[test]
fn class_info_2_carries_extended_fields() {
    let cid = UID::to_tuid(9, 8, 7, 6);
    let c = PClassInfo2::new(
        cid,
        0x7FFF_FFFF,
        b"Audio Module Class",
        b"Gain",
        2,
        b"Fx|Dynamics",
        b"Vendor",
        b"1.0.0",
        b"VST 3.7",
    );
    assert_eq!(c.base.cid, cid);
    assert_eq!(c.class_flags, 2);
    assert_eq!(c.sub_categories.len(), 128);
    assert_eq!(&c.sub_categories[0..11], b"Fx|Dynamics");
    assert_eq!(c.vendor.len(), 64);
    assert_eq!(&c.vendor[0..6], b"Vendor");
    assert_eq!(c.version.len(), 64);
    assert_eq!(&c.version[0..5], b"1.0.0");
    assert_eq!(c.sdk_version.len(), 64);
    assert_eq!(&c.sdk_version[0..7], b"VST 3.7");
}

#[test]
fn factory_matches_only_its_own_identifier() {
    assert!(IPluginFactoryVtable::matches(&IPluginFactory::iid()));
    assert!(!IPluginFactoryVtable::matches(&FUnknown::iid()));
    assert!(!IPluginFactoryVtable::matches(&IPluginFactory2::iid()));

    // the extended factory serves both its own and its base identifier
    assert!(IPluginFactory2Vtable::matches(&IPluginFactory2::iid()));
    assert!(IPluginFactory2Vtable::matches(&IPluginFactory::iid()));
    assert!(!IPluginFactory2Vtable::matches(&FUnknown::iid()));
}

#[test]
fn get_tuid_recovers_declared_identifier() {
    let t = GetTUID::<FUnknown>::get_tuid();
    assert_eq!(t, UID::to_tuid(0x0000_0000, 0x0000_0000, 0xC000_0000, 0x0000_0046));
    assert!(FUID::from(t) == FUnknown::iid());

    let f = GetTUID::<IPluginFactory>::get_tuid();
    assert_eq!(f, UID::to_tuid(0x7A4D_811C, 0x5211_4A1F, 0xAED9_D2EE, 0x0B43_BF9F));
}

#[test]
fn plug_type_names() {
    assert_eq!(PlugType::kFx.as_str(), "Fx");
    assert_eq!(kFx::Analyzer.as_str(), "Fx|Analyzer");
    assert_eq!(kFx::ChannelStrip.as_str(), "Fx|Channel Strip");
    assert_eq!(kFx::Dynamics.as_str(), "Fx|Dynamics");
    assert_eq!(kFx::PitchShift.as_str(), "Fx|Pitch Shift");
    assert_eq!(kFx::Vocals.as_str(), "Fx|Vocals");
}
