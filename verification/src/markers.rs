//! Explicit, opt-in capability markers: a type declares that it carries an
//! interface identifier by implementing a marker trait — there is no
//! implicit detection from overlapping implementations.

use vstd::prelude::*;
use crate::funknown::FUnknown;
use crate::interface::{Interface, MarkerCapability};
use crate::ipluginbase::{IPluginBase, IPluginFactory, IPluginFactory2};
use crate::uid::TUID;

verus! {

/// Marker for types that declare an identifier member; a capability type
/// opts in explicitly by implementing it.
pub trait HasIIDType {

}

/// Type-level truth.
pub struct True;

/// Type-level falsehood.
pub struct False;

/// The type-level booleans.
pub trait BoolType {

}

impl BoolType for True {

}

impl BoolType for False {

}

/// Type-level booleans that are true.
pub trait TrueType: BoolType {

}

impl TrueType for True {

}

/// Type-level booleans that are false.
pub trait FalseType: BoolType {

}

impl FalseType for False {

}

/// Tells, as a type-level boolean, whether a type declares an identifier
/// member; each capability type opts in explicitly.
pub trait HasIIDTypeMarker {
    /// `True` exactly when the type declares an identifier member.
    type HasIID: BoolType;
}

/// Types whose identifier is reachable through a declared member.
pub trait HasIIDMemberVariable {

}

/// Types whose identifier is reachable through a member function rather
/// than a declared member.
pub trait HasIIDMemberFunction {

}

impl HasIIDType for FUnknown {

}

impl HasIIDTypeMarker for FUnknown {
    type HasIID = True;
}

impl HasIIDMemberVariable for FUnknown {

}

impl HasIIDType for IPluginBase {

}

impl HasIIDTypeMarker for IPluginBase {
    type HasIID = True;
}

impl HasIIDMemberVariable for IPluginBase {

}

impl HasIIDType for IPluginFactory {

}

impl HasIIDTypeMarker for IPluginFactory {
    type HasIID = True;
}

impl HasIIDMemberVariable for IPluginFactory {

}

impl HasIIDType for IPluginFactory2 {

}

impl HasIIDTypeMarker for IPluginFactory2 {
    type HasIID = True;
}

impl HasIIDMemberVariable for IPluginFactory2 {

}

impl HasIIDType for MarkerCapability {

}

impl HasIIDTypeMarker for MarkerCapability {
    type HasIID = True;
}

impl HasIIDMemberVariable for MarkerCapability {

}

/// Recovers the declared identifier of a capability type that opted in.
pub struct GetTUID<T>(core::marker::PhantomData<T>);

impl<T: Interface + HasIIDType> GetTUID<T> {
    /// The declared identifier's bytes.
    pub fn get_tuid() -> (r: TUID)
        ensures
            r@ == T::iid_seq(),
    {
        T::iid().data
    }
}

} // verus!
