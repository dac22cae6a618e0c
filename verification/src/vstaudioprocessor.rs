//! Names of plugin component types, used as category and subcategory
//! strings in extended class records.

use vstd::prelude::*;

verus! {

/// Namespace for the component-type names used as subcategories in extended
/// class records.
pub struct PlugTypeName;

/// Subcategories of effect components.
#[allow(non_camel_case_types)]
pub enum kFx {
    /// Scope, FFT display and other analyzers.
    Analyzer,
    /// Tools dedicated to bass guitar.
    Bass,
    /// Channel strips.
    ChannelStrip,
    /// Delays and echoes.
    Delay,
    /// Amp simulators and other distortion.
    Distortion,
    /// Tools dedicated to drums.
    Drums,
    /// Compressors, expanders, gates and limiters.
    Dynamics,
    /// Equalizers.
    EQ,
    /// Filters.
    Filter,
    /// Tone and signal generators.
    Generator,
    /// Tools dedicated to guitar.
    Guitar,
    /// Effects hosting an instrument.
    Instrument,
    /// Effects hosting an external instrument.
    InstrumentExternal,
    /// Mastering processors.
    Mastering,
    /// Microphone processors.
    Microphone,
    /// Chorus, flanger, phaser and other modulation.
    Modulation,
    /// Networked effects.
    Network,
    /// Pitch shifters.
    PitchShift,
    /// Denoisers and other restoration tools.
    Restoration,
    /// Reverbs.
    Reverb,
    /// Panners and other spatial processors.
    Spatial,
    /// Surround processors.
    Surround,
    /// Utility tools.
    Tools,
    /// Vocal processors.
    Vocals,
}

impl kFx {
    /// The subcategory's name string.
    pub open spec fn spec_name(self) -> Seq<char> {
        match self {
            kFx::Analyzer => "Fx|Analyzer"@,
            kFx::Bass => "Fx|Bass"@,
            kFx::ChannelStrip => "Fx|Channel Strip"@,
            kFx::Delay => "Fx|Delay"@,
            kFx::Distortion => "Fx|Distortion"@,
            kFx::Drums => "Fx|Drums"@,
            kFx::Dynamics => "Fx|Dynamics"@,
            kFx::EQ => "Fx|Eq"@,
            kFx::Filter => "Fx|Filter"@,
            kFx::Generator => "Fx|Generator"@,
            kFx::Guitar => "Fx|Guitar"@,
            kFx::Instrument => "Fx|Instrument"@,
            kFx::InstrumentExternal => "Fx|Instrument|External"@,
            kFx::Mastering => "Fx|Mastering"@,
            kFx::Microphone => "Fx|Microphone"@,
            kFx::Modulation => "Fx|Modulation"@,
            kFx::Network => "Fx|Network"@,
            kFx::PitchShift => "Fx|Pitch Shift"@,
            kFx::Restoration => "Fx|Restoration"@,
            kFx::Reverb => "Fx|Reverb"@,
            kFx::Spatial => "Fx|Spatial"@,
            kFx::Surround => "Fx|Surround"@,
            kFx::Tools => "Fx|Tools"@,
            kFx::Vocals => "Fx|Vocals"@,
        }
    }

    /// Returns the subcategory's name string.
    pub fn as_str(&self) -> (r: &'static str)
        ensures
            r@ == self.spec_name(),
    {
        match self {
            kFx::Analyzer => "Fx|Analyzer",
            kFx::Bass => "Fx|Bass",
            kFx::ChannelStrip => "Fx|Channel Strip",
            kFx::Delay => "Fx|Delay",
            kFx::Distortion => "Fx|Distortion",
            kFx::Drums => "Fx|Drums",
            kFx::Dynamics => "Fx|Dynamics",
            kFx::EQ => "Fx|Eq",
            kFx::Filter => "Fx|Filter",
            kFx::Generator => "Fx|Generator",
            kFx::Guitar => "Fx|Guitar",
            kFx::Instrument => "Fx|Instrument",
            kFx::InstrumentExternal => "Fx|Instrument|External",
            kFx::Mastering => "Fx|Mastering",
            kFx::Microphone => "Fx|Microphone",
            kFx::Modulation => "Fx|Modulation",
            kFx::Network => "Fx|Network",
            kFx::PitchShift => "Fx|Pitch Shift",
            kFx::Restoration => "Fx|Restoration",
            kFx::Reverb => "Fx|Reverb",
            kFx::Spatial => "Fx|Spatial",
            kFx::Surround => "Fx|Surround",
            kFx::Tools => "Fx|Tools",
            kFx::Vocals => "Fx|Vocals",
        }
    }
}

/// The component types a class can declare.
#[allow(non_camel_case_types)]
pub enum PlugType {
    /// An audio effect component.
    kFx,
}

impl PlugType {
    /// The component type's name string.
    pub open spec fn spec_name(self) -> Seq<char> {
        match self {
            PlugType::kFx => "Fx"@,
        }
    }

    /// Returns the component type's name string.
    pub fn as_str(&self) -> (r: &'static str)
        ensures
            r@ == self.spec_name(),
    {
        match self {
            PlugType::kFx => "Fx",
        }
    }
}

} // verus!
