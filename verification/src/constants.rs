//! Code values of the USB Audio Class 2.0 specification (its appendix A)
//! and of the terminal-type and audio-data-format documents, as enums whose
//! `value` method gives the code.

use vstd::prelude::*;

verus! {

/// Audio interface class code.
pub const AUDIO: u8 = 0x1;
/// Class-specific AC interface header subtype.
pub const HEADER: u8 = 0x1;
/// The USB interface class code of audio functions.
pub const USB_CLASS_AUDIO: u8 = 0x1;

/// A.2 Audio Function Subclass Codes
#[derive(Clone, Copy, Debug, PartialEq, Eq, Structural, Hash)]
pub enum FunctionSubclass {
    Undefined,
}

impl FunctionSubclass {
    /// The code that stands for this value.
    pub open spec fn spec_value(self) -> u8 {
        match self {
            FunctionSubclass::Undefined => 0x00,
        }
    }

    /// The code that stands for this value.
    pub fn value(&self) -> (r: u8)
        ensures
            r == self.spec_value(),
    {
        match self {
            FunctionSubclass::Undefined => 0x00,
        }
    }
}

/// A.3 Audio Function Protocol Codes
#[derive(Clone, Copy, Debug, PartialEq, Eq, Structural, Hash)]
pub enum FunctionProtocol {
    Undefined,
    Version2,
}

impl FunctionProtocol {
    /// The code that stands for this value.
    pub open spec fn spec_value(self) -> u8 {
        match self {
            FunctionProtocol::Undefined => 0x00,
            FunctionProtocol::Version2 => 0x20,
        }
    }

    /// The code that stands for this value.
    pub fn value(&self) -> (r: u8)
        ensures
            r == self.spec_value(),
    {
        match self {
            FunctionProtocol::Undefined => 0x00,
            FunctionProtocol::Version2 => 0x20,
        }
    }
}

/// A.5 Audio Interface Subclass Codes
#[derive(Clone, Copy, Debug, PartialEq, Eq, Structural, Hash)]
pub enum InterfaceSubclass {
    Undefined,
    AudioControl,
    AudioStreaming,
    MidiStreaming,
}

impl InterfaceSubclass {
    /// The code that stands for this value.
    pub open spec fn spec_value(self) -> u8 {
        match self {
            InterfaceSubclass::Undefined => 0x00,
            InterfaceSubclass::AudioControl => 0x01,
            InterfaceSubclass::AudioStreaming => 0x02,
            InterfaceSubclass::MidiStreaming => 0x03,
        }
    }

    /// The code that stands for this value.
    pub fn value(&self) -> (r: u8)
        ensures
            r == self.spec_value(),
    {
        match self {
            InterfaceSubclass::Undefined => 0x00,
            InterfaceSubclass::AudioControl => 0x01,
            InterfaceSubclass::AudioStreaming => 0x02,
            InterfaceSubclass::MidiStreaming => 0x03,
        }
    }
}

/// A.6 Audio Interface Protocol Codes
#[derive(Clone, Copy, Debug, PartialEq, Eq, Structural, Hash)]
pub enum InterfaceProtocol {
    Undefined,
    Version2,
}

impl InterfaceProtocol {
    /// The code that stands for this value.
    pub open spec fn spec_value(self) -> u8 {
        match self {
            InterfaceProtocol::Undefined => 0x00,
            InterfaceProtocol::Version2 => 0x20,
        }
    }

    /// The code that stands for this value.
    pub fn value(&self) -> (r: u8)
        ensures
            r == self.spec_value(),
    {
        match self {
            InterfaceProtocol::Undefined => 0x00,
            InterfaceProtocol::Version2 => 0x20,
        }
    }
}

/// A.7 Audio Function Category Codes
#[derive(Clone, Copy, Debug, PartialEq, Eq, Structural, Hash)]
pub enum FunctionCode {
    Undefined,
    DesktopSpeaker,
    HomeTheater,
    Microphone,
    Headset,
    Telephone,
    Converter,
    SoundRecorder,
    IoBox,
    MusicalInstrument,
    ProAudio,
    AudioVideo,
    ControlPanel,
    Other,
}

impl FunctionCode {
    /// The code that stands for this value.
    pub open spec fn spec_value(self) -> u8 {
        match self {
            FunctionCode::Undefined => 0x00,
            FunctionCode::DesktopSpeaker => 0x01,
            FunctionCode::HomeTheater => 0x02,
            FunctionCode::Microphone => 0x03,
            FunctionCode::Headset => 0x04,
            FunctionCode::Telephone => 0x05,
            FunctionCode::Converter => 0x06,
            FunctionCode::SoundRecorder => 0x07,
            FunctionCode::IoBox => 0x08,
            FunctionCode::MusicalInstrument => 0x09,
            FunctionCode::ProAudio => 0x0a,
            FunctionCode::AudioVideo => 0x0b,
            FunctionCode::ControlPanel => 0x0c,
            FunctionCode::Other => 0xff,
        }
    }

    /// The code that stands for this value.
    pub fn value(&self) -> (r: u8)
        ensures
            r == self.spec_value(),
    {
        match self {
            FunctionCode::Undefined => 0x00,
            FunctionCode::DesktopSpeaker => 0x01,
            FunctionCode::HomeTheater => 0x02,
            FunctionCode::Microphone => 0x03,
            FunctionCode::Headset => 0x04,
            FunctionCode::Telephone => 0x05,
            FunctionCode::Converter => 0x06,
            FunctionCode::SoundRecorder => 0x07,
            FunctionCode::IoBox => 0x08,
            FunctionCode::MusicalInstrument => 0x09,
            FunctionCode::ProAudio => 0x0a,
            FunctionCode::AudioVideo => 0x0b,
            FunctionCode::ControlPanel => 0x0c,
            FunctionCode::Other => 0xff,
        }
    }
}

/// A.8 Audio Class-Specific Descriptor Types
#[derive(Clone, Copy, Debug, PartialEq, Eq, Structural, Hash)]
pub enum ClassSpecificDescriptorType {
    Undefined,
    Device,
    Configuration,
    String,
    Interface,
    Endpoint,
}

impl ClassSpecificDescriptorType {
    /// The code that stands for this value.
    pub open spec fn spec_value(self) -> u8 {
        match self {
            ClassSpecificDescriptorType::Undefined => 0x20,
            ClassSpecificDescriptorType::Device => 0x21,
            ClassSpecificDescriptorType::Configuration => 0x22,
            ClassSpecificDescriptorType::String => 0x23,
            ClassSpecificDescriptorType::Interface => 0x24,
            ClassSpecificDescriptorType::Endpoint => 0x25,
        }
    }

    /// The code that stands for this value.
    pub fn value(&self) -> (r: u8)
        ensures
            r == self.spec_value(),
    {
        match self {
            ClassSpecificDescriptorType::Undefined => 0x20,
            ClassSpecificDescriptorType::Device => 0x21,
            ClassSpecificDescriptorType::Configuration => 0x22,
            ClassSpecificDescriptorType::String => 0x23,
            ClassSpecificDescriptorType::Interface => 0x24,
            ClassSpecificDescriptorType::Endpoint => 0x25,
        }
    }
}

/// A.9 Audio Class-Specific AC Interface Descriptor Subtypes
#[derive(Clone, Copy, Debug, PartialEq, Eq, Structural, Hash)]
pub enum ClassSpecificACInterfaceDescriptorSubtype {
    Undefined,
    Header,
    InputTerminal,
    OutputTerminal,
    MixerUnit,
    SelectorUnit,
    FeatureUnit,
    EffectUnit,
    ProcessingUnit,
    ExtensionUnit,
    ClockSource,
    ClockSelector,
    ClockMultiplier,
    SampleRateConverter,
}

impl ClassSpecificACInterfaceDescriptorSubtype {
    /// The code that stands for this value.
    pub open spec fn spec_value(self) -> u8 {
        match self {
            ClassSpecificACInterfaceDescriptorSubtype::Undefined => 0x00,
            ClassSpecificACInterfaceDescriptorSubtype::Header => 0x01,
            ClassSpecificACInterfaceDescriptorSubtype::InputTerminal => 0x02,
            ClassSpecificACInterfaceDescriptorSubtype::OutputTerminal => 0x03,
            ClassSpecificACInterfaceDescriptorSubtype::MixerUnit => 0x04,
            ClassSpecificACInterfaceDescriptorSubtype::SelectorUnit => 0x05,
            ClassSpecificACInterfaceDescriptorSubtype::FeatureUnit => 0x06,
            ClassSpecificACInterfaceDescriptorSubtype::EffectUnit => 0x07,
            ClassSpecificACInterfaceDescriptorSubtype::ProcessingUnit => 0x08,
            ClassSpecificACInterfaceDescriptorSubtype::ExtensionUnit => 0x09,
            ClassSpecificACInterfaceDescriptorSubtype::ClockSource => 0x0a,
            ClassSpecificACInterfaceDescriptorSubtype::ClockSelector => 0x0b,
            ClassSpecificACInterfaceDescriptorSubtype::ClockMultiplier => 0x0c,
            ClassSpecificACInterfaceDescriptorSubtype::SampleRateConverter => 0x0d,
        }
    }

    /// The code that stands for this value.
    pub fn value(&self) -> (r: u8)
        ensures
            r == self.spec_value(),
    {
        match self {
            ClassSpecificACInterfaceDescriptorSubtype::Undefined => 0x00,
            ClassSpecificACInterfaceDescriptorSubtype::Header => 0x01,
            ClassSpecificACInterfaceDescriptorSubtype::InputTerminal => 0x02,
            ClassSpecificACInterfaceDescriptorSubtype::OutputTerminal => 0x03,
            ClassSpecificACInterfaceDescriptorSubtype::MixerUnit => 0x04,
            ClassSpecificACInterfaceDescriptorSubtype::SelectorUnit => 0x05,
            ClassSpecificACInterfaceDescriptorSubtype::FeatureUnit => 0x06,
            ClassSpecificACInterfaceDescriptorSubtype::EffectUnit => 0x07,
            ClassSpecificACInterfaceDescriptorSubtype::ProcessingUnit => 0x08,
            ClassSpecificACInterfaceDescriptorSubtype::ExtensionUnit => 0x09,
            ClassSpecificACInterfaceDescriptorSubtype::ClockSource => 0x0a,
            ClassSpecificACInterfaceDescriptorSubtype::ClockSelector => 0x0b,
            ClassSpecificACInterfaceDescriptorSubtype::ClockMultiplier => 0x0c,
            ClassSpecificACInterfaceDescriptorSubtype::SampleRateConverter => 0x0d,
        }
    }
}

/// A.10 Audio Class-Specific AS Interface Descriptor Subtypes
#[derive(Clone, Copy, Debug, PartialEq, Eq, Structural, Hash)]
pub enum ClassSpecificASInterfaceDescriptorSubtype {
    Undefined,
    General,
    FormatType,
    Encoder,
    Decoder,
}

impl ClassSpecificASInterfaceDescriptorSubtype {
    /// The code that stands for this value.
    pub open spec fn spec_value(self) -> u8 {
        match self {
            ClassSpecificASInterfaceDescriptorSubtype::Undefined => 0x00,
            ClassSpecificASInterfaceDescriptorSubtype::General => 0x01,
            ClassSpecificASInterfaceDescriptorSubtype::FormatType => 0x02,
            ClassSpecificASInterfaceDescriptorSubtype::Encoder => 0x03,
            ClassSpecificASInterfaceDescriptorSubtype::Decoder => 0x04,
        }
    }

    /// The code that stands for this value.
    pub fn value(&self) -> (r: u8)
        ensures
            r == self.spec_value(),
    {
        match self {
            ClassSpecificASInterfaceDescriptorSubtype::Undefined => 0x00,
            ClassSpecificASInterfaceDescriptorSubtype::General => 0x01,
            ClassSpecificASInterfaceDescriptorSubtype::FormatType => 0x02,
            ClassSpecificASInterfaceDescriptorSubtype::Encoder => 0x03,
            ClassSpecificASInterfaceDescriptorSubtype::Decoder => 0x04,
        }
    }
}

/// A.11 Effect Unit Effect Types
#[derive(Clone, Copy, Debug, PartialEq, Eq, Structural, Hash)]
pub enum EffectUnitEffectType {
    Undefined,
    ParamEqSection,
    Reverb,
    ModDelay,
    DynRangeComp,
}

impl EffectUnitEffectType {
    /// The code that stands for this value.
    pub open spec fn spec_value(self) -> u8 {
        match self {
            EffectUnitEffectType::Undefined => 0x00,
            EffectUnitEffectType::ParamEqSection => 0x01,
            EffectUnitEffectType::Reverb => 0x02,
            EffectUnitEffectType::ModDelay => 0x03,
            EffectUnitEffectType::DynRangeComp => 0x04,
        }
    }

    /// The code that stands for this value.
    pub fn value(&self) -> (r: u8)
        ensures
            r == self.spec_value(),
    {
        match self {
            EffectUnitEffectType::Undefined => 0x00,
            EffectUnitEffectType::ParamEqSection => 0x01,
            EffectUnitEffectType::Reverb => 0x02,
            EffectUnitEffectType::ModDelay => 0x03,
            EffectUnitEffectType::DynRangeComp => 0x04,
        }
    }
}

/// A.12 Processing Unit Process Types
#[derive(Clone, Copy, Debug, PartialEq, Eq, Structural, Hash)]
pub enum ProcessingUnitProcessType {
    Undefined,
    UpDownMix,
    DolbyPrologic,
    StereoExtender,
}

impl ProcessingUnitProcessType {
    /// The code that stands for this value.
    pub open spec fn spec_value(self) -> u8 {
        match self {
            ProcessingUnitProcessType::Undefined => 0x00,
            ProcessingUnitProcessType::UpDownMix => 0x01,
            ProcessingUnitProcessType::DolbyPrologic => 0x02,
            ProcessingUnitProcessType::StereoExtender => 0x03,
        }
    }

    /// The code that stands for this value.
    pub fn value(&self) -> (r: u8)
        ensures
            r == self.spec_value(),
    {
        match self {
            ProcessingUnitProcessType::Undefined => 0x00,
            ProcessingUnitProcessType::UpDownMix => 0x01,
            ProcessingUnitProcessType::DolbyPrologic => 0x02,
            ProcessingUnitProcessType::StereoExtender => 0x03,
        }
    }
}

/// A.13 Audio Class-Specific Endpoint Descriptor Subtypes
#[derive(Clone, Copy, Debug, PartialEq, Eq, Structural, Hash)]
pub enum ClassSpecificEndpointDescriptorSubtype {
    Undefined,
    General,
}

impl ClassSpecificEndpointDescriptorSubtype {
    /// The code that stands for this value.
    pub open spec fn spec_value(self) -> u8 {
        match self {
            ClassSpecificEndpointDescriptorSubtype::Undefined => 0x00,
            ClassSpecificEndpointDescriptorSubtype::General => 0x01,
        }
    }

    /// The code that stands for this value.
    pub fn value(&self) -> (r: u8)
        ensures
            r == self.spec_value(),
    {
        match self {
            ClassSpecificEndpointDescriptorSubtype::Undefined => 0x00,
            ClassSpecificEndpointDescriptorSubtype::General => 0x01,
        }
    }
}

/// A.14 Audio Class-Specific Request Codes
#[derive(Clone, Copy, Debug, PartialEq, Eq, Structural, Hash)]
pub enum ClassSpecificRequest {
    Undefined,
    Cur,
    Range,
    Mem,
}

impl ClassSpecificRequest {
    /// The code that stands for this value.
    pub open spec fn spec_value(self) -> u8 {
        match self {
            ClassSpecificRequest::Undefined => 0x00,
            ClassSpecificRequest::Cur => 0x01,
            ClassSpecificRequest::Range => 0x02,
            ClassSpecificRequest::Mem => 0x03,
        }
    }

    /// The code that stands for this value.
    pub fn value(&self) -> (r: u8)
        ensures
            r == self.spec_value(),
    {
        match self {
            ClassSpecificRequest::Undefined => 0x00,
            ClassSpecificRequest::Cur => 0x01,
            ClassSpecificRequest::Range => 0x02,
            ClassSpecificRequest::Mem => 0x03,
        }
    }

    /// The value that `code` stands for, if any.
    pub open spec fn spec_from_value(code: u8) -> Option<Self> {
        if code == 0x00 {
            Some(ClassSpecificRequest::Undefined)
        } else if code == 0x01 {
            Some(ClassSpecificRequest::Cur)
        } else if code == 0x02 {
            Some(ClassSpecificRequest::Range)
        } else if code == 0x03 {
            Some(ClassSpecificRequest::Mem)
        } else {
            None
        }
    }

    /// The value that `code` stands for, or `None` when no value has that code.
    pub fn from_value(code: u8) -> (r: Option<Self>)
        ensures
            r == Self::spec_from_value(code),
    {
        if code == 0x00 {
            Some(ClassSpecificRequest::Undefined)
        } else if code == 0x01 {
            Some(ClassSpecificRequest::Cur)
        } else if code == 0x02 {
            Some(ClassSpecificRequest::Range)
        } else if code == 0x03 {
            Some(ClassSpecificRequest::Mem)
        } else {
            None
        }
    }

    /// Reading back the code of a value gives the value, and a code that
    /// reads as a value is that value's code.
    pub proof fn lemma_value_roundtrip(self, code: u8)
        ensures
            Self::spec_from_value(self.spec_value()) == Some(self),
            Self::spec_from_value(code) matches Some(v) ==> v.spec_value() == code,
    {
    }
}

/// A.15 Encoder Type Codes
#[derive(Clone, Copy, Debug, PartialEq, Eq, Structural, Hash)]
pub enum EncoderType {
    Undefined,
    Other,
    Mpeg,
    Ac3,
    Wma,
    Dts,
}

impl EncoderType {
    /// The code that stands for this value.
    pub open spec fn spec_value(self) -> u8 {
        match self {
            EncoderType::Undefined => 0x00,
            EncoderType::Other => 0x01,
            EncoderType::Mpeg => 0x02,
            EncoderType::Ac3 => 0x03,
            EncoderType::Wma => 0x04,
            EncoderType::Dts => 0x05,
        }
    }

    /// The code that stands for this value.
    pub fn value(&self) -> (r: u8)
        ensures
            r == self.spec_value(),
    {
        match self {
            EncoderType::Undefined => 0x00,
            EncoderType::Other => 0x01,
            EncoderType::Mpeg => 0x02,
            EncoderType::Ac3 => 0x03,
            EncoderType::Wma => 0x04,
            EncoderType::Dts => 0x05,
        }
    }
}

/// A.16 Decoder Type Codes
#[derive(Clone, Copy, Debug, PartialEq, Eq, Structural, Hash)]
pub enum DecoderType {
    Undefined,
    Other,
    Mpeg,
    Ac3,
    Wma,
    Dts,
}

impl DecoderType {
    /// The code that stands for this value.
    pub open spec fn spec_value(self) -> u8 {
        match self {
            DecoderType::Undefined => 0x00,
            DecoderType::Other => 0x01,
            DecoderType::Mpeg => 0x02,
            DecoderType::Ac3 => 0x03,
            DecoderType::Wma => 0x04,
            DecoderType::Dts => 0x05,
        }
    }

    /// The code that stands for this value.
    pub fn value(&self) -> (r: u8)
        ensures
            r == self.spec_value(),
    {
        match self {
            DecoderType::Undefined => 0x00,
            DecoderType::Other => 0x01,
            DecoderType::Mpeg => 0x02,
            DecoderType::Ac3 => 0x03,
            DecoderType::Wma => 0x04,
            DecoderType::Dts => 0x05,
        }
    }
}

/// A.17.1 Clock Source Control Selectors
#[derive(Clone, Copy, Debug, PartialEq, Eq, Structural, Hash)]
pub enum ClockSourceControlSelector {
    Undefined,
    SamFreqControl,
    ClockValidControl,
}

impl ClockSourceControlSelector {
    /// The code that stands for this value.
    pub open spec fn spec_value(self) -> u8 {
        match self {
            ClockSourceControlSelector::Undefined => 0x00,
            ClockSourceControlSelector::SamFreqControl => 0x01,
            ClockSourceControlSelector::ClockValidControl => 0x02,
        }
    }

    /// The code that stands for this value.
    pub fn value(&self) -> (r: u8)
        ensures
            r == self.spec_value(),
    {
        match self {
            ClockSourceControlSelector::Undefined => 0x00,
            ClockSourceControlSelector::SamFreqControl => 0x01,
            ClockSourceControlSelector::ClockValidControl => 0x02,
        }
    }

    /// The value that `code` stands for, if any.
    pub open spec fn spec_from_value(code: u8) -> Option<Self> {
        if code == 0x00 {
            Some(ClockSourceControlSelector::Undefined)
        } else if code == 0x01 {
            Some(ClockSourceControlSelector::SamFreqControl)
        } else if code == 0x02 {
            Some(ClockSourceControlSelector::ClockValidControl)
        } else {
            None
        }
    }

    /// The value that `code` stands for, or `None` when no value has that code.
    pub fn from_value(code: u8) -> (r: Option<Self>)
        ensures
            r == Self::spec_from_value(code),
    {
        if code == 0x00 {
            Some(ClockSourceControlSelector::Undefined)
        } else if code == 0x01 {
            Some(ClockSourceControlSelector::SamFreqControl)
        } else if code == 0x02 {
            Some(ClockSourceControlSelector::ClockValidControl)
        } else {
            None
        }
    }

    /// Reading back the code of a value gives the value, and a code that
    /// reads as a value is that value's code.
    pub proof fn lemma_value_roundtrip(self, code: u8)
        ensures
            Self::spec_from_value(self.spec_value()) == Some(self),
            Self::spec_from_value(code) matches Some(v) ==> v.spec_value() == code,
    {
    }
}

/// A.17.2 Clock Selector Control Selectors
#[derive(Clone, Copy, Debug, PartialEq, Eq, Structural, Hash)]
pub enum ClockSelectorControlSelector {
    ControlUndefined,
    ClockSelectorControl,
}

impl ClockSelectorControlSelector {
    /// The code that stands for this value.
    pub open spec fn spec_value(self) -> u8 {
        match self {
            ClockSelectorControlSelector::ControlUndefined => 0x00,
            ClockSelectorControlSelector::ClockSelectorControl => 0x01,
        }
    }

    /// The code that stands for this value.
    pub fn value(&self) -> (r: u8)
        ensures
            r == self.spec_value(),
    {
        match self {
            ClockSelectorControlSelector::ControlUndefined => 0x00,
            ClockSelectorControlSelector::ClockSelectorControl => 0x01,
        }
    }
}

/// A.17.3 Clock Multiplier Control Selectors
#[derive(Clone, Copy, Debug, PartialEq, Eq, Structural, Hash)]
pub enum ClockMultiplierControlSelector {
    Undefined,
    NumeratorControl,
    DenominatorControl,
}

impl ClockMultiplierControlSelector {
    /// The code that stands for this value.
    pub open spec fn spec_value(self) -> u8 {
        match self {
            ClockMultiplierControlSelector::Undefined => 0x00,
            ClockMultiplierControlSelector::NumeratorControl => 0x01,
            ClockMultiplierControlSelector::DenominatorControl => 0x02,
        }
    }

    /// The code that stands for this value.
    pub fn value(&self) -> (r: u8)
        ensures
            r == self.spec_value(),
    {
        match self {
            ClockMultiplierControlSelector::Undefined => 0x00,
            ClockMultiplierControlSelector::NumeratorControl => 0x01,
            ClockMultiplierControlSelector::DenominatorControl => 0x02,
        }
    }
}

/// A.17.4 Terminal Control Selectors
#[derive(Clone, Copy, Debug, PartialEq, Eq, Structural, Hash)]
pub enum TerminalControlSelector {
    Undefined,
    CopyProtect,
    Connector,
    Overload,
    Cluster,
    Underflow,
    Overflow,
    Latency,
    PhantomPower,
}

impl TerminalControlSelector {
    /// The code that stands for this value.
    pub open spec fn spec_value(self) -> u8 {
        match self {
            TerminalControlSelector::Undefined => 0x00,
            TerminalControlSelector::CopyProtect => 0x01,
            TerminalControlSelector::Connector => 0x02,
            TerminalControlSelector::Overload => 0x03,
            TerminalControlSelector::Cluster => 0x04,
            TerminalControlSelector::Underflow => 0x05,
            TerminalControlSelector::Overflow => 0x06,
            TerminalControlSelector::Latency => 0x07,
            TerminalControlSelector::PhantomPower => 0x08,
        }
    }

    /// The code that stands for this value.
    pub fn value(&self) -> (r: u8)
        ensures
            r == self.spec_value(),
    {
        match self {
            TerminalControlSelector::Undefined => 0x00,
            TerminalControlSelector::CopyProtect => 0x01,
            TerminalControlSelector::Connector => 0x02,
            TerminalControlSelector::Overload => 0x03,
            TerminalControlSelector::Cluster => 0x04,
            TerminalControlSelector::Underflow => 0x05,
            TerminalControlSelector::Overflow => 0x06,
            TerminalControlSelector::Latency => 0x07,
            TerminalControlSelector::PhantomPower => 0x08,
        }
    }
}

/// A.17.5 Mixer Control Selectors
#[derive(Clone, Copy, Debug, PartialEq, Eq, Structural, Hash)]
pub enum MixerControlSelector {
    Undefined,
    Mixer,
    Cluster,
    Underflow,
    Overflow,
    Latency,
}

impl MixerControlSelector {
    /// The code that stands for this value.
    pub open spec fn spec_value(self) -> u8 {
        match self {
            MixerControlSelector::Undefined => 0x00,
            MixerControlSelector::Mixer => 0x01,
            MixerControlSelector::Cluster => 0x02,
            MixerControlSelector::Underflow => 0x03,
            MixerControlSelector::Overflow => 0x04,
            MixerControlSelector::Latency => 0x05,
        }
    }

    /// The code that stands for this value.
    pub fn value(&self) -> (r: u8)
        ensures
            r == self.spec_value(),
    {
        match self {
            MixerControlSelector::Undefined => 0x00,
            MixerControlSelector::Mixer => 0x01,
            MixerControlSelector::Cluster => 0x02,
            MixerControlSelector::Underflow => 0x03,
            MixerControlSelector::Overflow => 0x04,
            MixerControlSelector::Latency => 0x05,
        }
    }
}

/// A.17.6 Selector Control Selectors
#[derive(Clone, Copy, Debug, PartialEq, Eq, Structural, Hash)]
pub enum SelectorControlSelector {
    Undefined,
    Selector,
    Latency,
}

impl SelectorControlSelector {
    /// The code that stands for this value.
    pub open spec fn spec_value(self) -> u8 {
        match self {
            SelectorControlSelector::Undefined => 0x00,
            SelectorControlSelector::Selector => 0x01,
            SelectorControlSelector::Latency => 0x02,
        }
    }

    /// The code that stands for this value.
    pub fn value(&self) -> (r: u8)
        ensures
            r == self.spec_value(),
    {
        match self {
            SelectorControlSelector::Undefined => 0x00,
            SelectorControlSelector::Selector => 0x01,
            SelectorControlSelector::Latency => 0x02,
        }
    }
}

/// A.17.7 Feature Unit Control Selectors
#[derive(Clone, Copy, Debug, PartialEq, Eq, Structural, Hash)]
pub enum FeatureUnitControlSelector {
    Undefined,
    Mute,
    Volume,
    Bass,
    Mid,
    Treble,
    GraphicEqualizer,
    AutomaticGain,
    Delay,
    BassBoost,
    Loudness,
    InputGain,
    InputGainPad,
    PhaseInverter,
    Underflow,
    Overflow,
    Latency,
    HighpassFilter,
}

impl FeatureUnitControlSelector {
    /// The code that stands for this value.
    pub open spec fn spec_value(self) -> u8 {
        match self {
            FeatureUnitControlSelector::Undefined => 0x00,
            FeatureUnitControlSelector::Mute => 0x01,
            FeatureUnitControlSelector::Volume => 0x02,
            FeatureUnitControlSelector::Bass => 0x03,
            FeatureUnitControlSelector::Mid => 0x04,
            FeatureUnitControlSelector::Treble => 0x05,
            FeatureUnitControlSelector::GraphicEqualizer => 0x06,
            FeatureUnitControlSelector::AutomaticGain => 0x07,
            FeatureUnitControlSelector::Delay => 0x08,
            FeatureUnitControlSelector::BassBoost => 0x09,
            FeatureUnitControlSelector::Loudness => 0x0a,
            FeatureUnitControlSelector::InputGain => 0x0b,
            FeatureUnitControlSelector::InputGainPad => 0x0c,
            FeatureUnitControlSelector::PhaseInverter => 0x0d,
            FeatureUnitControlSelector::Underflow => 0x0e,
            FeatureUnitControlSelector::Overflow => 0x0f,
            FeatureUnitControlSelector::Latency => 0x10,
            FeatureUnitControlSelector::HighpassFilter => 0x11,
        }
    }

    /// The code that stands for this value.
    pub fn value(&self) -> (r: u8)
        ensures
            r == self.spec_value(),
    {
        match self {
            FeatureUnitControlSelector::Undefined => 0x00,
            FeatureUnitControlSelector::Mute => 0x01,
            FeatureUnitControlSelector::Volume => 0x02,
            FeatureUnitControlSelector::Bass => 0x03,
            FeatureUnitControlSelector::Mid => 0x04,
            FeatureUnitControlSelector::Treble => 0x05,
            FeatureUnitControlSelector::GraphicEqualizer => 0x06,
            FeatureUnitControlSelector::AutomaticGain => 0x07,
            FeatureUnitControlSelector::Delay => 0x08,
            FeatureUnitControlSelector::BassBoost => 0x09,
            FeatureUnitControlSelector::Loudness => 0x0a,
            FeatureUnitControlSelector::InputGain => 0x0b,
            FeatureUnitControlSelector::InputGainPad => 0x0c,
            FeatureUnitControlSelector::PhaseInverter => 0x0d,
            FeatureUnitControlSelector::Underflow => 0x0e,
            FeatureUnitControlSelector::Overflow => 0x0f,
            FeatureUnitControlSelector::Latency => 0x10,
            FeatureUnitControlSelector::HighpassFilter => 0x11,
        }
    }
}

/// A.17.8.1 Parametric Equalizer Section Effect Unit Control Selectors
#[derive(Clone, Copy, Debug, PartialEq, Eq, Structural, Hash)]
pub enum ParametricEqSectionEffectUnitControlSelector {
    Undefined,
    Enable,
    CenterFreq,
    QFactor,
    Gain,
    Underflow,
    Overflow,
    Latency,
}

impl ParametricEqSectionEffectUnitControlSelector {
    /// The code that stands for this value.
    pub open spec fn spec_value(self) -> u8 {
        match self {
            ParametricEqSectionEffectUnitControlSelector::Undefined => 0x00,
            ParametricEqSectionEffectUnitControlSelector::Enable => 0x01,
            ParametricEqSectionEffectUnitControlSelector::CenterFreq => 0x02,
            ParametricEqSectionEffectUnitControlSelector::QFactor => 0x03,
            ParametricEqSectionEffectUnitControlSelector::Gain => 0x04,
            ParametricEqSectionEffectUnitControlSelector::Underflow => 0x05,
            ParametricEqSectionEffectUnitControlSelector::Overflow => 0x06,
            ParametricEqSectionEffectUnitControlSelector::Latency => 0x07,
        }
    }

    /// The code that stands for this value.
    pub fn value(&self) -> (r: u8)
        ensures
            r == self.spec_value(),
    {
        match self {
            ParametricEqSectionEffectUnitControlSelector::Undefined => 0x00,
            ParametricEqSectionEffectUnitControlSelector::Enable => 0x01,
            ParametricEqSectionEffectUnitControlSelector::CenterFreq => 0x02,
            ParametricEqSectionEffectUnitControlSelector::QFactor => 0x03,
            ParametricEqSectionEffectUnitControlSelector::Gain => 0x04,
            ParametricEqSectionEffectUnitControlSelector::Underflow => 0x05,
            ParametricEqSectionEffectUnitControlSelector::Overflow => 0x06,
            ParametricEqSectionEffectUnitControlSelector::Latency => 0x07,
        }
    }
}

/// A.17.8.2 Reverberation Effect Unit Control Selectors
#[derive(Clone, Copy, Debug, PartialEq, Eq, Structural, Hash)]
pub enum ReverbEffectUnitControlSelector {
    Undefined,
    Enable,
    Type,
    Level,
    Time,
    Feedback,
    PreDelay,
    Density,
    HiFreqRolloff,
    Underflow,
    Overflow,
    Latency,
}

impl ReverbEffectUnitControlSelector {
    /// The code that stands for this value.
    pub open spec fn spec_value(self) -> u8 {
        match self {
            ReverbEffectUnitControlSelector::Undefined => 0x00,
            ReverbEffectUnitControlSelector::Enable => 0x01,
            ReverbEffectUnitControlSelector::Type => 0x02,
            ReverbEffectUnitControlSelector::Level => 0x03,
            ReverbEffectUnitControlSelector::Time => 0x04,
            ReverbEffectUnitControlSelector::Feedback => 0x05,
            ReverbEffectUnitControlSelector::PreDelay => 0x06,
            ReverbEffectUnitControlSelector::Density => 0x07,
            ReverbEffectUnitControlSelector::HiFreqRolloff => 0x08,
            ReverbEffectUnitControlSelector::Underflow => 0x09,
            ReverbEffectUnitControlSelector::Overflow => 0x0a,
            ReverbEffectUnitControlSelector::Latency => 0x0b,
        }
    }

    /// The code that stands for this value.
    pub fn value(&self) -> (r: u8)
        ensures
            r == self.spec_value(),
    {
        match self {
            ReverbEffectUnitControlSelector::Undefined => 0x00,
            ReverbEffectUnitControlSelector::Enable => 0x01,
            ReverbEffectUnitControlSelector::Type => 0x02,
            ReverbEffectUnitControlSelector::Level => 0x03,
            ReverbEffectUnitControlSelector::Time => 0x04,
            ReverbEffectUnitControlSelector::Feedback => 0x05,
            ReverbEffectUnitControlSelector::PreDelay => 0x06,
            ReverbEffectUnitControlSelector::Density => 0x07,
            ReverbEffectUnitControlSelector::HiFreqRolloff => 0x08,
            ReverbEffectUnitControlSelector::Underflow => 0x09,
            ReverbEffectUnitControlSelector::Overflow => 0x0a,
            ReverbEffectUnitControlSelector::Latency => 0x0b,
        }
    }
}

/// A.17.8.3 Modulation Delay Effect Unit Control Selectors
#[derive(Clone, Copy, Debug, PartialEq, Eq, Structural, Hash)]
pub enum ModDelayEffectUnitControlSelector {
    Undefined,
    Enable,
    Balance,
    Rate,
    Depth,
    Time,
    Feedback,
    Underflow,
    Overflow,
    Latency,
}

impl ModDelayEffectUnitControlSelector {
    /// The code that stands for this value.
    pub open spec fn spec_value(self) -> u8 {
        match self {
            ModDelayEffectUnitControlSelector::Undefined => 0x00,
            ModDelayEffectUnitControlSelector::Enable => 0x01,
            ModDelayEffectUnitControlSelector::Balance => 0x02,
            ModDelayEffectUnitControlSelector::Rate => 0x03,
            ModDelayEffectUnitControlSelector::Depth => 0x04,
            ModDelayEffectUnitControlSelector::Time => 0x05,
            ModDelayEffectUnitControlSelector::Feedback => 0x06,
            ModDelayEffectUnitControlSelector::Underflow => 0x07,
            ModDelayEffectUnitControlSelector::Overflow => 0x08,
            ModDelayEffectUnitControlSelector::Latency => 0x09,
        }
    }

    /// The code that stands for this value.
    pub fn value(&self) -> (r: u8)
        ensures
            r == self.spec_value(),
    {
        match self {
            ModDelayEffectUnitControlSelector::Undefined => 0x00,
            ModDelayEffectUnitControlSelector::Enable => 0x01,
            ModDelayEffectUnitControlSelector::Balance => 0x02,
            ModDelayEffectUnitControlSelector::Rate => 0x03,
            ModDelayEffectUnitControlSelector::Depth => 0x04,
            ModDelayEffectUnitControlSelector::Time => 0x05,
            ModDelayEffectUnitControlSelector::Feedback => 0x06,
            ModDelayEffectUnitControlSelector::Underflow => 0x07,
            ModDelayEffectUnitControlSelector::Overflow => 0x08,
            ModDelayEffectUnitControlSelector::Latency => 0x09,
        }
    }
}

/// A.17.8.4 Dynamic Range Compressor Effect Unit Control Selectors
#[derive(Clone, Copy, Debug, PartialEq, Eq, Structural, Hash)]
pub enum DynamicRangeCompressorEffectUnitControlSelector {
    Undefined,
    Enable,
    CompressionRate,
    MaxAmplitude,
    Threshold,
    AttackTime,
    ReleaseTime,
    Underflow,
    Overflow,
    Latency,
}

impl DynamicRangeCompressorEffectUnitControlSelector {
    /// The code that stands for this value.
    pub open spec fn spec_value(self) -> u8 {
        match self {
            DynamicRangeCompressorEffectUnitControlSelector::Undefined => 0x00,
            DynamicRangeCompressorEffectUnitControlSelector::Enable => 0x01,
            DynamicRangeCompressorEffectUnitControlSelector::CompressionRate => 0x02,
            DynamicRangeCompressorEffectUnitControlSelector::MaxAmplitude => 0x03,
            DynamicRangeCompressorEffectUnitControlSelector::Threshold => 0x04,
            DynamicRangeCompressorEffectUnitControlSelector::AttackTime => 0x05,
            DynamicRangeCompressorEffectUnitControlSelector::ReleaseTime => 0x06,
            DynamicRangeCompressorEffectUnitControlSelector::Underflow => 0x07,
            DynamicRangeCompressorEffectUnitControlSelector::Overflow => 0x08,
            DynamicRangeCompressorEffectUnitControlSelector::Latency => 0x09,
        }
    }

    /// The code that stands for this value.
    pub fn value(&self) -> (r: u8)
        ensures
            r == self.spec_value(),
    {
        match self {
            DynamicRangeCompressorEffectUnitControlSelector::Undefined => 0x00,
            DynamicRangeCompressorEffectUnitControlSelector::Enable => 0x01,
            DynamicRangeCompressorEffectUnitControlSelector::CompressionRate => 0x02,
            DynamicRangeCompressorEffectUnitControlSelector::MaxAmplitude => 0x03,
            DynamicRangeCompressorEffectUnitControlSelector::Threshold => 0x04,
            DynamicRangeCompressorEffectUnitControlSelector::AttackTime => 0x05,
            DynamicRangeCompressorEffectUnitControlSelector::ReleaseTime => 0x06,
            DynamicRangeCompressorEffectUnitControlSelector::Underflow => 0x07,
            DynamicRangeCompressorEffectUnitControlSelector::Overflow => 0x08,
            DynamicRangeCompressorEffectUnitControlSelector::Latency => 0x09,
        }
    }
}

/// A.17.9.1 Up/Down-mix Processing Unit Control Selectors
#[derive(Clone, Copy, Debug, PartialEq, Eq, Structural, Hash)]
pub enum UpDownMixProcessingUnitControlSelector {
    Undefined,
    Enable,
    ModeSelect,
    Cluster,
    Underflow,
    Overflow,
    Latency,
}

impl UpDownMixProcessingUnitControlSelector {
    /// The code that stands for this value.
    pub open spec fn spec_value(self) -> u8 {
        match self {
            UpDownMixProcessingUnitControlSelector::Undefined => 0x00,
            UpDownMixProcessingUnitControlSelector::Enable => 0x01,
            UpDownMixProcessingUnitControlSelector::ModeSelect => 0x02,
            UpDownMixProcessingUnitControlSelector::Cluster => 0x03,
            UpDownMixProcessingUnitControlSelector::Underflow => 0x04,
            UpDownMixProcessingUnitControlSelector::Overflow => 0x05,
            UpDownMixProcessingUnitControlSelector::Latency => 0x06,
        }
    }

    /// The code that stands for this value.
    pub fn value(&self) -> (r: u8)
        ensures
            r == self.spec_value(),
    {
        match self {
            UpDownMixProcessingUnitControlSelector::Undefined => 0x00,
            UpDownMixProcessingUnitControlSelector::Enable => 0x01,
            UpDownMixProcessingUnitControlSelector::ModeSelect => 0x02,
            UpDownMixProcessingUnitControlSelector::Cluster => 0x03,
            UpDownMixProcessingUnitControlSelector::Underflow => 0x04,
            UpDownMixProcessingUnitControlSelector::Overflow => 0x05,
            UpDownMixProcessingUnitControlSelector::Latency => 0x06,
        }
    }
}

/// A.17.9.2 Dolby Prologic Processing Unit Control Selectors
#[derive(Clone, Copy, Debug, PartialEq, Eq, Structural, Hash)]
pub enum DolbyProcessingUnitControlSelectors {
    Undefined,
    Enable,
    ModeSelect,
    Cluster,
    Underflow,
    Overflow,
    Latency,
}

impl DolbyProcessingUnitControlSelectors {
    /// The code that stands for this value.
    pub open spec fn spec_value(self) -> u8 {
        match self {
            DolbyProcessingUnitControlSelectors::Undefined => 0x00,
            DolbyProcessingUnitControlSelectors::Enable => 0x01,
            DolbyProcessingUnitControlSelectors::ModeSelect => 0x02,
            DolbyProcessingUnitControlSelectors::Cluster => 0x03,
            DolbyProcessingUnitControlSelectors::Underflow => 0x04,
            DolbyProcessingUnitControlSelectors::Overflow => 0x05,
            DolbyProcessingUnitControlSelectors::Latency => 0x06,
        }
    }

    /// The code that stands for this value.
    pub fn value(&self) -> (r: u8)
        ensures
            r == self.spec_value(),
    {
        match self {
            DolbyProcessingUnitControlSelectors::Undefined => 0x00,
            DolbyProcessingUnitControlSelectors::Enable => 0x01,
            DolbyProcessingUnitControlSelectors::ModeSelect => 0x02,
            DolbyProcessingUnitControlSelectors::Cluster => 0x03,
            DolbyProcessingUnitControlSelectors::Underflow => 0x04,
            DolbyProcessingUnitControlSelectors::Overflow => 0x05,
            DolbyProcessingUnitControlSelectors::Latency => 0x06,
        }
    }
}

/// A.17.9.3 Stereo Extender Processing Unit Control Selectors
#[derive(Clone, Copy, Debug, PartialEq, Eq, Structural, Hash)]
pub enum StereoExtenderProcessingUnitControlSelector {
    Undefined,
    Enable,
    Width,
    Underflow,
    Overflow,
    Latency,
}

impl StereoExtenderProcessingUnitControlSelector {
    /// The code that stands for this value.
    pub open spec fn spec_value(self) -> u8 {
        match self {
            StereoExtenderProcessingUnitControlSelector::Undefined => 0x00,
            StereoExtenderProcessingUnitControlSelector::Enable => 0x01,
            StereoExtenderProcessingUnitControlSelector::Width => 0x02,
            StereoExtenderProcessingUnitControlSelector::Underflow => 0x03,
            StereoExtenderProcessingUnitControlSelector::Overflow => 0x04,
            StereoExtenderProcessingUnitControlSelector::Latency => 0x05,
        }
    }

    /// The code that stands for this value.
    pub fn value(&self) -> (r: u8)
        ensures
            r == self.spec_value(),
    {
        match self {
            StereoExtenderProcessingUnitControlSelector::Undefined => 0x00,
            StereoExtenderProcessingUnitControlSelector::Enable => 0x01,
            StereoExtenderProcessingUnitControlSelector::Width => 0x02,
            StereoExtenderProcessingUnitControlSelector::Underflow => 0x03,
            StereoExtenderProcessingUnitControlSelector::Overflow => 0x04,
            StereoExtenderProcessingUnitControlSelector::Latency => 0x05,
        }
    }
}

/// A.17.10 Extension Unit Control Selectors
#[derive(Clone, Copy, Debug, PartialEq, Eq, Structural, Hash)]
pub enum ExtensionUnitControlSelector {
    Undefined,
    Enable,
    Cluster,
    Underflow,
    Overflow,
    Latency,
}

impl ExtensionUnitControlSelector {
    /// The code that stands for this value.
    pub open spec fn spec_value(self) -> u8 {
        match self {
            ExtensionUnitControlSelector::Undefined => 0x00,
            ExtensionUnitControlSelector::Enable => 0x01,
            ExtensionUnitControlSelector::Cluster => 0x02,
            ExtensionUnitControlSelector::Underflow => 0x03,
            ExtensionUnitControlSelector::Overflow => 0x04,
            ExtensionUnitControlSelector::Latency => 0x05,
        }
    }

    /// The code that stands for this value.
    pub fn value(&self) -> (r: u8)
        ensures
            r == self.spec_value(),
    {
        match self {
            ExtensionUnitControlSelector::Undefined => 0x00,
            ExtensionUnitControlSelector::Enable => 0x01,
            ExtensionUnitControlSelector::Cluster => 0x02,
            ExtensionUnitControlSelector::Underflow => 0x03,
            ExtensionUnitControlSelector::Overflow => 0x04,
            ExtensionUnitControlSelector::Latency => 0x05,
        }
    }
}

/// A.17.11 AudioStreaming Interface Control Selectors
#[derive(Clone, Copy, Debug, PartialEq, Eq, Structural, Hash)]
pub enum AudioStreamingInterfaceControlSelector {
    Undefined,
    ActAltSetting,
    ValAltSetting,
    AudioDataFormat,
}

impl AudioStreamingInterfaceControlSelector {
    /// The code that stands for this value.
    pub open spec fn spec_value(self) -> u8 {
        match self {
            AudioStreamingInterfaceControlSelector::Undefined => 0x00,
            AudioStreamingInterfaceControlSelector::ActAltSetting => 0x01,
            AudioStreamingInterfaceControlSelector::ValAltSetting => 0x02,
            AudioStreamingInterfaceControlSelector::AudioDataFormat => 0x03,
        }
    }

    /// The code that stands for this value.
    pub fn value(&self) -> (r: u8)
        ensures
            r == self.spec_value(),
    {
        match self {
            AudioStreamingInterfaceControlSelector::Undefined => 0x00,
            AudioStreamingInterfaceControlSelector::ActAltSetting => 0x01,
            AudioStreamingInterfaceControlSelector::ValAltSetting => 0x02,
            AudioStreamingInterfaceControlSelector::AudioDataFormat => 0x03,
        }
    }
}

/// A.17.12 Encoder Control Selectors
#[derive(Clone, Copy, Debug, PartialEq, Eq, Structural, Hash)]
pub enum EncoderControlSelector {
    Undefined,
    BitRate,
    Quality,
    Vbr,
    Type,
    Underflow,
    Overflow,
    EncoderError,
    Param1,
    Param2,
    Param3,
    Param4,
    Param5,
    Param6,
    Param7,
    Param8,
}

impl EncoderControlSelector {
    /// The code that stands for this value.
    pub open spec fn spec_value(self) -> u8 {
        match self {
            EncoderControlSelector::Undefined => 0x00,
            EncoderControlSelector::BitRate => 0x01,
            EncoderControlSelector::Quality => 0x02,
            EncoderControlSelector::Vbr => 0x03,
            EncoderControlSelector::Type => 0x04,
            EncoderControlSelector::Underflow => 0x05,
            EncoderControlSelector::Overflow => 0x06,
            EncoderControlSelector::EncoderError => 0x07,
            EncoderControlSelector::Param1 => 0x08,
            EncoderControlSelector::Param2 => 0x09,
            EncoderControlSelector::Param3 => 0x0a,
            EncoderControlSelector::Param4 => 0x0b,
            EncoderControlSelector::Param5 => 0x0c,
            EncoderControlSelector::Param6 => 0x0d,
            EncoderControlSelector::Param7 => 0x0e,
            EncoderControlSelector::Param8 => 0x0f,
        }
    }

    /// The code that stands for this value.
    pub fn value(&self) -> (r: u8)
        ensures
            r == self.spec_value(),
    {
        match self {
            EncoderControlSelector::Undefined => 0x00,
            EncoderControlSelector::BitRate => 0x01,
            EncoderControlSelector::Quality => 0x02,
            EncoderControlSelector::Vbr => 0x03,
            EncoderControlSelector::Type => 0x04,
            EncoderControlSelector::Underflow => 0x05,
            EncoderControlSelector::Overflow => 0x06,
            EncoderControlSelector::EncoderError => 0x07,
            EncoderControlSelector::Param1 => 0x08,
            EncoderControlSelector::Param2 => 0x09,
            EncoderControlSelector::Param3 => 0x0a,
            EncoderControlSelector::Param4 => 0x0b,
            EncoderControlSelector::Param5 => 0x0c,
            EncoderControlSelector::Param6 => 0x0d,
            EncoderControlSelector::Param7 => 0x0e,
            EncoderControlSelector::Param8 => 0x0f,
        }
    }
}

/// A.17.13.1 MPEG Decoder Control Selectors
#[derive(Clone, Copy, Debug, PartialEq, Eq, Structural, Hash)]
pub enum MpegDecoderControlSelector {
    Undefined,
    DualChannel,
    SecondStereo,
    Multilingual,
    DynRange,
    Scaling,
    HiloScaling,
    Underflow,
    Overflow,
    DecoderError,
}

impl MpegDecoderControlSelector {
    /// The code that stands for this value.
    pub open spec fn spec_value(self) -> u8 {
        match self {
            MpegDecoderControlSelector::Undefined => 0x00,
            MpegDecoderControlSelector::DualChannel => 0x01,
            MpegDecoderControlSelector::SecondStereo => 0x02,
            MpegDecoderControlSelector::Multilingual => 0x03,
            MpegDecoderControlSelector::DynRange => 0x04,
            MpegDecoderControlSelector::Scaling => 0x05,
            MpegDecoderControlSelector::HiloScaling => 0x06,
            MpegDecoderControlSelector::Underflow => 0x07,
            MpegDecoderControlSelector::Overflow => 0x08,
            MpegDecoderControlSelector::DecoderError => 0x09,
        }
    }

    /// The code that stands for this value.
    pub fn value(&self) -> (r: u8)
        ensures
            r == self.spec_value(),
    {
        match self {
            MpegDecoderControlSelector::Undefined => 0x00,
            MpegDecoderControlSelector::DualChannel => 0x01,
            MpegDecoderControlSelector::SecondStereo => 0x02,
            MpegDecoderControlSelector::Multilingual => 0x03,
            MpegDecoderControlSelector::DynRange => 0x04,
            MpegDecoderControlSelector::Scaling => 0x05,
            MpegDecoderControlSelector::HiloScaling => 0x06,
            MpegDecoderControlSelector::Underflow => 0x07,
            MpegDecoderControlSelector::Overflow => 0x08,
            MpegDecoderControlSelector::DecoderError => 0x09,
        }
    }
}

/// A.17.13.2 AC-3 Decoder Control Selectors
#[derive(Clone, Copy, Debug, PartialEq, Eq, Structural, Hash)]
pub enum Ac3DecoderControlSelector {
    Undefined,
    Mode,
    DynRange,
    Scaling,
    HiloScaling,
    Underflow,
    Overflow,
    DecoderError,
}

impl Ac3DecoderControlSelector {
    /// The code that stands for this value.
    pub open spec fn spec_value(self) -> u8 {
        match self {
            Ac3DecoderControlSelector::Undefined => 0x00,
            Ac3DecoderControlSelector::Mode => 0x01,
            Ac3DecoderControlSelector::DynRange => 0x02,
            Ac3DecoderControlSelector::Scaling => 0x03,
            Ac3DecoderControlSelector::HiloScaling => 0x04,
            Ac3DecoderControlSelector::Underflow => 0x05,
            Ac3DecoderControlSelector::Overflow => 0x06,
            Ac3DecoderControlSelector::DecoderError => 0x07,
        }
    }

    /// The code that stands for this value.
    pub fn value(&self) -> (r: u8)
        ensures
            r == self.spec_value(),
    {
        match self {
            Ac3DecoderControlSelector::Undefined => 0x00,
            Ac3DecoderControlSelector::Mode => 0x01,
            Ac3DecoderControlSelector::DynRange => 0x02,
            Ac3DecoderControlSelector::Scaling => 0x03,
            Ac3DecoderControlSelector::HiloScaling => 0x04,
            Ac3DecoderControlSelector::Underflow => 0x05,
            Ac3DecoderControlSelector::Overflow => 0x06,
            Ac3DecoderControlSelector::DecoderError => 0x07,
        }
    }
}

/// A.17.13.3 WMA Decoder Control Selectors
#[derive(Clone, Copy, Debug, PartialEq, Eq, Structural, Hash)]
pub enum WmaDecoderControlSelector {
    Undefined,
    Underflow,
    Overflow,
    DecoderError,
}

impl WmaDecoderControlSelector {
    /// The code that stands for this value.
    pub open spec fn spec_value(self) -> u8 {
        match self {
            WmaDecoderControlSelector::Undefined => 0x00,
            WmaDecoderControlSelector::Underflow => 0x01,
            WmaDecoderControlSelector::Overflow => 0x02,
            WmaDecoderControlSelector::DecoderError => 0x03,
        }
    }

    /// The code that stands for this value.
    pub fn value(&self) -> (r: u8)
        ensures
            r == self.spec_value(),
    {
        match self {
            WmaDecoderControlSelector::Undefined => 0x00,
            WmaDecoderControlSelector::Underflow => 0x01,
            WmaDecoderControlSelector::Overflow => 0x02,
            WmaDecoderControlSelector::DecoderError => 0x03,
        }
    }
}

/// A.17.13.4 DTS Decoder Control Selectors
#[derive(Clone, Copy, Debug, PartialEq, Eq, Structural, Hash)]
pub enum DtsDecoderControlSelector {
    Undefined,
    Underflow,
    Overflow,
    DecoderError,
}

impl DtsDecoderControlSelector {
    /// The code that stands for this value.
    pub open spec fn spec_value(self) -> u8 {
        match self {
            DtsDecoderControlSelector::Undefined => 0x00,
            DtsDecoderControlSelector::Underflow => 0x01,
            DtsDecoderControlSelector::Overflow => 0x02,
            DtsDecoderControlSelector::DecoderError => 0x03,
        }
    }

    /// The code that stands for this value.
    pub fn value(&self) -> (r: u8)
        ensures
            r == self.spec_value(),
    {
        match self {
            DtsDecoderControlSelector::Undefined => 0x00,
            DtsDecoderControlSelector::Underflow => 0x01,
            DtsDecoderControlSelector::Overflow => 0x02,
            DtsDecoderControlSelector::DecoderError => 0x03,
        }
    }
}

/// A.17.14 Endpoint Control Selectors
#[derive(Clone, Copy, Debug, PartialEq, Eq, Structural, Hash)]
pub enum EndpointControlSelector {
    Undefined,
    Pitch,
    DataOverrun,
    DataUnderrun,
}

impl EndpointControlSelector {
    /// The code that stands for this value.
    pub open spec fn spec_value(self) -> u8 {
        match self {
            EndpointControlSelector::Undefined => 0x00,
            EndpointControlSelector::Pitch => 0x01,
            EndpointControlSelector::DataOverrun => 0x02,
            EndpointControlSelector::DataUnderrun => 0x03,
        }
    }

    /// The code that stands for this value.
    pub fn value(&self) -> (r: u8)
        ensures
            r == self.spec_value(),
    {
        match self {
            EndpointControlSelector::Undefined => 0x00,
            EndpointControlSelector::Pitch => 0x01,
            EndpointControlSelector::DataOverrun => 0x02,
            EndpointControlSelector::DataUnderrun => 0x03,
        }
    }
}

/// Universal Serial Bus Device Class Definition for Terminal Types
#[non_exhaustive]
#[derive(Clone, Copy, Debug, PartialEq, Eq, Structural, Hash)]
pub enum TerminalType {
    UsbUndefined,
    UsbStreaming,
    UsbVendor,
    InUndefined,
    InMicrophone,
    InDesktopMicrophone,
    InPersonalMicrophone,
    InOmniDirectionalMicrophone,
    InMicrophoneArray,
    InProcessingMicrophoneArray,
    OutUndefined,
    OutSpeaker,
    OutHeadphones,
    OutHeadMountedDisplayAudio,
    OutDesktopSpeaker,
    OutRoomSpeaker,
    OutCommunicationSpeaker,
    OutLowFrequencyEffectsSpeaker,
    ExtUndefined,
    ExtAnalogConnector,
    ExtDigitalAudioInterface,
    ExtLineConnector,
    ExtLegacyAudioConnector,
    ExtSpdifConnector,
    Ext1394DaStream,
    Ext1394DvStreamSoundtrack,
}

impl TerminalType {
    /// The code that stands for this value.
    pub open spec fn spec_value(self) -> u16 {
        match self {
            TerminalType::UsbUndefined => 0x0100,
            TerminalType::UsbStreaming => 0x0101,
            TerminalType::UsbVendor => 0x01ff,
            TerminalType::InUndefined => 0x0200,
            TerminalType::InMicrophone => 0x0201,
            TerminalType::InDesktopMicrophone => 0x0202,
            TerminalType::InPersonalMicrophone => 0x0203,
            TerminalType::InOmniDirectionalMicrophone => 0x0204,
            TerminalType::InMicrophoneArray => 0x0205,
            TerminalType::InProcessingMicrophoneArray => 0x0206,
            TerminalType::OutUndefined => 0x0300,
            TerminalType::OutSpeaker => 0x0301,
            TerminalType::OutHeadphones => 0x0302,
            TerminalType::OutHeadMountedDisplayAudio => 0x0303,
            TerminalType::OutDesktopSpeaker => 0x0304,
            TerminalType::OutRoomSpeaker => 0x0305,
            TerminalType::OutCommunicationSpeaker => 0x0306,
            TerminalType::OutLowFrequencyEffectsSpeaker => 0x0307,
            TerminalType::ExtUndefined => 0x0600,
            TerminalType::ExtAnalogConnector => 0x0601,
            TerminalType::ExtDigitalAudioInterface => 0x0602,
            TerminalType::ExtLineConnector => 0x0603,
            TerminalType::ExtLegacyAudioConnector => 0x0604,
            TerminalType::ExtSpdifConnector => 0x0605,
            TerminalType::Ext1394DaStream => 0x0606,
            TerminalType::Ext1394DvStreamSoundtrack => 0x0607,
        }
    }

    /// The code that stands for this value.
    pub fn value(&self) -> (r: u16)
        ensures
            r == self.spec_value(),
    {
        match self {
            TerminalType::UsbUndefined => 0x0100,
            TerminalType::UsbStreaming => 0x0101,
            TerminalType::UsbVendor => 0x01ff,
            TerminalType::InUndefined => 0x0200,
            TerminalType::InMicrophone => 0x0201,
            TerminalType::InDesktopMicrophone => 0x0202,
            TerminalType::InPersonalMicrophone => 0x0203,
            TerminalType::InOmniDirectionalMicrophone => 0x0204,
            TerminalType::InMicrophoneArray => 0x0205,
            TerminalType::InProcessingMicrophoneArray => 0x0206,
            TerminalType::OutUndefined => 0x0300,
            TerminalType::OutSpeaker => 0x0301,
            TerminalType::OutHeadphones => 0x0302,
            TerminalType::OutHeadMountedDisplayAudio => 0x0303,
            TerminalType::OutDesktopSpeaker => 0x0304,
            TerminalType::OutRoomSpeaker => 0x0305,
            TerminalType::OutCommunicationSpeaker => 0x0306,
            TerminalType::OutLowFrequencyEffectsSpeaker => 0x0307,
            TerminalType::ExtUndefined => 0x0600,
            TerminalType::ExtAnalogConnector => 0x0601,
            TerminalType::ExtDigitalAudioInterface => 0x0602,
            TerminalType::ExtLineConnector => 0x0603,
            TerminalType::ExtLegacyAudioConnector => 0x0604,
            TerminalType::ExtSpdifConnector => 0x0605,
            TerminalType::Ext1394DaStream => 0x0606,
            TerminalType::Ext1394DvStreamSoundtrack => 0x0607,
        }
    }
}


#[non_exhaustive]
#[derive(Clone, Copy, Debug, PartialEq, Eq, Structural, Hash)]
pub enum AudioDataFormatType1 {
    Undefined,
    Pcm,
    Pcm8,
    IeeeFloat,
    Alaw,
    Mulaw,
}

impl AudioDataFormatType1 {
    /// The code that stands for this value.
    pub open spec fn spec_value(self) -> u16 {
        match self {
            AudioDataFormatType1::Undefined => 0x0000,
            AudioDataFormatType1::Pcm => 0x0001,
            AudioDataFormatType1::Pcm8 => 0x0002,
            AudioDataFormatType1::IeeeFloat => 0x0003,
            AudioDataFormatType1::Alaw => 0x0004,
            AudioDataFormatType1::Mulaw => 0x0005,
        }
    }

    /// The code that stands for this value.
    pub fn value(&self) -> (r: u16)
        ensures
            r == self.spec_value(),
    {
        match self {
            AudioDataFormatType1::Undefined => 0x0000,
            AudioDataFormatType1::Pcm => 0x0001,
            AudioDataFormatType1::Pcm8 => 0x0002,
            AudioDataFormatType1::IeeeFloat => 0x0003,
            AudioDataFormatType1::Alaw => 0x0004,
            AudioDataFormatType1::Mulaw => 0x0005,
        }
    }
}


#[non_exhaustive]
#[derive(Clone, Copy, Debug, PartialEq, Eq, Structural, Hash)]
pub enum AudioDataFormatType2 {
    Undefined,
    Mpeg,
    Ac3,
}

impl AudioDataFormatType2 {
    /// The code that stands for this value.
    pub open spec fn spec_value(self) -> u16 {
        match self {
            AudioDataFormatType2::Undefined => 0x1000,
            AudioDataFormatType2::Mpeg => 0x1001,
            AudioDataFormatType2::Ac3 => 0x1002,
        }
    }

    /// The code that stands for this value.
    pub fn value(&self) -> (r: u16)
        ensures
            r == self.spec_value(),
    {
        match self {
            AudioDataFormatType2::Undefined => 0x1000,
            AudioDataFormatType2::Mpeg => 0x1001,
            AudioDataFormatType2::Ac3 => 0x1002,
        }
    }
}


#[non_exhaustive]
#[derive(Clone, Copy, Debug, PartialEq, Eq, Structural, Hash)]
pub enum AudioDataFormatType3 {
    Undefined,
    Ac3,
    Mpeg1Layer1,
    Mpeg1Layer23OrMpeg2NoExt,
    Mpeg2Ext,
    Mpeg2Layer1Ls,
    Mpeg2Layer23Ls,
}

impl AudioDataFormatType3 {
    /// The code that stands for this value.
    pub open spec fn spec_value(self) -> u16 {
        match self {
            AudioDataFormatType3::Undefined => 0x2000,
            AudioDataFormatType3::Ac3 => 0x2001,
            AudioDataFormatType3::Mpeg1Layer1 => 0x2002,
            AudioDataFormatType3::Mpeg1Layer23OrMpeg2NoExt => 0x2003,
            AudioDataFormatType3::Mpeg2Ext => 0x2004,
            AudioDataFormatType3::Mpeg2Layer1Ls => 0x2005,
            AudioDataFormatType3::Mpeg2Layer23Ls => 0x2006,
        }
    }

    /// The code that stands for this value.
    pub fn value(&self) -> (r: u16)
        ensures
            r == self.spec_value(),
    {
        match self {
            AudioDataFormatType3::Undefined => 0x2000,
            AudioDataFormatType3::Ac3 => 0x2001,
            AudioDataFormatType3::Mpeg1Layer1 => 0x2002,
            AudioDataFormatType3::Mpeg1Layer23OrMpeg2NoExt => 0x2003,
            AudioDataFormatType3::Mpeg2Ext => 0x2004,
            AudioDataFormatType3::Mpeg2Layer1Ls => 0x2005,
            AudioDataFormatType3::Mpeg2Layer23Ls => 0x2006,
        }
    }
}


#[non_exhaustive]
#[derive(Clone, Copy, Debug, PartialEq, Eq, Structural, Hash)]
pub enum FormatType {
    Undefined,
    Type1,
    Type2,
    Type3,
}

impl FormatType {
    /// The code that stands for this value.
    pub open spec fn spec_value(self) -> u8 {
        match self {
            FormatType::Undefined => 0x00,
            FormatType::Type1 => 0x01,
            FormatType::Type2 => 0x02,
            FormatType::Type3 => 0x03,
        }
    }

    /// The code that stands for this value.
    pub fn value(&self) -> (r: u8)
        ensures
            r == self.spec_value(),
    {
        match self {
            FormatType::Undefined => 0x00,
            FormatType::Type1 => 0x01,
            FormatType::Type2 => 0x02,
            FormatType::Type3 => 0x03,
        }
    }
}

} // verus!
