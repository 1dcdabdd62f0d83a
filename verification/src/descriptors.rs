//! The class-specific descriptors of USB Audio Class 2.0: their fields, the
//! bytes they are made of, and how they are written to a cursor.

use vstd::prelude::*;
use crate::bytes::{le2, le4, le4_value, le_u16, le_u32};
use crate::constants::{
    ClassSpecificACInterfaceDescriptorSubtype, ClassSpecificASInterfaceDescriptorSubtype, ClassSpecificDescriptorType,
    ClassSpecificEndpointDescriptorSubtype, FormatType, FunctionCode, TerminalType,
};
use crate::cursor::{lemma_wrote_stop, lemma_wrote_then, wrote, Cursor, CursorError};

verus! {

/// Clock type of a clock source (bits D1..0 of its bmAttributes).
#[derive(Copy, Clone, Debug, Eq, PartialEq, Structural)]
pub enum ClockType {
    External,
    InternalFixed,
    InternalVariable,
    InternalProgrammable,
}

impl ClockType {
    /// The code that stands for this clock type.
    pub open spec fn spec_value(self) -> u8 {
        match self {
            ClockType::External => 0,
            ClockType::InternalFixed => 1,
            ClockType::InternalVariable => 2,
            ClockType::InternalProgrammable => 3,
        }
    }

    /// The code that stands for this clock type.
    pub fn value(&self) -> (r: u8)
        ensures
            r == self.spec_value(),
    {
        match self {
            ClockType::External => 0,
            ClockType::InternalFixed => 1,
            ClockType::InternalVariable => 2,
            ClockType::InternalProgrammable => 3,
        }
    }
}

/// The two-bit access code of a control in a bmControls field.
#[derive(Copy, Clone, Debug, Eq, PartialEq, Structural)]
pub enum AccessControl {
    NotPresent,
    ReadOnly,
    Programmable,
}

impl AccessControl {
    /// The two-bit code of this access.
    pub open spec fn spec_value(self) -> u8 {
        match self {
            AccessControl::NotPresent => 0,
            AccessControl::ReadOnly => 1,
            AccessControl::Programmable => 3,
        }
    }

    /// The two-bit code of this access.
    pub fn value(&self) -> (r: u8)
        ensures
            r == self.spec_value(),
            r < 4,
    {
        match self {
            AccessControl::NotPresent => 0,
            AccessControl::ReadOnly => 1,
            AccessControl::Programmable => 3,
        }
    }
}

/// `bits` with bit `index` set (when `value`) or cleared.
pub open spec fn set_bit(bits: u32, index: u32, value: bool) -> u32 {
    if value {
        bits | (1u32 << index)
    } else {
        bits & !(1u32 << index)
    }
}

/// Whether bit `index` of `bits` is set.
pub open spec fn bit_of(bits: u32, index: u32) -> bool {
    (bits >> index) & 1u32 == 1u32
}

/// Setting or clearing a bit is read back from that bit, and leaves every
/// other bit as it was.
pub proof fn lemma_set_bit_read_back(bits: u32, index: u32, value: bool, other: u32)
    requires
        index < 32,
        other < 32,
        other != index,
    ensures
        bit_of(set_bit(bits, index, value), index) == value,
        bit_of(set_bit(bits, index, value), other) == bit_of(bits, other),
{
    if value {
        assert(((bits | (1u32 << index)) >> index) & 1u32 == 1u32) by (bit_vector)
            requires
                index < 32,
        ;
        assert(((bits | (1u32 << index)) >> other) & 1u32 == (bits >> other) & 1u32) by (bit_vector)
            requires
                index < 32,
                other < 32,
                other != index,
        ;
    } else {
        assert(((bits & !(1u32 << index)) >> index) & 1u32 == 0u32) by (bit_vector)
            requires
                index < 32,
        ;
        assert(((bits & !(1u32 << index)) >> other) & 1u32 == (bits >> other) & 1u32) by (bit_vector)
            requires
                index < 32,
                other < 32,
                other != index,
        ;
    }
}

/// The number of channels present in `bits`: how many of its bits are set.
pub open spec fn channel_count(bits: u32) -> int {
        (bits & 1u32) + ((bits >> 1u32) & 1u32) + ((bits >> 2u32) & 1u32) + ((bits >> 3u32) & 1u32) +
        ((bits >> 4u32) & 1u32) + ((bits >> 5u32) & 1u32) + ((bits >> 6u32) & 1u32) + ((bits >> 7u32) & 1u32) +
        ((bits >> 8u32) & 1u32) + ((bits >> 9u32) & 1u32) + ((bits >> 10u32) & 1u32) + ((bits >> 11u32) & 1u32) +
        ((bits >> 12u32) & 1u32) + ((bits >> 13u32) & 1u32) + ((bits >> 14u32) & 1u32) + ((bits >> 15u32) & 1u32) +
        ((bits >> 16u32) & 1u32) + ((bits >> 17u32) & 1u32) + ((bits >> 18u32) & 1u32) + ((bits >> 19u32) & 1u32) +
        ((bits >> 20u32) & 1u32) + ((bits >> 21u32) & 1u32) + ((bits >> 22u32) & 1u32) + ((bits >> 23u32) & 1u32) +
        ((bits >> 24u32) & 1u32) + ((bits >> 25u32) & 1u32) + ((bits >> 26u32) & 1u32) + ((bits >> 27u32) & 1u32) +
        ((bits >> 28u32) & 1u32) + ((bits >> 29u32) & 1u32) + ((bits >> 30u32) & 1u32) + ((bits >> 31u32) & 1u32)
}

/// The channel bits of `ChannelConfig::default_chans(n)`.
pub open spec fn default_chan_bits(n: u8) -> u32 {
    if n == 1 {
        0x1
    } else if n == 2 {
        0x3
    } else if n == 4 {
        0x33
    } else if n == 6 {
        0x3f
    } else {
        0x63f
    }
}

/// The spatial locations of the channels of a cluster (bmChannelConfig): bit
/// 0 is front left, bit 26 back right of center, bit 31 raw data; bits 27 to
/// 30 are reserved.
#[derive(Copy, Clone, Debug, PartialEq, Eq, Structural)]
pub struct ChannelConfig {
    bits: u32,
}

impl ChannelConfig {
    /// The 32 bits of the configuration.
    pub closed spec fn spec_bits(&self) -> u32 {
        self.bits
    }

    /// A configuration with no channel present.
    pub fn new() -> (r: Self)
        ensures
            r.spec_bits() == 0,
    {
        ChannelConfig { bits: 0 }
    }

    /// The configuration as four little-endian bytes.
    pub fn into_bytes(self) -> (r: [u8; 4])
        ensures
            r@ == le4(self.spec_bits() as int),
    {
        le_u32(self.bits)
    }

    /// The configuration whose little-endian bytes are `bytes`.
    pub fn from_bytes(bytes: [u8; 4]) -> (r: Self)
        ensures
            r.spec_bits() as int == le4_value(bytes@),
    {
        let bits: u32 = bytes[0] as u32 + 256 * (bytes[1] as u32) + 65536 * (bytes[2] as u32) + 16777216 * (bytes[3] as u32);
        ChannelConfig { bits }
    }

    fn with_bit(self, index: u32, value: bool) -> (r: Self)
        requires
            index < 32,
        ensures
            r.bits == set_bit(self.bits, index, value),
    {
        if value {
            ChannelConfig { bits: self.bits | (1u32 << index) }
        } else {
            ChannelConfig { bits: self.bits & !(1u32 << index) }
        }
    }

    fn get_bit(&self, index: u32) -> (r: bool)
        requires
            index < 32,
        ensures
            r == bit_of(self.bits, index),
    {
        (self.bits >> index) & 1u32 == 1u32
    }

    fn set_bit_in_place(&mut self, index: u32, value: bool)
        requires
            index < 32,
        ensures
            final(self).bits == set_bit(old(self).bits, index, value),
    {
        *self = self.with_bit(index, value);
    }

    /// Returns the configuration with the `front left` channel present or absent.
    pub fn with_front_left(self, present: bool) -> (r: Self)
        ensures
            r.spec_bits() == set_bit(self.spec_bits(), 0, present),
    {
        self.with_bit(0, present)
    }

    /// Returns the configuration with the `front right` channel present or absent.
    pub fn with_front_right(self, present: bool) -> (r: Self)
        ensures
            r.spec_bits() == set_bit(self.spec_bits(), 1, present),
    {
        self.with_bit(1, present)
    }

    /// Returns the configuration with the `front center` channel present or absent.
    pub fn with_front_center(self, present: bool) -> (r: Self)
        ensures
            r.spec_bits() == set_bit(self.spec_bits(), 2, present),
    {
        self.with_bit(2, present)
    }

    /// Returns the configuration with the `low frequency effects` channel present or absent.
    pub fn with_low_frequency_effects(self, present: bool) -> (r: Self)
        ensures
            r.spec_bits() == set_bit(self.spec_bits(), 3, present),
    {
        self.with_bit(3, present)
    }

    /// Returns the configuration with the `back left` channel present or absent.
    pub fn with_back_left(self, present: bool) -> (r: Self)
        ensures
            r.spec_bits() == set_bit(self.spec_bits(), 4, present),
    {
        self.with_bit(4, present)
    }

    /// Returns the configuration with the `back right` channel present or absent.
    pub fn with_back_right(self, present: bool) -> (r: Self)
        ensures
            r.spec_bits() == set_bit(self.spec_bits(), 5, present),
    {
        self.with_bit(5, present)
    }

    /// Returns the configuration with the `front left of center` channel present or absent.
    pub fn with_front_left_of_center(self, present: bool) -> (r: Self)
        ensures
            r.spec_bits() == set_bit(self.spec_bits(), 6, present),
    {
        self.with_bit(6, present)
    }

    /// Returns the configuration with the `front right of center` channel present or absent.
    pub fn with_front_right_of_center(self, present: bool) -> (r: Self)
        ensures
            r.spec_bits() == set_bit(self.spec_bits(), 7, present),
    {
        self.with_bit(7, present)
    }

    /// Returns the configuration with the `back center` channel present or absent.
    pub fn with_back_center(self, present: bool) -> (r: Self)
        ensures
            r.spec_bits() == set_bit(self.spec_bits(), 8, present),
    {
        self.with_bit(8, present)
    }

    /// Returns the configuration with the `side left` channel present or absent.
    pub fn with_side_left(self, present: bool) -> (r: Self)
        ensures
            r.spec_bits() == set_bit(self.spec_bits(), 9, present),
    {
        self.with_bit(9, present)
    }

    /// Returns the configuration with the `side right` channel present or absent.
    pub fn with_side_right(self, present: bool) -> (r: Self)
        ensures
            r.spec_bits() == set_bit(self.spec_bits(), 10, present),
    {
        self.with_bit(10, present)
    }

    /// Returns the configuration with the `top center` channel present or absent.
    pub fn with_top_center(self, present: bool) -> (r: Self)
        ensures
            r.spec_bits() == set_bit(self.spec_bits(), 11, present),
    {
        self.with_bit(11, present)
    }

    /// Returns the configuration with the `top front left` channel present or absent.
    pub fn with_top_front_left(self, present: bool) -> (r: Self)
        ensures
            r.spec_bits() == set_bit(self.spec_bits(), 12, present),
    {
        self.with_bit(12, present)
    }

    /// Returns the configuration with the `top front center` channel present or absent.
    pub fn with_top_front_center(self, present: bool) -> (r: Self)
        ensures
            r.spec_bits() == set_bit(self.spec_bits(), 13, present),
    {
        self.with_bit(13, present)
    }

    /// Returns the configuration with the `top front right` channel present or absent.
    pub fn with_top_front_right(self, present: bool) -> (r: Self)
        ensures
            r.spec_bits() == set_bit(self.spec_bits(), 14, present),
    {
        self.with_bit(14, present)
    }

    /// Returns the configuration with the `top back left` channel present or absent.
    pub fn with_top_back_left(self, present: bool) -> (r: Self)
        ensures
            r.spec_bits() == set_bit(self.spec_bits(), 15, present),
    {
        self.with_bit(15, present)
    }

    /// Returns the configuration with the `top back center` channel present or absent.
    pub fn with_top_back_center(self, present: bool) -> (r: Self)
        ensures
            r.spec_bits() == set_bit(self.spec_bits(), 16, present),
    {
        self.with_bit(16, present)
    }

    /// Returns the configuration with the `top back right` channel present or absent.
    pub fn with_top_back_right(self, present: bool) -> (r: Self)
        ensures
            r.spec_bits() == set_bit(self.spec_bits(), 17, present),
    {
        self.with_bit(17, present)
    }

    /// Returns the configuration with the `top front left of center` channel present or absent.
    pub fn with_top_front_left_of_center(self, present: bool) -> (r: Self)
        ensures
            r.spec_bits() == set_bit(self.spec_bits(), 18, present),
    {
        self.with_bit(18, present)
    }

    /// Returns the configuration with the `top front right of center` channel present or absent.
    pub fn with_top_front_right_of_center(self, present: bool) -> (r: Self)
        ensures
            r.spec_bits() == set_bit(self.spec_bits(), 19, present),
    {
        self.with_bit(19, present)
    }

    /// Returns the configuration with the `left row low frequency effects` channel present or absent.
    pub fn with_left_row_low_frequency_effects(self, present: bool) -> (r: Self)
        ensures
            r.spec_bits() == set_bit(self.spec_bits(), 20, present),
    {
        self.with_bit(20, present)
    }

    /// Returns the configuration with the `right row low frequency effects` channel present or absent.
    pub fn with_right_row_low_frequency_effects(self, present: bool) -> (r: Self)
        ensures
            r.spec_bits() == set_bit(self.spec_bits(), 21, present),
    {
        self.with_bit(21, present)
    }

    /// Returns the configuration with the `top side left` channel present or absent.
    pub fn with_top_side_left(self, present: bool) -> (r: Self)
        ensures
            r.spec_bits() == set_bit(self.spec_bits(), 22, present),
    {
        self.with_bit(22, present)
    }

    /// Returns the configuration with the `top side right` channel present or absent.
    pub fn with_top_side_right(self, present: bool) -> (r: Self)
        ensures
            r.spec_bits() == set_bit(self.spec_bits(), 23, present),
    {
        self.with_bit(23, present)
    }

    /// Returns the configuration with the `bottom center` channel present or absent.
    pub fn with_bottom_center(self, present: bool) -> (r: Self)
        ensures
            r.spec_bits() == set_bit(self.spec_bits(), 24, present),
    {
        self.with_bit(24, present)
    }

    /// Returns the configuration with the `back left of center` channel present or absent.
    pub fn with_back_left_of_center(self, present: bool) -> (r: Self)
        ensures
            r.spec_bits() == set_bit(self.spec_bits(), 25, present),
    {
        self.with_bit(25, present)
    }

    /// Returns the configuration with the `back right of center` channel present or absent.
    pub fn with_back_right_of_center(self, present: bool) -> (r: Self)
        ensures
            r.spec_bits() == set_bit(self.spec_bits(), 26, present),
    {
        self.with_bit(26, present)
    }

    /// Returns the configuration with the raw-data flag set or cleared.
    pub fn with_raw_data(self, present: bool) -> (r: Self)
        ensures
            r.spec_bits() == set_bit(self.spec_bits(), 31, present),
    {
        self.with_bit(31, present)
    }

    /// Whether the `front left` channel is present.
    pub fn front_left(&self) -> (r: bool)
        ensures
            r == bit_of(self.spec_bits(), 0),
    {
        self.get_bit(0)
    }

    /// Makes the `front left` channel present or absent.
    pub fn set_front_left(&mut self, present: bool)
        ensures
            final(self).spec_bits() == set_bit(old(self).spec_bits(), 0, present),
    {
        self.set_bit_in_place(0, present)
    }

    /// Whether the `front right` channel is present.
    pub fn front_right(&self) -> (r: bool)
        ensures
            r == bit_of(self.spec_bits(), 1),
    {
        self.get_bit(1)
    }

    /// Makes the `front right` channel present or absent.
    pub fn set_front_right(&mut self, present: bool)
        ensures
            final(self).spec_bits() == set_bit(old(self).spec_bits(), 1, present),
    {
        self.set_bit_in_place(1, present)
    }

    /// Whether the `front center` channel is present.
    pub fn front_center(&self) -> (r: bool)
        ensures
            r == bit_of(self.spec_bits(), 2),
    {
        self.get_bit(2)
    }

    /// Makes the `front center` channel present or absent.
    pub fn set_front_center(&mut self, present: bool)
        ensures
            final(self).spec_bits() == set_bit(old(self).spec_bits(), 2, present),
    {
        self.set_bit_in_place(2, present)
    }

    /// Whether the `low frequency effects` channel is present.
    pub fn low_frequency_effects(&self) -> (r: bool)
        ensures
            r == bit_of(self.spec_bits(), 3),
    {
        self.get_bit(3)
    }

    /// Makes the `low frequency effects` channel present or absent.
    pub fn set_low_frequency_effects(&mut self, present: bool)
        ensures
            final(self).spec_bits() == set_bit(old(self).spec_bits(), 3, present),
    {
        self.set_bit_in_place(3, present)
    }

    /// Whether the `back left` channel is present.
    pub fn back_left(&self) -> (r: bool)
        ensures
            r == bit_of(self.spec_bits(), 4),
    {
        self.get_bit(4)
    }

    /// Makes the `back left` channel present or absent.
    pub fn set_back_left(&mut self, present: bool)
        ensures
            final(self).spec_bits() == set_bit(old(self).spec_bits(), 4, present),
    {
        self.set_bit_in_place(4, present)
    }

    /// Whether the `back right` channel is present.
    pub fn back_right(&self) -> (r: bool)
        ensures
            r == bit_of(self.spec_bits(), 5),
    {
        self.get_bit(5)
    }

    /// Makes the `back right` channel present or absent.
    pub fn set_back_right(&mut self, present: bool)
        ensures
            final(self).spec_bits() == set_bit(old(self).spec_bits(), 5, present),
    {
        self.set_bit_in_place(5, present)
    }

    /// Whether the `front left of center` channel is present.
    pub fn front_left_of_center(&self) -> (r: bool)
        ensures
            r == bit_of(self.spec_bits(), 6),
    {
        self.get_bit(6)
    }

    /// Makes the `front left of center` channel present or absent.
    pub fn set_front_left_of_center(&mut self, present: bool)
        ensures
            final(self).spec_bits() == set_bit(old(self).spec_bits(), 6, present),
    {
        self.set_bit_in_place(6, present)
    }

    /// Whether the `front right of center` channel is present.
    pub fn front_right_of_center(&self) -> (r: bool)
        ensures
            r == bit_of(self.spec_bits(), 7),
    {
        self.get_bit(7)
    }

    /// Makes the `front right of center` channel present or absent.
    pub fn set_front_right_of_center(&mut self, present: bool)
        ensures
            final(self).spec_bits() == set_bit(old(self).spec_bits(), 7, present),
    {
        self.set_bit_in_place(7, present)
    }

    /// Whether the `back center` channel is present.
    pub fn back_center(&self) -> (r: bool)
        ensures
            r == bit_of(self.spec_bits(), 8),
    {
        self.get_bit(8)
    }

    /// Makes the `back center` channel present or absent.
    pub fn set_back_center(&mut self, present: bool)
        ensures
            final(self).spec_bits() == set_bit(old(self).spec_bits(), 8, present),
    {
        self.set_bit_in_place(8, present)
    }

    /// Whether the `side left` channel is present.
    pub fn side_left(&self) -> (r: bool)
        ensures
            r == bit_of(self.spec_bits(), 9),
    {
        self.get_bit(9)
    }

    /// Makes the `side left` channel present or absent.
    pub fn set_side_left(&mut self, present: bool)
        ensures
            final(self).spec_bits() == set_bit(old(self).spec_bits(), 9, present),
    {
        self.set_bit_in_place(9, present)
    }

    /// Whether the `side right` channel is present.
    pub fn side_right(&self) -> (r: bool)
        ensures
            r == bit_of(self.spec_bits(), 10),
    {
        self.get_bit(10)
    }

    /// Makes the `side right` channel present or absent.
    pub fn set_side_right(&mut self, present: bool)
        ensures
            final(self).spec_bits() == set_bit(old(self).spec_bits(), 10, present),
    {
        self.set_bit_in_place(10, present)
    }

    /// Whether the `top center` channel is present.
    pub fn top_center(&self) -> (r: bool)
        ensures
            r == bit_of(self.spec_bits(), 11),
    {
        self.get_bit(11)
    }

    /// Makes the `top center` channel present or absent.
    pub fn set_top_center(&mut self, present: bool)
        ensures
            final(self).spec_bits() == set_bit(old(self).spec_bits(), 11, present),
    {
        self.set_bit_in_place(11, present)
    }

    /// Whether the `top front left` channel is present.
    pub fn top_front_left(&self) -> (r: bool)
        ensures
            r == bit_of(self.spec_bits(), 12),
    {
        self.get_bit(12)
    }

    /// Makes the `top front left` channel present or absent.
    pub fn set_top_front_left(&mut self, present: bool)
        ensures
            final(self).spec_bits() == set_bit(old(self).spec_bits(), 12, present),
    {
        self.set_bit_in_place(12, present)
    }

    /// Whether the `top front center` channel is present.
    pub fn top_front_center(&self) -> (r: bool)
        ensures
            r == bit_of(self.spec_bits(), 13),
    {
        self.get_bit(13)
    }

    /// Makes the `top front center` channel present or absent.
    pub fn set_top_front_center(&mut self, present: bool)
        ensures
            final(self).spec_bits() == set_bit(old(self).spec_bits(), 13, present),
    {
        self.set_bit_in_place(13, present)
    }

    /// Whether the `top front right` channel is present.
    pub fn top_front_right(&self) -> (r: bool)
        ensures
            r == bit_of(self.spec_bits(), 14),
    {
        self.get_bit(14)
    }

    /// Makes the `top front right` channel present or absent.
    pub fn set_top_front_right(&mut self, present: bool)
        ensures
            final(self).spec_bits() == set_bit(old(self).spec_bits(), 14, present),
    {
        self.set_bit_in_place(14, present)
    }

    /// Whether the `top back left` channel is present.
    pub fn top_back_left(&self) -> (r: bool)
        ensures
            r == bit_of(self.spec_bits(), 15),
    {
        self.get_bit(15)
    }

    /// Makes the `top back left` channel present or absent.
    pub fn set_top_back_left(&mut self, present: bool)
        ensures
            final(self).spec_bits() == set_bit(old(self).spec_bits(), 15, present),
    {
        self.set_bit_in_place(15, present)
    }

    /// Whether the `top back center` channel is present.
    pub fn top_back_center(&self) -> (r: bool)
        ensures
            r == bit_of(self.spec_bits(), 16),
    {
        self.get_bit(16)
    }

    /// Makes the `top back center` channel present or absent.
    pub fn set_top_back_center(&mut self, present: bool)
        ensures
            final(self).spec_bits() == set_bit(old(self).spec_bits(), 16, present),
    {
        self.set_bit_in_place(16, present)
    }

    /// Whether the `top back right` channel is present.
    pub fn top_back_right(&self) -> (r: bool)
        ensures
            r == bit_of(self.spec_bits(), 17),
    {
        self.get_bit(17)
    }

    /// Makes the `top back right` channel present or absent.
    pub fn set_top_back_right(&mut self, present: bool)
        ensures
            final(self).spec_bits() == set_bit(old(self).spec_bits(), 17, present),
    {
        self.set_bit_in_place(17, present)
    }

    /// Whether the `top front left of center` channel is present.
    pub fn top_front_left_of_center(&self) -> (r: bool)
        ensures
            r == bit_of(self.spec_bits(), 18),
    {
        self.get_bit(18)
    }

    /// Makes the `top front left of center` channel present or absent.
    pub fn set_top_front_left_of_center(&mut self, present: bool)
        ensures
            final(self).spec_bits() == set_bit(old(self).spec_bits(), 18, present),
    {
        self.set_bit_in_place(18, present)
    }

    /// Whether the `top front right of center` channel is present.
    pub fn top_front_right_of_center(&self) -> (r: bool)
        ensures
            r == bit_of(self.spec_bits(), 19),
    {
        self.get_bit(19)
    }

    /// Makes the `top front right of center` channel present or absent.
    pub fn set_top_front_right_of_center(&mut self, present: bool)
        ensures
            final(self).spec_bits() == set_bit(old(self).spec_bits(), 19, present),
    {
        self.set_bit_in_place(19, present)
    }

    /// Whether the `left row low frequency effects` channel is present.
    pub fn left_row_low_frequency_effects(&self) -> (r: bool)
        ensures
            r == bit_of(self.spec_bits(), 20),
    {
        self.get_bit(20)
    }

    /// Makes the `left row low frequency effects` channel present or absent.
    pub fn set_left_row_low_frequency_effects(&mut self, present: bool)
        ensures
            final(self).spec_bits() == set_bit(old(self).spec_bits(), 20, present),
    {
        self.set_bit_in_place(20, present)
    }

    /// Whether the `right row low frequency effects` channel is present.
    pub fn right_row_low_frequency_effects(&self) -> (r: bool)
        ensures
            r == bit_of(self.spec_bits(), 21),
    {
        self.get_bit(21)
    }

    /// Makes the `right row low frequency effects` channel present or absent.
    pub fn set_right_row_low_frequency_effects(&mut self, present: bool)
        ensures
            final(self).spec_bits() == set_bit(old(self).spec_bits(), 21, present),
    {
        self.set_bit_in_place(21, present)
    }

    /// Whether the `top side left` channel is present.
    pub fn top_side_left(&self) -> (r: bool)
        ensures
            r == bit_of(self.spec_bits(), 22),
    {
        self.get_bit(22)
    }

    /// Makes the `top side left` channel present or absent.
    pub fn set_top_side_left(&mut self, present: bool)
        ensures
            final(self).spec_bits() == set_bit(old(self).spec_bits(), 22, present),
    {
        self.set_bit_in_place(22, present)
    }

    /// Whether the `top side right` channel is present.
    pub fn top_side_right(&self) -> (r: bool)
        ensures
            r == bit_of(self.spec_bits(), 23),
    {
        self.get_bit(23)
    }

    /// Makes the `top side right` channel present or absent.
    pub fn set_top_side_right(&mut self, present: bool)
        ensures
            final(self).spec_bits() == set_bit(old(self).spec_bits(), 23, present),
    {
        self.set_bit_in_place(23, present)
    }

    /// Whether the `bottom center` channel is present.
    pub fn bottom_center(&self) -> (r: bool)
        ensures
            r == bit_of(self.spec_bits(), 24),
    {
        self.get_bit(24)
    }

    /// Makes the `bottom center` channel present or absent.
    pub fn set_bottom_center(&mut self, present: bool)
        ensures
            final(self).spec_bits() == set_bit(old(self).spec_bits(), 24, present),
    {
        self.set_bit_in_place(24, present)
    }

    /// Whether the `back left of center` channel is present.
    pub fn back_left_of_center(&self) -> (r: bool)
        ensures
            r == bit_of(self.spec_bits(), 25),
    {
        self.get_bit(25)
    }

    /// Makes the `back left of center` channel present or absent.
    pub fn set_back_left_of_center(&mut self, present: bool)
        ensures
            final(self).spec_bits() == set_bit(old(self).spec_bits(), 25, present),
    {
        self.set_bit_in_place(25, present)
    }

    /// Whether the `back right of center` channel is present.
    pub fn back_right_of_center(&self) -> (r: bool)
        ensures
            r == bit_of(self.spec_bits(), 26),
    {
        self.get_bit(26)
    }

    /// Makes the `back right of center` channel present or absent.
    pub fn set_back_right_of_center(&mut self, present: bool)
        ensures
            final(self).spec_bits() == set_bit(old(self).spec_bits(), 26, present),
    {
        self.set_bit_in_place(26, present)
    }

    /// Creates a configuration with a default channel layout for `n` channels:
    /// 1 channel: front left; 2: front left and right; 4: front left and
    /// right, back left and right; 6: those four with front center and LFE;
    /// 8: those six with side left and right. Other counts are not supported.
    pub fn default_chans(n: u8) -> (r: Self)
        requires
            n == 1 || n == 2 || n == 4 || n == 6 || n == 8,
        ensures
            r.spec_bits() == default_chan_bits(n),
            channel_count(r.spec_bits()) == n,
    {
        if n == 1 {
            let r = ChannelConfig::new().with_front_left(true);
            assert(set_bit(0, 0, true) == 0x1) by (bit_vector);
            assert(channel_count(0x1) == 1) by (bit_vector);
            r
        } else if n == 2 {
            let r = ChannelConfig::new().with_front_left(true).with_front_right(true);
            assert(set_bit(set_bit(0, 0, true), 1, true) == 0x3) by (bit_vector);
            assert(channel_count(0x3) == 2) by (bit_vector);
            r
        } else if n == 4 {
            let r = ChannelConfig::new()
                .with_front_left(true)
                .with_front_right(true)
                .with_back_left(true)
                .with_back_right(true);
            assert(set_bit(set_bit(set_bit(set_bit(0, 0, true), 1, true), 4, true), 5, true) == 0x33) by (bit_vector);
            assert(channel_count(0x33) == 4) by (bit_vector);
            r
        } else if n == 6 {
            let r = ChannelConfig::new()
                .with_front_left(true)
                .with_front_center(true)
                .with_front_right(true)
                .with_back_left(true)
                .with_back_right(true)
                .with_low_frequency_effects(true);
            assert(set_bit(set_bit(set_bit(set_bit(set_bit(set_bit(0, 0, true), 2, true), 1, true), 4, true), 5, true), 3, true) == 0x3f) by (bit_vector);
            assert(channel_count(0x3f) == 6) by (bit_vector);
            r
        } else {
            let r = ChannelConfig::new()
                .with_front_left(true)
                .with_front_center(true)
                .with_front_right(true)
                .with_back_left(true)
                .with_back_right(true)
                .with_front_center(true)
                .with_side_left(true)
                .with_side_right(true)
                .with_low_frequency_effects(true);
            assert(set_bit(set_bit(set_bit(set_bit(set_bit(set_bit(set_bit(set_bit(set_bit(0, 0, true), 2, true), 1, true), 4, true), 5, true), 2, true), 9, true), 10, true), 3, true) == 0x63f) by (bit_vector);
            assert(channel_count(0x63f) == 8) by (bit_vector);
            r
        }
    }
}

/// The controls of a feature unit channel: sixteen two-bit access codes
/// (mute, volume, bass, mid, treble, graphic equalizer, automatic gain, delay,
/// bass boost, loudness, input gain, input gain pad, phase inverter,
/// underflow, overflow, high-pass filter), from the lowest bits up.
#[derive(Copy, Clone, Debug, PartialEq, Eq, Structural)]
pub struct FeatureControls {
    bits: u32,
}

impl FeatureControls {
    /// The 32 bits of the controls.
    pub closed spec fn spec_bits(&self) -> u32 {
        self.bits
    }

    /// Controls with every access `NotPresent`.
    pub fn new() -> (r: Self)
        ensures
            r.spec_bits() == 0,
    {
        FeatureControls { bits: 0 }
    }

    /// The controls as four little-endian bytes.
    pub fn into_bytes(self) -> (r: [u8; 4])
        ensures
            r@ == le4(self.spec_bits() as int),
    {
        le_u32(self.bits)
    }

    /// The controls whose little-endian bytes are `bytes`.
    pub fn from_bytes(bytes: [u8; 4]) -> (r: Self)
        ensures
            r.spec_bits() as int == le4_value(bytes@),
    {
        let bits: u32 = bytes[0] as u32 + 256 * (bytes[1] as u32) + 65536 * (bytes[2] as u32) + 16777216 * (bytes[3] as u32);
        FeatureControls { bits }
    }
}

/// The string index a descriptor holds for an optional string: the index, or
/// 0 when there is none.
pub open spec fn string_index(string: Option<u8>) -> u8 {
    match string {
        Some(n) => n,
        None => 0,
    }
}

fn string_byte(string: Option<u8>) -> (r: u8)
    ensures
        r == string_index(string),
{
    match string {
        Some(n) => n,
        None => 0,
    }
}

/// The bytes a descriptor is written as: its length byte, its descriptor
/// type, then its payload.
pub open spec fn descriptor_bytes(size: int, descriptor_type: u8, payload: Seq<u8>) -> Seq<u8> {
    seq![size as u8, descriptor_type] + payload
}

/// Writes `size`, `descriptor_type` and `payload` to `writer` as one run of
/// bytes.
pub(crate) fn write_descriptor_bytes(
    writer: &mut Cursor<&mut [u8]>,
    size: u8,
    descriptor_type: u8,
    payload: Vec<u8>,
) -> (r: Result<(), CursorError>)
    ensures
        wrote(*old(writer), *final(writer), descriptor_bytes(size as int, descriptor_type, payload@), r),
{
    let mut bytes: Vec<u8> = Vec::new();
    bytes.push(size);
    bytes.push(descriptor_type);
    let mut rest = payload;
    bytes.append(&mut rest);
    assert(bytes@ =~= descriptor_bytes(size as int, descriptor_type, payload@));
    writer.write_all(bytes.as_slice())
}

/// A class-specific descriptor: a length byte, a descriptor type byte and a
/// payload that starts with the descriptor subtype.
pub trait Descriptor: Sized {
    /// The maximum possible size of the descriptor, including the length and
    /// descriptor type bytes. For creation of sized buffers.
    const MAX_SIZE: usize;

    /// The size the descriptor states in its length byte.
    spec fn spec_size(&self) -> int;

    /// Whether the descriptor can be written: its variable part lies within
    /// its array and its size fits in a byte.
    spec fn spec_wf(&self) -> bool;

    /// The descriptor type byte (CS_INTERFACE or CS_ENDPOINT).
    spec fn spec_descriptor_type(&self) -> u8;

    /// The bytes that follow the length and descriptor type bytes.
    spec fn spec_payload(&self) -> Seq<u8>;

    /// The actual size of the descriptor, including the length and descriptor
    /// type bytes.
    fn size(&self) -> (r: u8)
        requires
            self.spec_size() <= 255,
        ensures
            r == self.spec_size(),
            self.spec_wf() ==> r <= Self::MAX_SIZE,
    ;

    /// The descriptor type byte.
    fn descriptor_type(&self) -> (r: u8)
        ensures
            r == self.spec_descriptor_type(),
    ;

    /// The bytes that follow the length and descriptor type bytes.
    fn payload(&self) -> (r: Vec<u8>)
        requires
            self.spec_wf(),
        ensures
            r@ == self.spec_payload(),
    ;

    /// Writes the descriptor, length and descriptor type bytes included.
    fn write(&self, writer: &mut Cursor<&mut [u8]>) -> (r: Result<(), CursorError>)
        requires
            self.spec_wf(),
        ensures
            wrote(*old(writer), *final(writer), descriptor_bytes(self.spec_size(), self.spec_descriptor_type(), self.spec_payload()), r),
    ;
}

/// Clock Source Descriptor.
#[derive(Clone, Copy, Debug, PartialEq, Eq, Structural)]
pub struct ClockSource {
    pub id: u8,
    pub clock_type: ClockType,
    pub sof_sync: bool,
    pub frequency_access: AccessControl,
    pub validity_access: AccessControl,
    pub assoc_terminal: u8,
    pub string: Option<u8>,
}

impl ClockSource {
    /// bmAttributes: the clock type in D1..0 and SOF synchronization in D2.
    pub open spec fn spec_bm_attributes(&self) -> u8 {
        self.clock_type.spec_value() | (if self.sof_sync { 4u8 } else { 0u8 })
    }

    /// bmControls: frequency access in D1..0, validity access in D3..2.
    pub open spec fn spec_bm_controls(&self) -> u8 {
        (self.validity_access.spec_value() << 2u8) | self.frequency_access.spec_value()
    }

    fn bm_attributes(&self) -> (r: u8)
        ensures
            r == self.spec_bm_attributes(),
    {
        self.clock_type.value() | if self.sof_sync { 4 } else { 0 }
    }

    fn bm_controls(&self) -> (r: u8)
        ensures
            r == self.spec_bm_controls(),
    {
        (self.validity_access.value() << 2u8) | self.frequency_access.value()
    }
}

impl Descriptor for ClockSource {
    const MAX_SIZE: usize = 8;

    open spec fn spec_size(&self) -> int {
        8
    }

    open spec fn spec_wf(&self) -> bool {
        true
    }

    open spec fn spec_descriptor_type(&self) -> u8 {
        0x24
    }

    open spec fn spec_payload(&self) -> Seq<u8> {
        seq![0x0Au8, self.id, self.spec_bm_attributes(), self.spec_bm_controls(), self.assoc_terminal, string_index(self.string)]
    }

    fn size(&self) -> (r: u8) {
        8
    }

    fn descriptor_type(&self) -> (r: u8) {
        ClassSpecificDescriptorType::Interface.value()
    }

    fn payload(&self) -> (r: Vec<u8>) {
        let mut v: Vec<u8> = Vec::new();
        v.push(ClassSpecificACInterfaceDescriptorSubtype::ClockSource.value());
        v.push(self.id);
        v.push(self.bm_attributes());
        v.push(self.bm_controls());
        v.push(self.assoc_terminal);
        v.push(string_byte(self.string));
        assert(v@ =~= self.spec_payload());
        v
    }

    fn write(&self, writer: &mut Cursor<&mut [u8]>) -> (r: Result<(), CursorError>) {
        write_descriptor_bytes(writer, self.size(), self.descriptor_type(), self.payload())
    }
}

/// The two-bit code of an access in a bmControls field: 0 when the control
/// is absent, 1 when it is read-only, 3 when it is programmable.
pub open spec fn access_code(a: AccessControl) -> u8 {
    match a {
        AccessControl::NotPresent => 0u8,
        AccessControl::ReadOnly => 1u8,
        AccessControl::Programmable => 3u8,
    }
}

proof fn lemma_access_code(a: AccessControl)
    ensures
        a.spec_value() == access_code(a),
        access_code(a) < 4,
{
}

/// The clock source descriptor is written as its length 8, CS_INTERFACE
/// (0x24), CLOCK_SOURCE (0x0A), its id; then bmAttributes with the clock
/// type (0 external, 1 internal fixed, 2 internal variable, 3 internal
/// programmable) in D1..0 and SOF synchronization in D2; then bmControls with
/// the frequency control's access code in D1..0 and the validity control's in
/// D3..2; then the associated terminal and the string index.
pub proof fn lemma_clock_source_layout(cs: ClockSource)
    ensures
        ({
            let bytes = descriptor_bytes(cs.spec_size(), cs.spec_descriptor_type(), cs.spec_payload());
            let t: u8 = match cs.clock_type {
                ClockType::External => 0u8,
                ClockType::InternalFixed => 1u8,
                ClockType::InternalVariable => 2u8,
                ClockType::InternalProgrammable => 3u8,
            };
            &&& bytes.len() == 8
            &&& bytes[0] == 8 && bytes[1] == 0x24 && bytes[2] == 0x0A && bytes[3] == cs.id
            &&& bytes[4] & 3u8 == t
            &&& (bytes[4] >> 2u8) & 1u8 == (if cs.sof_sync { 1u8 } else { 0u8 })
            &&& bytes[4] >> 3u8 == 0
            &&& bytes[5] & 3u8 == access_code(cs.frequency_access)
            &&& (bytes[5] >> 2u8) & 3u8 == access_code(cs.validity_access)
            &&& bytes[5] >> 4u8 == 0
            &&& bytes[6] == cs.assoc_terminal
            &&& bytes[7] == string_index(cs.string)
        }),
{
    lemma_access_code(cs.frequency_access);
    lemma_access_code(cs.validity_access);
    let f = cs.frequency_access.spec_value();
    let v = cs.validity_access.spec_value();
    let t = cs.clock_type.spec_value();
    let s: u8 = if cs.sof_sync { 4u8 } else { 0u8 };
    assert(((v << 2u8) | f) & 3u8 == f && (((v << 2u8) | f) >> 2u8) & 3u8 == v && ((v << 2u8) | f) >> 4u8 == 0)
        by (bit_vector)
        requires
            f < 4,
            v < 4,
    ;
    assert((t | s) & 3u8 == t && ((t | s) >> 2u8) & 1u8 == (if s == 4 { 1u8 } else { 0u8 }) && (t | s) >> 3u8 == 0)
        by (bit_vector)
        requires
            t < 4,
            s == 0 || s == 4,
    ;
}

fn push2(v: &mut Vec<u8>, b: [u8; 2])
    ensures
        final(v)@ == old(v)@ + b@,
{
    v.push(b[0]);
    v.push(b[1]);
    assert(final(v)@ =~= old(v)@ + b@) by {
        assert(v@ =~= old(v)@ + b@);
    }
}

fn push4(v: &mut Vec<u8>, b: [u8; 4])
    ensures
        final(v)@ == old(v)@ + b@,
{
    v.push(b[0]);
    v.push(b[1]);
    v.push(b[2]);
    v.push(b[3]);
    assert(v@ =~= old(v)@ + b@);
}

fn push_prefix(v: &mut Vec<u8>, src: &[u8], n: usize)
    requires
        n <= src@.len(),
    ensures
        final(v)@ == old(v)@ + src@.take(n as int),
{
    let mut i: usize = 0;
    while i < n
        invariant
            i <= n,
            n <= src@.len(),
            v@ == old(v)@ + src@.take(i as int),
        decreases n - i,
    {
        v.push(src[i]);
        i = i + 1;
        assert(v@ =~= old(v)@ + src@.take(i as int));
    }
}

/// Input Terminal Descriptor.
#[derive(Clone, Copy, Debug, PartialEq, Eq, Structural)]
pub struct InputTerminal {
    pub id: u8,
    pub terminal_type: TerminalType,
    pub assoc_terminal: u8,
    pub clock_source: u8,
    pub num_channels: u8,
    pub channel_config: ChannelConfig,
    pub channel_names: u8,
    pub copy_protect_control: AccessControl,
    pub connector_control: AccessControl,
    pub overload_control: AccessControl,
    pub cluster_control: AccessControl,
    pub underflow_control: AccessControl,
    pub overflow_control: AccessControl,
    pub phantom_power_control: AccessControl,
    pub string: Option<u8>,
}

impl InputTerminal {
    /// The low byte of bmControls: copy protect, connector, overload and
    /// cluster controls, two bits each from D1..0 up.
    pub open spec fn spec_controls_low(&self) -> u8 {
        self.copy_protect_control.spec_value() | (self.connector_control.spec_value() << 2u8)
            | (self.overload_control.spec_value() << 4u8) | (self.cluster_control.spec_value() << 6u8)
    }

    /// The high byte of bmControls: underflow, overflow and phantom power
    /// controls, two bits each from D9..8 up.
    pub open spec fn spec_controls_high(&self) -> u8 {
        self.underflow_control.spec_value() | (self.overflow_control.spec_value() << 2u8)
            | (self.phantom_power_control.spec_value() << 4u8)
    }
}

impl Descriptor for InputTerminal {
    const MAX_SIZE: usize = 17;

    open spec fn spec_size(&self) -> int {
        17
    }

    open spec fn spec_wf(&self) -> bool {
        true
    }

    open spec fn spec_descriptor_type(&self) -> u8 {
        0x24
    }

    open spec fn spec_payload(&self) -> Seq<u8> {
        seq![0x02u8, self.id] + le2(self.terminal_type.spec_value() as int)
            + seq![self.assoc_terminal, self.clock_source, self.num_channels]
            + le4(self.channel_config.spec_bits() as int)
            + seq![self.channel_names, self.spec_controls_low(), self.spec_controls_high(), string_index(self.string)]
    }

    fn size(&self) -> (r: u8) {
        17
    }

    fn descriptor_type(&self) -> (r: u8) {
        ClassSpecificDescriptorType::Interface.value()
    }

    fn payload(&self) -> (r: Vec<u8>)
        ensures
            r@.len() + 2 == self.spec_size(),
    {
        let mut v: Vec<u8> = Vec::new();
        v.push(ClassSpecificACInterfaceDescriptorSubtype::InputTerminal.value());
        v.push(self.id);
        push2(&mut v, le_u16(self.terminal_type.value()));
        v.push(self.assoc_terminal);
        v.push(self.clock_source);
        v.push(self.num_channels);
        push4(&mut v, self.channel_config.into_bytes());
        v.push(self.channel_names);
        v.push(
            self.copy_protect_control.value() | (self.connector_control.value() << 2u8)
                | (self.overload_control.value() << 4u8) | (self.cluster_control.value() << 6u8),
        );
        v.push(
            self.underflow_control.value() | (self.overflow_control.value() << 2u8)
                | (self.phantom_power_control.value() << 4u8),
        );
        v.push(string_byte(self.string));
        assert(v@ =~= self.spec_payload());
        v
    }

    fn write(&self, writer: &mut Cursor<&mut [u8]>) -> (r: Result<(), CursorError>) {
        write_descriptor_bytes(writer, self.size(), self.descriptor_type(), self.payload())
    }
}

/// Output Terminal Descriptor.
#[derive(Clone, Copy, Debug, PartialEq, Eq, Structural)]
pub struct OutputTerminal {
    pub id: u8,
    pub terminal_type: TerminalType,
    pub assoc_terminal: u8,
    pub source_id: u8,
    pub clock_source: u8,
    pub copy_protect_control: AccessControl,
    pub connector_control: AccessControl,
    pub overload_control: AccessControl,
    pub underflow_control: AccessControl,
    pub overflow_control: AccessControl,
    pub string: Option<u8>,
}

impl OutputTerminal {
    /// The low byte of bmControls: copy protect, connector, overload and
    /// underflow controls, two bits each from D1..0 up.
    pub open spec fn spec_controls_low(&self) -> u8 {
        self.copy_protect_control.spec_value() | (self.connector_control.spec_value() << 2u8)
            | (self.overload_control.spec_value() << 4u8) | (self.underflow_control.spec_value() << 6u8)
    }
}

impl Descriptor for OutputTerminal {
    const MAX_SIZE: usize = 12;

    open spec fn spec_size(&self) -> int {
        12
    }

    open spec fn spec_wf(&self) -> bool {
        true
    }

    open spec fn spec_descriptor_type(&self) -> u8 {
        0x24
    }

    open spec fn spec_payload(&self) -> Seq<u8> {
        seq![0x03u8, self.id] + le2(self.terminal_type.spec_value() as int)
            + seq![self.assoc_terminal, self.source_id, self.clock_source, self.spec_controls_low(),
                self.overflow_control.spec_value(), string_index(self.string)]
    }

    fn size(&self) -> (r: u8) {
        12
    }

    fn descriptor_type(&self) -> (r: u8) {
        ClassSpecificDescriptorType::Interface.value()
    }

    fn payload(&self) -> (r: Vec<u8>)
        ensures
            r@.len() + 2 == self.spec_size(),
    {
        let mut v: Vec<u8> = Vec::new();
        v.push(ClassSpecificACInterfaceDescriptorSubtype::OutputTerminal.value());
        v.push(self.id);
        push2(&mut v, le_u16(self.terminal_type.value()));
        v.push(self.assoc_terminal);
        v.push(self.source_id);
        v.push(self.clock_source);
        v.push(
            self.copy_protect_control.value() | (self.connector_control.value() << 2u8)
                | (self.overload_control.value() << 4u8) | (self.underflow_control.value() << 6u8),
        );
        v.push(self.overflow_control.value());
        v.push(string_byte(self.string));
        assert(v@ =~= self.spec_payload());
        v
    }

    fn write(&self, writer: &mut Cursor<&mut [u8]>) -> (r: Result<(), CursorError>) {
        write_descriptor_bytes(writer, self.size(), self.descriptor_type(), self.payload())
    }
}

/// Either terminal descriptor.
#[derive(Clone, Copy, Debug, PartialEq, Eq, Structural)]
pub enum Terminal {
    Input(InputTerminal),
    Output(OutputTerminal),
}

impl Descriptor for Terminal {
    const MAX_SIZE: usize = 17;

    open spec fn spec_size(&self) -> int {
        match self {
            Terminal::Input(t) => t.spec_size(),
            Terminal::Output(t) => t.spec_size(),
        }
    }

    open spec fn spec_wf(&self) -> bool {
        true
    }

    open spec fn spec_descriptor_type(&self) -> u8 {
        0x24
    }

    open spec fn spec_payload(&self) -> Seq<u8> {
        match self {
            Terminal::Input(t) => t.spec_payload(),
            Terminal::Output(t) => t.spec_payload(),
        }
    }

    fn size(&self) -> (r: u8) {
        match self {
            Terminal::Input(t) => t.size(),
            Terminal::Output(t) => t.size(),
        }
    }

    fn descriptor_type(&self) -> (r: u8) {
        match self {
            Terminal::Input(t) => t.descriptor_type(),
            Terminal::Output(t) => t.descriptor_type(),
        }
    }

    fn payload(&self) -> (r: Vec<u8>)
        ensures
            r@.len() + 2 == self.spec_size(),
    {
        match self {
            Terminal::Input(t) => t.payload(),
            Terminal::Output(t) => t.payload(),
        }
    }

    fn write(&self, writer: &mut Cursor<&mut [u8]>) -> (r: Result<(), CursorError>) {
        match self {
            Terminal::Input(t) => t.write(writer),
            Terminal::Output(t) => t.write(writer),
        }
    }
}

/// Clock Selector Descriptor with room for up to `MAX_SOURCES` input pins, of
/// which the first `n_sources` are used.
#[derive(Clone, Copy, Debug)]
pub struct ClockSelector<const MAX_SOURCES: usize> {
    pub id: u8,
    pub n_sources: u8,
    /// baCSourceID[]
    pub sources: [u8; MAX_SOURCES],
    pub selector_access: AccessControl,
    /// iClockSelector
    pub string: u8,
}

impl<const N: usize> Descriptor for ClockSelector<N> {
    const MAX_SIZE: usize = 7 + N;

    open spec fn spec_size(&self) -> int {
        7 + self.n_sources
    }

    open spec fn spec_wf(&self) -> bool {
        &&& self.n_sources <= N
        &&& 7 + self.n_sources <= 255
        &&& N + 7 <= usize::MAX
    }

    open spec fn spec_descriptor_type(&self) -> u8 {
        0x24
    }

    open spec fn spec_payload(&self) -> Seq<u8> {
        seq![0x0Bu8, self.id, self.n_sources] + self.sources@.take(self.n_sources as int)
            + seq![self.selector_access.spec_value(), self.string]
    }

    fn size(&self) -> (r: u8) {
        7 + self.n_sources
    }

    fn descriptor_type(&self) -> (r: u8) {
        ClassSpecificDescriptorType::Interface.value()
    }

    fn payload(&self) -> (r: Vec<u8>)
        ensures
            r@.len() + 2 == self.spec_size(),
    {
        let mut v: Vec<u8> = Vec::new();
        v.push(ClassSpecificACInterfaceDescriptorSubtype::ClockSelector.value());
        v.push(self.id);
        v.push(self.n_sources);
        push_prefix(&mut v, self.sources.as_slice(), self.n_sources as usize);
        v.push(self.selector_access.value());
        v.push(self.string);
        assert(v@ =~= self.spec_payload());
        v
    }

    fn write(&self, writer: &mut Cursor<&mut [u8]>) -> (r: Result<(), CursorError>) {
        write_descriptor_bytes(writer, self.size(), self.descriptor_type(), self.payload())
    }
}

/// Clock Multiplier Descriptor.
#[derive(Clone, Copy, Debug, PartialEq, Eq, Structural)]
pub struct ClockMultiplier {
    pub id: u8,
    pub source_id: u8,
    pub numerator_access: AccessControl,
    pub denominator_access: AccessControl,
    /// iClockMultiplier
    pub string: u8,
}

impl ClockMultiplier {
    /// bmControls: numerator access in D1..0, denominator access in D3..2.
    pub open spec fn spec_bm_controls(&self) -> u8 {
        self.numerator_access.spec_value() | (self.denominator_access.spec_value() << 2u8)
    }
}

impl Descriptor for ClockMultiplier {
    const MAX_SIZE: usize = 7;

    open spec fn spec_size(&self) -> int {
        7
    }

    open spec fn spec_wf(&self) -> bool {
        true
    }

    open spec fn spec_descriptor_type(&self) -> u8 {
        0x24
    }

    open spec fn spec_payload(&self) -> Seq<u8> {
        seq![0x0Cu8, self.id, self.source_id, self.spec_bm_controls(), self.string]
    }

    fn size(&self) -> (r: u8) {
        7
    }

    fn descriptor_type(&self) -> (r: u8) {
        ClassSpecificDescriptorType::Interface.value()
    }

    fn payload(&self) -> (r: Vec<u8>)
        ensures
            r@.len() + 2 == self.spec_size(),
    {
        let mut v: Vec<u8> = Vec::new();
        v.push(ClassSpecificACInterfaceDescriptorSubtype::ClockMultiplier.value());
        v.push(self.id);
        v.push(self.source_id);
        v.push(self.numerator_access.value() | (self.denominator_access.value() << 2u8));
        v.push(self.string);
        assert(v@ =~= self.spec_payload());
        v
    }

    fn write(&self, writer: &mut Cursor<&mut [u8]>) -> (r: Result<(), CursorError>) {
        write_descriptor_bytes(writer, self.size(), self.descriptor_type(), self.payload())
    }
}

/// Selector Unit Descriptor with room for up to `MAX_SOURCES` input pins, of
/// which the first `n_sources` are used.
#[derive(Clone, Copy, Debug)]
pub struct SelectorUnit<const MAX_SOURCES: usize> {
    pub id: u8,
    /// baSourceID[]
    pub sources: [u8; MAX_SOURCES],
    pub n_sources: u8,
    pub selector_control: AccessControl,
    /// iSelector
    pub string: u8,
}

impl<const N: usize> Descriptor for SelectorUnit<N> {
    const MAX_SIZE: usize = 7 + N;

    open spec fn spec_size(&self) -> int {
        7 + self.n_sources
    }

    open spec fn spec_wf(&self) -> bool {
        &&& self.n_sources <= N
        &&& 7 + self.n_sources <= 255
        &&& N + 7 <= usize::MAX
    }

    open spec fn spec_descriptor_type(&self) -> u8 {
        0x24
    }

    open spec fn spec_payload(&self) -> Seq<u8> {
        seq![0x05u8, self.id, self.n_sources] + self.sources@.take(self.n_sources as int)
            + seq![self.selector_control.spec_value(), self.string]
    }

    fn size(&self) -> (r: u8) {
        7 + self.n_sources
    }

    fn descriptor_type(&self) -> (r: u8) {
        ClassSpecificDescriptorType::Interface.value()
    }

    fn payload(&self) -> (r: Vec<u8>)
        ensures
            r@.len() + 2 == self.spec_size(),
    {
        let mut v: Vec<u8> = Vec::new();
        v.push(ClassSpecificACInterfaceDescriptorSubtype::SelectorUnit.value());
        v.push(self.id);
        v.push(self.n_sources);
        push_prefix(&mut v, self.sources.as_slice(), self.n_sources as usize);
        v.push(self.selector_control.value());
        v.push(self.string);
        assert(v@ =~= self.spec_payload());
        v
    }

    fn write(&self, writer: &mut Cursor<&mut [u8]>) -> (r: Result<(), CursorError>) {
        write_descriptor_bytes(writer, self.size(), self.descriptor_type(), self.payload())
    }
}

/// Processing Unit Descriptor with room for up to `MAX_SOURCES` input pins, of
/// which the first `n_sources` are used.
#[derive(Clone, Copy, Debug)]
pub struct ProcessingUnit<const MAX_SOURCES: usize> {
    pub id: u8,
    /// wProcessType
    pub process_type: u16,
    /// baSourceID[]
    pub sources: [u8; MAX_SOURCES],
    /// bNrChannels
    pub num_channels: u8,
    pub n_sources: u8,
    /// bmChannelConfig
    pub channel_config: ChannelConfig,
    /// iChannelNames
    pub channel_names: u8,
    pub enable_control: AccessControl,
    pub mode_select_control: AccessControl,
    pub cluster_control: AccessControl,
    pub underflow_control: AccessControl,
    pub overflow_control: AccessControl,
    pub latency_control: AccessControl,
    /// iProcessing
    pub string: u8,
}

impl<const N: usize> ProcessingUnit<N> {
    /// bmControls (two bytes): enable, mode select, cluster, underflow,
    /// overflow and latency controls, two bits each from D1..0 up.
    pub open spec fn spec_bm_controls(&self) -> u16 {
        (self.enable_control.spec_value() as u16) | ((self.mode_select_control.spec_value() as u16) << 2u16)
            | ((self.cluster_control.spec_value() as u16) << 4u16)
            | ((self.underflow_control.spec_value() as u16) << 6u16)
            | ((self.overflow_control.spec_value() as u16) << 8u16)
            | ((self.latency_control.spec_value() as u16) << 10u16)
    }

    fn bm_controls(&self) -> (r: u16)
        ensures
            r == self.spec_bm_controls(),
    {
        (self.enable_control.value() as u16) | ((self.mode_select_control.value() as u16) << 2u16)
            | ((self.cluster_control.value() as u16) << 4u16)
            | ((self.underflow_control.value() as u16) << 6u16)
            | ((self.overflow_control.value() as u16) << 8u16)
            | ((self.latency_control.value() as u16) << 10u16)
    }
}

impl<const N: usize> Descriptor for ProcessingUnit<N> {
    const MAX_SIZE: usize = 17 + N;

    /// The number of bytes the descriptor is written as.
    open spec fn spec_size(&self) -> int {
        16 + self.n_sources
    }

    open spec fn spec_wf(&self) -> bool {
        &&& self.n_sources <= N
        &&& 16 + self.n_sources <= 255
        &&& N + 17 <= usize::MAX
    }

    open spec fn spec_descriptor_type(&self) -> u8 {
        0x24
    }

    open spec fn spec_payload(&self) -> Seq<u8> {
        seq![0x08u8, self.id] + le2(self.process_type as int) + seq![self.n_sources]
            + self.sources@.take(self.n_sources as int) + seq![self.num_channels]
            + le4(self.channel_config.spec_bits() as int) + seq![self.channel_names]
            + le2(self.spec_bm_controls() as int) + seq![self.string]
    }

    fn size(&self) -> (r: u8) {
        16 + self.n_sources
    }

    fn descriptor_type(&self) -> (r: u8) {
        ClassSpecificDescriptorType::Interface.value()
    }

    fn payload(&self) -> (r: Vec<u8>)
        ensures
            r@.len() + 2 == self.spec_size(),
    {
        let mut v: Vec<u8> = Vec::new();
        v.push(ClassSpecificACInterfaceDescriptorSubtype::ProcessingUnit.value());
        v.push(self.id);
        push2(&mut v, le_u16(self.process_type));
        v.push(self.n_sources);
        push_prefix(&mut v, self.sources.as_slice(), self.n_sources as usize);
        v.push(self.num_channels);
        push4(&mut v, self.channel_config.into_bytes());
        v.push(self.channel_names);
        push2(&mut v, le_u16(self.bm_controls()));
        v.push(self.string);
        assert(v@ =~= self.spec_payload());
        v
    }

    fn write(&self, writer: &mut Cursor<&mut [u8]>) -> (r: Result<(), CursorError>) {
        write_descriptor_bytes(writer, self.size(), self.descriptor_type(), self.payload())
    }
}

/// Extension Unit Descriptor with room for up to `MAX_SOURCES` input pins, of
/// which the first `n_sources` are used.
#[derive(Clone, Copy, Debug)]
pub struct ExtensionUnit<const MAX_SOURCES: usize> {
    pub id: u8,
    /// wExtensionCode
    pub extension_code: u16,
    /// baSourceID[]
    pub sources: [u8; MAX_SOURCES],
    pub n_sources: u8,
    /// bNrChannels
    pub num_channels: u8,
    /// bmChannelConfig
    pub channel_config: ChannelConfig,
    /// iChannelNames
    pub channel_names: u8,
    pub enable_control: AccessControl,
    pub cluster_control: AccessControl,
    pub underflow_control: AccessControl,
    pub overflow_control: AccessControl,
    /// iExtension
    pub string: u8,
}

impl<const N: usize> ExtensionUnit<N> {
    /// bmControls (one byte): enable, cluster, underflow and overflow
    /// controls, two bits each from D1..0 up.
    pub open spec fn spec_bm_controls(&self) -> u8 {
        self.enable_control.spec_value() | (self.cluster_control.spec_value() << 2u8)
            | (self.underflow_control.spec_value() << 4u8) | (self.overflow_control.spec_value() << 6u8)
    }
}

impl<const N: usize> Descriptor for ExtensionUnit<N> {
    const MAX_SIZE: usize = 16 + N;

    /// The number of bytes the descriptor is written as.
    open spec fn spec_size(&self) -> int {
        15 + self.n_sources
    }

    open spec fn spec_wf(&self) -> bool {
        &&& self.n_sources <= N
        &&& 15 + self.n_sources <= 255
        &&& N + 16 <= usize::MAX
    }

    open spec fn spec_descriptor_type(&self) -> u8 {
        0x24
    }

    open spec fn spec_payload(&self) -> Seq<u8> {
        seq![0x09u8, self.id] + le2(self.extension_code as int) + seq![self.n_sources]
            + self.sources@.take(self.n_sources as int) + seq![self.num_channels]
            + le4(self.channel_config.spec_bits() as int)
            + seq![self.channel_names, self.spec_bm_controls(), self.string]
    }

    fn size(&self) -> (r: u8) {
        15 + self.n_sources
    }

    fn descriptor_type(&self) -> (r: u8) {
        ClassSpecificDescriptorType::Interface.value()
    }

    fn payload(&self) -> (r: Vec<u8>)
        ensures
            r@.len() + 2 == self.spec_size(),
    {
        let mut v: Vec<u8> = Vec::new();
        v.push(ClassSpecificACInterfaceDescriptorSubtype::ExtensionUnit.value());
        v.push(self.id);
        push2(&mut v, le_u16(self.extension_code));
        v.push(self.n_sources);
        push_prefix(&mut v, self.sources.as_slice(), self.n_sources as usize);
        v.push(self.num_channels);
        push4(&mut v, self.channel_config.into_bytes());
        v.push(self.channel_names);
        v.push(
            self.enable_control.value() | (self.cluster_control.value() << 2u8)
                | (self.underflow_control.value() << 4u8) | (self.overflow_control.value() << 6u8),
        );
        v.push(self.string);
        assert(v@ =~= self.spec_payload());
        v
    }

    fn write(&self, writer: &mut Cursor<&mut [u8]>) -> (r: Result<(), CursorError>) {
        write_descriptor_bytes(writer, self.size(), self.descriptor_type(), self.payload())
    }
}

/// The descriptors of fixed size that can stand in the class-specific AC
/// interface descriptor. Dynamically sized descriptors are not supported yet.
#[derive(Clone, Copy, Debug, PartialEq, Eq, Structural)]
pub enum AudioClassDescriptor {
    ClockSource(ClockSource),
    ClockMultiplier(ClockMultiplier),
    InputTerminal(InputTerminal),
    OutputTerminal(OutputTerminal),
}

impl AudioClassDescriptor {
    /// The size the descriptor states in its length byte.
    pub open spec fn spec_size(&self) -> int {
        match self {
            AudioClassDescriptor::ClockSource(d) => d.spec_size(),
            AudioClassDescriptor::ClockMultiplier(d) => d.spec_size(),
            AudioClassDescriptor::InputTerminal(d) => d.spec_size(),
            AudioClassDescriptor::OutputTerminal(d) => d.spec_size(),
        }
    }

    /// The bytes after the length and descriptor type bytes.
    pub open spec fn spec_payload(&self) -> Seq<u8> {
        match self {
            AudioClassDescriptor::ClockSource(d) => d.spec_payload(),
            AudioClassDescriptor::ClockMultiplier(d) => d.spec_payload(),
            AudioClassDescriptor::InputTerminal(d) => d.spec_payload(),
            AudioClassDescriptor::OutputTerminal(d) => d.spec_payload(),
        }
    }

    /// All the bytes the descriptor is written as (all of these descriptors
    /// are CS_INTERFACE descriptors).
    pub open spec fn spec_bytes(&self) -> Seq<u8> {
        descriptor_bytes(self.spec_size(), 0x24, self.spec_payload())
    }

    /// The size of the descriptor, which is the number of bytes it is
    /// written as.
    pub fn size(&self) -> (r: u8)
        ensures
            r == self.spec_size(),
            r == self.spec_bytes().len(),
    {
        match self {
            AudioClassDescriptor::ClockSource(cs) => cs.size(),
            AudioClassDescriptor::ClockMultiplier(cm) => cm.size(),
            AudioClassDescriptor::InputTerminal(it) => it.size(),
            AudioClassDescriptor::OutputTerminal(ot) => ot.size(),
        }
    }

    /// The descriptor type byte (CS_INTERFACE).
    pub fn descriptor_type(&self) -> (r: u8)
        ensures
            r == 0x24,
    {
        ClassSpecificDescriptorType::Interface.value()
    }

    /// The bytes after the length and descriptor type bytes.
    pub fn payload(&self) -> (r: Vec<u8>)
        ensures
            r@ == self.spec_payload(),
            r@.len() + 2 == self.spec_size(),
    {
        match self {
            AudioClassDescriptor::ClockSource(cs) => cs.payload(),
            AudioClassDescriptor::ClockMultiplier(cm) => cm.payload(),
            AudioClassDescriptor::InputTerminal(it) => it.payload(),
            AudioClassDescriptor::OutputTerminal(ot) => ot.payload(),
        }
    }

    /// Writes the descriptor, length and descriptor type bytes included.
    pub fn write(&self, writer: &mut Cursor<&mut [u8]>) -> (r: Result<(), CursorError>)
        ensures
            wrote(*old(writer), *final(writer), self.spec_bytes(), r),
    {
        match self {
            AudioClassDescriptor::ClockSource(cs) => cs.write(writer),
            AudioClassDescriptor::ClockMultiplier(cm) => cm.write(writer),
            AudioClassDescriptor::InputTerminal(it) => it.write(writer),
            AudioClassDescriptor::OutputTerminal(ot) => ot.write(writer),
        }
    }
}

impl From<ClockSource> for AudioClassDescriptor {
    fn from(d: ClockSource) -> (r: Self) {
        AudioClassDescriptor::ClockSource(d)
    }
}

impl vstd::std_specs::convert::FromSpecImpl<ClockSource> for AudioClassDescriptor {
    open spec fn obeys_from_spec() -> bool {
        true
    }

    open spec fn from_spec(d: ClockSource) -> Self {
        AudioClassDescriptor::ClockSource(d)
    }
}

impl From<ClockMultiplier> for AudioClassDescriptor {
    fn from(d: ClockMultiplier) -> (r: Self) {
        AudioClassDescriptor::ClockMultiplier(d)
    }
}

impl vstd::std_specs::convert::FromSpecImpl<ClockMultiplier> for AudioClassDescriptor {
    open spec fn obeys_from_spec() -> bool {
        true
    }

    open spec fn from_spec(d: ClockMultiplier) -> Self {
        AudioClassDescriptor::ClockMultiplier(d)
    }
}

impl From<InputTerminal> for AudioClassDescriptor {
    fn from(d: InputTerminal) -> (r: Self) {
        AudioClassDescriptor::InputTerminal(d)
    }
}

impl vstd::std_specs::convert::FromSpecImpl<InputTerminal> for AudioClassDescriptor {
    open spec fn obeys_from_spec() -> bool {
        true
    }

    open spec fn from_spec(d: InputTerminal) -> Self {
        AudioClassDescriptor::InputTerminal(d)
    }
}

impl From<OutputTerminal> for AudioClassDescriptor {
    fn from(d: OutputTerminal) -> (r: Self) {
        AudioClassDescriptor::OutputTerminal(d)
    }
}

impl vstd::std_specs::convert::FromSpecImpl<OutputTerminal> for AudioClassDescriptor {
    open spec fn obeys_from_spec() -> bool {
        true
    }

    open spec fn from_spec(d: OutputTerminal) -> Self {
        AudioClassDescriptor::OutputTerminal(d)
    }
}

impl From<Terminal> for AudioClassDescriptor {
    fn from(t: Terminal) -> (r: Self) {
        match t {
            Terminal::Input(it) => AudioClassDescriptor::InputTerminal(it),
            Terminal::Output(ot) => AudioClassDescriptor::OutputTerminal(ot),
        }
    }
}

impl vstd::std_specs::convert::FromSpecImpl<Terminal> for AudioClassDescriptor {
    open spec fn obeys_from_spec() -> bool {
        true
    }

    open spec fn from_spec(t: Terminal) -> Self {
        match t {
            Terminal::Input(it) => AudioClassDescriptor::InputTerminal(it),
            Terminal::Output(ot) => AudioClassDescriptor::OutputTerminal(ot),
        }
    }
}

/// The sum of the sizes of `descs`.
pub open spec fn descriptors_size(descs: Seq<AudioClassDescriptor>) -> int
    decreases descs.len(),
{
    if descs.len() == 0 {
        0
    } else {
        descriptors_size(descs.drop_last()) + descs.last().spec_size()
    }
}

/// The bytes of `descs`, one after the other.
pub open spec fn descriptors_bytes(descs: Seq<AudioClassDescriptor>) -> Seq<u8>
    decreases descs.len(),
{
    if descs.len() == 0 {
        Seq::<u8>::empty()
    } else {
        descriptors_bytes(descs.drop_last()) + descs.last().spec_bytes()
    }
}

/// The bytes of a run of descriptors are as many as the sum of their sizes.
pub proof fn lemma_descriptors_bytes_len(descs: Seq<AudioClassDescriptor>)
    ensures
        descriptors_bytes(descs).len() == descriptors_size(descs),
        descriptors_size(descs) >= 0,
    decreases descs.len(),
{
    if descs.len() > 0 {
        lemma_descriptors_bytes_len(descs.drop_last());
    }
}

/// The class-specific AC interface descriptor: a header followed by the
/// descriptors of the audio function's entities.
pub struct AudioClassInterfaceDescriptor<const NUM_DESCRIPTORS: usize> {
    inner: [AudioClassDescriptor; NUM_DESCRIPTORS],
    category: FunctionCode,
}

impl<const N: usize> AudioClassInterfaceDescriptor<N> {
    /// The descriptors that follow the header.
    pub closed spec fn spec_descriptors(&self) -> Seq<AudioClassDescriptor> {
        self.inner@
    }

    /// The audio function category (bCategory).
    pub closed spec fn spec_category(&self) -> FunctionCode {
        self.category
    }

    /// wTotalLength: the header's nine bytes and the sizes of the descriptors.
    pub open spec fn spec_total_length(&self) -> int {
        9 + descriptors_size(self.spec_descriptors())
    }

    /// The header's bytes.
    pub open spec fn spec_header(&self) -> Seq<u8> {
        seq![9u8, 0x24u8, 0x01u8, 0u8, 2u8, self.spec_category().spec_value()] + le2(self.spec_total_length())
            + seq![0u8]
    }

    pub fn new(inner: [AudioClassDescriptor; N], category: FunctionCode) -> (r: Self)
        ensures
            r.spec_descriptors() == inner@,
            r.spec_category() == category,
    {
        Self { inner, category }
    }

    /// Total length of the interface descriptor and all its associated
    /// descriptors: wTotalLength in the class-specific AC interface header.
    pub fn total_length(&self) -> (r: u16)
        requires
            self.spec_total_length() <= u16::MAX,
        ensures
            r == self.spec_total_length(),
    {
        let mut sum: u16 = 9;
        let mut i: usize = 0;
        proof {
            assert(self.inner@.take(0) =~= Seq::<AudioClassDescriptor>::empty());
            lemma_descriptors_prefix_size(self.inner@, N as int);
        }
        while i < N
            invariant
                i <= N,
                N == self.inner@.len(),
                9 + descriptors_size(self.inner@) <= u16::MAX,
                sum == 9 + descriptors_size(self.inner@.take(i as int)),
            decreases N - i,
        {
            let size = self.inner[i].size();
            proof {
                assert(self.inner@.take(i + 1).drop_last() =~= self.inner@.take(i as int));
                lemma_descriptors_prefix_size(self.inner@, i + 1);
            }
            sum = sum + size as u16;
            i = i + 1;
        }
        assert(self.inner@.take(N as int) =~= self.inner@);
        sum
    }

    fn write_header(&self, writer: &mut Cursor<&mut [u8]>) -> (r: Result<(), CursorError>)
        requires
            self.spec_total_length() <= u16::MAX,
        ensures
            wrote(*old(writer), *final(writer), self.spec_header(), r),
    {
        let total_length = self.total_length();
        let mut v: Vec<u8> = Vec::new();
        v.push(9);
        v.push(ClassSpecificDescriptorType::Interface.value());
        v.push(ClassSpecificACInterfaceDescriptorSubtype::Header.value());
        v.push(0);
        v.push(2);
        v.push(self.category.value());
        push2(&mut v, le_u16(total_length));
        v.push(0);
        assert(v@ =~= self.spec_header());
        writer.write_all(v.as_slice())
    }

    /// Writes the header and then each descriptor. The bytes written are as
    /// many as `total_length` states.
    pub fn write(&self, writer: &mut Cursor<&mut [u8]>) -> (r: Result<(), CursorError>)
        requires
            self.spec_total_length() <= u16::MAX,
        ensures
            wrote(*old(writer), *final(writer), self.spec_header() + descriptors_bytes(self.spec_descriptors()), r),
            (self.spec_header() + descriptors_bytes(self.spec_descriptors())).len() == self.spec_total_length(),
    {
        proof {
            lemma_descriptors_bytes_len(self.inner@);
        }
        let ghost c0 = *writer;
        let r0 = self.write_header(writer);
        if r0.is_err() {
            proof {
                lemma_wrote_stop(c0, *writer, self.spec_header(), descriptors_bytes(self.inner@), r0);
            }
            return r0;
        }
        let mut i: usize = 0;
        proof {
            assert(self.inner@.take(0) =~= Seq::<AudioClassDescriptor>::empty());
            assert(self.spec_header() + descriptors_bytes(self.inner@.take(0)) =~= self.spec_header());
        }
        while i < N
            invariant
                i <= N,
                N == self.inner@.len(),
                c0 == *old(writer),
                descriptors_bytes(self.inner@).len() == descriptors_size(self.inner@),
                wrote(c0, *writer, self.spec_header() + descriptors_bytes(self.inner@.take(i as int)), Ok::<(), CursorError>(())),
            decreases N - i,
        {
            let ghost c1 = *writer;
            let ri = self.inner[i].write(writer);
            proof {
                let a = self.spec_header() + descriptors_bytes(self.inner@.take(i as int));
                let d = self.inner@[i as int].spec_bytes();
                lemma_wrote_then(c0, c1, *writer, a, d, Ok::<(), CursorError>(()), ri);
                assert(self.inner@.take(i + 1).drop_last() =~= self.inner@.take(i as int));
                assert(a + d =~= self.spec_header() + descriptors_bytes(self.inner@.take(i + 1)));
                if ri.is_err() {
                    let all = descriptors_bytes(self.inner@);
                    let pre = descriptors_bytes(self.inner@.take(i + 1));
                    lemma_descriptors_bytes_prefix(self.inner@, i + 1);
                    let rest = all.skip(pre.len() as int);
                    assert(pre + rest =~= all);
                    lemma_wrote_stop(c0, *writer, a + d, rest, ri);
                    assert(a + d + rest =~= self.spec_header() + all);
                }
            }
            if ri.is_err() {
                return ri;
            }
            i = i + 1;
        }
        assert(self.inner@.take(N as int) =~= self.inner@);
        Ok(())
    }
}

/// The size of the first `k` descriptors never exceeds the size of all.
pub proof fn lemma_descriptors_prefix_size(descs: Seq<AudioClassDescriptor>, k: int)
    requires
        0 <= k <= descs.len(),
    ensures
        0 <= descriptors_size(descs.take(k)) <= descriptors_size(descs),
    decreases descs.len(),
{
    if k < descs.len() {
        assert(descs.take(k) =~= descs.drop_last().take(k));
        lemma_descriptors_prefix_size(descs.drop_last(), k);
    } else {
        assert(descs.take(k) =~= descs);
    }
    lemma_descriptors_bytes_len(descs.take(k));
    lemma_descriptors_bytes_len(descs);
}

/// The bytes of the first `k` descriptors are a prefix of the bytes of all.
proof fn lemma_descriptors_bytes_prefix(descs: Seq<AudioClassDescriptor>, k: int)
    requires
        0 <= k <= descs.len(),
    ensures
        descriptors_bytes(descs.take(k)).len() <= descriptors_bytes(descs).len(),
        descriptors_bytes(descs.take(k)) == descriptors_bytes(descs).take(descriptors_bytes(descs.take(k)).len() as int),
    decreases descs.len(),
{
    lemma_descriptors_prefix_size(descs, k);
    lemma_descriptors_bytes_len(descs.take(k));
    lemma_descriptors_bytes_len(descs);
    if k < descs.len() {
        assert(descs.take(k) =~= descs.drop_last().take(k));
        lemma_descriptors_bytes_prefix(descs.drop_last(), k);
        assert(descriptors_bytes(descs) =~= descriptors_bytes(descs.drop_last()) + descs.last().spec_bytes());
        let p = descriptors_bytes(descs.take(k));
        assert(descriptors_bytes(descs).take(p.len() as int) =~= descriptors_bytes(descs.drop_last()).take(p.len() as int));
    } else {
        assert(descs.take(k) =~= descs);
    }
}

/// The sampling frequencies of a format: a set of discrete ones, or a
/// continuous range between a lower and an upper bound.
pub enum SamplingFrequencySet<'a> {
    Discrete(&'a [u32]),
    Continuous(u32, u32),
}

impl<'a> SamplingFrequencySet<'a> {
    /// The number of bytes the frequencies take: three per discrete frequency
    /// (the count taken modulo 256, as a byte), six for a range.
    pub fn size(&self) -> (r: u8)
        requires
            self matches SamplingFrequencySet::Discrete(freqs) ==> (freqs@.len() % 256) * 3 <= 255,
        ensures
            r == match self {
                SamplingFrequencySet::Discrete(freqs) => (freqs@.len() % 256) * 3,
                SamplingFrequencySet::Continuous(_, _) => 6,
            },
    {
        match self {
            SamplingFrequencySet::Discrete(freqs) => {
                let n: u8 = (freqs.len() % 256) as u8;
                n * 3
            },
            SamplingFrequencySet::Continuous(_, _) => 6,
        }
    }
}

/// Type I Format Type Descriptor.
#[derive(Clone, Copy, Debug, PartialEq, Eq, Structural)]
pub struct FormatType1 {
    /// bSubslotSize
    pub bytes_per_sample: u8,
    /// bBitResolution
    pub bit_resolution: u8,
}

impl Descriptor for FormatType1 {
    const MAX_SIZE: usize = 6;

    open spec fn spec_size(&self) -> int {
        6
    }

    open spec fn spec_wf(&self) -> bool {
        true
    }

    open spec fn spec_descriptor_type(&self) -> u8 {
        0x24
    }

    open spec fn spec_payload(&self) -> Seq<u8> {
        seq![0x02u8, 0x01u8, self.bytes_per_sample, self.bit_resolution]
    }

    fn size(&self) -> (r: u8) {
        6
    }

    fn descriptor_type(&self) -> (r: u8) {
        ClassSpecificDescriptorType::Interface.value()
    }

    fn payload(&self) -> (r: Vec<u8>)
        ensures
            r@.len() + 2 == self.spec_size(),
    {
        let mut v: Vec<u8> = Vec::new();
        v.push(ClassSpecificASInterfaceDescriptorSubtype::FormatType.value());
        v.push(FormatType::Type1.value());
        v.push(self.bytes_per_sample);
        v.push(self.bit_resolution);
        assert(v@ =~= self.spec_payload());
        v
    }

    fn write(&self, writer: &mut Cursor<&mut [u8]>) -> (r: Result<(), CursorError>) {
        write_descriptor_bytes(writer, self.size(), self.descriptor_type(), self.payload())
    }
}

/// The audio data formats of Type I (bmFormats bits).
#[derive(Clone, Copy, Debug, PartialEq, Eq, Structural)]
pub enum Type1FormatBitmap {
    Pcm,
    Pcm8,
    IeeeFloat,
    Alaw,
    Mulaw,
    Raw,
}

impl Type1FormatBitmap {
    /// The bmFormats bit of this format.
    pub open spec fn spec_value(self) -> u32 {
        match self {
            Type1FormatBitmap::Pcm => 0x1,
            Type1FormatBitmap::Pcm8 => 0x2,
            Type1FormatBitmap::IeeeFloat => 0x4,
            Type1FormatBitmap::Alaw => 0x8,
            Type1FormatBitmap::Mulaw => 0x10,
            Type1FormatBitmap::Raw => 0x8000_0000,
        }
    }

    /// The bmFormats bit of this format.
    pub fn value(&self) -> (r: u32)
        ensures
            r == self.spec_value(),
    {
        match self {
            Type1FormatBitmap::Pcm => 0x1,
            Type1FormatBitmap::Pcm8 => 0x2,
            Type1FormatBitmap::IeeeFloat => 0x4,
            Type1FormatBitmap::Alaw => 0x8,
            Type1FormatBitmap::Mulaw => 0x10,
            Type1FormatBitmap::Raw => 0x8000_0000,
        }
    }
}

/// Class-Specific AS Interface Descriptor.
#[derive(Clone, Copy, Debug, PartialEq, Eq, Structural)]
pub struct AudioStreamingInterface {
    /// bTerminalLink
    pub terminal_id: u8,
    pub active_alt_setting: AccessControl,
    pub valid_alt_settings: AccessControl,
    /// Only type 1 format is supported
    pub format_type: FormatType,
    pub format_bitmap: Type1FormatBitmap,
    pub num_channels: u8,
    pub channel_config: ChannelConfig,
    pub string: Option<u8>,
}

impl AudioStreamingInterface {
    /// bmControls: active alternate setting in D1..0, valid alternate
    /// settings in D3..2.
    pub open spec fn spec_bm_controls(&self) -> u8 {
        self.active_alt_setting.spec_value() | (self.valid_alt_settings.spec_value() << 2u8)
    }
}

impl Descriptor for AudioStreamingInterface {
    const MAX_SIZE: usize = 16;

    open spec fn spec_size(&self) -> int {
        16
    }

    open spec fn spec_wf(&self) -> bool {
        true
    }

    open spec fn spec_descriptor_type(&self) -> u8 {
        0x24
    }

    open spec fn spec_payload(&self) -> Seq<u8> {
        seq![0x01u8, self.terminal_id, self.spec_bm_controls(), self.format_type.spec_value()]
            + le4(self.format_bitmap.spec_value() as int) + seq![self.num_channels]
            + le4(self.channel_config.spec_bits() as int) + seq![string_index(self.string)]
    }

    fn size(&self) -> (r: u8) {
        16
    }

    fn descriptor_type(&self) -> (r: u8) {
        ClassSpecificDescriptorType::Interface.value()
    }

    fn payload(&self) -> (r: Vec<u8>)
        ensures
            r@.len() + 2 == self.spec_size(),
    {
        let mut v: Vec<u8> = Vec::new();
        v.push(ClassSpecificASInterfaceDescriptorSubtype::General.value());
        v.push(self.terminal_id);
        v.push(self.active_alt_setting.value() | (self.valid_alt_settings.value() << 2u8));
        v.push(self.format_type.value());
        push4(&mut v, le_u32(self.format_bitmap.value()));
        v.push(self.num_channels);
        push4(&mut v, self.channel_config.into_bytes());
        v.push(string_byte(self.string));
        assert(v@ =~= self.spec_payload());
        v
    }

    fn write(&self, writer: &mut Cursor<&mut [u8]>) -> (r: Result<(), CursorError>) {
        write_descriptor_bytes(writer, self.size(), self.descriptor_type(), self.payload())
    }
}

/// The delay an isochronous data endpoint takes to lock to its clock: a
/// number of units, where the unit is undefined, milliseconds or decoded PCM
/// samples.
#[derive(Clone, Copy, Debug, PartialEq, Eq, Structural)]
pub enum LockDelay {
    Undefined(u16),
    Milliseconds(u16),
    DecodedSamples(u16),
}

impl LockDelay {
    /// bLockDelayUnits.
    pub open spec fn spec_units(self) -> u8 {
        match self {
            LockDelay::Undefined(_) => 0,
            LockDelay::Milliseconds(_) => 1,
            LockDelay::DecodedSamples(_) => 2,
        }
    }

    /// wLockDelay.
    pub open spec fn spec_delay(self) -> u16 {
        match self {
            LockDelay::Undefined(d) => d,
            LockDelay::Milliseconds(d) => d,
            LockDelay::DecodedSamples(d) => d,
        }
    }

    /// bLockDelayUnits.
    pub fn units(&self) -> (r: u8)
        ensures
            r == self.spec_units(),
    {
        match self {
            LockDelay::Undefined(_) => 0,
            LockDelay::Milliseconds(_) => 1,
            LockDelay::DecodedSamples(_) => 2,
        }
    }

    /// wLockDelay.
    pub fn delay(&self) -> (r: u16)
        ensures
            r == self.spec_delay(),
    {
        match self {
            LockDelay::Undefined(d) => *d,
            LockDelay::Milliseconds(d) => *d,
            LockDelay::DecodedSamples(d) => *d,
        }
    }
}

/// Class-Specific AS Isochronous Audio Data Endpoint Descriptor.
#[derive(Clone, Copy, Debug, PartialEq, Eq, Structural)]
pub struct AudioStreamingEndpoint {
    /// D7 of bmAttributes: only packets of the maximum size are allowed.
    pub max_packets_only: bool,
    pub pitch_control: AccessControl,
    pub overrun_control: AccessControl,
    pub underrun_control: AccessControl,
    pub lock_delay: LockDelay,
}

impl AudioStreamingEndpoint {
    /// bmAttributes: MaxPacketsOnly in D7.
    pub open spec fn spec_bm_attributes(&self) -> u8 {
        if self.max_packets_only {
            0x80
        } else {
            0
        }
    }

    /// bmControls: pitch, data overrun and data underrun controls, two bits
    /// each from D1..0 up.
    pub open spec fn spec_bm_controls(&self) -> u8 {
        self.pitch_control.spec_value() | (self.overrun_control.spec_value() << 2u8)
            | (self.underrun_control.spec_value() << 4u8)
    }
}

impl Descriptor for AudioStreamingEndpoint {
    const MAX_SIZE: usize = 8;

    open spec fn spec_size(&self) -> int {
        8
    }

    open spec fn spec_wf(&self) -> bool {
        true
    }

    open spec fn spec_descriptor_type(&self) -> u8 {
        0x25
    }

    open spec fn spec_payload(&self) -> Seq<u8> {
        seq![0x01u8, self.spec_bm_attributes(), self.spec_bm_controls(), self.lock_delay.spec_units()]
            + le2(self.lock_delay.spec_delay() as int)
    }

    fn size(&self) -> (r: u8) {
        8
    }

    fn descriptor_type(&self) -> (r: u8) {
        ClassSpecificDescriptorType::Endpoint.value()
    }

    fn payload(&self) -> (r: Vec<u8>)
        ensures
            r@.len() + 2 == self.spec_size(),
    {
        let mut v: Vec<u8> = Vec::new();
        v.push(ClassSpecificEndpointDescriptorSubtype::General.value());
        v.push(if self.max_packets_only { 0x80 } else { 0 });
        v.push(
            self.pitch_control.value() | (self.overrun_control.value() << 2u8) | (self.underrun_control.value() << 4u8),
        );
        v.push(self.lock_delay.units());
        push2(&mut v, le_u16(self.lock_delay.delay()));
        assert(v@ =~= self.spec_payload());
        v
    }

    fn write(&self, writer: &mut Cursor<&mut [u8]>) -> (r: Result<(), CursorError>) {
        write_descriptor_bytes(writer, self.size(), self.descriptor_type(), self.payload())
    }
}

/// Packing four two-bit codes into a byte, from D1..0 up, keeps each one.
proof fn lemma_pack4(c0: u8, c1: u8, c2: u8, c3: u8)
    requires
        c0 < 4,
        c1 < 4,
        c2 < 4,
        c3 < 4,
    ensures
        ({
            let b = c0 | (c1 << 2u8) | (c2 << 4u8) | (c3 << 6u8);
            &&& b & 3u8 == c0
            &&& (b >> 2u8) & 3u8 == c1
            &&& (b >> 4u8) & 3u8 == c2
            &&& (b >> 6u8) & 3u8 == c3
        }),
{
    assert({
        let b = c0 | (c1 << 2u8) | (c2 << 4u8) | (c3 << 6u8);
        &&& b & 3u8 == c0
        &&& (b >> 2u8) & 3u8 == c1
        &&& (b >> 4u8) & 3u8 == c2
        &&& (b >> 6u8) & 3u8 == c3
    }) by (bit_vector)
        requires
            c0 < 4,
            c1 < 4,
            c2 < 4,
            c3 < 4,
    ;
}

/// Packing three two-bit codes into a byte, from D1..0 up, keeps each one
/// and leaves D7..6 clear.
proof fn lemma_pack3(c0: u8, c1: u8, c2: u8)
    requires
        c0 < 4,
        c1 < 4,
        c2 < 4,
    ensures
        ({
            let b = c0 | (c1 << 2u8) | (c2 << 4u8);
            &&& b & 3u8 == c0
            &&& (b >> 2u8) & 3u8 == c1
            &&& (b >> 4u8) & 3u8 == c2
            &&& b >> 6u8 == 0
        }),
{
    assert({
        let b = c0 | (c1 << 2u8) | (c2 << 4u8);
        &&& b & 3u8 == c0
        &&& (b >> 2u8) & 3u8 == c1
        &&& (b >> 4u8) & 3u8 == c2
        &&& b >> 6u8 == 0
    }) by (bit_vector)
        requires
            c0 < 4,
            c1 < 4,
            c2 < 4,
    ;
}

/// Packing two two-bit codes into a byte, from D1..0 up, keeps both and
/// leaves D7..4 clear.
proof fn lemma_pack2(c0: u8, c1: u8)
    requires
        c0 < 4,
        c1 < 4,
    ensures
        (c0 | (c1 << 2u8)) & 3u8 == c0,
        ((c0 | (c1 << 2u8)) >> 2u8) & 3u8 == c1,
        (c0 | (c1 << 2u8)) >> 4u8 == 0,
{
    assert((c0 | (c1 << 2u8)) & 3u8 == c0 && ((c0 | (c1 << 2u8)) >> 2u8) & 3u8 == c1 && (c0 | (c1 << 2u8)) >> 4u8
        == 0) by (bit_vector)
        requires
            c0 < 4,
            c1 < 4,
    ;
}

/// The input terminal descriptor is written as its length 17, CS_INTERFACE,
/// INPUT_TERMINAL (0x02), its id, its terminal type (two bytes), the
/// associated terminal, the clock source, the number of channels, the
/// channel configuration (four bytes), the channel names; then bmControls:
/// copy protect, connector, overload and cluster access codes from D1..0 up
/// in the first byte, underflow, overflow and phantom power in the second;
/// then the string index.
pub proof fn lemma_input_terminal_layout(t: InputTerminal)
    ensures
        ({
            let bytes = descriptor_bytes(t.spec_size(), t.spec_descriptor_type(), t.spec_payload());
            &&& bytes.len() == 17
            &&& bytes[0] == 17 && bytes[1] == 0x24 && bytes[2] == 0x02 && bytes[3] == t.id
            &&& bytes[6] == t.assoc_terminal && bytes[7] == t.clock_source && bytes[8] == t.num_channels
            &&& bytes.subrange(9, 13) == le4(t.channel_config.spec_bits() as int)
            &&& bytes[13] == t.channel_names
            &&& bytes[14] & 3u8 == access_code(t.copy_protect_control)
            &&& (bytes[14] >> 2u8) & 3u8 == access_code(t.connector_control)
            &&& (bytes[14] >> 4u8) & 3u8 == access_code(t.overload_control)
            &&& (bytes[14] >> 6u8) & 3u8 == access_code(t.cluster_control)
            &&& bytes[15] & 3u8 == access_code(t.underflow_control)
            &&& (bytes[15] >> 2u8) & 3u8 == access_code(t.overflow_control)
            &&& (bytes[15] >> 4u8) & 3u8 == access_code(t.phantom_power_control)
            &&& bytes[15] >> 6u8 == 0
            &&& bytes[16] == string_index(t.string)
        }),
{
    lemma_access_code(t.copy_protect_control);
    lemma_access_code(t.connector_control);
    lemma_access_code(t.overload_control);
    lemma_access_code(t.cluster_control);
    lemma_access_code(t.underflow_control);
    lemma_access_code(t.overflow_control);
    lemma_access_code(t.phantom_power_control);
    lemma_pack4(
        t.copy_protect_control.spec_value(),
        t.connector_control.spec_value(),
        t.overload_control.spec_value(),
        t.cluster_control.spec_value(),
    );
    lemma_pack3(t.underflow_control.spec_value(), t.overflow_control.spec_value(), t.phantom_power_control.spec_value());
    let bytes = descriptor_bytes(t.spec_size(), t.spec_descriptor_type(), t.spec_payload());
    assert(bytes.subrange(9, 13) =~= le4(t.channel_config.spec_bits() as int));
}

/// The output terminal descriptor is written as its length 12,
/// CS_INTERFACE, OUTPUT_TERMINAL (0x03), its id, its terminal type (two
/// bytes), the associated terminal, the source, the clock source; then
/// bmControls: copy protect, connector, overload and underflow access codes
/// from D1..0 up in the first byte, overflow alone in the second; then the
/// string index.
pub proof fn lemma_output_terminal_layout(t: OutputTerminal)
    ensures
        ({
            let bytes = descriptor_bytes(t.spec_size(), t.spec_descriptor_type(), t.spec_payload());
            &&& bytes.len() == 12
            &&& bytes[0] == 12 && bytes[1] == 0x24 && bytes[2] == 0x03 && bytes[3] == t.id
            &&& bytes[6] == t.assoc_terminal && bytes[7] == t.source_id && bytes[8] == t.clock_source
            &&& bytes[9] & 3u8 == access_code(t.copy_protect_control)
            &&& (bytes[9] >> 2u8) & 3u8 == access_code(t.connector_control)
            &&& (bytes[9] >> 4u8) & 3u8 == access_code(t.overload_control)
            &&& (bytes[9] >> 6u8) & 3u8 == access_code(t.underflow_control)
            &&& bytes[10] == access_code(t.overflow_control)
            &&& bytes[11] == string_index(t.string)
        }),
{
    lemma_access_code(t.copy_protect_control);
    lemma_access_code(t.connector_control);
    lemma_access_code(t.overload_control);
    lemma_access_code(t.underflow_control);
    lemma_access_code(t.overflow_control);
    lemma_pack4(
        t.copy_protect_control.spec_value(),
        t.connector_control.spec_value(),
        t.overload_control.spec_value(),
        t.underflow_control.spec_value(),
    );
}

/// The clock multiplier descriptor is written as its length 7,
/// CS_INTERFACE, CLOCK_MULTIPLIER (0x0C), its id, its source; then
/// bmControls with the numerator's access code in D1..0 and the
/// denominator's in D3..2; then the string index.
pub proof fn lemma_clock_multiplier_layout(m: ClockMultiplier)
    ensures
        ({
            let bytes = descriptor_bytes(m.spec_size(), m.spec_descriptor_type(), m.spec_payload());
            &&& bytes.len() == 7
            &&& bytes[0] == 7 && bytes[1] == 0x24 && bytes[2] == 0x0C && bytes[3] == m.id && bytes[4] == m.source_id
            &&& bytes[5] & 3u8 == access_code(m.numerator_access)
            &&& (bytes[5] >> 2u8) & 3u8 == access_code(m.denominator_access)
            &&& bytes[5] >> 4u8 == 0
            &&& bytes[6] == m.string
        }),
{
    lemma_access_code(m.numerator_access);
    lemma_access_code(m.denominator_access);
    lemma_pack2(m.numerator_access.spec_value(), m.denominator_access.spec_value());
}

/// The class-specific AS interface descriptor is written as its length 16,
/// CS_INTERFACE, AS_GENERAL (0x01), the linked terminal; then bmControls
/// with the active alternate setting's access code in D1..0 and the valid
/// alternate settings' in D3..2; then the format type, the formats bitmap
/// (four bytes), the number of channels, the channel configuration (four
/// bytes) and the string index.
pub proof fn lemma_streaming_interface_layout(d: AudioStreamingInterface)
    ensures
        ({
            let bytes = descriptor_bytes(d.spec_size(), d.spec_descriptor_type(), d.spec_payload());
            &&& bytes.len() == 16
            &&& bytes[0] == 16 && bytes[1] == 0x24 && bytes[2] == 0x01 && bytes[3] == d.terminal_id
            &&& bytes[4] & 3u8 == access_code(d.active_alt_setting)
            &&& (bytes[4] >> 2u8) & 3u8 == access_code(d.valid_alt_settings)
            &&& bytes[4] >> 4u8 == 0
            &&& bytes.subrange(6, 10) == le4(d.format_bitmap.spec_value() as int)
            &&& bytes[10] == d.num_channels
            &&& bytes.subrange(11, 15) == le4(d.channel_config.spec_bits() as int)
            &&& bytes[15] == string_index(d.string)
        }),
{
    lemma_access_code(d.active_alt_setting);
    lemma_access_code(d.valid_alt_settings);
    lemma_pack2(d.active_alt_setting.spec_value(), d.valid_alt_settings.spec_value());
    let bytes = descriptor_bytes(d.spec_size(), d.spec_descriptor_type(), d.spec_payload());
    assert(bytes.subrange(6, 10) =~= le4(d.format_bitmap.spec_value() as int));
    assert(bytes.subrange(11, 15) =~= le4(d.channel_config.spec_bits() as int));
}

/// The class-specific isochronous data endpoint descriptor is written as its
/// length 8, CS_ENDPOINT (0x25), EP_GENERAL (0x01); then bmAttributes with
/// only D7 set when only maximum-size packets are allowed; then bmControls
/// with the pitch, overrun and underrun access codes from D1..0 up; then the
/// lock delay's unit (0 undefined, 1 milliseconds, 2 decoded samples) and
/// the delay (two bytes, little-endian).
pub proof fn lemma_streaming_endpoint_layout(d: AudioStreamingEndpoint)
    ensures
        ({
            let bytes = descriptor_bytes(d.spec_size(), d.spec_descriptor_type(), d.spec_payload());
            let (unit, delay): (u8, u16) = match d.lock_delay {
                LockDelay::Undefined(n) => (0u8, n),
                LockDelay::Milliseconds(n) => (1u8, n),
                LockDelay::DecodedSamples(n) => (2u8, n),
            };
            &&& bytes.len() == 8
            &&& bytes[0] == 8 && bytes[1] == 0x25 && bytes[2] == 0x01
            &&& bytes[3] == (if d.max_packets_only { 0x80u8 } else { 0u8 })
            &&& bytes[4] & 3u8 == access_code(d.pitch_control)
            &&& (bytes[4] >> 2u8) & 3u8 == access_code(d.overrun_control)
            &&& (bytes[4] >> 4u8) & 3u8 == access_code(d.underrun_control)
            &&& bytes[4] >> 6u8 == 0
            &&& bytes[5] == unit
            &&& bytes[6] + 256 * bytes[7] == delay
        }),
{
    lemma_access_code(d.pitch_control);
    lemma_access_code(d.overrun_control);
    lemma_access_code(d.underrun_control);
    lemma_pack3(d.pitch_control.spec_value(), d.overrun_control.spec_value(), d.underrun_control.spec_value());
}

/// The Type I format descriptor is written as its length 6, CS_INTERFACE,
/// FORMAT_TYPE (0x02), FORMAT_TYPE_I (0x01), the subslot size and the bit
/// resolution.
pub proof fn lemma_format_type1_layout(f: FormatType1)
    ensures
        descriptor_bytes(f.spec_size(), f.spec_descriptor_type(), f.spec_payload()) == seq![
            6u8,
            0x24u8,
            0x02u8,
            0x01u8,
            f.bytes_per_sample,
            f.bit_resolution,
        ],
{
    assert(descriptor_bytes(f.spec_size(), f.spec_descriptor_type(), f.spec_payload()) =~= seq![
        6u8,
        0x24u8,
        0x02u8,
        0x01u8,
        f.bytes_per_sample,
        f.bit_resolution,
    ]);
}

/// Packing six two-bit codes into a 16-bit word, from D1..0 up, keeps each
/// one and leaves D15..12 clear.
proof fn lemma_pack6(c0: u8, c1: u8, c2: u8, c3: u8, c4: u8, c5: u8)
    requires
        c0 < 4,
        c1 < 4,
        c2 < 4,
        c3 < 4,
        c4 < 4,
        c5 < 4,
    ensures
        ({
            let w = (c0 as u16) | ((c1 as u16) << 2u16) | ((c2 as u16) << 4u16) | ((c3 as u16) << 6u16)
                | ((c4 as u16) << 8u16) | ((c5 as u16) << 10u16);
            &&& w & 3u16 == c0 as u16
            &&& (w >> 2u16) & 3u16 == c1 as u16
            &&& (w >> 4u16) & 3u16 == c2 as u16
            &&& (w >> 6u16) & 3u16 == c3 as u16
            &&& (w >> 8u16) & 3u16 == c4 as u16
            &&& (w >> 10u16) & 3u16 == c5 as u16
            &&& w >> 12u16 == 0
        }),
{
    assert({
        let w = (c0 as u16) | ((c1 as u16) << 2u16) | ((c2 as u16) << 4u16) | ((c3 as u16) << 6u16)
            | ((c4 as u16) << 8u16) | ((c5 as u16) << 10u16);
        &&& w & 3u16 == c0 as u16
        &&& (w >> 2u16) & 3u16 == c1 as u16
        &&& (w >> 4u16) & 3u16 == c2 as u16
        &&& (w >> 6u16) & 3u16 == c3 as u16
        &&& (w >> 8u16) & 3u16 == c4 as u16
        &&& (w >> 10u16) & 3u16 == c5 as u16
        &&& w >> 12u16 == 0
    }) by (bit_vector)
        requires
            c0 < 4,
            c1 < 4,
            c2 < 4,
            c3 < 4,
            c4 < 4,
            c5 < 4,
    ;
}

/// The processing unit descriptor is written as its length (16 plus the
/// number of input pins), CS_INTERFACE, PROCESSING_UNIT (0x08), its id, the
/// process type (two bytes), the number of input pins and their sources, the
/// number of channels, the channel configuration (four bytes), the channel
/// names; then the two-byte bmControls with the enable, mode select,
/// cluster, underflow, overflow and latency access codes from D1..0 up; then
/// the string index.
pub proof fn lemma_processing_unit_layout<const N: usize>(u: ProcessingUnit<N>)
    requires
        u.spec_wf(),
    ensures
        ({
            let bytes = descriptor_bytes(u.spec_size(), u.spec_descriptor_type(), u.spec_payload());
            let n = u.n_sources as int;
            let w = bytes[13 + n] + 256 * bytes[14 + n];
            &&& bytes.len() == 16 + n && bytes[0] == 16 + n
            &&& bytes[1] == 0x24 && bytes[2] == 0x08 && bytes[3] == u.id
            &&& bytes[4] + 256 * bytes[5] == u.process_type
            &&& bytes[6] == u.n_sources
            &&& bytes.subrange(7, 7 + n) == u.sources@.take(n)
            &&& bytes[7 + n] == u.num_channels
            &&& bytes.subrange(8 + n, 12 + n) == le4(u.channel_config.spec_bits() as int)
            &&& bytes[12 + n] == u.channel_names
            &&& w % 4 == access_code(u.enable_control)
            &&& (w / 4) % 4 == access_code(u.mode_select_control)
            &&& (w / 16) % 4 == access_code(u.cluster_control)
            &&& (w / 64) % 4 == access_code(u.underflow_control)
            &&& (w / 256) % 4 == access_code(u.overflow_control)
            &&& (w / 1024) % 4 == access_code(u.latency_control)
            &&& w / 4096 == 0
            &&& bytes[15 + n] == u.string
        }),
{
    lemma_access_code(u.enable_control);
    lemma_access_code(u.mode_select_control);
    lemma_access_code(u.cluster_control);
    lemma_access_code(u.underflow_control);
    lemma_access_code(u.overflow_control);
    lemma_access_code(u.latency_control);
    let c0 = u.enable_control.spec_value();
    let c1 = u.mode_select_control.spec_value();
    let c2 = u.cluster_control.spec_value();
    let c3 = u.underflow_control.spec_value();
    let c4 = u.overflow_control.spec_value();
    let c5 = u.latency_control.spec_value();
    lemma_pack6(c0, c1, c2, c3, c4, c5);
    let w = u.spec_bm_controls();
    assert(w & 3u16 == w % 4 && (w >> 2u16) & 3u16 == (w / 4) % 4 && (w >> 4u16) & 3u16 == (w / 16) % 4 && (w
        >> 6u16) & 3u16 == (w / 64) % 4 && (w >> 8u16) & 3u16 == (w / 256) % 4 && (w >> 10u16) & 3u16 == (w / 1024)
        % 4 && w >> 12u16 == w / 4096) by (bit_vector);
    let n = u.n_sources as int;
    let bytes = descriptor_bytes(u.spec_size(), u.spec_descriptor_type(), u.spec_payload());
    assert(bytes.subrange(7, 7 + n) =~= u.sources@.take(n));
    assert(bytes.subrange(8 + n, 12 + n) =~= le4(u.channel_config.spec_bits() as int));
    assert(bytes[13 + n] + 256 * bytes[14 + n] == w);
}

/// The extension unit descriptor is written as its length (15 plus the
/// number of input pins), CS_INTERFACE, EXTENSION_UNIT (0x09), its id, the
/// extension code (two bytes), the number of input pins and their sources,
/// the number of channels, the channel configuration (four bytes), the
/// channel names; then bmControls with the enable, cluster, underflow and
/// overflow access codes from D1..0 up; then the string index.
pub proof fn lemma_extension_unit_layout<const N: usize>(u: ExtensionUnit<N>)
    requires
        u.spec_wf(),
    ensures
        ({
            let bytes = descriptor_bytes(u.spec_size(), u.spec_descriptor_type(), u.spec_payload());
            let n = u.n_sources as int;
            &&& bytes.len() == 15 + n && bytes[0] == 15 + n
            &&& bytes[1] == 0x24 && bytes[2] == 0x09 && bytes[3] == u.id
            &&& bytes[4] + 256 * bytes[5] == u.extension_code
            &&& bytes[6] == u.n_sources
            &&& bytes.subrange(7, 7 + n) == u.sources@.take(n)
            &&& bytes[7 + n] == u.num_channels
            &&& bytes.subrange(8 + n, 12 + n) == le4(u.channel_config.spec_bits() as int)
            &&& bytes[12 + n] == u.channel_names
            &&& bytes[13 + n] & 3u8 == access_code(u.enable_control)
            &&& (bytes[13 + n] >> 2u8) & 3u8 == access_code(u.cluster_control)
            &&& (bytes[13 + n] >> 4u8) & 3u8 == access_code(u.underflow_control)
            &&& (bytes[13 + n] >> 6u8) & 3u8 == access_code(u.overflow_control)
            &&& bytes[14 + n] == u.string
        }),
{
    lemma_access_code(u.enable_control);
    lemma_access_code(u.cluster_control);
    lemma_access_code(u.underflow_control);
    lemma_access_code(u.overflow_control);
    lemma_pack4(
        u.enable_control.spec_value(),
        u.cluster_control.spec_value(),
        u.underflow_control.spec_value(),
        u.overflow_control.spec_value(),
    );
    let n = u.n_sources as int;
    let bytes = descriptor_bytes(u.spec_size(), u.spec_descriptor_type(), u.spec_payload());
    assert(bytes.subrange(7, 7 + n) =~= u.sources@.take(n));
    assert(bytes.subrange(8 + n, 12 + n) =~= le4(u.channel_config.spec_bits() as int));
}

/// The clock selector descriptor is written as its length (7 plus the
/// number of input pins), CS_INTERFACE, CLOCK_SELECTOR (0x0B), its id, the
/// number of input pins and their clock sources, bmControls with the
/// selector's access code in D1..0, and the string index.
pub proof fn lemma_clock_selector_layout<const N: usize>(d: ClockSelector<N>)
    requires
        d.spec_wf(),
    ensures
        ({
            let bytes = descriptor_bytes(d.spec_size(), d.spec_descriptor_type(), d.spec_payload());
            let n = d.n_sources as int;
            &&& bytes.len() == 7 + n && bytes[0] == 7 + n
            &&& bytes[1] == 0x24 && bytes[2] == 0x0B && bytes[3] == d.id && bytes[4] == d.n_sources
            &&& bytes.subrange(5, 5 + n) == d.sources@.take(n)
            &&& bytes[5 + n] == access_code(d.selector_access)
            &&& bytes[6 + n] == d.string
        }),
{
    lemma_access_code(d.selector_access);
    let n = d.n_sources as int;
    let bytes = descriptor_bytes(d.spec_size(), d.spec_descriptor_type(), d.spec_payload());
    assert(bytes.subrange(5, 5 + n) =~= d.sources@.take(n));
}

/// The selector unit descriptor is written as its length (7 plus the number
/// of input pins), CS_INTERFACE, SELECTOR_UNIT (0x05), its id, the number of
/// input pins and their sources, bmControls with the selector's access code
/// in D1..0, and the string index.
pub proof fn lemma_selector_unit_layout<const N: usize>(d: SelectorUnit<N>)
    requires
        d.spec_wf(),
    ensures
        ({
            let bytes = descriptor_bytes(d.spec_size(), d.spec_descriptor_type(), d.spec_payload());
            let n = d.n_sources as int;
            &&& bytes.len() == 7 + n && bytes[0] == 7 + n
            &&& bytes[1] == 0x24 && bytes[2] == 0x05 && bytes[3] == d.id && bytes[4] == d.n_sources
            &&& bytes.subrange(5, 5 + n) == d.sources@.take(n)
            &&& bytes[5 + n] == access_code(d.selector_control)
            &&& bytes[6 + n] == d.string
        }),
{
    lemma_access_code(d.selector_control);
    let n = d.n_sources as int;
    let bytes = descriptor_bytes(d.spec_size(), d.spec_descriptor_type(), d.spec_payload());
    assert(bytes.subrange(5, 5 + n) =~= d.sources@.take(n));
}

} // verus!
