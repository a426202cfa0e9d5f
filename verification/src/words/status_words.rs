//! The GBT status words: IHW, TDH, TDT, DDW0 and CDW, each decoded from one
//! 10-byte payload word whose last byte is the identifier.

use vstd::prelude::*;

use crate::words::codec::{spec_u16_from_le, spec_u32_from_le, u16_from_le, u32_from_le};

verus! {

/// Identifier byte of an IHW.
pub open spec fn ihw_id() -> u8 {
    0xE0
}

/// Identifier byte of a TDH.
pub open spec fn tdh_id() -> u8 {
    0xE8
}

/// Identifier byte of a TDT.
pub open spec fn tdt_id() -> u8 {
    0xF0
}

/// Identifier byte of a DDW0.
pub open spec fn ddw0_id() -> u8 {
    0xE4
}

/// Identifier byte of a CDW.
pub open spec fn cdw_id() -> u8 {
    0xF8
}

/// Whether a lane is marked in an active-lanes mask.
pub open spec fn spec_is_lane_active(lane: u8, active_lanes: u32) -> bool
    recommends
        lane < 32,
{
    (active_lanes >> (lane as u32)) & 1 == 1
}

/// Whether a lane is marked in an active-lanes mask.
pub fn is_lane_active(lane: u8, active_lanes: u32) -> (r: bool)
    requires
        lane < 32,
    ensures
        r == spec_is_lane_active(lane, active_lanes),
{
    (active_lanes >> (lane as u32)) & 1 == 1
}

/// Initial Header Word: the first word of a payload, declaring which lanes
/// will carry data.
#[derive(Clone, Copy, Debug, PartialEq, Eq, Structural)]
pub struct Ihw {
    /// One bit per active lane, bits 27..=0 of the word.
    pub active_lanes: u32,
    /// Bits 63..=28, which must all be 0.
    pub reserved: u64,
    /// The identifier byte; 0xE0 when well-formed.
    pub id: u8,
}

impl Ihw {
    /// The IHW packed in a 10-byte word.
    pub open spec fn spec_load(b: Seq<u8>) -> Ihw
        recommends
            b.len() == 10,
    {
        Ihw {
            active_lanes: (spec_u32_from_le(b[0], b[1], b[2], b[3]) % 0x1000_0000) as u32,
            reserved: ((b[3] / 0x10) + b[4] * 0x10 + b[5] * 0x1000 + b[6] * 0x10_0000 + b[7]
                * 0x1000_0000) as u64,
            id: b[9],
        }
    }

    /// Decode an IHW from a 10-byte word.
    pub fn load(b: &[u8]) -> (r: Ihw)
        requires
            b@.len() == 10,
        ensures
            r == Ihw::spec_load(b@),
    {
        let w = u32_from_le(b[0], b[1], b[2], b[3]);
        Ihw {
            active_lanes: w % 0x1000_0000,
            reserved: (b[3] / 0x10) as u64 + b[4] as u64 * 0x10 + b[5] as u64 * 0x1000 + b[6]
                as u64 * 0x10_0000 + b[7] as u64 * 0x1000_0000,
            id: b[9],
        }
    }

    pub fn id(&self) -> (r: u8)
        ensures
            r == self.id,
    {
        self.id
    }

    pub fn active_lanes(&self) -> (r: u32)
        ensures
            r == self.active_lanes,
    {
        self.active_lanes
    }
}

/// Trigger Data Header: opens one trigger within a payload.
#[derive(Clone, Copy, Debug, PartialEq, Eq, Structural)]
pub struct Tdh {
    /// Low 12 bits of the trigger mask.
    pub trigger_type: u16,
    /// 1 when the trigger was generated internally.
    pub internal_trigger: u8,
    /// 1 when no data words follow.
    pub no_data: u8,
    /// 1 when this TDH continues a trigger split across pages.
    pub continuation: u8,
    /// Bit 15 of the first carrier; must be 0.
    pub reserved0: u8,
    /// Bunch crossing of the trigger, 12 bits.
    pub trigger_bc: u16,
    /// Bits 31..=28 of the second carrier; must be 0.
    pub reserved1: u8,
    /// Byte 4; must be 0.
    pub reserved2: u8,
    /// Orbit of the trigger.
    pub trigger_orbit: u32,
    /// The identifier byte; 0xE8 when well-formed.
    pub id: u8,
}

impl Tdh {
    /// The TDH packed in a 10-byte word.
    pub open spec fn spec_load(b: Seq<u8>) -> Tdh
        recommends
            b.len() == 10,
    {
        Tdh {
            trigger_type: (spec_u16_from_le(b[0], b[1]) % 0x1000) as u16,
            internal_trigger: ((spec_u16_from_le(b[0], b[1]) / 0x1000) % 2) as u8,
            no_data: ((spec_u16_from_le(b[0], b[1]) / 0x2000) % 2) as u8,
            continuation: ((spec_u16_from_le(b[0], b[1]) / 0x4000) % 2) as u8,
            reserved0: (spec_u16_from_le(b[0], b[1]) / 0x8000) as u8,
            trigger_bc: (spec_u16_from_le(b[2], b[3]) % 0x1000) as u16,
            reserved1: (spec_u16_from_le(b[2], b[3]) / 0x1000) as u8,
            reserved2: b[4],
            trigger_orbit: spec_u32_from_le(b[5], b[6], b[7], b[8]),
            id: b[9],
        }
    }

    /// Decode a TDH from a 10-byte word.
    pub fn load(b: &[u8]) -> (r: Tdh)
        requires
            b@.len() == 10,
        ensures
            r == Tdh::spec_load(b@),
    {
        let w01 = u16_from_le(b[0], b[1]);
        let w23 = u16_from_le(b[2], b[3]);
        Tdh {
            trigger_type: w01 % 0x1000,
            internal_trigger: ((w01 / 0x1000) % 2) as u8,
            no_data: ((w01 / 0x2000) % 2) as u8,
            continuation: ((w01 / 0x4000) % 2) as u8,
            reserved0: (w01 / 0x8000) as u8,
            trigger_bc: w23 % 0x1000,
            reserved1: (w23 / 0x1000) as u8,
            reserved2: b[4],
            trigger_orbit: u32_from_le(b[5], b[6], b[7], b[8]),
            id: b[9],
        }
    }

    pub fn trigger_type(&self) -> (r: u16)
        ensures
            r == self.trigger_type,
    {
        self.trigger_type
    }

    pub fn internal_trigger(&self) -> (r: u8)
        ensures
            r == self.internal_trigger,
    {
        self.internal_trigger
    }

    pub fn no_data(&self) -> (r: u8)
        ensures
            r == self.no_data,
    {
        self.no_data
    }

    pub fn continuation(&self) -> (r: u8)
        ensures
            r == self.continuation,
    {
        self.continuation
    }

    pub fn trigger_bc(&self) -> (r: u16)
        ensures
            r == self.trigger_bc,
    {
        self.trigger_bc
    }

    pub fn id(&self) -> (r: u8)
        ensures
            r == self.id,
    {
        self.id
    }
}

/// Trigger Data Terminator: closes one trigger within a payload.
#[derive(Clone, Copy, Debug, PartialEq, Eq, Structural)]
pub struct Tdt {
    /// Two status bits per lane, bits 55..=0.
    pub lane_status: u64,
    /// Byte 7; must be 0.
    pub reserved0: u8,
    /// 1 when the trigger's data is complete, bit 64.
    pub packet_done: u8,
    /// The remaining bits of byte 8: transmission flags.
    pub flags: u8,
    /// The identifier byte; 0xF0 when well-formed.
    pub id: u8,
}

impl Tdt {
    /// The TDT packed in a 10-byte word.
    pub open spec fn spec_load(b: Seq<u8>) -> Tdt
        recommends
            b.len() == 10,
    {
        Tdt {
            lane_status: (b[0] + b[1] * 0x100 + b[2] * 0x1_0000 + b[3] * 0x100_0000 + b[4]
                * 0x1_0000_0000 + b[5] * 0x100_0000_0000 + b[6] * 0x1_0000_0000_0000) as u64,
            reserved0: b[7],
            packet_done: (b[8] % 2) as u8,
            flags: (b[8] / 2) as u8,
            id: b[9],
        }
    }

    /// Decode a TDT from a 10-byte word.
    pub fn load(b: &[u8]) -> (r: Tdt)
        requires
            b@.len() == 10,
        ensures
            r == Tdt::spec_load(b@),
    {
        Tdt {
            lane_status: b[0] as u64 + b[1] as u64 * 0x100 + b[2] as u64 * 0x1_0000 + b[3] as u64
                * 0x100_0000 + b[4] as u64 * 0x1_0000_0000 + b[5] as u64 * 0x100_0000_0000 + b[6]
                as u64 * 0x1_0000_0000_0000,
            reserved0: b[7],
            packet_done: b[8] % 2,
            flags: b[8] / 2,
            id: b[9],
        }
    }

    pub fn packet_done(&self) -> (r: bool)
        ensures
            r == (self.packet_done == 1),
    {
        self.packet_done == 1
    }

    pub fn id(&self) -> (r: u8)
        ensures
            r == self.id,
    {
        self.id
    }
}

/// Diagnostic Data Word 0: closes a half-bunch frame on its last page.
#[derive(Clone, Copy, Debug, PartialEq, Eq, Structural)]
pub struct Ddw0 {
    /// Two status bits per lane, bits 55..=0.
    pub lane_status: u64,
    /// Byte 7; must be 0.
    pub reserved0: u8,
    /// Byte 8; must be 0.
    pub reserved1: u8,
    /// The identifier byte; 0xE4 when well-formed.
    pub id: u8,
}

impl Ddw0 {
    /// The DDW0 packed in a 10-byte word.
    pub open spec fn spec_load(b: Seq<u8>) -> Ddw0
        recommends
            b.len() == 10,
    {
        Ddw0 {
            lane_status: (b[0] + b[1] * 0x100 + b[2] * 0x1_0000 + b[3] * 0x100_0000 + b[4]
                * 0x1_0000_0000 + b[5] * 0x100_0000_0000 + b[6] * 0x1_0000_0000_0000) as u64,
            reserved0: b[7],
            reserved1: b[8],
            id: b[9],
        }
    }

    /// Decode a DDW0 from a 10-byte word.
    pub fn load(b: &[u8]) -> (r: Ddw0)
        requires
            b@.len() == 10,
        ensures
            r == Ddw0::spec_load(b@),
    {
        Ddw0 {
            lane_status: b[0] as u64 + b[1] as u64 * 0x100 + b[2] as u64 * 0x1_0000 + b[3] as u64
                * 0x100_0000 + b[4] as u64 * 0x1_0000_0000 + b[5] as u64 * 0x100_0000_0000 + b[6]
                as u64 * 0x1_0000_0000_0000,
            reserved0: b[7],
            reserved1: b[8],
            id: b[9],
        }
    }

    pub fn id(&self) -> (r: u8)
        ensures
            r == self.id,
    {
        self.id
    }
}

/// Calibration Data Word: only valid as the first word of a new payload.
#[derive(Clone, Copy, Debug, PartialEq, Eq, Structural)]
pub struct Cdw {
    /// User-defined calibration fields, bits 47..=0.
    pub calibration_user_fields: u64,
    /// Position of this word within the calibration sequence, bits 71..=48.
    pub calibration_word_index: u32,
    /// The identifier byte; 0xF8 when well-formed.
    pub id: u8,
}

impl Cdw {
    /// The CDW packed in a 10-byte word.
    pub open spec fn spec_load(b: Seq<u8>) -> Cdw
        recommends
            b.len() == 10,
    {
        Cdw {
            calibration_user_fields: (b[0] + b[1] * 0x100 + b[2] * 0x1_0000 + b[3] * 0x100_0000
                + b[4] * 0x1_0000_0000 + b[5] * 0x100_0000_0000) as u64,
            calibration_word_index: (b[6] + b[7] * 0x100 + b[8] * 0x1_0000) as u32,
            id: b[9],
        }
    }

    /// Decode a CDW from a 10-byte word.
    pub fn load(b: &[u8]) -> (r: Cdw)
        requires
            b@.len() == 10,
        ensures
            r == Cdw::spec_load(b@),
    {
        Cdw {
            calibration_user_fields: b[0] as u64 + b[1] as u64 * 0x100 + b[2] as u64 * 0x1_0000
                + b[3] as u64 * 0x100_0000 + b[4] as u64 * 0x1_0000_0000 + b[5] as u64
                * 0x100_0000_0000,
            calibration_word_index: b[6] as u32 + b[7] as u32 * 0x100 + b[8] as u32 * 0x1_0000,
            id: b[9],
        }
    }

    pub fn calibration_user_fields(&self) -> (r: u64)
        ensures
            r == self.calibration_user_fields,
    {
        self.calibration_user_fields
    }

    pub fn calibration_word_index(&self) -> (r: u32)
        ensures
            r == self.calibration_word_index,
    {
        self.calibration_word_index
    }

    pub fn id(&self) -> (r: u8)
        ensures
            r == self.id,
    {
        self.id
    }
}

} // verus!
