//! The four RDH sub-headers and their bit-packed carrier fields.
//!
//! Every multi-bit carrier (`FeeId`, `CruidDw`, `DataformatReserved`,
//! `BcReserved`) stores the packed integer exactly as it stands on the wire;
//! accessors extract the documented bit ranges.

use vstd::prelude::*;

verus! {

/// The 16-bit FEE id: stave_number in bits 5..=0, fiber_uplink in bits 9..=8,
/// layer in bits 14..=12, the rest reserved.
#[derive(Clone, Copy, Debug, PartialEq, Eq, Structural)]
pub struct FeeId(pub u16);

/// cru_id in the low 12 bits, dw in the high 4 bits.
#[derive(Clone, Copy, Debug, PartialEq, Eq, Structural)]
pub struct CruidDw(pub u16);

/// data_format in the low 8 bits, a reserved field in the high 56 bits.
#[derive(Clone, Copy, Debug, PartialEq, Eq, Structural)]
pub struct DataformatReserved(pub u64);

/// Bunch crossing in the low 12 bits, a reserved field in the high 20 bits.
#[derive(Clone, Copy, Debug, PartialEq, Eq, Structural)]
pub struct BcReserved(pub u32);

/// The stave number packed into bits 5..=0 of a FEE id.
pub open spec fn spec_stave_number_from_feeid(fee_id: u16) -> u8 {
    (fee_id % 0x40) as u8
}

/// The layer packed into bits 14..=12 of a FEE id.
pub open spec fn spec_layer_from_feeid(fee_id: u16) -> u8 {
    ((fee_id / 0x1000) % 8) as u8
}

/// The reserved bits 6, 7, 10, 11 and 15 of a FEE id, in place.
pub open spec fn spec_feeid_reserved_bits(fee_id: u16) -> u16 {
    (((fee_id / 0x40) % 4) * 0x40 + ((fee_id / 0x400) % 4) * 0x400 + (fee_id / 0x8000)
        * 0x8000) as u16
}

/// Extract the stave number from a FEE id.
pub fn stave_number_from_feeid(fee_id: u16) -> (r: u8)
    ensures
        r == spec_stave_number_from_feeid(fee_id),
{
    (fee_id % 0x40) as u8
}

/// Extract the layer from a FEE id.
pub fn layer_from_feeid(fee_id: u16) -> (r: u8)
    ensures
        r == spec_layer_from_feeid(fee_id),
{
    ((fee_id / 0x1000) % 8) as u8
}

/// Extract the reserved bits of a FEE id, kept in place so that the value
/// reads as the masked id.
pub fn feeid_reserved_bits(fee_id: u16) -> (r: u16)
    ensures
        r == spec_feeid_reserved_bits(fee_id),
{
    ((fee_id / 0x40) % 4) * 0x40 + ((fee_id / 0x400) % 4) * 0x400 + (fee_id / 0x8000) * 0x8000
}

/// First RDH sub-header: version, size, FEE id, priority, system id.
#[derive(Clone, Copy, Debug, PartialEq, Eq, Structural)]
pub struct Rdh0 {
    /// Protocol version discriminant.
    pub header_id: u8,
    /// Must equal 0x40, the RDH byte size.
    pub header_size: u8,
    /// The bit-packed FEE id.
    pub fee_id: FeeId,
    /// Must equal 0.
    pub priority_bit: u8,
    /// Identifies the detector system; 32 is the ITS.
    pub system_id: u8,
    /// Must equal 0.
    pub reserved0: u16,
}

/// Second RDH sub-header: bunch crossing and orbit.
#[derive(Clone, Copy, Debug, PartialEq, Eq, Structural)]
pub struct Rdh1 {
    /// Bunch crossing in the low 12 bits, reserved high 20 bits.
    pub bc_reserved0: BcReserved,
    /// Orbit number.
    pub orbit: u32,
}

impl Rdh1 {
    /// The bunch crossing carried in the low 12 bits.
    pub open spec fn spec_bc(&self) -> u16 {
        (self.bc_reserved0.0 % 0x1000) as u16
    }

    /// The reserved high 20 bits.
    pub open spec fn spec_reserved0(&self) -> u32 {
        (self.bc_reserved0.0 / 0x1000) as u32
    }

    pub fn bc(&self) -> (r: u16)
        ensures
            r == self.spec_bc(),
    {
        (self.bc_reserved0.0 % 0x1000) as u16
    }

    pub fn reserved0(&self) -> (r: u32)
        ensures
            r == self.spec_reserved0(),
    {
        self.bc_reserved0.0 / 0x1000
    }

    /// Build an `Rdh1` from its unpacked fields.
    pub fn test_new(bc: u16, orbit: u32, reserved0: u32) -> (r: Rdh1)
        requires
            bc < 0x1000,
            reserved0 < 0x10_0000,
        ensures
            r.spec_bc() == bc,
            r.spec_reserved0() == reserved0,
            r.orbit == orbit,
    {
        Rdh1 { bc_reserved0: BcReserved(bc as u32 + reserved0 * 0x1000), orbit }
    }
}

/// Third RDH sub-header: trigger type, page counter, stop bit.
#[derive(Clone, Copy, Debug, PartialEq, Eq, Structural)]
pub struct Rdh2 {
    /// Trigger bit mask; must be non-zero with bits 26..=15 clear.
    pub trigger_type: u32,
    /// Page index within a multi-page payload.
    pub pages_counter: u16,
    /// 1 on the last page of a payload, else 0.
    pub stop_bit: u8,
    /// Must equal 0.
    pub reserved0: u8,
}

impl Rdh2 {
    /// Whether the physics-trigger bit (bit 4) is set.
    pub open spec fn spec_is_pht_trigger(&self) -> bool {
        (self.trigger_type / 0x10) % 2 == 1
    }

    pub fn is_pht_trigger(&self) -> (r: bool)
        ensures
            r == self.spec_is_pht_trigger(),
    {
        (self.trigger_type / 0x10) % 2 == 1
    }
}

/// Fourth RDH sub-header: detector field and parity bit.
#[derive(Clone, Copy, Debug, PartialEq, Eq, Structural)]
pub struct Rdh3 {
    /// Detector-specific bits; bits 23..=4 are reserved and must be 0.
    pub detector_field: u32,
    /// Unconstrained parity bits.
    pub par_bit: u16,
    /// Must equal 0.
    pub reserved0: u16,
}

} // verus!
