//! Sanity checks on an RDH: one sub-validator per sub-header, composed by
//! [`RdhCruSanityValidator`]. Each check returns `Ok` or one string that
//! names every violated field with its offending value, so a single record
//! cannot mask several violations.

use vstd::prelude::*;
use vstd::string::*;

use crate::textfmt::{dec_digits, hex_0x_lower, push_dec, push_hex_0x_lower};
use crate::words::rdh::{
    feeid_reserved_bits, layer_from_feeid, spec_feeid_reserved_bits, spec_layer_from_feeid,
    spec_stave_number_from_feeid, stave_number_from_feeid, FeeId, Rdh0, Rdh1, Rdh2, Rdh3,
};
use crate::words::rdh_cru::RdhCRU;

verus! {

/// The system id that the ITS specialization pins.
pub open spec fn its_system_id() -> u8 {
    32
}

/// Systems a sanity validator can be specialized for.
pub enum SpecializeChecks {
    /// The Inner Tracking System: system_id must equal 32.
    ITS,
}

/// Bounds on the layer and stave number packed in a FEE id.
#[derive(Clone, Copy, Debug, PartialEq)]
pub struct FeeIdSanityValidator {
    /// Smallest and largest admissible layer.
    pub layer_min_max: (u8, u8),
    /// Smallest and largest admissible stave number.
    pub stave_number_min_max: (u8, u8),
}

/// Whether a FEE id satisfies the validator's bounds and keeps its reserved
/// bits clear.
pub open spec fn spec_fee_ok(v: FeeIdSanityValidator, fee: u16) -> bool {
    &&& spec_feeid_reserved_bits(fee) == 0
    &&& v.stave_number_min_max.0 <= spec_stave_number_from_feeid(fee)
        <= v.stave_number_min_max.1
    &&& v.layer_min_max.0 <= spec_layer_from_feeid(fee) <= v.layer_min_max.1
}

/// The FEE-id message: one piece per violated constraint, in the order
/// reserved bits, stave number, layer.
pub open spec fn spec_fee_msg(v: FeeIdSanityValidator, fee: u16) -> Seq<char> {
    (if spec_feeid_reserved_bits(fee) != 0 {
        "reserved_bits = "@ + hex_0x_lower(spec_feeid_reserved_bits(fee) as nat) + " "@
    } else {
        Seq::empty()
    }) + (if !(v.stave_number_min_max.0 <= spec_stave_number_from_feeid(fee)
        <= v.stave_number_min_max.1) {
        "stave_number = "@ + dec_digits(spec_stave_number_from_feeid(fee) as nat) + " "@
    } else {
        Seq::empty()
    }) + (if !(v.layer_min_max.0 <= spec_layer_from_feeid(fee) <= v.layer_min_max.1) {
        "layer = "@ + dec_digits(spec_layer_from_feeid(fee) as nat) + " "@
    } else {
        Seq::empty()
    })
}


/// One `name = value ` piece in lowercase hexadecimal, or nothing: the piece
/// is emitted only when `violated` holds.
fn field_hex_piece(violated: bool, name: &str, value: u64) -> (r: String)
    ensures
        r@ == (if violated {
            name@ + hex_0x_lower(value as nat) + " "@
        } else {
            Seq::<char>::empty()
        }),
{
    let mut s = String::new();
    if violated {
        s.append(name);
        push_hex_0x_lower(&mut s, value);
        s.append(" ");
    }
    proof {
        assert(s@ =~= (if violated {
            name@ + hex_0x_lower(value as nat) + " "@
        } else {
            Seq::<char>::empty()
        }));
    }
    s
}

/// One `name = value ` piece in decimal, or nothing.
fn field_dec_piece(violated: bool, name: &str, value: u64) -> (r: String)
    ensures
        r@ == (if violated {
            name@ + dec_digits(value as nat) + " "@
        } else {
            Seq::<char>::empty()
        }),
{
    let mut s = String::new();
    if violated {
        s.append(name);
        push_dec(&mut s, value);
        s.append(" ");
    }
    proof {
        assert(s@ =~= (if violated {
            name@ + dec_digits(value as nat) + " "@
        } else {
            Seq::<char>::empty()
        }));
    }
    s
}

impl FeeIdSanityValidator {
    pub fn new(layer_min_max: (u8, u8), stave_number_min_max: (u8, u8)) -> (r:
        FeeIdSanityValidator)
        requires
            layer_min_max.0 <= layer_min_max.1,
            stave_number_min_max.0 <= stave_number_min_max.1,
        ensures
            r.layer_min_max == layer_min_max,
            r.stave_number_min_max == stave_number_min_max,
    {
        FeeIdSanityValidator { layer_min_max, stave_number_min_max }
    }

    /// Check one FEE id against the bounds.
    pub fn sanity_check(&self, fee_id: FeeId) -> (r: Result<(), String>)
        ensures
            r matches Ok(()) <==> spec_fee_ok(*self, fee_id.0),
            r matches Err(msg) ==> msg@ == spec_fee_msg(*self, fee_id.0),
    {
        let reserved_bits = feeid_reserved_bits(fee_id.0);
        let stave_number = stave_number_from_feeid(fee_id.0);
        let layer = layer_from_feeid(fee_id.0);
        let bad_reserved = reserved_bits != 0;
        let bad_stave = stave_number < self.stave_number_min_max.0 || stave_number
            > self.stave_number_min_max.1;
        let bad_layer = layer < self.layer_min_max.0 || layer > self.layer_min_max.1;
        if !bad_reserved && !bad_stave && !bad_layer {
            return Ok(());
        }
        let p1 = field_hex_piece(bad_reserved, "reserved_bits = ", reserved_bits as u64);
        let p2 = field_dec_piece(bad_stave, "stave_number = ", stave_number as u64);
        let p3 = field_dec_piece(bad_layer, "layer = ", layer as u64);
        let mut msg = p1;
        msg.append(p2.as_str());
        msg.append(p3.as_str());
        proof {
            assert(msg@ =~= spec_fee_msg(*self, fee_id.0));
        }
        Err(msg)
    }
}

/// Validator for the first sub-header. The first header_id it sees becomes
/// the expected one; every later RDH must match it.
#[derive(Clone, Copy, Debug, PartialEq)]
pub struct Rdh0Validator {
    /// Expected protocol version; pinned by the first record checked.
    pub header_id: Option<u8>,
    /// Expected header size, 0x40.
    pub header_size: u8,
    /// Bounds on the FEE id.
    pub fee_id: FeeIdSanityValidator,
    /// Expected priority bit, 0.
    pub priority_bit: u8,
    /// Expected system id; `None` leaves the field unconstrained.
    pub system_id: Option<u8>,
    /// Expected reserved field, 0.
    pub reserved0: u16,
}

/// Whether an `Rdh0` matches the expectations `v`, with `v.header_id`
/// already pinned.
pub open spec fn spec_rdh0_ok(v: Rdh0Validator, rdh0: Rdh0) -> bool {
    &&& v.header_id == Some(rdh0.header_id)
    &&& rdh0.header_size == v.header_size
    &&& spec_fee_ok(v.fee_id, rdh0.fee_id.0)
    &&& rdh0.priority_bit == v.priority_bit
    &&& (v.system_id matches Some(sid) ==> rdh0.system_id == sid)
    &&& rdh0.reserved0 == v.reserved0
}

/// The `Rdh0` message: one piece per violated constraint, in field order.
pub open spec fn spec_rdh0_msg(v: Rdh0Validator, rdh0: Rdh0) -> Seq<char> {
    (if v.header_id != Some(rdh0.header_id) {
        "header_id = "@ + hex_0x_lower(rdh0.header_id as nat) + " "@
    } else {
        Seq::empty()
    }) + (if rdh0.header_size != v.header_size {
        "header_size = "@ + hex_0x_lower(rdh0.header_size as nat) + " "@
    } else {
        Seq::empty()
    }) + (if !spec_fee_ok(v.fee_id, rdh0.fee_id.0) {
        "fee_id = "@ + spec_fee_msg(v.fee_id, rdh0.fee_id.0) + " "@
    } else {
        Seq::empty()
    }) + (if rdh0.priority_bit != v.priority_bit {
        "priority_bit = "@ + hex_0x_lower(rdh0.priority_bit as nat) + " "@
    } else {
        Seq::empty()
    }) + (if v.system_id matches Some(sid) && rdh0.system_id != sid {
        "system_id = "@ + hex_0x_lower(rdh0.system_id as nat) + " "@
    } else {
        Seq::empty()
    }) + (if rdh0.reserved0 != v.reserved0 {
        "rdh0.reserved0 = "@ + hex_0x_lower(rdh0.reserved0 as nat) + " "@
    } else {
        Seq::empty()
    })
}

impl Rdh0Validator {
    pub fn new(
        header_size: u8,
        fee_id: FeeIdSanityValidator,
        priority_bit: u8,
        system_id: Option<u8>,
    ) -> (r: Rdh0Validator)
        ensures
            r.header_id is None,
            r.header_size == header_size,
            r.fee_id == fee_id,
            r.priority_bit == priority_bit,
            r.system_id == system_id,
            r.reserved0 == 0,
    {
        Rdh0Validator { header_id: None, header_size, fee_id, priority_bit, system_id, reserved0: 0 }
    }

    /// Check one `Rdh0`. The first call pins the expected header_id to the
    /// record's own, so it can only fail on the other fields.
    #[verifier::rlimit(100)]
    pub fn sanity_check(&mut self, rdh0: &Rdh0) -> (r: Result<(), String>)
        ensures
            final(self).header_id == (if old(self).header_id is None {
                Some(rdh0.header_id)
            } else {
                old(self).header_id
            }),
            final(self).header_size == old(self).header_size,
            final(self).fee_id == old(self).fee_id,
            final(self).priority_bit == old(self).priority_bit,
            final(self).system_id == old(self).system_id,
            final(self).reserved0 == old(self).reserved0,
            r matches Ok(()) <==> spec_rdh0_ok(*final(self), *rdh0),
            r matches Err(msg) ==> msg@ == spec_rdh0_msg(*final(self), *rdh0),
    {
        if self.header_id.is_none() {
            self.header_id = Some(rdh0.header_id);
        }
        let expected_header_id = self.header_id.unwrap();
        let fee_res = self.fee_id.sanity_check(rdh0.fee_id);
        let bad_header_id = rdh0.header_id != expected_header_id;
        let bad_header_size = rdh0.header_size != self.header_size;
        let bad_priority = rdh0.priority_bit != self.priority_bit;
        let bad_system = match self.system_id {
            Some(sid) => rdh0.system_id != sid,
            None => false,
        };
        let bad_reserved = rdh0.reserved0 != self.reserved0;
        if !bad_header_id && !bad_header_size && fee_res.is_ok() && !bad_priority && !bad_system
            && !bad_reserved {
            return Ok(());
        }
        let p1 = field_hex_piece(bad_header_id, "header_id = ", rdh0.header_id as u64);
        let p2 = field_hex_piece(bad_header_size, "header_size = ", rdh0.header_size as u64);
        let mut p3 = String::new();
        match fee_res {
            Ok(_) => {},
            Err(e) => {
                p3.append("fee_id = ");
                p3.append(e.as_str());
                p3.append(" ");
            },
        }
        proof {
            assert(p3@ =~= (if !spec_fee_ok(self.fee_id, rdh0.fee_id.0) {
                "fee_id = "@ + spec_fee_msg(self.fee_id, rdh0.fee_id.0) + " "@
            } else {
                Seq::<char>::empty()
            }));
        }
        let p4 = field_hex_piece(bad_priority, "priority_bit = ", rdh0.priority_bit as u64);
        let p5 = field_hex_piece(bad_system, "system_id = ", rdh0.system_id as u64);
        let p6 = field_hex_piece(bad_reserved, "rdh0.reserved0 = ", rdh0.reserved0 as u64);
        let mut msg = p1;
        msg.append(p2.as_str());
        msg.append(p3.as_str());
        msg.append(p4.as_str());
        msg.append(p5.as_str());
        msg.append(p6.as_str());
        proof {
            assert(msg@ =~= spec_rdh0_msg(*self, *rdh0));
        }
        Err(msg)
    }
}

impl Default for Rdh0Validator {
    /// The default expectations: size 0x40, ITS FEE-id bounds, priority 0,
    /// no pinned system id.
    fn default() -> (r: Rdh0Validator)
        ensures
            r.header_id is None,
            r.header_size == 0x40,
            r.fee_id == default_fee_id_validator(),
            r.priority_bit == 0,
            r.system_id is None,
            r.reserved0 == 0,
    {
        Rdh0Validator {
            header_id: None,
            header_size: 0x40,
            fee_id: FeeIdSanityValidator {
                layer_min_max: (0, 6),
                stave_number_min_max: (0, 47),
            },
            priority_bit: 0,
            system_id: None,
            reserved0: 0,
        }
    }
}

/// The FEE-id bounds used by default: layers 0..=6, staves 0..=47.
pub open spec fn default_fee_id_validator() -> FeeIdSanityValidator {
    FeeIdSanityValidator { layer_min_max: (0, 6), stave_number_min_max: (0, 47) }
}

/// Validator for the second sub-header.
#[derive(Clone, Copy, Debug, PartialEq, Eq, Structural)]
pub struct Rdh1Validator {
    /// Holds the expected reserved bits (all 0).
    pub valid_rdh1: Rdh1,
}

/// Whether an `Rdh1` has clear reserved bits and a bunch crossing within the
/// ring.
pub open spec fn spec_rdh1_ok(v: Rdh1Validator, rdh1: Rdh1) -> bool {
    rdh1.spec_reserved0() == v.valid_rdh1.spec_reserved0() && rdh1.spec_bc() <= 0xdeb
}

/// The `Rdh1` message: one piece per violated constraint.
pub open spec fn spec_rdh1_msg(v: Rdh1Validator, rdh1: Rdh1) -> Seq<char> {
    (if rdh1.spec_reserved0() != v.valid_rdh1.spec_reserved0() {
        "rdh1.reserved0 = "@ + hex_0x_lower(rdh1.spec_reserved0() as nat) + " "@
    } else {
        Seq::empty()
    }) + (if rdh1.spec_bc() > 0xdeb {
        "bc = "@ + hex_0x_lower(rdh1.spec_bc() as nat) + " "@
    } else {
        Seq::empty()
    })
}

impl Rdh1Validator {
    pub fn new() -> (r: Rdh1Validator)
        ensures
            r.valid_rdh1.spec_reserved0() == 0,
    {
        Rdh1Validator { valid_rdh1: Rdh1::test_new(0, 0, 0) }
    }

    /// Check one `Rdh1`: reserved bits 0 and bc at most 0xdeb.
    pub fn sanity_check(&self, rdh1: &Rdh1) -> (r: Result<(), String>)
        ensures
            r matches Ok(()) <==> spec_rdh1_ok(*self, *rdh1),
            r matches Err(msg) ==> msg@ == spec_rdh1_msg(*self, *rdh1),
    {
        let bad_reserved = rdh1.reserved0() != self.valid_rdh1.reserved0();
        let bad_bc = rdh1.bc() > 0xdeb;
        if !bad_reserved && !bad_bc {
            return Ok(());
        }
        let mut msg = String::new();
        if bad_reserved {
            msg.append("rdh1.reserved0 = ");
            push_hex_0x_lower(&mut msg, rdh1.reserved0() as u64);
            msg.append(" ");
        }
        if bad_bc {
            msg.append("bc = ");
            push_hex_0x_lower(&mut msg, rdh1.bc() as u64);
            msg.append(" ");
        }
        proof {
            assert(msg@ =~= spec_rdh1_msg(*self, *rdh1));
        }
        Err(msg)
    }
}

/// Validator for the third sub-header.
#[derive(Clone, Copy, Debug, PartialEq, Eq, Structural)]
pub struct Rdh2Validator;

/// The spare bits 26..=15 of a trigger type, in place.
pub open spec fn spec_trigger_spare_bits(trigger_type: u32) -> u32 {
    (((trigger_type / 0x8000) % 0x1000) * 0x8000) as u32
}

/// Whether an `Rdh2` has clear reserved bits, a stop bit of at most 1, and a
/// non-zero trigger type with clear spare bits.
pub open spec fn spec_rdh2_ok(rdh2: Rdh2) -> bool {
    rdh2.reserved0 == 0 && rdh2.stop_bit <= 1 && rdh2.trigger_type != 0 && spec_trigger_spare_bits(
        rdh2.trigger_type,
    ) == 0
}

/// The `Rdh2` message: one piece per violated constraint.
pub open spec fn spec_rdh2_msg(rdh2: Rdh2) -> Seq<char> {
    (if rdh2.reserved0 != 0 {
        "rdh2.reserved0 = "@ + hex_0x_lower(rdh2.reserved0 as nat) + " "@
    } else {
        Seq::empty()
    }) + (if rdh2.stop_bit > 1 {
        "stop_bit = "@ + hex_0x_lower(rdh2.stop_bit as nat) + " "@
    } else {
        Seq::empty()
    }) + (if rdh2.trigger_type == 0 || spec_trigger_spare_bits(rdh2.trigger_type) != 0 {
        "Spare bits set in trigger_type = "@ + hex_0x_lower(rdh2.trigger_type as nat) + " "@
    } else {
        Seq::empty()
    })
}

impl Rdh2Validator {
    pub fn new() -> (r: Rdh2Validator) {
        Rdh2Validator
    }

    /// Check one `Rdh2`: reserved 0, stop bit at most 1, trigger type
    /// non-zero with spare bits 26..=15 clear.
    pub fn sanity_check(&self, rdh2: &Rdh2) -> (r: Result<(), String>)
        ensures
            r matches Ok(()) <==> spec_rdh2_ok(*rdh2),
            r matches Err(msg) ==> msg@ == spec_rdh2_msg(*rdh2),
    {
        let bad_reserved = rdh2.reserved0 != 0;
        let bad_stop = rdh2.stop_bit > 1;
        let spare = ((rdh2.trigger_type / 0x8000) % 0x1000) * 0x8000;
        let bad_trigger = rdh2.trigger_type == 0 || spare != 0;
        if !bad_reserved && !bad_stop && !bad_trigger {
            return Ok(());
        }
        let mut msg = String::new();
        if bad_reserved {
            msg.append("rdh2.reserved0 = ");
            push_hex_0x_lower(&mut msg, rdh2.reserved0 as u64);
            msg.append(" ");
        }
        if bad_stop {
            msg.append("stop_bit = ");
            push_hex_0x_lower(&mut msg, rdh2.stop_bit as u64);
            msg.append(" ");
        }
        if bad_trigger {
            msg.append("Spare bits set in trigger_type = ");
            push_hex_0x_lower(&mut msg, rdh2.trigger_type as u64);
            msg.append(" ");
        }
        proof {
            assert(msg@ =~= spec_rdh2_msg(*rdh2));
        }
        Err(msg)
    }
}

/// Validator for the fourth sub-header.
#[derive(Clone, Copy, Debug, PartialEq, Eq, Structural)]
pub struct Rdh3Validator;

/// The reserved bits 23..=4 of a detector field, in place.
pub open spec fn spec_detector_reserved_bits(detector_field: u32) -> u32 {
    (((detector_field / 0x10) % 0x10_0000) * 0x10) as u32
}

/// Whether an `Rdh3` has clear reserved bits; the parity bits are free.
pub open spec fn spec_rdh3_ok(rdh3: Rdh3) -> bool {
    rdh3.reserved0 == 0 && spec_detector_reserved_bits(rdh3.detector_field) == 0
}

/// The `Rdh3` message: one piece per violated constraint.
pub open spec fn spec_rdh3_msg(rdh3: Rdh3) -> Seq<char> {
    (if rdh3.reserved0 != 0 {
        "rdh3.reserved0 = "@ + hex_0x_lower(rdh3.reserved0 as nat) + " "@
    } else {
        Seq::empty()
    }) + (if spec_detector_reserved_bits(rdh3.detector_field) != 0 {
        "detector_field = "@ + hex_0x_lower(rdh3.detector_field as nat) + " "@
    } else {
        Seq::empty()
    })
}

impl Rdh3Validator {
    pub fn new() -> (r: Rdh3Validator) {
        Rdh3Validator
    }

    /// Check one `Rdh3`: reserved field 0 and detector-field bits 23..=4
    /// clear.
    pub fn sanity_check(&self, rdh3: &Rdh3) -> (r: Result<(), String>)
        ensures
            r matches Ok(()) <==> spec_rdh3_ok(*rdh3),
            r matches Err(msg) ==> msg@ == spec_rdh3_msg(*rdh3),
    {
        let bad_reserved = rdh3.reserved0 != 0;
        let reserved_bits = ((rdh3.detector_field / 0x10) % 0x10_0000) * 0x10;
        let bad_detector = reserved_bits != 0;
        if !bad_reserved && !bad_detector {
            return Ok(());
        }
        let mut msg = String::new();
        if bad_reserved {
            msg.append("rdh3.reserved0 = ");
            push_hex_0x_lower(&mut msg, rdh3.reserved0 as u64);
            msg.append(" ");
        }
        if bad_detector {
            msg.append("detector_field = ");
            push_hex_0x_lower(&mut msg, rdh3.detector_field as u64);
            msg.append(" ");
        }
        proof {
            assert(msg@ =~= spec_rdh3_msg(*rdh3));
        }
        Err(msg)
    }
}

/// The sanity validator for a whole RDH-CRU record: the four sub-validators
/// plus the record-level dw and data_format constraints.
#[derive(Clone, Copy, Debug, PartialEq)]
pub struct RdhCruSanityValidator {
    pub rdh0_validator: Rdh0Validator,
    pub rdh1_validator: Rdh1Validator,
    pub rdh2_validator: Rdh2Validator,
    pub rdh3_validator: Rdh3Validator,
}

/// Whether a whole RDH passes the sanity check against expectations `v`,
/// with the header_id already pinned.
pub open spec fn spec_rdh_sane<Version>(v: RdhCruSanityValidator, rdh: RdhCRU<Version>) -> bool {
    &&& spec_rdh0_ok(v.rdh0_validator, rdh.rdh0)
    &&& spec_rdh1_ok(v.rdh1_validator, rdh.rdh1)
    &&& spec_rdh2_ok(rdh.rdh2)
    &&& spec_rdh3_ok(rdh.rdh3)
    &&& rdh.spec_dw() <= 1
    &&& rdh.spec_data_format() <= 2
}

/// The whole-record message: the fixed prefix, then the dw and data_format
/// pieces, then each sub-header's message.
pub open spec fn spec_rdh_sanity_msg<Version>(v: RdhCruSanityValidator, rdh: RdhCRU<Version>)
    -> Seq<char> {
    "RDH sanity check failed: "@ + (if rdh.spec_dw() > 1 {
        "dw = "@ + hex_0x_lower(rdh.spec_dw() as nat) + " "@
    } else {
        Seq::empty()
    }) + (if rdh.spec_data_format() > 2 {
        "data_format = "@ + hex_0x_lower(rdh.spec_data_format() as nat) + " "@
    } else {
        Seq::empty()
    }) + (if !spec_rdh0_ok(v.rdh0_validator, rdh.rdh0) {
        spec_rdh0_msg(v.rdh0_validator, rdh.rdh0)
    } else {
        Seq::empty()
    }) + (if !spec_rdh1_ok(v.rdh1_validator, rdh.rdh1) {
        spec_rdh1_msg(v.rdh1_validator, rdh.rdh1)
    } else {
        Seq::empty()
    }) + (if !spec_rdh2_ok(rdh.rdh2) {
        spec_rdh2_msg(rdh.rdh2)
    } else {
        Seq::empty()
    }) + (if !spec_rdh3_ok(rdh.rdh3) {
        spec_rdh3_msg(rdh.rdh3)
    } else {
        Seq::empty()
    })
}

impl RdhCruSanityValidator {
    /// The default validator: no pinned system id.
    pub fn new() -> (r: RdhCruSanityValidator)
        ensures
            r.rdh0_validator.header_id is None,
            r.rdh0_validator.header_size == 0x40,
            r.rdh0_validator.fee_id == default_fee_id_validator(),
            r.rdh0_validator.priority_bit == 0,
            r.rdh0_validator.system_id is None,
            r.rdh0_validator.reserved0 == 0,
            r.rdh1_validator.valid_rdh1.spec_reserved0() == 0,
    {
        RdhCruSanityValidator {
            rdh0_validator: Rdh0Validator::default(),
            rdh1_validator: Rdh1Validator::new(),
            rdh2_validator: Rdh2Validator::new(),
            rdh3_validator: Rdh3Validator::new(),
        }
    }

    /// A validator specialized from the start: for the ITS it pins
    /// system_id to 32.
    pub fn with_specialization(specialization: SpecializeChecks) -> (r: RdhCruSanityValidator)
        ensures
            r.rdh0_validator.header_id is None,
            r.rdh0_validator.header_size == 0x40,
            r.rdh0_validator.fee_id == default_fee_id_validator(),
            r.rdh0_validator.priority_bit == 0,
            r.rdh0_validator.system_id == Some(its_system_id()),
            r.rdh0_validator.reserved0 == 0,
            r.rdh1_validator.valid_rdh1.spec_reserved0() == 0,
    {
        match specialization {
            SpecializeChecks::ITS => RdhCruSanityValidator {
                rdh0_validator: Rdh0Validator::new(
                    0x40,
                    FeeIdSanityValidator::new((0, 6), (0, 47)),
                    0,
                    Some(32),
                ),
                rdh1_validator: Rdh1Validator::new(),
                rdh2_validator: Rdh2Validator::new(),
                rdh3_validator: Rdh3Validator::new(),
            },
        }
    }

    /// Specialize an existing validator: for the ITS it pins system_id to
    /// 32 and leaves everything else as it was.
    pub fn specialize(&mut self, specialization: SpecializeChecks)
        ensures
            final(self).rdh0_validator.system_id == Some(its_system_id()),
            final(self).rdh0_validator.header_id == old(self).rdh0_validator.header_id,
            final(self).rdh0_validator.header_size == old(self).rdh0_validator.header_size,
            final(self).rdh0_validator.fee_id == old(self).rdh0_validator.fee_id,
            final(self).rdh0_validator.priority_bit == old(self).rdh0_validator.priority_bit,
            final(self).rdh0_validator.reserved0 == old(self).rdh0_validator.reserved0,
            final(self).rdh1_validator == old(self).rdh1_validator,
    {
        match specialization {
            SpecializeChecks::ITS => {
                self.rdh0_validator.system_id = Some(32);
            },
        }
    }

    /// Check a whole RDH. The first record checked pins the expected
    /// header_id; the result is `Ok` exactly when every constraint holds,
    /// and otherwise one message naming each violated field.
    #[verifier::rlimit(100)]
    pub fn sanity_check<Version>(&mut self, rdh: &RdhCRU<Version>) -> (r: Result<(), String>)
        ensures
            final(self).rdh0_validator.header_id == (if old(self).rdh0_validator.header_id
                is None {
                Some(rdh.rdh0.header_id)
            } else {
                old(self).rdh0_validator.header_id
            }),
            final(self).rdh0_validator.header_size == old(self).rdh0_validator.header_size,
            final(self).rdh0_validator.fee_id == old(self).rdh0_validator.fee_id,
            final(self).rdh0_validator.priority_bit == old(self).rdh0_validator.priority_bit,
            final(self).rdh0_validator.system_id == old(self).rdh0_validator.system_id,
            final(self).rdh0_validator.reserved0 == old(self).rdh0_validator.reserved0,
            final(self).rdh1_validator == old(self).rdh1_validator,
            r matches Ok(()) <==> spec_rdh_sane(*final(self), *rdh),
            r matches Err(msg) ==> msg@ == spec_rdh_sanity_msg(*final(self), *rdh),
    {
        let rdh0_res = self.rdh0_validator.sanity_check(&rdh.rdh0);
        let rdh1_res = self.rdh1_validator.sanity_check(&rdh.rdh1);
        let rdh2_res = self.rdh2_validator.sanity_check(&rdh.rdh2);
        let rdh3_res = self.rdh3_validator.sanity_check(&rdh.rdh3);
        let bad_dw = rdh.dw() > 1;
        let bad_data_format = rdh.data_format() > 2;
        if rdh0_res.is_ok() && rdh1_res.is_ok() && rdh2_res.is_ok() && rdh3_res.is_ok() && !bad_dw
            && !bad_data_format {
            return Ok(());
        }
        let p1 = field_hex_piece(bad_dw, "dw = ", rdh.dw() as u64);
        let p2 = field_hex_piece(bad_data_format, "data_format = ", rdh.data_format() as u64);
        let p3: String = match rdh0_res {
            Ok(_) => String::new(),
            Err(e) => e,
        };
        let p4: String = match rdh1_res {
            Ok(_) => String::new(),
            Err(e) => e,
        };
        let p5: String = match rdh2_res {
            Ok(_) => String::new(),
            Err(e) => e,
        };
        let p6: String = match rdh3_res {
            Ok(_) => String::new(),
            Err(e) => e,
        };
        let mut msg = String::new();
        msg.append("RDH sanity check failed: ");
        msg.append(p1.as_str());
        msg.append(p2.as_str());
        msg.append(p3.as_str());
        msg.append(p4.as_str());
        msg.append(p5.as_str());
        msg.append(p6.as_str());
        proof {
            assert(msg@ =~= spec_rdh_sanity_msg(*self, *rdh));
        }
        Err(msg)
    }
}

impl Default for RdhCruSanityValidator {
    fn default() -> (r: RdhCruSanityValidator)
        ensures
            r.rdh0_validator.header_id is None,
            r.rdh0_validator.header_size == 0x40,
            r.rdh0_validator.fee_id == default_fee_id_validator(),
            r.rdh0_validator.priority_bit == 0,
            r.rdh0_validator.system_id is None,
            r.rdh0_validator.reserved0 == 0,
            r.rdh1_validator.valid_rdh1.spec_reserved0() == 0,
    {
        RdhCruSanityValidator::new()
    }
}

/// Sanity completeness at the record level: one record violating several
/// constraints gets one message in which every violated part stands whole —
/// the dw and data_format pieces with their values, and each failing
/// sub-header's own message.
pub proof fn lemma_rdh_sanity_msg_mentions_every_violation<Version>(
    v: RdhCruSanityValidator,
    rdh: RdhCRU<Version>,
)
    ensures
        rdh.spec_dw() > 1 ==> crate::textfmt::spec_contains(
            spec_rdh_sanity_msg(v, rdh),
            "dw = "@ + hex_0x_lower(rdh.spec_dw() as nat) + " "@,
        ),
        rdh.spec_data_format() > 2 ==> crate::textfmt::spec_contains(
            spec_rdh_sanity_msg(v, rdh),
            "data_format = "@ + hex_0x_lower(rdh.spec_data_format() as nat) + " "@,
        ),
        !spec_rdh0_ok(v.rdh0_validator, rdh.rdh0) ==> crate::textfmt::spec_contains(
            spec_rdh_sanity_msg(v, rdh),
            spec_rdh0_msg(v.rdh0_validator, rdh.rdh0),
        ),
        !spec_rdh1_ok(v.rdh1_validator, rdh.rdh1) ==> crate::textfmt::spec_contains(
            spec_rdh_sanity_msg(v, rdh),
            spec_rdh1_msg(v.rdh1_validator, rdh.rdh1),
        ),
        !spec_rdh2_ok(rdh.rdh2) ==> crate::textfmt::spec_contains(
            spec_rdh_sanity_msg(v, rdh),
            spec_rdh2_msg(rdh.rdh2),
        ),
        !spec_rdh3_ok(rdh.rdh3) ==> crate::textfmt::spec_contains(
            spec_rdh_sanity_msg(v, rdh),
            spec_rdh3_msg(rdh.rdh3),
        ),
{
    let p0 = "RDH sanity check failed: "@;
    let q1 = if rdh.spec_dw() > 1 {
        "dw = "@ + hex_0x_lower(rdh.spec_dw() as nat) + " "@
    } else {
        Seq::<char>::empty()
    };
    let q2 = if rdh.spec_data_format() > 2 {
        "data_format = "@ + hex_0x_lower(rdh.spec_data_format() as nat) + " "@
    } else {
        Seq::<char>::empty()
    };
    let q3 = if !spec_rdh0_ok(v.rdh0_validator, rdh.rdh0) {
        spec_rdh0_msg(v.rdh0_validator, rdh.rdh0)
    } else {
        Seq::<char>::empty()
    };
    let q4 = if !spec_rdh1_ok(v.rdh1_validator, rdh.rdh1) {
        spec_rdh1_msg(v.rdh1_validator, rdh.rdh1)
    } else {
        Seq::<char>::empty()
    };
    let q5 = if !spec_rdh2_ok(rdh.rdh2) {
        spec_rdh2_msg(rdh.rdh2)
    } else {
        Seq::<char>::empty()
    };
    let q6 = if !spec_rdh3_ok(rdh.rdh3) {
        spec_rdh3_msg(rdh.rdh3)
    } else {
        Seq::<char>::empty()
    };
    assert(spec_rdh_sanity_msg(v, rdh) == p0 + q1 + q2 + q3 + q4 + q5 + q6);
    if rdh.spec_dw() > 1 {
        crate::textfmt::lemma_contains_self(q1);
        crate::textfmt::lemma_contains_concat_right(p0, q1, q1);
        crate::textfmt::lemma_contains_concat_left(p0 + q1, q2, q1);
        crate::textfmt::lemma_contains_concat_left(p0 + q1 + q2, q3, q1);
        crate::textfmt::lemma_contains_concat_left(p0 + q1 + q2 + q3, q4, q1);
        crate::textfmt::lemma_contains_concat_left(p0 + q1 + q2 + q3 + q4, q5, q1);
        crate::textfmt::lemma_contains_concat_left(p0 + q1 + q2 + q3 + q4 + q5, q6, q1);
    }
    if rdh.spec_data_format() > 2 {
        crate::textfmt::lemma_contains_self(q2);
        crate::textfmt::lemma_contains_concat_right(p0 + q1, q2, q2);
        crate::textfmt::lemma_contains_concat_left(p0 + q1 + q2, q3, q2);
        crate::textfmt::lemma_contains_concat_left(p0 + q1 + q2 + q3, q4, q2);
        crate::textfmt::lemma_contains_concat_left(p0 + q1 + q2 + q3 + q4, q5, q2);
        crate::textfmt::lemma_contains_concat_left(p0 + q1 + q2 + q3 + q4 + q5, q6, q2);
    }
    if !spec_rdh0_ok(v.rdh0_validator, rdh.rdh0) {
        crate::textfmt::lemma_contains_self(q3);
        crate::textfmt::lemma_contains_concat_right(p0 + q1 + q2, q3, q3);
        crate::textfmt::lemma_contains_concat_left(p0 + q1 + q2 + q3, q4, q3);
        crate::textfmt::lemma_contains_concat_left(p0 + q1 + q2 + q3 + q4, q5, q3);
        crate::textfmt::lemma_contains_concat_left(p0 + q1 + q2 + q3 + q4 + q5, q6, q3);
    }
    if !spec_rdh1_ok(v.rdh1_validator, rdh.rdh1) {
        crate::textfmt::lemma_contains_self(q4);
        crate::textfmt::lemma_contains_concat_right(p0 + q1 + q2 + q3, q4, q4);
        crate::textfmt::lemma_contains_concat_left(p0 + q1 + q2 + q3 + q4, q5, q4);
        crate::textfmt::lemma_contains_concat_left(p0 + q1 + q2 + q3 + q4 + q5, q6, q4);
    }
    if !spec_rdh2_ok(rdh.rdh2) {
        crate::textfmt::lemma_contains_self(q5);
        crate::textfmt::lemma_contains_concat_right(p0 + q1 + q2 + q3 + q4, q5, q5);
        crate::textfmt::lemma_contains_concat_left(p0 + q1 + q2 + q3 + q4 + q5, q6, q5);
    }
    if !spec_rdh3_ok(rdh.rdh3) {
        crate::textfmt::lemma_contains_self(q6);
        crate::textfmt::lemma_contains_concat_right(p0 + q1 + q2 + q3 + q4 + q5, q6, q6);
    }
}

/// Sanity completeness at the field level: the second sub-header's message
/// names each violated field with its value.
pub proof fn lemma_rdh2_msg_mentions_every_field(rdh2: Rdh2)
    ensures
        rdh2.reserved0 != 0 ==> crate::textfmt::spec_contains(
            spec_rdh2_msg(rdh2),
            "rdh2.reserved0 = "@ + hex_0x_lower(rdh2.reserved0 as nat) + " "@,
        ),
        rdh2.stop_bit > 1 ==> crate::textfmt::spec_contains(
            spec_rdh2_msg(rdh2),
            "stop_bit = "@ + hex_0x_lower(rdh2.stop_bit as nat) + " "@,
        ),
        rdh2.trigger_type == 0 || spec_trigger_spare_bits(rdh2.trigger_type) != 0
            ==> crate::textfmt::spec_contains(
            spec_rdh2_msg(rdh2),
            "Spare bits set in trigger_type = "@ + hex_0x_lower(rdh2.trigger_type as nat) + " "@,
        ),
{
    let q1 = if rdh2.reserved0 != 0 {
        "rdh2.reserved0 = "@ + hex_0x_lower(rdh2.reserved0 as nat) + " "@
    } else {
        Seq::<char>::empty()
    };
    let q2 = if rdh2.stop_bit > 1 {
        "stop_bit = "@ + hex_0x_lower(rdh2.stop_bit as nat) + " "@
    } else {
        Seq::<char>::empty()
    };
    let q3 = if rdh2.trigger_type == 0 || spec_trigger_spare_bits(rdh2.trigger_type) != 0 {
        "Spare bits set in trigger_type = "@ + hex_0x_lower(rdh2.trigger_type as nat) + " "@
    } else {
        Seq::<char>::empty()
    };
    assert(spec_rdh2_msg(rdh2) == q1 + q2 + q3);
    if rdh2.reserved0 != 0 {
        crate::textfmt::lemma_contains_self(q1);
        crate::textfmt::lemma_contains_concat_left(q1, q2, q1);
        crate::textfmt::lemma_contains_concat_left(q1 + q2, q3, q1);
    }
    if rdh2.stop_bit > 1 {
        crate::textfmt::lemma_contains_self(q2);
        crate::textfmt::lemma_contains_concat_right(q1, q2, q2);
        crate::textfmt::lemma_contains_concat_left(q1 + q2, q3, q2);
    }
    if rdh2.trigger_type == 0 || spec_trigger_spare_bits(rdh2.trigger_type) != 0 {
        crate::textfmt::lemma_contains_self(q3);
        crate::textfmt::lemma_contains_concat_right(q1 + q2, q3, q3);
    }
}

} // verus!
