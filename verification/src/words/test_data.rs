//! Reference records taken from a valid capture, used by the test suite.

use vstd::prelude::*;
use core::marker::PhantomData;

use crate::words::rdh::{BcReserved, CruidDw, DataformatReserved, FeeId, Rdh0, Rdh1, Rdh2, Rdh3};
use crate::words::rdh_cru::{RdhCRU, V6, V7};

verus! {

/// A correct v7 RDH from real data.
pub open spec fn spec_correct_rdh_cru_v7() -> RdhCRU<V7> {
    RdhCRU {
        rdh0: Rdh0 {
            header_id: 0x7,
            header_size: 0x40,
            fee_id: FeeId(0x502A),
            priority_bit: 0x0,
            system_id: 0x20,
            reserved0: 0,
        },
        offset_new_packet: 0x13E0,
        memory_size: 0x13E0,
        link_id: 0x0,
        packet_counter: 0x0,
        cruid_dw: CruidDw(0x0018),
        rdh1: Rdh1 { bc_reserved0: BcReserved(0x0), orbit: 0x0b7dd575 },
        dataformat_reserved0: DataformatReserved(0x2),
        rdh2: Rdh2 { trigger_type: 0x00006a03, pages_counter: 0x0, stop_bit: 0x0, reserved0: 0x0 },
        reserved1: 0x0,
        rdh3: Rdh3 { detector_field: 0x0, par_bit: 0x0, reserved0: 0x0 },
        reserved2: 0x0,
        version: PhantomData,
    }
}

/// A correct v6 RDH from real data.
pub open spec fn spec_correct_rdh_cru_v6() -> RdhCRU<V6> {
    RdhCRU {
        rdh0: Rdh0 {
            header_id: 0x6,
            header_size: 0x40,
            fee_id: FeeId(0x502A),
            priority_bit: 0x0,
            system_id: 0x20,
            reserved0: 0,
        },
        offset_new_packet: 0x13E0,
        memory_size: 0x13E0,
        link_id: 0x2,
        packet_counter: 0x1,
        cruid_dw: CruidDw(0x0018),
        rdh1: Rdh1 { bc_reserved0: BcReserved(0x0), orbit: 0x0b7dd575 },
        dataformat_reserved0: DataformatReserved(0),
        rdh2: Rdh2 { trigger_type: 0x00006a03, pages_counter: 0x0, stop_bit: 0x0, reserved0: 0x0 },
        reserved1: 0x0,
        rdh3: Rdh3 { detector_field: 0x0, par_bit: 0x0, reserved0: 0x0 },
        reserved2: 0x0,
        version: PhantomData,
    }
}

/// Build the correct v7 RDH.
pub fn correct_rdh_cru_v7() -> (r: RdhCRU<V7>)
    ensures
        r == spec_correct_rdh_cru_v7(),
{
    RdhCRU {
        rdh0: Rdh0 {
            header_id: 0x7,
            header_size: 0x40,
            fee_id: FeeId(0x502A),
            priority_bit: 0x0,
            system_id: 0x20,
            reserved0: 0,
        },
        offset_new_packet: 0x13E0,
        memory_size: 0x13E0,
        link_id: 0x0,
        packet_counter: 0x0,
        cruid_dw: CruidDw(0x0018),
        rdh1: Rdh1 { bc_reserved0: BcReserved(0x0), orbit: 0x0b7dd575 },
        dataformat_reserved0: DataformatReserved(0x2),
        rdh2: Rdh2 { trigger_type: 0x00006a03, pages_counter: 0x0, stop_bit: 0x0, reserved0: 0x0 },
        reserved1: 0x0,
        rdh3: Rdh3 { detector_field: 0x0, par_bit: 0x0, reserved0: 0x0 },
        reserved2: 0x0,
        version: PhantomData,
    }
}

/// Build the correct v6 RDH.
pub fn correct_rdh_cru_v6() -> (r: RdhCRU<V6>)
    ensures
        r == spec_correct_rdh_cru_v6(),
{
    RdhCRU {
        rdh0: Rdh0 {
            header_id: 0x6,
            header_size: 0x40,
            fee_id: FeeId(0x502A),
            priority_bit: 0x0,
            system_id: 0x20,
            reserved0: 0,
        },
        offset_new_packet: 0x13E0,
        memory_size: 0x13E0,
        link_id: 0x2,
        packet_counter: 0x1,
        cruid_dw: CruidDw(0x0018),
        rdh1: Rdh1 { bc_reserved0: BcReserved(0x0), orbit: 0x0b7dd575 },
        dataformat_reserved0: DataformatReserved(0),
        rdh2: Rdh2 { trigger_type: 0x00006a03, pages_counter: 0x0, stop_bit: 0x0, reserved0: 0x0 },
        reserved1: 0x0,
        rdh3: Rdh3 { detector_field: 0x0, par_bit: 0x0, reserved0: 0x0 },
        reserved2: 0x0,
        version: PhantomData,
    }
}

} // verus!
