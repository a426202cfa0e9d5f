//! The composite RDH-CRU record: a 64-byte packed little-endian header in two
//! wire-compatible versions, distinguished at the type level by a phantom
//! version tag.

use vstd::prelude::*;
use vstd::string::*;
use core::marker::PhantomData;

use crate::ByteSlice;
use crate::textfmt::{
    dec_digits, hex_0x_lower, push_dec, push_hex_0x_lower, push_spaces, spaces,
};
use crate::words::codec::{
    push_u16_le, push_u32_le, push_u64_le, spec_u16_from_le, spec_u32_from_le, spec_u32_to_le,
    spec_u64_from_le, spec_u64_to_le, u16_from_le, u32_from_le, u64_from_le,
};
use crate::words::rdh::{BcReserved, CruidDw, DataformatReserved, FeeId, Rdh0, Rdh1, Rdh2, Rdh3};

verus! {

/// Version tag for the v6 RDH.
#[derive(Clone, Copy, Debug, PartialEq, Eq, Structural)]
pub struct V6;

/// Version tag for the v7 RDH.
#[derive(Clone, Copy, Debug, PartialEq, Eq, Structural)]
pub struct V7;

/// Why a 64-byte RDH could not be read from the bytes at hand.
#[derive(Clone, Copy, Debug, PartialEq, Eq, Structural)]
pub enum LoadError {
    /// No byte was available: the clean end of the input.
    EndOfInput,
    /// Some bytes were available, but fewer than the 64 of an RDH.
    Truncated,
}

/// The 64-byte RDH-CRU record. The two protocol versions share every field;
/// `Version` is a phantom tag so that a decoder can be instantiated per
/// version without runtime branching.
#[derive(Debug, PartialEq)]
pub struct RdhCRU<Version> {
    pub rdh0: Rdh0,
    /// Byte distance from this RDH to the next RDH.
    pub offset_new_packet: u16,
    /// Total record size in memory; payload bytes = memory_size - 64.
    pub memory_size: u16,
    /// Link index; valid values are 0..=11 and 15.
    pub link_id: u8,
    /// Monotone within a link; not enforced here.
    pub packet_counter: u8,
    /// cru_id in the low 12 bits, dw in the high 4 bits.
    pub cruid_dw: CruidDw,
    pub rdh1: Rdh1,
    /// data_format in the low 8 bits, reserved high 56 bits.
    pub dataformat_reserved0: DataformatReserved,
    pub rdh2: Rdh2,
    /// Must equal 0.
    pub reserved1: u64,
    pub rdh3: Rdh3,
    /// Must equal 0.
    pub reserved2: u64,
    pub version: PhantomData<Version>,
}

impl<Version> Clone for RdhCRU<Version> {
    /// A field-for-field copy of the record.
    fn clone(&self) -> (r: Self)
        ensures
            r == *self,
    {
        RdhCRU {
            rdh0: self.rdh0,
            offset_new_packet: self.offset_new_packet,
            memory_size: self.memory_size,
            link_id: self.link_id,
            packet_counter: self.packet_counter,
            cruid_dw: self.cruid_dw,
            rdh1: self.rdh1,
            dataformat_reserved0: self.dataformat_reserved0,
            rdh2: self.rdh2,
            reserved1: self.reserved1,
            rdh3: self.rdh3,
            reserved2: self.reserved2,
            version: PhantomData,
        }
    }
}

impl<Version> RdhCRU<Version> {
    /// The record decoded from the first 64 of the given bytes.
    pub open spec fn spec_load(b: Seq<u8>) -> RdhCRU<Version>
        recommends
            b.len() >= 64,
    {
        RdhCRU {
            rdh0: Rdh0 {
                header_id: b[0],
                header_size: b[1],
                fee_id: FeeId(spec_u16_from_le(b[2], b[3])),
                priority_bit: b[4],
                system_id: b[5],
                reserved0: spec_u16_from_le(b[6], b[7]),
            },
            offset_new_packet: spec_u16_from_le(b[8], b[9]),
            memory_size: spec_u16_from_le(b[10], b[11]),
            link_id: b[12],
            packet_counter: b[13],
            cruid_dw: CruidDw(spec_u16_from_le(b[14], b[15])),
            rdh1: Rdh1 {
                bc_reserved0: BcReserved(spec_u32_from_le(b[16], b[17], b[18], b[19])),
                orbit: spec_u32_from_le(b[20], b[21], b[22], b[23]),
            },
            dataformat_reserved0: DataformatReserved(spec_u64_from_le(b.subrange(24, 32))),
            rdh2: Rdh2 {
                trigger_type: spec_u32_from_le(b[32], b[33], b[34], b[35]),
                pages_counter: spec_u16_from_le(b[36], b[37]),
                stop_bit: b[38],
                reserved0: b[39],
            },
            reserved1: spec_u64_from_le(b.subrange(40, 48)),
            rdh3: Rdh3 {
                detector_field: spec_u32_from_le(b[48], b[49], b[50], b[51]),
                par_bit: spec_u16_from_le(b[52], b[53]),
                reserved0: spec_u16_from_le(b[54], b[55]),
            },
            reserved2: spec_u64_from_le(b.subrange(56, 64)),
            version: PhantomData,
        }
    }

    /// The byte at position `i` of this record's 64-byte wire image,
    /// little-endian within each field.
    pub open spec fn spec_byte_at(self, i: int) -> u8 {
        if i == 0 { self.rdh0.header_id }
        else if i == 1 { self.rdh0.header_size }
        else if i == 2 { (self.rdh0.fee_id.0 % 0x100) as u8 }
        else if i == 3 { (self.rdh0.fee_id.0 / 0x100) as u8 }
        else if i == 4 { self.rdh0.priority_bit }
        else if i == 5 { self.rdh0.system_id }
        else if i == 6 { (self.rdh0.reserved0 % 0x100) as u8 }
        else if i == 7 { (self.rdh0.reserved0 / 0x100) as u8 }
        else if i == 8 { (self.offset_new_packet % 0x100) as u8 }
        else if i == 9 { (self.offset_new_packet / 0x100) as u8 }
        else if i == 10 { (self.memory_size % 0x100) as u8 }
        else if i == 11 { (self.memory_size / 0x100) as u8 }
        else if i == 12 { self.link_id }
        else if i == 13 { self.packet_counter }
        else if i == 14 { (self.cruid_dw.0 % 0x100) as u8 }
        else if i == 15 { (self.cruid_dw.0 / 0x100) as u8 }
        else if i < 20 { spec_u32_to_le(self.rdh1.bc_reserved0.0)[i - 16] }
        else if i < 24 { spec_u32_to_le(self.rdh1.orbit)[i - 20] }
        else if i < 32 { spec_u64_to_le(self.dataformat_reserved0.0)[i - 24] }
        else if i < 36 { spec_u32_to_le(self.rdh2.trigger_type)[i - 32] }
        else if i == 36 { (self.rdh2.pages_counter % 0x100) as u8 }
        else if i == 37 { (self.rdh2.pages_counter / 0x100) as u8 }
        else if i == 38 { self.rdh2.stop_bit }
        else if i == 39 { self.rdh2.reserved0 }
        else if i < 48 { spec_u64_to_le(self.reserved1)[i - 40] }
        else if i < 52 { spec_u32_to_le(self.rdh3.detector_field)[i - 48] }
        else if i == 52 { (self.rdh3.par_bit % 0x100) as u8 }
        else if i == 53 { (self.rdh3.par_bit / 0x100) as u8 }
        else if i == 54 { (self.rdh3.reserved0 % 0x100) as u8 }
        else if i == 55 { (self.rdh3.reserved0 / 0x100) as u8 }
        else { spec_u64_to_le(self.reserved2)[i - 56] }
    }

    /// The exact 64 bytes this record stands for on the wire.
    pub open spec fn spec_to_bytes(self) -> Seq<u8> {
        Seq::new(64, |i: int| self.spec_byte_at(i))
    }

    /// Decode an RDH from the first 64 bytes of `bytes`.
    ///
    /// Returns `EndOfInput` on an empty input and `Truncated` when some bytes
    /// are there but fewer than 64.
    pub fn load(bytes: &[u8]) -> (r: Result<RdhCRU<Version>, LoadError>)
        ensures
            bytes@.len() >= 64 ==> r == Ok::<RdhCRU<Version>, LoadError>(
                Self::spec_load(bytes@),
            ),
            bytes@.len() == 0 ==> r == Err::<RdhCRU<Version>, LoadError>(LoadError::EndOfInput),
            0 < bytes@.len() < 64 ==> r == Err::<RdhCRU<Version>, LoadError>(LoadError::Truncated),
    {
        if bytes.len() == 0 {
            return Err(LoadError::EndOfInput);
        }
        if bytes.len() < 64 {
            return Err(LoadError::Truncated);
        }
        let rdh = RdhCRU {
            rdh0: Rdh0 {
                header_id: bytes[0],
                header_size: bytes[1],
                fee_id: FeeId(u16_from_le(bytes[2], bytes[3])),
                priority_bit: bytes[4],
                system_id: bytes[5],
                reserved0: u16_from_le(bytes[6], bytes[7]),
            },
            offset_new_packet: u16_from_le(bytes[8], bytes[9]),
            memory_size: u16_from_le(bytes[10], bytes[11]),
            link_id: bytes[12],
            packet_counter: bytes[13],
            cruid_dw: CruidDw(u16_from_le(bytes[14], bytes[15])),
            rdh1: Rdh1 {
                bc_reserved0: BcReserved(u32_from_le(bytes[16], bytes[17], bytes[18], bytes[19])),
                orbit: u32_from_le(bytes[20], bytes[21], bytes[22], bytes[23]),
            },
            dataformat_reserved0: DataformatReserved(u64_from_le(bytes, 24)),
            rdh2: Rdh2 {
                trigger_type: u32_from_le(bytes[32], bytes[33], bytes[34], bytes[35]),
                pages_counter: u16_from_le(bytes[36], bytes[37]),
                stop_bit: bytes[38],
                reserved0: bytes[39],
            },
            reserved1: u64_from_le(bytes, 40),
            rdh3: Rdh3 {
                detector_field: u32_from_le(bytes[48], bytes[49], bytes[50], bytes[51]),
                par_bit: u16_from_le(bytes[52], bytes[53]),
                reserved0: u16_from_le(bytes[54], bytes[55]),
            },
            reserved2: u64_from_le(bytes, 56),
            version: PhantomData,
        };
        Ok(rdh)
    }

    /// cru_id, the low 12 bits of the packed carrier.
    pub open spec fn spec_cru_id(&self) -> u16 {
        (self.cruid_dw.0 % 0x1000) as u16
    }

    pub fn cru_id(&self) -> (r: u16)
        ensures
            r == self.spec_cru_id(),
    {
        self.cruid_dw.0 % 0x1000
    }

    /// dw, the high 4 bits of the packed carrier.
    pub open spec fn spec_dw(&self) -> u8 {
        (self.cruid_dw.0 / 0x1000) as u8
    }

    pub fn dw(&self) -> (r: u8)
        ensures
            r == self.spec_dw(),
    {
        (self.cruid_dw.0 / 0x1000) as u8
    }

    /// data_format, the low 8 bits of the packed carrier.
    pub open spec fn spec_data_format(&self) -> u8 {
        (self.dataformat_reserved0.0 % 0x100) as u8
    }

    pub fn data_format(&self) -> (r: u8)
        ensures
            r == self.spec_data_format(),
    {
        (self.dataformat_reserved0.0 % 0x100) as u8
    }

    /// The reserved high 56 bits beside data_format.
    pub open spec fn spec_reserved0(&self) -> u64 {
        (self.dataformat_reserved0.0 / 0x100) as u64
    }

    pub fn reserved0(&self) -> (r: u64)
        ensures
            r == self.spec_reserved0(),
    {
        self.dataformat_reserved0.0 / 0x100
    }

    pub fn link_id(&self) -> (r: u8)
        ensures
            r == self.link_id,
    {
        self.link_id
    }

    /// Payload bytes that follow this RDH: memory_size minus the 64 RDH bytes.
    pub fn payload_size(&self) -> (r: u16)
        requires
            self.memory_size >= 64,
        ensures
            r == self.memory_size - 64,
    {
        self.memory_size - 64
    }

    pub fn offset_to_next(&self) -> (r: u16)
        ensures
            r == self.offset_new_packet,
    {
        self.offset_new_packet
    }

    pub fn stop_bit(&self) -> (r: u8)
        ensures
            r == self.rdh2.stop_bit,
    {
        self.rdh2.stop_bit
    }

    pub fn pages_counter(&self) -> (r: u16)
        ensures
            r == self.rdh2.pages_counter,
    {
        self.rdh2.pages_counter
    }

    pub fn trigger_type(&self) -> (r: u32)
        ensures
            r == self.rdh2.trigger_type,
    {
        self.rdh2.trigger_type
    }

    /// Whether the heartbeat-accept bit (bit 1) of the trigger type is set.
    pub open spec fn spec_is_hba(&self) -> bool {
        (self.rdh2.trigger_type / 2) % 2 == 1
    }

    pub fn is_hba(&self) -> (r: bool)
        ensures
            r == self.spec_is_hba(),
    {
        (self.rdh2.trigger_type / 2) % 2 == 1
    }

    pub fn fee_id(&self) -> (r: u16)
        ensures
            r == self.rdh0.fee_id.0,
    {
        self.rdh0.fee_id.0
    }

    pub fn version(&self) -> (r: u8)
        ensures
            r == self.rdh0.header_id,
    {
        self.rdh0.header_id
    }

    pub fn rdh0(&self) -> (r: &Rdh0)
        ensures
            r == self.rdh0,
    {
        &self.rdh0
    }

    pub fn rdh1(&self) -> (r: &Rdh1)
        ensures
            r == self.rdh1,
    {
        &self.rdh1
    }

    pub fn rdh2(&self) -> (r: &Rdh2)
        ensures
            r == self.rdh2,
    {
        &self.rdh2
    }

    pub fn rdh3(&self) -> (r: &Rdh3)
        ensures
            r == self.rdh3,
    {
        &self.rdh3
    }
}

/// The two header lines naming the columns of an RDH row, indented.
pub open spec fn spec_rdh_header_text(indent: nat) -> Seq<char> {
    "\n"@ + spaces(indent)
        + "RDH   Header  FEE   Sys   Offset  Link  Packet    BC   Orbit       Data       Trigger   Pages    Stop"@
        + "\n"@ + spaces(indent)
        + "ver   size    ID    ID    next    ID    counter        counter     format     type      counter  bit"@
        + "\n"@
}

impl<Version> RdhCRU<Version> {
    /// The header lines naming the columns of [`Self::to_display_string`],
    /// indented by `indent` spaces.
    pub fn rdh_header_text_with_indent_to_string(indent: usize) -> (r: String)
        ensures
            r@ == spec_rdh_header_text(indent as nat),
    {
        let mut s = String::new();
        s.append("\n");
        push_spaces(&mut s, indent);
        s.append(
            "RDH   Header  FEE   Sys   Offset  Link  Packet    BC   Orbit       Data       Trigger   Pages    Stop",
        );
        s.append("\n");
        push_spaces(&mut s, indent);
        s.append(
            "ver   size    ID    ID    next    ID    counter        counter     format     type      counter  bit",
        );
        s.append("\n");
        proof {
            assert(s@ =~= spec_rdh_header_text(indent as nat));
        }
        s
    }

    /// One row of decoded fields, in the column order of
    /// [`spec_rdh_header_text`], separated by two spaces.
    pub open spec fn spec_display_row(self) -> Seq<char> {
        "       "@ + dec_digits(self.rdh0.header_id as nat) + "  "@ + hex_0x_lower(
            self.rdh0.header_size as nat,
        ) + "  "@ + hex_0x_lower(self.rdh0.fee_id.0 as nat) + "  "@ + hex_0x_lower(
            self.rdh0.system_id as nat,
        ) + "  "@ + dec_digits(self.offset_new_packet as nat) + "  "@ + dec_digits(
            self.link_id as nat,
        ) + "  "@ + dec_digits(self.packet_counter as nat) + "  "@ + hex_0x_lower(
            self.rdh1.spec_bc() as nat,
        ) + "  "@ + hex_0x_lower(self.rdh1.orbit as nat) + "  "@ + dec_digits(
            self.spec_data_format() as nat,
        ) + "  "@ + hex_0x_lower(self.rdh2.trigger_type as nat) + "  "@ + dec_digits(
            self.rdh2.pages_counter as nat,
        ) + "  "@ + dec_digits(self.rdh2.stop_bit as nat) + "\n"@
    }

    /// Render the record's decoded fields as one row.
    pub fn to_display_string(&self) -> (r: String)
        ensures
            r@ == self.spec_display_row(),
    {
        let mut s = String::new();
        s.append("       ");
        push_dec(&mut s, self.rdh0.header_id as u64);
        s.append("  ");
        push_hex_0x_lower(&mut s, self.rdh0.header_size as u64);
        s.append("  ");
        push_hex_0x_lower(&mut s, self.rdh0.fee_id.0 as u64);
        s.append("  ");
        push_hex_0x_lower(&mut s, self.rdh0.system_id as u64);
        s.append("  ");
        push_dec(&mut s, self.offset_new_packet as u64);
        s.append("  ");
        push_dec(&mut s, self.link_id as u64);
        s.append("  ");
        push_dec(&mut s, self.packet_counter as u64);
        s.append("  ");
        push_hex_0x_lower(&mut s, self.rdh1.bc() as u64);
        s.append("  ");
        push_hex_0x_lower(&mut s, self.rdh1.orbit as u64);
        s.append("  ");
        push_dec(&mut s, self.data_format() as u64);
        s.append("  ");
        push_hex_0x_lower(&mut s, self.rdh2.trigger_type as u64);
        s.append("  ");
        push_dec(&mut s, self.rdh2.pages_counter as u64);
        s.append("  ");
        push_dec(&mut s, self.rdh2.stop_bit as u64);
        s.append("\n");
        proof {
            assert(s@ =~= self.spec_display_row());
        }
        s
    }
}

impl<Version> ByteSlice for RdhCRU<Version> {
    open spec fn spec_byte_slice(&self) -> Seq<u8> {
        self.spec_to_bytes()
    }

    /// Serialize the record back to its exact 64 wire bytes.
    fn to_byte_slice(&self) -> (r: Vec<u8>)
        ensures
            r@ == self.spec_byte_slice(),
    {
        let mut out: Vec<u8> = Vec::new();
        out.push(self.rdh0.header_id);
        out.push(self.rdh0.header_size);
        push_u16_le(&mut out, self.rdh0.fee_id.0);
        out.push(self.rdh0.priority_bit);
        out.push(self.rdh0.system_id);
        push_u16_le(&mut out, self.rdh0.reserved0);
        push_u16_le(&mut out, self.offset_new_packet);
        push_u16_le(&mut out, self.memory_size);
        out.push(self.link_id);
        out.push(self.packet_counter);
        push_u16_le(&mut out, self.cruid_dw.0);
        push_u32_le(&mut out, self.rdh1.bc_reserved0.0);
        push_u32_le(&mut out, self.rdh1.orbit);
        push_u64_le(&mut out, self.dataformat_reserved0.0);
        push_u32_le(&mut out, self.rdh2.trigger_type);
        push_u16_le(&mut out, self.rdh2.pages_counter);
        out.push(self.rdh2.stop_bit);
        out.push(self.rdh2.reserved0);
        push_u64_le(&mut out, self.reserved1);
        push_u32_le(&mut out, self.rdh3.detector_field);
        push_u16_le(&mut out, self.rdh3.par_bit);
        push_u16_le(&mut out, self.rdh3.reserved0);
        push_u64_le(&mut out, self.reserved2);
        proof {
            assert(out@ =~= self.spec_to_bytes());
        }
        out
    }
}

/// An RDH's byte image is 64 bytes long.
pub proof fn lemma_rdh_bytes_len<Version>(rdh: RdhCRU<Version>)
    ensures
        rdh.spec_to_bytes().len() == 64,
{
}

/// Decoding the byte image of an RDH yields the RDH again, for every value of
/// every field of either version.
#[verifier::rlimit(100)]
#[verifier::spinoff_prover]
pub proof fn lemma_rdh_roundtrip<Version>(rdh: RdhCRU<Version>)
    ensures
        RdhCRU::<Version>::spec_load(rdh.spec_to_bytes()) == rdh,
{
    let b = rdh.spec_to_bytes();
    let d = RdhCRU::<Version>::spec_load(b);
    assert(d.rdh0 == rdh.rdh0);
    assert(d.offset_new_packet == rdh.offset_new_packet && d.memory_size == rdh.memory_size
        && d.link_id == rdh.link_id && d.packet_counter == rdh.packet_counter && d.cruid_dw
        == rdh.cruid_dw);
    assert(d.rdh1 == rdh.rdh1) by {
        crate::words::codec::lemma_u32_le_roundtrip(rdh.rdh1.bc_reserved0.0);
        crate::words::codec::lemma_u32_le_roundtrip(rdh.rdh1.orbit);
    }
    assert(d.dataformat_reserved0 == rdh.dataformat_reserved0) by {
        crate::words::codec::lemma_u64_le_roundtrip(rdh.dataformat_reserved0.0);
        assert(b.subrange(24, 32) =~= spec_u64_to_le(rdh.dataformat_reserved0.0));
    }
    assert(d.rdh2 == rdh.rdh2) by {
        crate::words::codec::lemma_u32_le_roundtrip(rdh.rdh2.trigger_type);
    }
    assert(d.reserved1 == rdh.reserved1) by {
        crate::words::codec::lemma_u64_le_roundtrip(rdh.reserved1);
        assert(b.subrange(40, 48) =~= spec_u64_to_le(rdh.reserved1));
    }
    assert(d.rdh3 == rdh.rdh3) by {
        crate::words::codec::lemma_u32_le_roundtrip(rdh.rdh3.detector_field);
    }
    assert(d.reserved2 == rdh.reserved2) by {
        crate::words::codec::lemma_u64_le_roundtrip(rdh.reserved2);
        assert(b.subrange(56, 64) =~= spec_u64_to_le(rdh.reserved2));
    }
}

#[verifier::rlimit(100)]
#[verifier::spinoff_prover]
proof fn lemma_rdh_bytes_roundtrip_part<Version>(b: Seq<u8>, lo: int, hi: int)
    requires
        b.len() == 64,
        0 <= lo <= hi <= 64,
    ensures
        forall|i: int|
            lo <= i < hi ==> RdhCRU::<Version>::spec_load(b).spec_byte_at(i) == b[i],
    decreases hi - lo,
{
    if lo < hi {
        lemma_rdh_bytes_roundtrip_part::<Version>(b, lo + 1, hi);
        let rdh = RdhCRU::<Version>::spec_load(b);
        let i = lo;
        if 2 <= i <= 3 {
            crate::words::codec::lemma_u16_le_bytes_roundtrip(b[2], b[3]);
        } else if 6 <= i <= 7 {
            crate::words::codec::lemma_u16_le_bytes_roundtrip(b[6], b[7]);
        } else if 8 <= i <= 9 {
            crate::words::codec::lemma_u16_le_bytes_roundtrip(b[8], b[9]);
        } else if 10 <= i <= 11 {
            crate::words::codec::lemma_u16_le_bytes_roundtrip(b[10], b[11]);
        } else if 14 <= i <= 15 {
            crate::words::codec::lemma_u16_le_bytes_roundtrip(b[14], b[15]);
        } else if 16 <= i <= 19 {
            crate::words::codec::lemma_u32_le_bytes_roundtrip(b[16], b[17], b[18], b[19]);
        } else if 20 <= i <= 23 {
            crate::words::codec::lemma_u32_le_bytes_roundtrip(b[20], b[21], b[22], b[23]);
        } else if 24 <= i <= 31 {
            crate::words::codec::lemma_u64_le_bytes_roundtrip(b.subrange(24, 32));
            assert(rdh.spec_byte_at(i) == b.subrange(24, 32)[i - 24]);
        } else if 32 <= i <= 35 {
            crate::words::codec::lemma_u32_le_bytes_roundtrip(b[32], b[33], b[34], b[35]);
        } else if 36 <= i <= 37 {
            crate::words::codec::lemma_u16_le_bytes_roundtrip(b[36], b[37]);
        } else if 40 <= i <= 47 {
            crate::words::codec::lemma_u64_le_bytes_roundtrip(b.subrange(40, 48));
            assert(rdh.spec_byte_at(i) == b.subrange(40, 48)[i - 40]);
        } else if 48 <= i <= 51 {
            crate::words::codec::lemma_u32_le_bytes_roundtrip(b[48], b[49], b[50], b[51]);
        } else if 52 <= i <= 53 {
            crate::words::codec::lemma_u16_le_bytes_roundtrip(b[52], b[53]);
        } else if 54 <= i <= 55 {
            crate::words::codec::lemma_u16_le_bytes_roundtrip(b[54], b[55]);
        } else if 56 <= i <= 63 {
            crate::words::codec::lemma_u64_le_bytes_roundtrip(b.subrange(56, 64));
            assert(rdh.spec_byte_at(i) == b.subrange(56, 64)[i - 56]);
        }
        assert(rdh.spec_byte_at(i) == b[i]);
    }
}

/// Encoding a decoded RDH reproduces the original 64 bytes.
pub proof fn lemma_rdh_bytes_roundtrip<Version>(b: Seq<u8>)
    requires
        b.len() == 64,
    ensures
        RdhCRU::<Version>::spec_load(b).spec_to_bytes() == b,
{
    lemma_rdh_bytes_roundtrip_part::<Version>(b, 0, 64);
    assert(RdhCRU::<Version>::spec_load(b).spec_to_bytes() =~= b);
}

} // verus!
