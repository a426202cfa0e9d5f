//! Streaming analyzer for the ALICE CRU readout protocol (ITS specialization).
//!
//! The input is a byte stream of CDPs: a 64-byte packed little-endian Readout
//! Data Header (RDH) followed by a payload of 10-byte GBT words. This crate
//! decodes the wire structures, checks per-word sanity constraints, classifies
//! payload words with a state machine and enforces the cross-word rules that
//! correlate RDH fields with payload words.

use vstd::prelude::*;

pub mod input;
pub mod stats;
pub mod textfmt;
pub mod validators;
pub mod view;
pub mod words;

verus! {

/// Configuration recognized by the analyzer core: where the input comes from,
/// where filtered output goes, which link to keep and which checks to run.
pub struct Opt {
    /// Dump RDHs to the output.
    pub dump_rhds: bool,
    /// Run the stateless sanity checks.
    pub sanity_checks: bool,
    /// Keep only records whose RDH carries this link id.
    pub filter_link: Option<u8>,
    /// Path of the input file; an empty string means the process input stream.
    pub file: String,
    /// Path of the output file, if any; "stdout" means the process output stream.
    pub output: Option<String>,
}

impl Opt {
    pub fn dump_rhds(&self) -> (r: bool)
        ensures
            r == self.dump_rhds,
    {
        self.dump_rhds
    }

    pub fn sanity_checks(&self) -> (r: bool)
        ensures
            r == self.sanity_checks,
    {
        self.sanity_checks
    }

    pub fn filter_link(&self) -> (r: Option<u8>)
        ensures
            r == self.filter_link,
    {
        self.filter_link
    }

    pub fn file(&self) -> (r: &String)
        ensures
            r == self.file,
    {
        &self.file
    }

    pub fn output(&self) -> (r: &Option<String>)
        ensures
            r == self.output,
    {
        &self.output
    }
}

/// Serialization of a wire structure back to the exact bytes it was decoded
/// from.
pub trait ByteSlice {
    spec fn spec_byte_slice(&self) -> Seq<u8>;

    fn to_byte_slice(&self) -> (r: Vec<u8>)
        ensures
            r@ == self.spec_byte_slice(),
    ;
}

/// Tracks the absolute byte position of the RDH most recently read from the
/// input, and the relative offset that skips its payload.
pub struct FilePosTracker {
    /// Bytes from the end of the current RDH to the next RDH.
    pub offset_next: i64,
    /// Absolute byte position of the next RDH.
    pub memory_address_bytes: u64,
    /// Size of the RDH itself, 64 bytes.
    pub rdh_cru_size_bytes: u64,
}

impl FilePosTracker {
    pub fn new() -> (r: FilePosTracker)
        ensures
            r.offset_next == 0,
            r.memory_address_bytes == 0,
            r.rdh_cru_size_bytes == 64,
    {
        FilePosTracker { offset_next: 0, memory_address_bytes: 0, rdh_cru_size_bytes: 64 }
    }

    /// Advance past one record: `rdh_offset` is the RDH's `offset_new_packet`,
    /// the distance in bytes from this RDH to the next one.
    pub fn next(&mut self, rdh_offset: u64) -> (r: i64)
        requires
            old(self).rdh_cru_size_bytes == 64,
            rdh_offset >= 64,
            rdh_offset - 64 <= i64::MAX,
            old(self).memory_address_bytes + rdh_offset <= u64::MAX,
        ensures
            r == rdh_offset - 64,
            final(self).offset_next == rdh_offset - 64,
            final(self).memory_address_bytes == old(self).memory_address_bytes + rdh_offset,
            final(self).rdh_cru_size_bytes == old(self).rdh_cru_size_bytes,
    {
        self.offset_next = (rdh_offset - self.rdh_cru_size_bytes) as i64;
        self.memory_address_bytes = self.memory_address_bytes + rdh_offset;
        self.offset_next
    }
}

} // verus!
