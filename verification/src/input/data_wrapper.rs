//! [`CdpChunk`]: an insertion-ordered batch of (RDH, payload, memory
//! position) triples, created by the reader, handed to the validator by
//! value, and consumed by the sink.

use vstd::prelude::*;

use crate::words::rdh_cru::RdhCRU;

verus! {

/// A batch of CDPs: the i-th RDH belongs with the i-th payload and the i-th
/// memory position.
pub struct CdpChunk<Version> {
    /// The RDHs, in insertion order.
    pub rdhs: Vec<RdhCRU<Version>>,
    /// The payloads, one per RDH.
    pub payloads: Vec<Vec<u8>>,
    /// The absolute memory position of each RDH.
    pub rdh_mem_pos: Vec<u64>,
}

impl<Version> CdpChunk<Version> {
    /// The three columns always hold one entry per CDP.
    pub open spec fn wf(&self) -> bool {
        self.rdhs@.len() == self.payloads@.len() && self.rdhs@.len() == self.rdh_mem_pos@.len()
    }

    /// The RDHs, in insertion order.
    pub open spec fn spec_rdhs(&self) -> Seq<RdhCRU<Version>> {
        self.rdhs@
    }

    /// The payloads, in insertion order.
    pub open spec fn spec_payloads(&self) -> Seq<Vec<u8>> {
        self.payloads@
    }

    /// The memory positions, in insertion order.
    pub open spec fn spec_mem_positions(&self) -> Seq<u64> {
        self.rdh_mem_pos@
    }

    pub fn new() -> (r: CdpChunk<Version>)
        ensures
            r.wf(),
            r.spec_rdhs().len() == 0,
    {
        CdpChunk { rdhs: Vec::new(), payloads: Vec::new(), rdh_mem_pos: Vec::new() }
    }

    /// Append one CDP; insertion order is kept.
    pub fn push(&mut self, rdh: RdhCRU<Version>, payload: Vec<u8>, mem_pos: u64)
        requires
            old(self).wf(),
        ensures
            final(self).wf(),
            final(self).spec_rdhs() == old(self).spec_rdhs().push(rdh),
            final(self).spec_payloads() == old(self).spec_payloads().push(payload),
            final(self).spec_mem_positions() == old(self).spec_mem_positions().push(mem_pos),
    {
        self.rdhs.push(rdh);
        self.payloads.push(payload);
        self.rdh_mem_pos.push(mem_pos);
    }

    pub fn len(&self) -> (r: usize)
        requires
            self.wf(),
        ensures
            r == self.spec_rdhs().len(),
    {
        self.rdhs.len()
    }

    pub fn is_empty(&self) -> (r: bool)
        requires
            self.wf(),
        ensures
            r == (self.spec_rdhs().len() == 0),
    {
        self.rdhs.is_empty()
    }

    /// Borrow the i-th triple.
    pub fn get(&self, i: usize) -> (r: (&RdhCRU<Version>, &Vec<u8>, u64))
        requires
            self.wf(),
            i < self.spec_rdhs().len(),
        ensures
            *r.0 == self.spec_rdhs()[i as int],
            *r.1 == self.spec_payloads()[i as int],
            r.2 == self.spec_mem_positions()[i as int],
    {
        (&self.rdhs[i], &self.payloads[i], self.rdh_mem_pos[i])
    }

    /// Take the batch apart into its three columns, in insertion order.
    pub fn into_parts(self) -> (r: (Vec<RdhCRU<Version>>, Vec<Vec<u8>>, Vec<u64>))
        ensures
            r.0@ == self.spec_rdhs(),
            r.1@ == self.spec_payloads(),
            r.2@ == self.spec_mem_positions(),
    {
        (self.rdhs, self.payloads, self.rdh_mem_pos)
    }
}

} // verus!
