//! Events consumed by the statistics sink, and the running counters it keeps.
//!
//! Aggregation and display of the counters happen outside the core; the event
//! taxonomy and the counter arithmetic are specified here.

use vstd::prelude::*;

verus! {

/// One event on the statistics channel.
pub enum StatType {
    /// A validation failure, already formatted as
    /// `<hex mem pos>: <code> <message> [<10 hex bytes>]`.
    Error(String),
    /// One more RDH was read.
    RdhSeen,
    /// So many more payload bytes were read.
    PayloadBytes(u64),
    /// This link id was observed.
    LinkObserved(u8),
}

/// Running counters over a whole scan: how many RDHs were read, how many
/// payload bytes they announced, and which link ids appeared.
pub struct Stats {
    /// Number of RDHs read so far.
    pub total_rdhs: u64,
    /// Sum of the payload sizes announced by those RDHs.
    pub payload_size: u64,
    /// Link ids observed, in order of first use by the caller.
    pub links_observed: Vec<u8>,
}

impl Stats {
    pub fn new() -> (r: Stats)
        ensures
            r.total_rdhs == 0,
            r.payload_size == 0,
            r.links_observed@ == Seq::<u8>::empty(),
    {
        Stats { total_rdhs: 0, payload_size: 0, links_observed: Vec::new() }
    }

    /// Record one RDH announcing `payload` bytes.
    pub fn record_rdh(&mut self, payload: u64)
        requires
            old(self).total_rdhs < u64::MAX,
            old(self).payload_size + payload <= u64::MAX,
        ensures
            final(self).total_rdhs == old(self).total_rdhs + 1,
            final(self).payload_size == old(self).payload_size + payload,
            final(self).links_observed@ == old(self).links_observed@,
    {
        self.total_rdhs = self.total_rdhs + 1;
        self.payload_size = self.payload_size + payload;
    }

    /// Record a link id, keeping the list free of duplicates.
    pub fn record_link(&mut self, link_id: u8)
        ensures
            final(self).total_rdhs == old(self).total_rdhs,
            final(self).payload_size == old(self).payload_size,
            old(self).links_observed@.contains(link_id) ==> final(self).links_observed@
                == old(self).links_observed@,
            !old(self).links_observed@.contains(link_id) ==> final(self).links_observed@
                == old(self).links_observed@.push(link_id),
    {
        let mut i: usize = 0;
        let n = self.links_observed.len();
        while i < n
            invariant
                i <= n,
                n == self.links_observed@.len(),
                forall|j: int| 0 <= j < i ==> self.links_observed@[j] != link_id,
                self.links_observed@ == old(self).links_observed@,
                self.total_rdhs == old(self).total_rdhs,
                self.payload_size == old(self).payload_size,
            decreases n - i,
        {
            if self.links_observed[i] == link_id {
                proof {
                    assert(old(self).links_observed@[i as int] == link_id);
                }
                return ;
            }
            i = i + 1;
        }
        self.links_observed.push(link_id);
    }
}

} // verus!
