//! Wire structures of the CRU protocol: little-endian byte codecs, the RDH
//! sub-headers, the composite RDH-CRU record and the 10-byte GBT words.

pub mod codec;
pub mod rdh;
pub mod data_words;
pub mod rdh_cru;
pub mod status_words;
pub mod test_data;
