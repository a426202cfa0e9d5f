use fastpasta::input::data_wrapper::CdpChunk;
use fastpasta::input::{reader_step, ChunkOutcome, ReaderAction};
use fastpasta::stats::Stats;
use fastpasta::textfmt::{push_dec, push_hex_0x_lower, push_hex_0x_upper, push_hex_byte_upper};
use fastpasta::words::data_words::gbt_words;
use fastpasta::words::rdh_cru::{LoadError, RdhCRU, V7};
use fastpasta::words::test_data::{correct_rdh_cru_v6, correct_rdh_cru_v7};
use fastpasta::ByteSlice;
use fastpasta::FilePosTracker;
use fastpasta::Opt;

#[test]
fn test_file_tracker() {
    let mut file_tracker = FilePosTracker::new();
    assert_eq!(file_tracker.offset_next, 0);
    assert_eq!(file_tracker.memory_address_bytes, 0);
    assert_eq!(file_tracker.next(64), 0);
    assert_eq!(file_tracker.offset_next, 0);
    assert_eq!(file_tracker.memory_address_bytes, 64);
    assert_eq!(file_tracker.next(64), 0);
    assert_eq!(file_tracker.offset_next, 0);
    assert_eq!(file_tracker.memory_address_bytes, 128);
}

#[test]
fn test_hex_and_dec_rendering() {
    let mut s = String::new();
    push_hex_0x_lower(&mut s, 0x1AB);
    assert_eq!(s, "0x1ab");
    let mut s = String::new();
    push_hex_0x_upper(&mut s, 0x1AB);
    assert_eq!(s, "0x1AB");
    let mut s = String::new();
    push_hex_0x_lower(&mut s, 0);
    assert_eq!(s, "0x0");
    let mut s = String::new();
    push_dec(&mut s, 4807);
    assert_eq!(s, "4807");
    let mut s = String::new();
    push_hex_byte_upper(&mut s, 0x0F);
    assert_eq!(s, "0F");
    let mut s = String::new();
    push_hex_byte_upper(&mut s, 0xE1);
    assert_eq!(s, "E1");
}

#[test]
fn test_rdh_byte_roundtrip_at_runtime() {
    let v7 = correct_rdh_cru_v7();
    let bytes = v7.to_byte_slice();
    assert_eq!(bytes.len(), 64);
    let decoded = RdhCRU::load(&bytes[..]).unwrap();
    assert_eq!(v7, decoded);
    assert_eq!(bytes, decoded.to_byte_slice());

    let v6 = correct_rdh_cru_v6();
    let bytes = v6.to_byte_slice();
    let decoded = RdhCRU::load(&bytes[..]).unwrap();
    assert_eq!(v6, decoded);
}

#[test]
fn test_v7_decoded_fields() {
    let input: [u8; 64] = [
        0x07, 0x40, 0x2A, 0x50, 0x00, 0x20, 0x00, 0x00, 0xE0, 0x13, 0xE0, 0x13, 0x00, 0x00, 0x18,
        0x00, 0x00, 0x00, 0x00, 0x00, 0x75, 0xD5, 0x7D, 0x0B, 0x02, 0x00, 0x00, 0x00, 0x00, 0x00,
        0x00, 0x00, 0x00, 0x6A, 0x00, 0x00, 0x00, 0x00, 0x00, 0x00, 0x00, 0x00, 0x00, 0x00, 0x00,
        0x00, 0x00, 0x00, 0x00, 0x00, 0x00, 0x00, 0x00, 0x00, 0x00, 0x00, 0x00, 0x00, 0x00, 0x00,
        0x00, 0x00, 0x00, 0x00,
    ];
    let rdh = RdhCRU::<V7>::load(&input[..]).unwrap();
    assert_eq!(rdh.version(), 7);
    assert_eq!(rdh.rdh0.header_size, 0x40);
    assert_eq!(rdh.fee_id(), 0x502A);
    assert_eq!(rdh.rdh0.system_id, 0x20);
    assert_eq!(rdh.offset_to_next(), 0x13E0);
    assert_eq!(rdh.memory_size, 0x13E0);
    assert_eq!(rdh.link_id(), 0);
    assert_eq!(rdh.cruid_dw.0, 0x0018);
    assert_eq!(rdh.rdh1.orbit, 0x0B7DD575);
    assert_eq!(rdh.data_format(), 2);
    assert_eq!(rdh.payload_size(), 0x13E0 - 64);
    // the wire bytes of this record match the input exactly
    assert_eq!(rdh.to_byte_slice(), input.to_vec());
}

#[test]
fn test_load_error_variants() {
    let empty: [u8; 0] = [];
    assert_eq!(RdhCRU::<V7>::load(&empty[..]).unwrap_err(), LoadError::EndOfInput);
    let short = [0u8; 63];
    assert_eq!(RdhCRU::<V7>::load(&short[..]).unwrap_err(), LoadError::Truncated);
}

#[test]
fn test_gbt_words_stride_law() {
    // data format 2: stride 10
    let mut payload: Vec<u8> = Vec::new();
    for i in 0..20u8 {
        payload.push(i);
    }
    let words = gbt_words(&payload, 2).unwrap();
    assert_eq!(words.len(), 2);
    assert_eq!(words[0], (0..10u8).collect::<Vec<u8>>());
    assert_eq!(words[1], (10..20u8).collect::<Vec<u8>>());

    // data format 0: stride 16, each word keeps the first 10 bytes
    let mut payload: Vec<u8> = Vec::new();
    for i in 0..32u8 {
        payload.push(i);
    }
    let words = gbt_words(&payload, 0).unwrap();
    assert_eq!(words.len(), 2);
    assert_eq!(words[0], (0..10u8).collect::<Vec<u8>>());
    assert_eq!(words[1], (16..26u8).collect::<Vec<u8>>());

    // an empty payload has zero words under either format
    let empty: Vec<u8> = Vec::new();
    assert_eq!(gbt_words(&empty, 2).unwrap().len(), 0);

    // a length that does not divide by the stride is rejected with the exact
    // message
    let payload = vec![0u8; 15];
    let err = gbt_words(&payload, 2).unwrap_err();
    assert_eq!(err, "InvalidFormat: payload length 15 is not a multiple of 10");
    let err = gbt_words(&payload, 0).unwrap_err();
    assert_eq!(err, "InvalidFormat: payload length 15 is not a multiple of 16");
}

#[test]
fn test_cdp_chunk_keeps_order() {
    let mut chunk = CdpChunk::new();
    assert!(chunk.is_empty());
    chunk.push(correct_rdh_cru_v7(), vec![0; 10], 0);
    chunk.push(correct_rdh_cru_v7(), vec![1; 10], 0x40);
    assert_eq!(chunk.len(), 2);
    let (rdh, payload, pos) = chunk.get(1);
    assert_eq!(*rdh, correct_rdh_cru_v7());
    assert_eq!(*payload, vec![1; 10]);
    assert_eq!(pos, 0x40);
    let (rdhs, payloads, positions) = chunk.into_parts();
    assert_eq!(rdhs.len(), 2);
    assert_eq!(payloads[0], vec![0; 10]);
    assert_eq!(positions, vec![0, 0x40]);
}

#[test]
fn test_stats_counters() {
    let mut stats = Stats::new();
    stats.record_rdh(100);
    stats.record_rdh(28);
    stats.record_link(3);
    stats.record_link(3);
    stats.record_link(5);
    assert_eq!(stats.total_rdhs, 2);
    assert_eq!(stats.payload_size, 128);
    assert_eq!(stats.links_observed, vec![3, 5]);
}

#[test]
fn test_opt_getters() {
    let opt = Opt {
        dump_rhds: true,
        sanity_checks: false,
        filter_link: Some(2),
        file: String::from("data.raw"),
        output: None,
    };
    assert!(opt.dump_rhds());
    assert!(!opt.sanity_checks());
    assert_eq!(opt.filter_link(), Some(2));
    assert_eq!(opt.file(), "data.raw");
    assert!(opt.output().is_none());
}

#[test]
fn test_reader_step_decisions() {
    // a requested shutdown always stops, whatever was read
    assert_eq!(reader_step(true, ChunkOutcome::Full), ReaderAction::Stop);
    // a full chunk keeps the loop going
    assert_eq!(reader_step(false, ChunkOutcome::Full), ReaderAction::Send);
    // a partial chunk is sent but ends the loop
    assert_eq!(reader_step(false, ChunkOutcome::Partial), ReaderAction::SendAndStop);
    // end of input and read errors stop without sending
    assert_eq!(reader_step(false, ChunkOutcome::EndOfInput), ReaderAction::Stop);
    assert_eq!(reader_step(false, ChunkOutcome::ReadError), ReaderAction::Stop);
}
