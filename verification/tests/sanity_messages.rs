use fastpasta::validators::rdh::{FeeIdSanityValidator, Rdh2Validator, RdhCruSanityValidator};
use fastpasta::words::rdh::{FeeId, Rdh2};
use fastpasta::words::test_data::correct_rdh_cru_v7;

#[test]
fn test_fee_id_message_texts() {
    let validator = FeeIdSanityValidator::new((0, 6), (0, 47));
    let err = validator.sanity_check(FeeId(0b0111_0000_0000_0000)).unwrap_err();
    assert_eq!(err, "layer = 7 ");
    let err = validator.sanity_check(FeeId(0x30)).unwrap_err();
    assert_eq!(err, "stave_number = 48 ");
    let err = validator.sanity_check(FeeId(0x8000)).unwrap_err();
    assert_eq!(err, "reserved_bits = 0x8000 ");
}

#[test]
fn test_rdh2_message_mentions_every_violated_field() {
    // one word violating three independent constraints: one error naming all
    // three fields
    let validator = Rdh2Validator::new();
    let rdh2 = Rdh2 { trigger_type: 0, pages_counter: 0, stop_bit: 2, reserved0: 1 };
    let err = validator.sanity_check(&rdh2).unwrap_err();
    assert_eq!(err, "rdh2.reserved0 = 0x1 stop_bit = 0x2 Spare bits set in trigger_type = 0x0 ");
    assert!(err.contains("rdh2.reserved0"));
    assert!(err.contains("stop_bit"));
    assert!(err.contains("trigger_type"));
}

#[test]
fn test_rdh_cru_message_texts() {
    // a bad dw alone
    let mut validator = RdhCruSanityValidator::new();
    let mut rdh = correct_rdh_cru_v7();
    rdh.cruid_dw = fastpasta::words::rdh::CruidDw(0x2018);
    let err = validator.sanity_check(&rdh).unwrap_err();
    assert_eq!(err, "RDH sanity check failed: dw = 0x2 ");

    // a bad data format alone
    let mut validator = RdhCruSanityValidator::new();
    let mut rdh = correct_rdh_cru_v7();
    rdh.dataformat_reserved0 = fastpasta::words::rdh::DataformatReserved(3);
    let err = validator.sanity_check(&rdh).unwrap_err();
    assert_eq!(err, "RDH sanity check failed: data_format = 0x3 ");

    // a pinned system id that does not match
    let mut validator = RdhCruSanityValidator::with_specialization(
        fastpasta::validators::rdh::SpecializeChecks::ITS,
    );
    let mut rdh = correct_rdh_cru_v7();
    rdh.rdh0.system_id = 0x99;
    let err = validator.sanity_check(&rdh).unwrap_err();
    assert_eq!(err, "RDH sanity check failed: system_id = 0x99 ");
}

#[test]
fn test_rdh_display_strings() {
    let rdh = correct_rdh_cru_v7();
    let row = rdh.to_display_string();
    assert!(row.contains("0x502a"));
    assert!(row.contains("0xb7dd575"));
    let header =
        fastpasta::words::rdh_cru::RdhCRU::<fastpasta::words::rdh_cru::V7>::rdh_header_text_with_indent_to_string(
            4,
        );
    assert!(header.contains("RDH"));
    assert!(header.contains("    ver"));
}
