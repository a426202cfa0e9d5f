use fastpasta::validators::rdh::{
    FeeIdSanityValidator, Rdh0Validator, Rdh1Validator, Rdh2Validator, Rdh3Validator,
    RdhCruSanityValidator, SpecializeChecks,
};
use fastpasta::words::rdh::{FeeId, Rdh0, Rdh1, Rdh2, Rdh3};
use fastpasta::words::test_data::{correct_rdh_cru_v6, correct_rdh_cru_v7};

const ITS_SYSTEM_ID: u8 = 32;

fn fee_id_sanity_validator() -> FeeIdSanityValidator {
    FeeIdSanityValidator::new((0, 6), (0, 47))
}

#[test]
fn validate_fee_id() {
    let validator = fee_id_sanity_validator();
    let fee_id = FeeId(0x502A);
    assert!(validator.sanity_check(fee_id).is_ok());
}

#[test]
fn invalidate_fee_id_bad_reserved() {
    let validator = fee_id_sanity_validator();
    let fee_id_bad_reserved0 = FeeId(0b1000_0000_0000_0000);
    let fee_id_bad_reserved1 = FeeId(0b0000_0100_0000_0000);
    let fee_id_bad_reserved2 = FeeId(0b0000_0000_0100_0000);
    let res = validator.sanity_check(fee_id_bad_reserved0);
    println!("{res:?} ");
    let res = validator.sanity_check(fee_id_bad_reserved1);
    println!("{res:?} ");
    let res = validator.sanity_check(fee_id_bad_reserved2);
    println!("{res:?} `");
    assert!(validator.sanity_check(fee_id_bad_reserved0).is_err());
    assert!(validator.sanity_check(fee_id_bad_reserved1).is_err());
    assert!(validator.sanity_check(fee_id_bad_reserved2).is_err());
}

#[test]
fn invalidate_fee_id_bad_layer() {
    let validator = fee_id_sanity_validator();
    let fee_id_invalid_layer_is_7 = FeeId(0b0111_0000_0000_0000);
    let res = validator.sanity_check(fee_id_invalid_layer_is_7);
    println!("{res:?}");
    assert!(validator.sanity_check(fee_id_invalid_layer_is_7).is_err());
}

#[test]
fn invalidate_fee_id_bad_stave_number() {
    let validator = fee_id_sanity_validator();
    let fee_id_bad_stave_number_is_48 = FeeId(0x30);
    let res = validator.sanity_check(fee_id_bad_stave_number_is_48);
    println!("{res:?}");
    assert!(res.is_err());
}

// RDH0 sanity check
#[test]
fn validate_rdh0() {
    let mut validator = Rdh0Validator::default();
    let rdh0 = Rdh0 {
        header_id: 7,
        header_size: 0x40,
        fee_id: FeeId(0x502A),
        priority_bit: 0,
        system_id: ITS_SYSTEM_ID,
        reserved0: 0,
    };
    let rdh0_2 = Rdh0 {
        header_id: 7,
        header_size: 0x40,
        fee_id: FeeId(0x502A),
        priority_bit: 0,
        system_id: ITS_SYSTEM_ID,
        reserved0: 0,
    };
    let res = validator.sanity_check(&rdh0);
    assert!(res.is_ok());
    let res = validator.sanity_check(&rdh0_2);
    assert!(res.is_ok());
}

#[test]
fn invalidate_rdh0_bad_header_id() {
    let mut validator = Rdh0Validator::default();
    let mut rdh0 = Rdh0 {
        header_id: 0x7,
        header_size: 0x40,
        fee_id: FeeId(0x502A),
        priority_bit: 0,
        system_id: ITS_SYSTEM_ID,
        reserved0: 0,
    };
    let res = validator.sanity_check(&rdh0);
    assert!(res.is_ok());
    rdh0.header_id = 0x8; // Change to different header_id
    assert!(validator.sanity_check(&rdh0).is_err());
}

#[test]
fn invalidate_rdh0_bad_header_size() {
    let mut validator = Rdh0Validator::default();
    let rdh0 = Rdh0 {
        header_id: 7,
        header_size: 0x3,
        fee_id: FeeId(0x502A),
        priority_bit: 0,
        system_id: ITS_SYSTEM_ID,
        reserved0: 0,
    };
    let res = validator.sanity_check(&rdh0);
    println!("{res:?}");
    assert!(res.is_err());
}

#[test]
fn invalidate_rdh0_bad_fee_id() {
    let mut validator = Rdh0Validator::default();
    let fee_id_bad_stave_number_is_48 = FeeId(0x30);
    let rdh0 = Rdh0 {
        header_id: 7,
        header_size: 0x40,
        fee_id: fee_id_bad_stave_number_is_48,
        priority_bit: 0,
        system_id: ITS_SYSTEM_ID,
        reserved0: 0,
    };
    let res = validator.sanity_check(&rdh0);
    println!("{res:?}");
    assert!(res.is_err());
}

#[test]
fn invalidate_rdh0_bad_system_id() {
    let mut validator = Rdh0Validator::new(0x40, fee_id_sanity_validator(), 0, Some(ITS_SYSTEM_ID));
    let rdh0 = Rdh0 {
        header_id: 7,
        header_size: 0x40,
        fee_id: FeeId(0x502A),
        priority_bit: 0,
        system_id: 0x3,
        reserved0: 0,
    };
    let res = validator.sanity_check(&rdh0);
    println!("{res:?}");
    assert!(res.is_err());
}

#[test]
fn validate_rdh0_non_its_system_id() {
    let mut validator = Rdh0Validator::new(0x40, fee_id_sanity_validator(), 0, None);
    let rdh0 = Rdh0 {
        header_id: 7,
        header_size: 0x40,
        fee_id: FeeId(0x502A),
        priority_bit: 0,
        system_id: 0x99,
        reserved0: 0,
    };
    let res = validator.sanity_check(&rdh0);
    println!("{res:?}");
    assert!(res.is_ok());
}

#[test]
fn invalidate_rdh0_bad_reserved0() {
    let mut validator = Rdh0Validator::new(0x40, fee_id_sanity_validator(), 0, Some(ITS_SYSTEM_ID));
    let rdh0 = Rdh0 {
        header_id: 7,
        header_size: 0x40,
        fee_id: FeeId(0x502A),
        priority_bit: 0,
        system_id: ITS_SYSTEM_ID,
        reserved0: 0x3,
    };
    let res = validator.sanity_check(&rdh0);
    println!("{res:?}");
    assert!(res.is_err());
}

// RDH1 sanity check
#[test]
fn validate_rdh1() {
    let validator = Rdh1Validator::new();
    let rdh1 = Rdh1::test_new(0, 0, 0);
    let res = validator.sanity_check(&rdh1);
    assert!(res.is_ok());
}

#[test]
fn invalidate_rdh1_bad_reserved0() {
    let validator = Rdh1Validator::new();
    let rdh1 = Rdh1::test_new(0, 0, 1);
    let res = validator.sanity_check(&rdh1);
    println!("{res:?}");
    assert!(res.is_err());
}

// RDH2 sanity check
#[test]
fn validate_rdh2() {
    let validator = Rdh2Validator::new();
    let rdh2 = Rdh2 { trigger_type: 1, pages_counter: 0, stop_bit: 0, reserved0: 0 };
    let res = validator.sanity_check(&rdh2);
    assert!(res.is_ok());
}

#[test]
fn invalidate_rdh2_bad_reserved0() {
    let validator = Rdh2Validator::new();
    let rdh2 = Rdh2 { trigger_type: 1, pages_counter: 0, stop_bit: 0, reserved0: 1 };
    let res = validator.sanity_check(&rdh2);
    println!("{res:?}");
    assert!(res.is_err());
}

#[test]
fn invalidate_rdh2_bad_trigger_type() {
    let validator = Rdh2Validator::new();
    let rdh2 = Rdh2 { trigger_type: 0, pages_counter: 0, stop_bit: 0, reserved0: 0 };
    let res = validator.sanity_check(&rdh2);
    println!("{res:?}");
    assert!(res.is_err());
}

#[test]
fn invalidate_rdh2_bad_stop_bit() {
    let validator = Rdh2Validator::new();
    let rdh2 = Rdh2 { trigger_type: 1, pages_counter: 0, stop_bit: 2, reserved0: 0 };
    let res = validator.sanity_check(&rdh2);
    println!("{res:?}");
    assert!(res.is_err());
}

// RDH3 sanity check
#[test]
fn validate_rdh3() {
    let validator = Rdh3Validator::new();
    let rdh3 = Rdh3 { detector_field: 0, par_bit: 0, reserved0: 0 };
    let res = validator.sanity_check(&rdh3);
    assert!(res.is_ok());
}

#[test]
fn invalidate_rdh3_bad_reserved0() {
    let validator = Rdh3Validator::new();
    let rdh3 = Rdh3 { detector_field: 0, par_bit: 0, reserved0: 1 };
    let res = validator.sanity_check(&rdh3);
    println!("{res:?}");
    assert!(res.is_err());
}

#[test]
fn invalidate_rdh3_bad_detector_field() {
    let validator = Rdh3Validator::new();
    let example_bad_detector_field = 0b1000_0000;
    let rdh3 = Rdh3 { detector_field: example_bad_detector_field, par_bit: 0, reserved0: 0 };
    let res = validator.sanity_check(&rdh3);
    println!("{res:?}");
    assert!(res.is_err());
}

#[test]
fn validate_rdh_cru_v7() {
    let mut validator = RdhCruSanityValidator::new();
    let res = validator.sanity_check(&correct_rdh_cru_v7());
    assert!(res.is_ok());
}

#[test]
fn invalidate_rdh_cru_v7_bad_header_id() {
    let mut validator = RdhCruSanityValidator::default();
    let mut rdh_cru = correct_rdh_cru_v7();
    assert!(validator.sanity_check(&rdh_cru).is_ok());
    rdh_cru.rdh0.header_id = 0x0;
    let res = validator.sanity_check(&rdh_cru);
    println!("{res:?}");
    assert!(res.is_err());
}

#[test]
fn invalidate_rdh_cru_v7_multiple_errors() {
    let mut validator = RdhCruSanityValidator::default();
    let mut rdh_cru = correct_rdh_cru_v7();
    rdh_cru.rdh0.header_size = 0x0;
    rdh_cru.rdh2.reserved0 = 0x1;
    rdh_cru.rdh3.detector_field = 0x5;
    rdh_cru.rdh3.reserved0 = 0x1;
    rdh_cru.reserved1 = 0x1;
    rdh_cru.reserved2 = 0x1;
    let fee_id_invalid_layer_is_7 = FeeId(0b0111_0000_0000_0000);
    rdh_cru.rdh0.fee_id = fee_id_invalid_layer_is_7;
    let res = validator.sanity_check(&rdh_cru);
    println!("{res:?}");
    assert!(res.is_err());
}

#[test]
fn allow_rdh_cru_v7_non_its_system_id() {
    let mut validator = RdhCruSanityValidator::default();
    let mut rdh_cru = correct_rdh_cru_v7();
    rdh_cru.rdh0.system_id = 0x99;

    let res = validator.sanity_check(&rdh_cru);
    println!("{res:?}");
    assert!(res.is_ok());
}

#[test]
fn invalidate_rdh_cru_v7_its_specialized_bad_system_id() {
    let mut validator = RdhCruSanityValidator::default();
    validator.specialize(SpecializeChecks::ITS);
    let mut rdh_cru = correct_rdh_cru_v7();
    rdh_cru.rdh0.system_id = 0x99;

    let res = validator.sanity_check(&rdh_cru);
    println!("{res:?}");
    assert!(res.is_err());
}

#[test]
fn validate_rdh_cru_v6() {
    let mut validator = RdhCruSanityValidator::default();
    let res = validator.sanity_check(&correct_rdh_cru_v6());
    assert!(res.is_ok());
}

#[test]
fn invalidate_rdh_cru_v6_bad_header_id() {
    let mut validator = RdhCruSanityValidator::default();
    let mut rdh_cru = correct_rdh_cru_v6();
    let res = validator.sanity_check(&rdh_cru);
    println!("{res:?}");
    assert!(res.is_ok());
    rdh_cru.rdh0.header_id = 0x0;
    let res = validator.sanity_check(&rdh_cru);
    assert!(res.is_err());
}

#[test]
fn invalidate_rdh_cru_v6_multiple_errors() {
    let mut validator = RdhCruSanityValidator::default();
    let mut rdh_cru = correct_rdh_cru_v6();
    rdh_cru.rdh0.header_size = 0x0;
    rdh_cru.rdh2.reserved0 = 0x1;
    rdh_cru.rdh3.detector_field = 0x5;
    rdh_cru.rdh3.reserved0 = 0x1;
    rdh_cru.reserved1 = 0x1;
    rdh_cru.reserved2 = 0x1;
    let fee_id_invalid_layer_is_7 = FeeId(0b0111_0000_0000_0000);
    rdh_cru.rdh0.fee_id = fee_id_invalid_layer_is_7;
    let res = validator.sanity_check(&rdh_cru);
    println!("{res:?}");
    assert!(res.is_err());
}
