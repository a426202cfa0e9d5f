use fastpasta::validators::cdp_running::CdpRunningValidator;
use fastpasta::words::rdh_cru::V7;
use fastpasta::words::test_data::correct_rdh_cru_v7;

#[test]
fn test_validate_ihw() {
    const VALID_ID: u8 = 0xE0;
    let raw_data_ihw = [0xFF, 0x3F, 0x00, 0x00, 0x00, 0x00, 0x00, 0x00, 0x00, VALID_ID];

    let mut validator = CdpRunningValidator::<V7>::default();
    let rdh_mem_pos = 0;

    validator.set_current_rdh(&correct_rdh_cru_v7(), rdh_mem_pos);
    validator.check(&raw_data_ihw);

    // Checks that no error was reported
    assert!(validator.errors.is_empty());
}

#[test]
fn test_invalidate_ihw() {
    const INVALID_ID: u8 = 0xE1;
    let raw_data_ihw = [0xFF, 0x3F, 0x00, 0x00, 0x00, 0x00, 0x00, 0x00, 0x00, INVALID_ID];

    let mut validator = CdpRunningValidator::<V7>::default();
    let rdh_mem_pos = 0x0;

    validator.set_current_rdh(&correct_rdh_cru_v7(), rdh_mem_pos);
    validator.check(&raw_data_ihw);

    let msg = &validator.errors[0];
    assert_eq!(msg, "0x40: [E30] ID is not 0xE0: 0xE1  [FF 3F 00 00 00 00 00 00 00 E1]");
    println!("{msg}");
}

#[test]
fn test_expect_ihw_invalidate_tdh() {
    // Boring but very typical TDT, everything is 0 except for packet_done
    let raw_data_tdt = [0x00, 0x00, 0x00, 0x00, 0x00, 0x00, 0x00, 0x00, 0x01, 0xF1];

    let mut validator = CdpRunningValidator::<V7>::default();
    let rdh_mem_pos = 0x0; // RDH size is 64 bytes

    validator.set_current_rdh(&correct_rdh_cru_v7(), rdh_mem_pos); // Data format is 2
    validator.check(&raw_data_tdt);

    let msg = &validator.errors[0];
    assert_eq!(msg, "0x40: [E30] ID is not 0xE0: 0xF1  [00 00 00 00 00 00 00 00 01 F1]");
    println!("{msg}");
}

#[test]
fn test_expect_ihw_invalidate_tdh_and_next() {
    let raw_data_tdt = [0x00, 0x00, 0x00, 0x00, 0x00, 0x00, 0x00, 0x00, 0x01, 0xF1];
    let raw_data_tdt_next = [0x00, 0x00, 0x00, 0x00, 0x00, 0x00, 0x00, 0x00, 0x01, 0xF2];

    let mut validator = CdpRunningValidator::<V7>::default();
    let rdh_mem_pos = 0x0; // RDH size is 64 bytes

    validator.set_current_rdh(&correct_rdh_cru_v7(), rdh_mem_pos); // Data format is 2
    validator.check(&raw_data_tdt);
    validator.check(&raw_data_tdt_next);

    let msg = &validator.errors[0];
    assert_eq!(msg, "0x40: [E30] ID is not 0xE0: 0xF1  [00 00 00 00 00 00 00 00 01 F1]");
    println!("{msg}");
    let msg = &validator.errors[1];
    assert_eq!(msg, "0x4A: [E40] ID is not 0xE8: 0xF2  [00 00 00 00 00 00 00 00 01 F2]");
    println!("{msg}");
}

#[test]
fn test_expect_ihw_invalidate_tdh_and_next_next() {
    let raw_data_tdt = [0x00, 0x00, 0x00, 0x00, 0x00, 0x00, 0x00, 0x00, 0x01, 0xF1];
    let raw_data_tdt_next = [0x00, 0x00, 0x00, 0x00, 0x00, 0x00, 0x00, 0x00, 0x01, 0xF2];
    let raw_data_tdt_next_next = [0x00, 0x00, 0x00, 0x00, 0x00, 0x00, 0x00, 0x00, 0x01, 0xF3];

    let mut validator = CdpRunningValidator::<V7>::default();
    validator.set_config(true); // run the cross-word rules too
    let rdh_mem_pos = 0x0; // RDH size is 64 bytes

    validator.set_current_rdh(&correct_rdh_cru_v7(), rdh_mem_pos); // Data format is 2
    validator.check(&raw_data_tdt);
    validator.check(&raw_data_tdt_next);
    validator.check(&raw_data_tdt_next_next);

    let msg = &validator.errors[0];
    assert_eq!(msg, "0x40: [E30] ID is not 0xE0: 0xF1  [00 00 00 00 00 00 00 00 01 F1]");
    println!("{msg}");
    let msg = &validator.errors[1];
    assert_eq!(msg, "0x4A: [E40] ID is not 0xE8: 0xF2  [00 00 00 00 00 00 00 00 01 F2]");
    println!("{msg}");
    let msg = &validator.errors[2];
    assert_eq!(
        msg,
        "0x4A: [E44] TDH trigger_orbit is not equal to RDH orbit [00 00 00 00 00 00 00 00 01 F2]"
    );
    println!("{msg}");
    let msg = &validator.errors[3];
    // Data word error
    assert_eq!(msg, "0x54: [E70] ID is invalid: 0xF3 [00 00 00 00 00 00 00 00 01 F3]");
    println!("{msg}");
}
