use fastpasta::validators::cdp_running::CdpRunningValidator;
use fastpasta::validators::its_payload_fsm_cont::{ItsPayloadFsmContinuous, PayloadWord};
use fastpasta::view::hbf_view::{
    calc_current_word_mem_pos, format_word_slice, generate_payload_word_view,
    rdh_trigger_type_as_string, start_of_hbf_header_text,
};
use fastpasta::words::rdh_cru::V7;
use fastpasta::words::test_data::correct_rdh_cru_v7;

fn word(id: u8) -> [u8; 10] {
    [0, 0, 0, 0, 0, 0, 0, 0, 0, id]
}

#[test]
fn test_fsm_labels_one_frame() {
    let mut fsm = ItsPayloadFsmContinuous::new();
    // IHW, TDH, two data words, TDT with packet_done = 1
    assert_eq!(fsm.advance(&word(0xE0)), PayloadWord::IHW);
    assert_eq!(fsm.advance(&word(0xE8)), PayloadWord::TDH);
    assert_eq!(fsm.advance(&word(0x22)), PayloadWord::DataWord);
    assert_eq!(fsm.advance(&word(0x43)), PayloadWord::DataWord);
    let mut tdt = word(0xF0);
    tdt[8] = 0x01;
    assert_eq!(fsm.advance(&tdt), PayloadWord::TDT);
    // after packet_done = 1, the next TDH opens a fresh trigger
    assert_eq!(fsm.advance(&word(0xE8)), PayloadWord::TDH_after_packet_done);
    // a TDT with packet_done = 0 asks for a continuation
    assert_eq!(fsm.advance(&word(0xF0)), PayloadWord::TDT);
    assert_eq!(fsm.advance(&word(0xE8)), PayloadWord::TDH_continuation);
    // a TDT with packet_done = 0 followed by a page rollover: IHW then DDW0
    assert_eq!(fsm.advance(&word(0xF0)), PayloadWord::TDT);
    assert_eq!(fsm.advance(&word(0xE0)), PayloadWord::IHW_continuation);
    assert_eq!(fsm.advance(&word(0xE4)), PayloadWord::DDW0);
    // the DDW0 closed the frame: back to expecting an IHW
    assert_eq!(fsm.advance(&word(0xE0)), PayloadWord::IHW);
}

#[test]
fn test_fsm_reset_returns_to_initial() {
    let mut fsm = ItsPayloadFsmContinuous::default();
    assert_eq!(fsm.advance(&word(0xE0)), PayloadWord::IHW);
    assert_eq!(fsm.advance(&word(0xE8)), PayloadWord::TDH);
    fsm.reset_fsm();
    // the same word now classifies as if the stream had just started
    assert_eq!(fsm.advance(&word(0xE8)), PayloadWord::IHW);
}

#[test]
fn test_fsm_determinism_two_runs() {
    let ids = [0xE0u8, 0xE8, 0x22, 0xF0, 0xE8, 0x43];
    let mut fsm_a = ItsPayloadFsmContinuous::new();
    let mut fsm_b = ItsPayloadFsmContinuous::new();
    for id in ids {
        assert_eq!(fsm_a.advance(&word(id)), fsm_b.advance(&word(id)));
    }
}

#[test]
fn test_ib_lane_not_active() {
    let mut validator = CdpRunningValidator::<V7>::default();
    validator.set_config(true);
    validator.set_current_rdh(&correct_rdh_cru_v7(), 0);
    // a valid IHW declaring only lane 0 active
    let ihw = [0x01, 0x00, 0x00, 0x00, 0x00, 0x00, 0x00, 0x00, 0x00, 0xE0];
    validator.check(&ihw);
    // a valid TDH whose orbit matches the RDH's
    let tdh = [0x00, 0x00, 0x00, 0x00, 0x00, 0x75, 0xD5, 0x7D, 0x0B, 0xE8];
    validator.check(&tdh);
    // an inner-barrel data word on lane 2
    validator.check(&word(0x22));
    assert_eq!(validator.errors.len(), 1);
    assert_eq!(
        validator.errors[0],
        "0x54: [E72] IB lane 2 is not active according to IHW active_lanes: 0x1. [00 00 00 00 00 00 00 00 00 22]"
    );
}

#[test]
fn test_ob_lane_and_connector() {
    let mut validator = CdpRunningValidator::<V7>::default();
    validator.set_config(true);
    validator.set_current_rdh(&correct_rdh_cru_v7(), 0);
    let ihw = [0x01, 0x00, 0x00, 0x00, 0x00, 0x00, 0x00, 0x00, 0x00, 0xE0];
    validator.check(&ihw);
    let tdh = [0x00, 0x00, 0x00, 0x00, 0x00, 0x75, 0xD5, 0x7D, 0x0B, 0xE8];
    validator.check(&tdh);
    // an outer-barrel data word: lane 3, input connector 7
    validator.check(&word(0x5F));
    assert_eq!(validator.errors.len(), 2);
    assert_eq!(
        validator.errors[0],
        "0x54: [E71] OB lane 3 is not active according to IHW active_lanes: 0x1. [00 00 00 00 00 00 00 00 00 5F]"
    );
    assert_eq!(
        validator.errors[1],
        "0x54: [E73] OB Data Word has input connector 7 > 6. [00 00 00 00 00 00 00 00 00 5F]"
    );
}

#[test]
fn test_ihw_against_stopped_rdh() {
    let mut validator = CdpRunningValidator::<V7>::default();
    validator.set_config(true);
    let mut rdh = correct_rdh_cru_v7();
    rdh.rdh2.stop_bit = 1;
    validator.set_current_rdh(&rdh, 0);
    let ihw = [0xFF, 0x3F, 0x00, 0x00, 0x00, 0x00, 0x00, 0x00, 0x00, 0xE0];
    validator.check(&ihw);
    assert_eq!(validator.errors.len(), 1);
    assert_eq!(
        validator.errors[0],
        "0x40: [E12] IHW observed but RDH stop bit is not 0 [FF 3F 00 00 00 00 00 00 00 E0]"
    );
}

#[test]
fn test_ddw0_against_open_rdh() {
    let mut validator = CdpRunningValidator::<V7>::default();
    validator.set_config(true);
    validator.set_current_rdh(&correct_rdh_cru_v7(), 0);
    let ihw = [0x01, 0x00, 0x00, 0x00, 0x00, 0x00, 0x00, 0x00, 0x00, 0xE0];
    validator.check(&ihw);
    let tdh = [0x00, 0x00, 0x00, 0x00, 0x00, 0x75, 0xD5, 0x7D, 0x0B, 0xE8];
    validator.check(&tdh);
    let mut tdt = word(0xF0);
    tdt[8] = 0x01;
    validator.check(&tdt);
    // a DDW0 while the RDH has stop bit 0 and page counter 0: both E11 rules
    validator.check(&word(0xE4));
    assert_eq!(validator.errors.len(), 2);
    assert_eq!(
        validator.errors[0],
        "0x5E: [E11] DDW0 observed but RDH stop bit is not 1 [00 00 00 00 00 00 00 00 00 E4]"
    );
    assert_eq!(
        validator.errors[1],
        "0x5E: [E11] DDW0 observed but RDH page counter is 0 [00 00 00 00 00 00 00 00 00 E4]"
    );
}

#[test]
fn test_tdh_after_packet_done_internal_trigger() {
    let mut validator = CdpRunningValidator::<V7>::default();
    validator.set_config(true);
    validator.set_current_rdh(&correct_rdh_cru_v7(), 0);
    let ihw = [0x01, 0x00, 0x00, 0x00, 0x00, 0x00, 0x00, 0x00, 0x00, 0xE0];
    validator.check(&ihw);
    let tdh = [0x00, 0x00, 0x00, 0x00, 0x00, 0x75, 0xD5, 0x7D, 0x0B, 0xE8];
    validator.check(&tdh);
    let mut tdt = word(0xF0);
    tdt[8] = 0x01;
    validator.check(&tdt);
    // a TDH without the internal-trigger bit after packet_done = 1
    validator.check(&word(0xE8));
    assert_eq!(validator.errors.len(), 1);
    assert_eq!(
        validator.errors[0],
        "0x5E: [E43] TDH internal trigger is not 1 [00 00 00 00 00 00 00 00 00 E8]"
    );
}

#[test]
fn test_cdw_index_rule() {
    let mut validator = CdpRunningValidator::<V7>::default();
    validator.set_config(true);
    // first payload opens a calibration sequence
    validator.set_current_rdh(&correct_rdh_cru_v7(), 0);
    let cdw1 = [0x01, 0x00, 0x00, 0x00, 0x00, 0x00, 0x00, 0x00, 0x00, 0xF8];
    validator.check(&cdw1);
    assert!(validator.errors.is_empty());
    // next payload changes the user fields without restarting the index
    validator.set_current_rdh(&correct_rdh_cru_v7(), 0x1000);
    let cdw2 = [0x02, 0x00, 0x00, 0x00, 0x00, 0x00, 0x01, 0x00, 0x00, 0xF8];
    validator.check(&cdw2);
    assert_eq!(validator.errors.len(), 1);
    assert_eq!(
        validator.errors[0],
        "0x1040: [E81] CDW index is not 0 [02 00 00 00 00 00 01 00 00 F8]"
    );
}

#[test]
fn test_view_lines() {
    let rdh = correct_rdh_cru_v7();
    // trigger 0x6a03 has the start-of-continuous bit set
    assert_eq!(rdh_trigger_type_as_string(&rdh), "SOC  ");

    assert_eq!(
        format_word_slice(&[0xFF, 0x3F, 0, 0, 0, 0, 0, 0, 0, 0xE0]),
        "[FF 3F 00 00 00 00 00 00 00 E0]"
    );

    // third word of a format-2 payload whose RDH stands at 0x1000
    assert_eq!(calc_current_word_mem_pos(2, 2, 0x1000), 0x1000 + 64 + 20);
    // format 0 pads each word to 16 bytes
    assert_eq!(calc_current_word_mem_pos(2, 0, 0x1000), 0x1000 + 64 + 32);

    let header = start_of_hbf_header_text();
    assert!(header.contains("Memory"));

    let ihw_line = generate_payload_word_view(
        &[0xFF, 0x3F, 0, 0, 0, 0, 0, 0, 0, 0xE0],
        PayloadWord::IHW,
        "40:",
    );
    assert_eq!(ihw_line, "40: IHW [FF 3F 00 00 00 00 00 00 00 E0]\n");
    // data words are not shown
    let data_line = generate_payload_word_view(&word(0x22), PayloadWord::DataWord, "4A:");
    assert_eq!(data_line, "");
}

#[test]
fn test_tdh_first_with_continuation_and_wrong_trigger() {
    let mut validator = CdpRunningValidator::<V7>::default();
    validator.set_config(true);
    validator.set_current_rdh(&correct_rdh_cru_v7(), 0);
    let ihw = [0x01, 0x00, 0x00, 0x00, 0x00, 0x00, 0x00, 0x00, 0x00, 0xE0];
    validator.check(&ihw);
    // internal trigger set, continuation set, trigger type 0x123, bc 0xABC,
    // orbit matching the RDH
    let tdh = [0x23, 0x51, 0xBC, 0x0A, 0x00, 0x75, 0xD5, 0x7D, 0x0B, 0xE8];
    validator.check(&tdh);
    assert_eq!(validator.errors.len(), 3);
    assert_eq!(
        validator.errors[0],
        "0x4A: [E42] TDH continuation is not 0 [23 51 BC 0A 00 75 D5 7D 0B E8]"
    );
    assert_eq!(
        validator.errors[1],
        "0x4A: [E44] TDH trigger_bc is not equal to RDH bc, TDH: 0xABC, RDH: 0x0. [23 51 BC 0A 00 75 D5 7D 0B E8]"
    );
    assert_eq!(
        validator.errors[2],
        "0x4A: [E44] TDH trigger_type is not equal to RDH trigger_type, TDH: 0x123, RDH: 0x6A03 [23 51 BC 0A 00 75 D5 7D 0B E8]"
    );
}

#[test]
fn test_tdh_continuation_must_repeat_trigger() {
    let mut validator = CdpRunningValidator::<V7>::default();
    validator.set_config(true);
    validator.set_current_rdh(&correct_rdh_cru_v7(), 0);
    let ihw = [0x01, 0x00, 0x00, 0x00, 0x00, 0x00, 0x00, 0x00, 0x00, 0xE0];
    validator.check(&ihw);
    let tdh1 = [0x00, 0x00, 0x00, 0x00, 0x00, 0x75, 0xD5, 0x7D, 0x0B, 0xE8];
    validator.check(&tdh1);
    // a TDT with packet_done = 0 asks for a continuation
    validator.check(&word(0xF0));
    // the next TDH neither continues nor repeats the bunch crossing
    let tdh2 = [0x00, 0x00, 0x01, 0x00, 0x00, 0x75, 0xD5, 0x7D, 0x0B, 0xE8];
    validator.check(&tdh2);
    assert_eq!(validator.errors.len(), 2);
    assert_eq!(
        validator.errors[0],
        "0x5E: [E41] TDH continuation is not 1 [00 00 01 00 00 75 D5 7D 0B E8]"
    );
    assert_eq!(
        validator.errors[1],
        "0x5E: [E44] TDH trigger_bc is not the same [00 00 01 00 00 75 D5 7D 0B E8]"
    );
}

#[test]
fn test_tdh_bc_must_not_decrease_after_packet_done() {
    let mut validator = CdpRunningValidator::<V7>::default();
    validator.set_config(true);
    validator.set_current_rdh(&correct_rdh_cru_v7(), 0);
    let ihw = [0x01, 0x00, 0x00, 0x00, 0x00, 0x00, 0x00, 0x00, 0x00, 0xE0];
    validator.check(&ihw);
    // a TDH opening a trigger at bunch crossing 5
    let tdh1 = [0x00, 0x00, 0x05, 0x00, 0x00, 0x75, 0xD5, 0x7D, 0x0B, 0xE8];
    validator.check(&tdh1);
    let mut tdt = word(0xF0);
    tdt[8] = 0x01;
    validator.check(&tdt);
    // an internal TDH whose bunch crossing went backwards to 3
    let tdh2 = [0x00, 0x10, 0x03, 0x00, 0x00, 0x75, 0xD5, 0x7D, 0x0B, 0xE8];
    validator.check(&tdh2);
    assert_eq!(validator.errors.len(), 1);
    assert_eq!(
        validator.errors[0],
        "0x5E: [E44] TDH trigger_bc is not increasing, previous: 0x5, current: 0x3. [00 10 03 00 00 75 D5 7D 0B E8]"
    );
}

#[test]
fn test_tdt_reserved_bits() {
    let mut validator = CdpRunningValidator::<V7>::default();
    validator.set_current_rdh(&correct_rdh_cru_v7(), 0);
    let ihw = [0x01, 0x00, 0x00, 0x00, 0x00, 0x00, 0x00, 0x00, 0x00, 0xE0];
    validator.check(&ihw);
    let tdh = [0x00, 0x00, 0x00, 0x00, 0x00, 0x75, 0xD5, 0x7D, 0x0B, 0xE8];
    validator.check(&tdh);
    // a TDT whose reserved byte is set
    let tdt = [0x00, 0x00, 0x00, 0x00, 0x00, 0x00, 0x00, 0x01, 0x00, 0xF0];
    validator.check(&tdt);
    assert_eq!(validator.errors.len(), 1);
    assert_eq!(
        validator.errors[0],
        "0x54: [E50] reserved bits are not 0  [00 00 00 00 00 00 00 01 00 F0]"
    );
}

#[test]
fn test_ddw0_reserved_bits() {
    // sanity checks alone: the cross-word rules stay off
    let mut validator = CdpRunningValidator::<V7>::default();
    validator.set_current_rdh(&correct_rdh_cru_v7(), 0);
    let ihw = [0x01, 0x00, 0x00, 0x00, 0x00, 0x00, 0x00, 0x00, 0x00, 0xE0];
    validator.check(&ihw);
    let tdh = [0x00, 0x00, 0x00, 0x00, 0x00, 0x75, 0xD5, 0x7D, 0x0B, 0xE8];
    validator.check(&tdh);
    let mut tdt = word(0xF0);
    tdt[8] = 0x01;
    validator.check(&tdt);
    // a DDW0 whose reserved byte is set
    let ddw0 = [0x00, 0x00, 0x00, 0x00, 0x00, 0x00, 0x00, 0x01, 0x00, 0xE4];
    validator.check(&ddw0);
    assert_eq!(validator.errors.len(), 1);
    assert_eq!(
        validator.errors[0],
        "0x5E: [E60] reserved bits are not 0  [00 00 00 00 00 00 00 01 00 E4]"
    );
}
