use fastpasta::words::rdh::{BcReserved, CruidDw, DataformatReserved, FeeId, Rdh0, Rdh1, Rdh2, Rdh3};
use fastpasta::words::rdh_cru::{RdhCRU, V6, V7};
use fastpasta::words::test_data::{correct_rdh_cru_v6, correct_rdh_cru_v7};
use fastpasta::ByteSlice;
use std::marker::PhantomData;

#[test]
fn test_header_text() {
    let header_text = RdhCRU::<V7>::rdh_header_text_with_indent_to_string(7);
    println!("{}", header_text);
}

#[test]
fn test_rdh_v6() {
    let rdhv6 = RdhCRU::<V6> {
        rdh0: Rdh0 {
            header_size: 0,
            header_id: 0,
            fee_id: FeeId(0),
            priority_bit: 0,
            system_id: 0,
            reserved0: 0,
        },
        offset_new_packet: 0,
        memory_size: 0,
        link_id: 0,
        packet_counter: 0,
        cruid_dw: CruidDw(0),
        rdh1: Rdh1 { bc_reserved0: BcReserved(0), orbit: 0 },
        dataformat_reserved0: DataformatReserved(0),
        rdh2: Rdh2 { trigger_type: 0, pages_counter: 0, stop_bit: 0, reserved0: 0 },
        reserved1: 0,
        rdh3: Rdh3 { detector_field: 0, par_bit: 0, reserved0: 0 },
        reserved2: 0,
        version: PhantomData,
    };
    assert_eq!(rdhv6.data_format(), 0);
}

#[test]
fn test_rdh_v7() {
    let rdh_0 = correct_rdh_cru_v7().rdh0;

    let rdh_v7 = RdhCRU::<V7> {
        rdh0: rdh_0,
        offset_new_packet: 0,
        memory_size: 0,
        link_id: 0,
        packet_counter: 0,
        cruid_dw: CruidDw(0),
        rdh1: Rdh1 { bc_reserved0: BcReserved(0), orbit: 0 },
        dataformat_reserved0: DataformatReserved(2),
        rdh2: Rdh2 { trigger_type: 0, pages_counter: 0, stop_bit: 0, reserved0: 0 },
        reserved1: 0,
        rdh3: Rdh3 { detector_field: 0, par_bit: 0, reserved0: 0 },
        reserved2: 0,
        version: PhantomData,
    };
    assert_eq!(rdh_v7.data_format(), 2);
}

#[test]
fn test_print_generic() {
    let rdh_v7: RdhCRU<V7> = correct_rdh_cru_v7();
    let rdh_v6: RdhCRU<V6> = correct_rdh_cru_v6();
    println!("{}", RdhCRU::<V7>::rdh_header_text_with_indent_to_string(7));
    println!("{}", rdh_v7.to_display_string());
    println!("{}", rdh_v6.to_display_string());
    let v = rdh_v7.version;
    println!("{:?}", v);
    print_rdh_cru_v6(rdh_v6);
    print_rdh_cru(rdh_v7);
    println!("{}", RdhCRU::<V7>::rdh_header_text_with_indent_to_string(7));
    let rdh_v7: RdhCRU<V7> = correct_rdh_cru_v7();
    let rdh_v6: RdhCRU<V6> = correct_rdh_cru_v6();
    print_rdh_cru::<V6>(rdh_v6);
    print_rdh_cru::<V7>(rdh_v7);
}

fn print_rdh_cru<V>(rdh: RdhCRU<V>) {
    println!("{}", rdh.to_display_string());
}

fn print_rdh_cru_v6(rdh: RdhCRU<V6>) {
    println!("{}", rdh.to_display_string());
}

#[test]
fn test_load_rdhcruv7_from_byte_slice() {
    // byte slice values taken from a valid rdh from real data
    let rdhcruv7 = RdhCRU::<V7>::load(
        &[
            0x07, 0x40, 0x2a, 0x50, 0x00, 0x20, 0x00, 0x00, 0xe0, 0x13, 0xe0, 0x13, 0x00, 0x00,
            0x18, 0x00, 0x00, 0x00, 0x00, 0x00, 0x75, 0xd5, 0x7d, 0x0b, 0x02, 0x00, 0x00, 0x00,
            0x00, 0x00, 0x00, 0x00, 0x00, 0x6a, 0x00, 0x00, 0x00, 0x00, 0x00, 0x00, 0x00, 0x00,
            0x00, 0x00, 0x00, 0x00, 0x00, 0x00, 0x00, 0x00, 0x00, 0x00, 0x00, 0x00, 0x00, 0x00,
            0x00, 0x00, 0x00, 0x00, 0x00, 0x00, 0x00, 0x00,
        ][..],
    )
    .unwrap();
    // Check that the fields are correct
    println!("{}", rdhcruv7.to_display_string());

    let rdh_from_old = RdhCRU::load(&rdhcruv7.to_byte_slice()[..]).unwrap();
    let rdh_inferred_from_old = RdhCRU::load(&rdhcruv7.to_byte_slice()[..]).unwrap();
    let rdh_v7_from_old = RdhCRU::<V7>::load(&rdhcruv7.to_byte_slice()[..]).unwrap();
    println!("{}", rdh_from_old.to_display_string());
    assert_eq!(rdhcruv7, rdh_from_old);
    assert_eq!(rdhcruv7.rdh0.header_size, 0x40);
    assert_ne!(rdhcruv7, correct_rdh_cru_v7());
    assert_eq!(rdh_inferred_from_old, rdh_v7_from_old);
    println!("{:?}", rdhcruv7);
}
