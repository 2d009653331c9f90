use netlib::data::addr::InAddrN;
use netlib::network::inet_cksum;
use netlib::network::ip::{FragFlag, FragOff, Protocol, ToS, HLV, IP, PL};
use netlib::sip::ip::{cksum, seal};
use netlib::view::U16N;

#[test]
fn calc_spec_ip_cksum() {}

#[test]
fn cksum_of_ten_counting_bytes() {
    let data: [u8; 10] = [0, 1, 2, 3, 4, 5, 6, 7, 8, 9];
    assert_eq!(inet_cksum(&data), 0xEBE6);
    assert_eq!(cksum(&data, 10), 0xEBE6);
}

#[test]
fn cksum_of_nothing_is_all_ones() {
    assert_eq!(inet_cksum(&[]), 0xFFFF);
    assert_eq!(cksum(&[1, 2, 3], 0), 0xFFFF);
}

#[test]
fn cksum_pads_an_odd_trailing_byte_with_a_zero_low_byte() {
    assert_eq!(inet_cksum(&[0x12]), !0x1200u16);
    assert_eq!(inet_cksum(&[0x00, 0x01, 0x12]), !0x1201u16);
    assert_eq!(inet_cksum(&[0x00, 0x01, 0x12]), inet_cksum(&[0x00, 0x01, 0x12, 0x00]));
}

#[test]
fn cksum_folds_the_carry_back_in() {
    // 0xffff + 0x0002 = 0x1_0001, folded 0x0002
    assert_eq!(inet_cksum(&[0xff, 0xff, 0x00, 0x02]), !0x0002u16);
    // 0xffff + 0xffff = 0x1_fffe, folded 0xffff
    assert_eq!(inet_cksum(&[0xff, 0xff, 0xff, 0xff]), 0x0000);
}

#[test]
fn cksum_takes_only_the_first_len_bytes() {
    let data: [u8; 6] = [0x45, 0x00, 0x00, 0x1c, 0xaa, 0xbb];
    assert_eq!(cksum(&data, 4), inet_cksum(&data[..4]));
    assert_eq!(cksum(&data, 4), !0x451cu16);
}

#[test]
fn cksum_of_a_known_header() {
    // The header of the worked example in the usual textbooks.
    let hdr: [u8; 20] = [
        0x45, 0x00, 0x00, 0x73, 0x00, 0x00, 0x40, 0x00, 0x40, 0x11, 0x00, 0x00, 0xc0, 0xa8, 0x00,
        0x01, 0xc0, 0xa8, 0x00, 0xc7,
    ];
    assert_eq!(inet_cksum(&hdr), 0xb861);
    let mut done = hdr;
    done[10] = 0xb8;
    done[11] = 0x61;
    assert_eq!(inet_cksum(&done), 0);
}

fn sample_header() -> IP {
    IP {
        ihl_v: HLV::new(5, 4),
        tos: ToS(0),
        len: PL::from_native(115),
        id: U16N::from_native(0),
        frag_off: FragOff::new(FragFlag::DF, 0),
        ttl: 64,
        protocol: Protocol::UDP,
        checksum: U16N(0, 0),
        ip_src: InAddrN(192, 168, 0, 1),
        ip_dst: InAddrN(192, 168, 0, 199),
    }
}

#[test]
fn sealed_header_verifies() {
    let h = seal(sample_header());
    assert_eq!(h.checksum, U16N(0xb8, 0x61));
    assert_eq!(inet_cksum(&h.to_bytes()), 0);
}

#[test]
fn sealed_headers_verify_for_many_contents() {
    for ttl in 0..=255u8 {
        for id in [0u16, 1, 0x00ff, 0xff00, 0xffff, 0x1234] {
            let mut h = sample_header();
            h.ttl = ttl;
            h.id = U16N::from_native(id);
            let s = seal(h);
            assert_eq!(inet_cksum(&s.to_bytes()), 0);
        }
    }
}
