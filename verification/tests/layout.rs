use netlib::dev::{iow, TUNSETGROUP, TUNSETIFF, TUNSETOWNER, TUNSETPERSIST};
use netlib::network::arp::{ARP, ARP_HLEN};
use netlib::view::U16N;
use std::mem::size_of;

#[test]
fn view_tun_config() {
    println!("TUNSETIFF: {TUNSETIFF}");
    assert_eq!(TUNSETIFF, 1074025674);
}

#[test]
fn tun_requests_are_write_requests_of_driver_t() {
    assert_eq!(iow(b'T', 202, 4), TUNSETIFF);
    assert_eq!(iow(b'T', 203, 4), TUNSETPERSIST);
    assert_eq!(iow(b'T', 204, 4), TUNSETOWNER);
    assert_eq!(iow(b'T', 206, 4), TUNSETGROUP);
}

#[test]
fn test_arp_layout() {
    assert_eq!(
        size_of::<ARP>(),
        28,
        "expect 28 found {}",
        size_of::<ARP>()
    );
    assert_eq!(ARP_HLEN, 28);
    assert_eq!(ARP::default().to_bytes().len(), 28);
}

#[test]
fn test_h_to_n() {
    for i in 0..256 {
        let i2 = U16N::from_native(i as u16).1;
        println!("{}: {}", i, i2);
        assert_eq!(i2, i as u8);
        assert_eq!(U16N::from_native(i as u16).0, 0);
    }
}

#[test]
fn u16n_keeps_the_most_significant_byte_first() {
    let f = U16N::from_native(0x0806);
    assert_eq!((f.0, f.1), (0x08, 0x06));
    assert_eq!(f.native(), 0x0806);
    assert_eq!(U16N(0xff, 0xfe).native(), 0xfffe);
}
