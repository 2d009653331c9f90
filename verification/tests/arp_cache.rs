use netlib::data::addr::InAddrN;
use netlib::datalink::Mac;
use netlib::sip::arptab::{ARPRecod, ARPTab, ARPLIVE, ARPTABSZ};

fn ip(n: u8) -> InAddrN {
    InAddrN(10, 0, 0, n)
}

fn mac(n: u8) -> Mac {
    Mac::new(0x02, 0, 0, 0, 0, n)
}

#[test]
fn constants() {
    assert_eq!(ARPTABSZ, 10);
    assert_eq!(ARPLIVE, 600);
}

#[test]
fn new_table_is_empty() {
    let mut tab = ARPTab::new();
    assert_eq!(tab.valid_count(), 0);
    assert!(tab.get_mut_and_update(ip(1), 600, 0).is_none());
    assert_eq!(tab.lookup(ip(1), 600, 0), None);
    assert_eq!(tab.victim(), 0);
}

#[test]
fn hit_refreshes_the_entry() {
    let mut tab = ARPTab::new();
    tab.insert(ip(1), mac(1), 600, 1000);
    let rec = tab.get_mut_and_update(ip(1), 600, 1599).copied();
    assert_eq!(
        rec,
        Some(ARPRecod { is_valid: true, age: 0, ip: ip(1), ctime: 1000, mac: mac(1) })
    );
    // still there at the last second of its life
    let rec = tab.get_mut_and_update(ip(1), 600, 1600).copied().unwrap();
    assert_eq!(rec.age, 0);
    assert_eq!(rec.mac, mac(1));
}

#[test]
fn lookup_ages_every_other_entry() {
    let mut tab = ARPTab::new();
    tab.insert(ip(1), mac(1), 600, 0);
    tab.insert(ip(2), mac(2), 600, 0);
    tab.insert(ip(3), mac(3), 600, 0);
    // inserting 2 aged 1 once, inserting 3 aged 1 and 2 once more
    assert_eq!(tab.get(0).age, 2);
    assert_eq!(tab.get(1).age, 1);
    assert_eq!(tab.get(2).age, 0);
    // a hit on 2 ages 1, which is passed, and leaves 3, which is not reached
    assert_eq!(tab.lookup(ip(2), 600, 0), Some(1));
    assert_eq!(tab.get(0).age, 3);
    assert_eq!(tab.get(1).age, 0);
    assert_eq!(tab.get(2).age, 0);
    // a miss ages all
    assert_eq!(tab.lookup(ip(9), 600, 0), None);
    assert_eq!(tab.get(0).age, 4);
    assert_eq!(tab.get(1).age, 1);
    assert_eq!(tab.get(2).age, 1);
}

#[test]
fn age_saturates() {
    let mut tab = ARPTab::new();
    tab.insert(ip(1), mac(1), 600, 0);
    tab.tab[0].age = u16::MAX - 1;
    assert_eq!(tab.lookup(ip(2), 600, 0), None);
    assert_eq!(tab.get(0).age, u16::MAX);
    assert_eq!(tab.lookup(ip(2), 600, 0), None);
    assert_eq!(tab.get(0).age, u16::MAX);
}

#[test]
fn insert_on_hit_overwrites_mac_and_time() {
    let mut tab = ARPTab::new();
    tab.insert(ip(1), mac(1), 600, 100);
    tab.insert(ip(2), mac(2), 600, 100);
    tab.insert(ip(1), mac(7), 600, 200);
    assert_eq!(tab.valid_count(), 2);
    assert_eq!(
        tab.get(0),
        ARPRecod { is_valid: true, age: 0, ip: ip(1), ctime: 200, mac: mac(7) }
    );
}

#[test]
fn capacity_is_kept_and_the_oldest_is_evicted() {
    let mut tab = ARPTab::new();
    for n in 0..ARPTABSZ as u8 {
        tab.insert(ip(n), mac(n), 600, 0);
        assert_eq!(tab.valid_count(), n as usize + 1);
    }
    // the first entry has been passed over most often
    let ages: Vec<u16> = (0..ARPTABSZ).map(|i| tab.get(i).age).collect();
    assert_eq!(ages, vec![9, 8, 7, 6, 5, 4, 3, 2, 1, 0]);
    tab.insert(ip(100), mac(100), 600, 0);
    assert_eq!(tab.valid_count(), ARPTABSZ);
    assert_eq!(
        tab.get(0),
        ARPRecod { is_valid: true, age: 0, ip: ip(100), ctime: 0, mac: mac(100) }
    );
    assert!(tab.get_mut_and_update(ip(0), 600, 0).is_none());
    for n in 1..ARPTABSZ as u8 {
        assert_eq!(tab.get_mut_and_update(ip(n), 600, 0).map(|r| r.mac), Some(mac(n)));
    }
}

#[test]
fn eviction_takes_the_last_of_equally_old_entries() {
    let mut tab = ARPTab::new();
    for n in 0..ARPTABSZ as u8 {
        tab.insert(ip(n), mac(n), 600, 0);
    }
    for i in 0..ARPTABSZ {
        tab.tab[i].age = 5;
    }
    assert_eq!(tab.victim(), ARPTABSZ - 1);
    tab.tab[3].age = 6;
    assert_eq!(tab.victim(), 3);
    tab.insert(ip(100), mac(100), 600, 0);
    assert_eq!(tab.get(3).ip, ip(100));
    assert_eq!(tab.valid_count(), ARPTABSZ);
}

#[test]
fn expired_entry_is_dropped_and_its_slot_reused() {
    let mut tab = ARPTab::new();
    tab.insert(ip(1), mac(1), 5, 100);
    tab.insert(ip(2), mac(2), 5, 104);
    // at 106 the first entry is stale (100 + 5 < 106), the second is not
    assert!(tab.get_mut_and_update(ip(1), 5, 106).is_none());
    assert!(!tab.get(0).is_valid);
    assert!(tab.get(1).is_valid);
    assert_eq!(tab.valid_count(), 1);
    tab.insert(ip(3), mac(3), 5, 106);
    assert_eq!(
        tab.get(0),
        ARPRecod { is_valid: true, age: 0, ip: ip(3), ctime: 106, mac: mac(3) }
    );
    assert_eq!(tab.valid_count(), 2);
}

#[test]
fn entry_is_kept_until_its_life_is_over() {
    let mut tab = ARPTab::new();
    tab.insert(ip(1), mac(1), 5, 100);
    assert!(tab.get_mut_and_update(ip(1), 5, 105).is_some());
    assert!(tab.get_mut_and_update(ip(1), 5, 106).is_none());
}

#[test]
fn stale_entry_behind_a_hit_is_not_reached() {
    let mut tab = ARPTab::new();
    tab.insert(ip(1), mac(1), 600, 100);
    tab.insert(ip(2), mac(2), 600, 0);
    tab.tab[1].ctime = 0;
    tab.tab[0].ctime = 1000;
    assert_eq!(tab.lookup(ip(1), 600, 1000), Some(0));
    assert!(tab.get(1).is_valid);
    assert_eq!(tab.lookup(ip(9), 600, 1000), None);
    assert!(!tab.get(1).is_valid);
}

#[test]
fn caller_changes_the_entry_through_the_reference() {
    let mut tab = ARPTab::new();
    tab.insert(ip(1), mac(1), 600, 0);
    if let Some(rec) = tab.get_mut_and_update(ip(1), 600, 0) {
        rec.mac = mac(9);
    }
    assert_eq!(tab.get(0).mac, mac(9));
}

#[test]
fn extreme_times_do_not_overflow() {
    let mut tab = ARPTab::new();
    tab.insert(ip(1), mac(1), i64::MAX, i64::MAX);
    assert!(tab.get_mut_and_update(ip(1), i64::MAX, i64::MAX).is_some());
    tab.insert(ip(2), mac(2), i64::MIN, i64::MIN);
    assert!(tab.get_mut_and_update(ip(2), i64::MIN, i64::MIN + 1).is_none());
}
