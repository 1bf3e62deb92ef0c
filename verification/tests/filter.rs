use libipt::config::filter::AddrConfig;
use libipt::config::filter::AddrFilter;
use libipt::config::filter::AddrRange;

#[test]
fn addr_config_round_trip() {
    let tags = [AddrConfig::DISABLED, AddrConfig::FILTER, AddrConfig::STOP];
    for tag in tags {
        let bits = tag.to_bits();
        assert_eq!(AddrConfig::from_bits(bits), Some(tag));
    }
    assert_eq!(AddrConfig::DISABLED.to_bits(), 0);
    assert_eq!(AddrConfig::FILTER.to_bits(), 1);
    assert_eq!(AddrConfig::STOP.to_bits(), 2);
}

#[test]
fn addr_config_rejects_unknown() {
    assert_eq!(AddrConfig::from_bits(3), None);
    assert_eq!(AddrConfig::from_bits(4), None);
    assert_eq!(AddrConfig::from_bits(u32::MAX), None);
}

#[test]
fn addr_range_accessors() {
    let mut r = AddrRange::new(0x10, 0x20, AddrConfig::FILTER);
    assert_eq!(r.a(), 0x10);
    assert_eq!(r.b(), 0x20);
    assert_eq!(r.cfg(), AddrConfig::FILTER);
    r.set_a(0x11);
    r.set_b(0x21);
    r.set_cfg(AddrConfig::STOP);
    assert_eq!(r.a(), 0x11);
    assert_eq!(r.b(), 0x21);
    assert_eq!(r.cfg(), AddrConfig::STOP);
}

#[test]
fn filter_round_trip_all_slots() {
    let r0 = AddrRange::new(1, 2, AddrConfig::FILTER);
    let r1 = AddrRange::new(3, 4, AddrConfig::STOP);
    let r2 = AddrRange::new(5, 6, AddrConfig::DISABLED);
    let r3 = AddrRange::new(7, 8, AddrConfig::FILTER);
    let f = AddrFilter::new(Some(r0), Some(r1), Some(r2), Some(r3));
    assert_eq!(f.addr0(), r0);
    assert_eq!(f.addr1(), r1);
    assert_eq!(f.addr2(), r2);
    assert_eq!(f.addr3(), r3);
}

#[test]
fn filter_set_leaves_other_slots() {
    let mut f = AddrFilter::empty();
    f.set_addr1(AddrRange::new(0xA, 0xB, AddrConfig::STOP));
    f.set_addr2(AddrRange::new(0xC, 0xD, AddrConfig::FILTER));
    assert_eq!(f.addr0(), AddrRange::new(0, 0, AddrConfig::DISABLED));
    assert_eq!(f.addr1(), AddrRange::new(0xA, 0xB, AddrConfig::STOP));
    assert_eq!(f.addr2(), AddrRange::new(0xC, 0xD, AddrConfig::FILTER));
    assert_eq!(f.addr3(), AddrRange::new(0, 0, AddrConfig::DISABLED));
}

#[test]
fn filter_overwrite_slot() {
    let mut f = AddrFilter::empty();
    f.set_addr0(AddrRange::new(1, 2, AddrConfig::STOP));
    f.set_addr0(AddrRange::new(3, 4, AddrConfig::FILTER));
    assert_eq!(f.addr0(), AddrRange::new(3, 4, AddrConfig::FILTER));
    assert_eq!(f.addr_cfg, 0x1);
}

#[test]
fn empty_filter_equivalence() {
    let e = AddrFilter::empty();
    let f = AddrFilter::new(None, None, None, None);
    assert_eq!(e, f);
    assert_eq!(e.addr_cfg, 0);
    assert_eq!(e.addr0(), AddrRange::new(0, 0, AddrConfig::DISABLED));
    assert_eq!(e.addr1(), AddrRange::new(0, 0, AddrConfig::DISABLED));
    assert_eq!(e.addr2(), AddrRange::new(0, 0, AddrConfig::DISABLED));
    assert_eq!(e.addr3(), AddrRange::new(0, 0, AddrConfig::DISABLED));
}

#[test]
fn filter_sparse_slots() {
    let r1 = AddrRange::new(0x1000, 0x2000, AddrConfig::FILTER);
    let r3 = AddrRange::new(0xF000, 0xFFFF, AddrConfig::STOP);
    let f = AddrFilter::new(None, Some(r1), None, Some(r3));
    assert_eq!(f.addr0(), AddrRange::new(0, 0, AddrConfig::DISABLED));
    assert_eq!(f.addr1(), r1);
    assert_eq!(f.addr2(), AddrRange::new(0, 0, AddrConfig::DISABLED));
    assert_eq!(f.addr3(), r3);
}

#[test]
fn filter_control_word_layout() {
    let r1 = AddrRange::new(0x1000, 0x2000, AddrConfig::FILTER);
    let r3 = AddrRange::new(0xF000, 0xFFFF, AddrConfig::STOP);
    let f = AddrFilter::new(None, Some(r1), None, Some(r3));
    // FILTER (1) in bits 4..8, STOP (2) in bits 12..16.
    assert_eq!(f.addr_cfg, 0x2010);
    assert_eq!(f.addr1_a, 0x1000);
    assert_eq!(f.addr1_b, 0x2000);
    assert_eq!(f.addr3_a, 0xF000);
    assert_eq!(f.addr3_b, 0xFFFF);
    assert_eq!(f.addr0_a, 0);
    assert_eq!(f.addr0_b, 0);
    assert_eq!(f.addr2_a, 0);
    assert_eq!(f.addr2_b, 0);
}
