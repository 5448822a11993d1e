use nrf24_status::fifo::FIFOStatus;

#[test]
fn each_flag_sits_on_its_own_bit() {
    let tx_full = FIFOStatus::from(0b0010_0000);
    assert!(tx_full.tx_full());
    assert!(!tx_full.tx_empty());
    assert!(!tx_full.rx_full());
    assert!(!tx_full.rx_empty());

    let tx_empty = FIFOStatus::from(0b0001_0000);
    assert!(!tx_empty.tx_full());
    assert!(tx_empty.tx_empty());
    assert!(!tx_empty.rx_full());
    assert!(!tx_empty.rx_empty());

    let rx_full = FIFOStatus::from(0b0000_0010);
    assert!(!rx_full.tx_full());
    assert!(!rx_full.tx_empty());
    assert!(rx_full.rx_full());
    assert!(!rx_full.rx_empty());

    let rx_empty = FIFOStatus::from(0b0000_0001);
    assert!(!rx_empty.tx_full());
    assert!(!rx_empty.tx_empty());
    assert!(!rx_empty.rx_full());
    assert!(rx_empty.rx_empty());
}

#[test]
fn crafted_byte_sets_expected_flags() {
    // Bits 5, 4, 1 and 0 are all set here.
    let s = FIFOStatus::from(0b0011_0011);
    assert!(s.tx_full());
    assert!(s.tx_empty());
    assert!(s.rx_full());
    assert!(s.rx_empty());
}

#[test]
fn zero_byte_clears_every_flag() {
    let s = FIFOStatus::from(0);
    assert!(!s.tx_full());
    assert!(!s.tx_empty());
    assert!(!s.rx_full());
    assert!(!s.rx_empty());
}

#[test]
fn unrelated_bits_do_not_leak_into_flags() {
    // Bits 7, 6, 3 and 2 belong to no flag.
    let s = FIFOStatus::from(0b1100_1100);
    assert!(!s.tx_full());
    assert!(!s.tx_empty());
    assert!(!s.rx_full());
    assert!(!s.rx_empty());
}

#[test]
fn flags_match_hand_computed_bits_for_every_byte() {
    for b in 0..=255u8 {
        let s = FIFOStatus::from(b);
        assert_eq!(s.tx_full(), (b >> 5) & 1 != 0);
        assert_eq!(s.tx_empty(), (b >> 4) & 1 != 0);
        assert_eq!(s.rx_full(), (b >> 1) & 1 != 0);
        assert_eq!(s.rx_empty(), b & 1 != 0);
    }
}
