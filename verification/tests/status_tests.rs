use nrf24_status::status::Status;

#[test]
fn value_round_trips_every_byte() {
    for b in 0..=255u8 {
        assert_eq!(Status::from(b).value(), b);
    }
}

#[test]
fn msb_set_is_never_valid() {
    for b in 0x80..=0xFFu8 {
        assert!(!Status::from(b).is_valid());
    }
}

#[test]
fn msb_clear_is_valid() {
    for b in 0x00..=0x7Fu8 {
        assert!(Status::from(b).is_valid());
    }
}

#[test]
fn all_flags_byte_decodes_each_field() {
    let s = Status::from(0b0111_0000);
    assert!(s.is_valid());
    assert!(s.data_ready());
    assert!(s.data_sent());
    assert!(s.reached_max_retries());
    // bits 3..1 of 0b0111_0000 are 0b000, so pipe 0 is reported.
    let pipe = s.data_pipe_available();
    assert_eq!(pipe.map(|p| p.pipe()), Some(0));
    assert!(!s.tx_full());
}

#[test]
fn flags_constructor_sets_all_flag_bits() {
    assert_eq!(Status::flags().value(), 0b0111_0000);
    assert!(Status::flags().data_ready());
    assert!(Status::flags().data_sent());
    assert!(Status::flags().reached_max_retries());
}

#[test]
fn zero_byte_reports_nothing() {
    let s = Status::from(0);
    assert!(s.is_valid());
    assert!(!s.data_ready());
    assert!(!s.data_sent());
    assert!(!s.reached_max_retries());
    assert!(!s.tx_full());
    assert_eq!(s.data_pipe_available().map(|p| p.pipe()), Some(0));
}

#[test]
fn pipe_field_three_reports_pipe_three() {
    // bits 3..1 = 0b011
    let s = Status::from(0b0000_0110);
    let pipe = s.data_pipe_available();
    assert_eq!(pipe.map(|p| p.pipe()), Some(3));
}

#[test]
fn pipe_field_seven_reports_no_pipe() {
    // bits 3..1 = 0b111: the receive queue is empty.
    let s = Status::from(0b0000_1110);
    assert!(s.data_pipe_available().is_none());
}

#[test]
fn every_pipe_index_decodes_to_itself() {
    for i in 0..=5u8 {
        let s = Status::from(i << 1);
        assert_eq!(s.data_pipe_available().map(|p| p.pipe()), Some(i));
    }
}

#[test]
fn tx_full_follows_bit_zero() {
    assert!(Status::from(0b0000_0001).tx_full());
    assert!(!Status::from(0b1111_1110).tx_full());
}

#[test]
fn accessors_do_not_check_validity() {
    // Bit 7 set: invalid, yet the other accessors still report raw bits.
    let s = Status::from(0b1100_0001);
    assert!(!s.is_valid());
    assert!(s.data_ready());
    assert!(!s.data_sent());
    assert!(s.tx_full());
}

#[test]
fn report_of_invalid_status_is_none() {
    assert!(Status::from(0b1000_0000).report().is_none());
    assert!(Status::from(0b1111_0000).report().is_none());
}

#[test]
fn report_of_valid_status_carries_all_five_facts() {
    let rep = Status::from(0b0101_0111).report().expect("valid status");
    assert!(rep.data_ready);
    assert!(!rep.data_sent);
    assert!(rep.reached_max_retries);
    assert_eq!(rep.available_pipe.map(|p| p.pipe()), Some(3));
    assert!(rep.tx_full);
}

#[test]
fn report_of_empty_receive_queue_has_no_pipe() {
    let rep = Status::from(0b0000_1110).report().expect("valid status");
    assert!(rep.available_pipe.is_none());
    assert!(!rep.data_ready);
    assert!(!rep.tx_full);
}
