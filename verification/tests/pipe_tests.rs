use nrf24_status::pipe::{DataPipe, PIPE_COUNT};

#[test]
fn pipe_count_is_six() {
    assert_eq!(PIPE_COUNT, 6);
}

#[test]
fn every_valid_index_round_trips() {
    for i in 0..PIPE_COUNT {
        assert_eq!(DataPipe::new(i).pipe(), i);
    }
}

#[test]
fn pipes_compare_by_index() {
    assert_eq!(DataPipe::new(2), DataPipe::new(2));
    assert_ne!(DataPipe::new(2), DataPipe::new(3));
}
