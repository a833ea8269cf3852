use aris_player::samples::SampleSource;

#[test]
fn empty_asset_is_refused() {
    assert!(SampleSource::new(Vec::new()).is_none());
}

#[test]
fn fill_reads_in_order_without_wrapping() {
    let mut src = SampleSource::new(vec![1, 2, 3, 4, 5]).unwrap();
    let mut buf = [0u8; 3];
    src.fill(&mut buf);
    assert_eq!(buf, [1, 2, 3]);
    assert_eq!(src.offset(), 3);
}

#[test]
fn fill_wraps_seamlessly_at_end_of_stream() {
    let mut src = SampleSource::new(vec![1, 2, 3, 4, 5]).unwrap();
    let mut first = [0u8; 3];
    src.fill(&mut first);
    let mut second = [9u8; 4];
    src.fill(&mut second);
    assert_eq!(second, [4, 5, 1, 2]);
    assert_eq!(src.offset(), 2);
}

#[test]
fn fill_exactly_to_end_restarts_next_time() {
    let mut src = SampleSource::new(vec![7, 8, 9]).unwrap();
    let mut buf = [0u8; 3];
    src.fill(&mut buf);
    assert_eq!(buf, [7, 8, 9]);
    assert_eq!(src.offset(), 0);
    src.fill(&mut buf);
    assert_eq!(buf, [7, 8, 9]);
}

#[test]
fn fill_larger_than_asset_loops_repeatedly() {
    let mut src = SampleSource::new(vec![1, 2, 3]).unwrap();
    let mut buf = [0u8; 8];
    src.fill(&mut buf);
    assert_eq!(buf, [1, 2, 3, 1, 2, 3, 1, 2]);
    assert_eq!(src.offset(), 2);
    assert_eq!(src.len(), 3);
}

#[test]
fn fill_empty_buffer_changes_nothing() {
    let mut src = SampleSource::new(vec![1, 2]).unwrap();
    let mut buf: [u8; 0] = [];
    src.fill(&mut buf);
    assert_eq!(src.offset(), 0);
}
