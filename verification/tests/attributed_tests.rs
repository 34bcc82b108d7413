use speech::attributed::range_of_selected_spans;
use speech::task::channels_as_i32;
use speech::SpeechError;

#[test]
fn no_selected_span_gives_no_range() {
    assert_eq!(range_of_selected_spans(&[]), None);
    assert_eq!(range_of_selected_spans(&[(0, 4, false), (5, 9, false)]), None);
}

#[test]
fn range_starts_at_first_selected_span() {
    assert_eq!(
        range_of_selected_spans(&[(0, 4, false), (5, 9, true), (10, 14, true), (15, 20, false)]),
        Some((5, 14))
    );
    assert_eq!(range_of_selected_spans(&[(3, 8, true)]), Some((3, 8)));
}

#[test]
fn range_ends_at_furthest_selected_end() {
    assert_eq!(
        range_of_selected_spans(&[(6, 30, true), (0, 2, true), (10, 12, true)]),
        Some((6, 30))
    );
    assert_eq!(
        range_of_selected_spans(&[(6, 7, true), (0, 2, true), (10, 12, false)]),
        Some((6, 7))
    );
}

#[test]
fn channel_counts() {
    assert_eq!(channels_as_i32(0), Ok(0));
    assert_eq!(channels_as_i32(2), Ok(2));
    assert_eq!(channels_as_i32(i32::MAX as usize), Ok(i32::MAX));
    assert_eq!(
        channels_as_i32(i32::MAX as usize + 1),
        Err(SpeechError::InvalidArgument("channel count does not fit into i32".to_string()))
    );
}
