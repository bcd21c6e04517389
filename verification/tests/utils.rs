use cursive_async_view::repeat_str;

#[test]
fn repeat_str_concatenates_copies() {
    assert_eq!(repeat_str("ab", 3), "ababab");
}

#[test]
fn repeat_str_zero_times_is_empty() {
    assert_eq!(repeat_str("ab", 0), "");
}

#[test]
fn repeat_str_of_empty_piece_is_empty() {
    assert_eq!(repeat_str("", 5), "");
}
