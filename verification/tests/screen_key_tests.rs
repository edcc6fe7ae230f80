use churrera_studio::screen_key::{screen_index, screen_key};

#[test]
fn keys_name_screens_in_decimal() {
    assert_eq!(screen_key(0), "screen_0");
    assert_eq!(screen_key(7), "screen_7");
    assert_eq!(screen_key(1207), "screen_1207");
    assert_eq!(screen_key(u64::MAX), "screen_18446744073709551615");
}

#[test]
fn keys_read_back_as_their_screen() {
    for n in [0u64, 1, 9, 10, 99, 100, 4096, u64::MAX - 1, u64::MAX] {
        assert_eq!(screen_index(&screen_key(n)), Some(n));
    }
}

#[test]
fn only_exact_keys_are_read() {
    assert_eq!(screen_index("screen_0"), Some(0));
    assert_eq!(screen_index("screen_42"), Some(42));
    assert_eq!(screen_index("screen_007"), None);
    assert_eq!(screen_index("screen_00"), None);
    assert_eq!(screen_index("screen_"), None);
    assert_eq!(screen_index("screen"), None);
    assert_eq!(screen_index("Screen_1"), None);
    assert_eq!(screen_index("level_3"), None);
    assert_eq!(screen_index("screen_1a"), None);
    assert_eq!(screen_index("screen_+1"), None);
    assert_eq!(screen_index("screen_ 1"), None);
    assert_eq!(screen_index("screen_18446744073709551615"), Some(u64::MAX));
    assert_eq!(screen_index("screen_18446744073709551616"), None);
    assert_eq!(screen_index("screen_99999999999999999999"), None);
}
