use sweettest_utils::text::{
    decimal_string, decode_utf8_lossy, pad_left, pad_right, paint, truncate_chars, Tint,
};

#[test]
fn truncate_keeps_short_text() {
    assert_eq!(truncate_chars("abc", 20), "abc");
    assert_eq!(truncate_chars("", 3), "");
}

#[test]
fn truncate_cuts_to_char_count() {
    assert_eq!(truncate_chars("abcdefghij", 4), "abcd");
    assert_eq!(truncate_chars("héllo wörld", 7), "héllo w");
    assert_eq!(truncate_chars("abcdefghij", 4), format!("{:.4}", "abcdefghij"));
}

#[test]
fn pad_right_fills_to_width() {
    assert_eq!(pad_right("ab", 5), "ab   ");
    assert_eq!(pad_right("abcdef", 5), "abcdef");
    assert_eq!(pad_right("é", 3), format!("{:<3}", "é"));
}

#[test]
fn pad_left_fills_to_width() {
    assert_eq!(pad_left("7", 2), " 7");
    assert_eq!(pad_left("12", 2), "12");
    assert_eq!(pad_left("123", 2), "123");
}

#[test]
fn decimal_matches_display() {
    for n in [0usize, 7, 9, 10, 42, 100, 2023, 987654321] {
        assert_eq!(decimal_string(n), n.to_string());
    }
    assert_eq!(decimal_string(usize::MAX), usize::MAX.to_string());
}

fn paint_plain_when_colouring_off() {
    colored::control::set_override(false);
    assert_eq!(paint("hello", Tint::Yellow), "hello");
    assert_eq!(paint("hello", Tint::Blue), "hello");
}

fn paint_uses_ansi_when_colouring_on() {
    colored::control::set_override(true);
    assert_eq!(paint("hello", Tint::Yellow), "\u{1b}[33mhello\u{1b}[0m");
    assert_eq!(paint("hello", Tint::Green), "\u{1b}[32mhello\u{1b}[0m");
    assert_eq!(paint("hello", Tint::Red), "\u{1b}[31mhello\u{1b}[0m");
    assert_eq!(paint("hello", Tint::Blue), "\u{1b}[34mhello\u{1b}[0m");
}

fn paint_rearms_inner_resets() {
    colored::control::set_override(true);
    let inner = paint("in", Tint::Red);
    let outer = paint(&format!("a {} b", inner), Tint::Blue);
    assert_eq!(
        outer,
        "\u{1b}[34ma \u{1b}[31min\u{1b}[0m\u{1b}[34m b\u{1b}[0m"
    );
}

#[test]
fn lossy_decoding_of_valid_utf8() {
    assert_eq!(decode_utf8_lossy(b"tag-1"), "tag-1");
    assert_eq!(decode_utf8_lossy("grüß".as_bytes()), "grüß");
}

#[test]
fn lossy_decoding_replaces_invalid_bytes() {
    assert_eq!(decode_utf8_lossy(&[b'a', 0xff, b'b']), "a\u{fffd}b");
}

/// The colouring switch is process-wide, so everything that depends on it
/// runs in this one test, one step after another.
#[test]
fn paint_follows_the_colouring_switch() {
    paint_plain_when_colouring_off();
    paint_uses_ansi_when_colouring_on();
    paint_rearms_inner_resets();
    paint_plain_when_colouring_off();
}
