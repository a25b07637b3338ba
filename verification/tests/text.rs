use dev_cli::number::{read_i32, read_u16, read_usize, show_signed, show_unsigned};
use dev_cli::order::{sorted, text_before};
use dev_cli::text::{
    contains_text, ends_with, is_white, join, lines, pad, replace, split, split_once, split_words, starts_with,
    strip_prefix, strip_suffix, trim, trim_newlines, trim_start,
};

#[test]
fn white_is_what_the_standard_library_calls_so() {
    let mut code: u32 = 0;
    while code <= 0x10FFFF {
        if let Some(c) = char::from_u32(code) {
            assert_eq!(is_white(c), c.is_whitespace(), "{code:#x}");
        }
        code += 1;
    }
}

const SAMPLES: [&str; 10] = [
    "", " ", "a", " a b ", "a\r\nb\n", "\n\nx\n\n", "a,b,,c,", "·é\u{a0}x", "one  two\tthree", "x\r",
];

#[test]
fn texts_are_trimmed_and_split_as_usual() {
    for s in SAMPLES {
        assert_eq!(trim(s), s.trim(), "{s:?}");
        assert_eq!(trim_start(s), s.trim_start(), "{s:?}");
        assert_eq!(trim_newlines(s), s.trim_end_matches('\n'), "{s:?}");
        assert_eq!(lines(s), s.lines().collect::<Vec<_>>(), "{s:?}");
        assert_eq!(split_words(s), s.split_whitespace().collect::<Vec<_>>(), "{s:?}");
        assert_eq!(split(s, ','), s.split(',').collect::<Vec<_>>(), "{s:?}");
        assert_eq!(
            split_once(s, 'b'),
            s.split_once('b').map(|(a, b)| (a.to_string(), b.to_string())),
            "{s:?}"
        );
        assert_eq!(replace(s, 'a', "bb"), s.replace('a', "bb"), "{s:?}");
        assert_eq!(pad(s, 6), format!("{s:<6}"), "{s:?}");
    }
}

#[test]
fn texts_are_searched_as_usual() {
    for s in SAMPLES {
        for p in SAMPLES {
            assert_eq!(starts_with(s, p), s.starts_with(p), "{s:?} {p:?}");
            assert_eq!(ends_with(s, p), s.ends_with(p), "{s:?} {p:?}");
            assert_eq!(contains_text(s, p), s.contains(p), "{s:?} {p:?}");
            assert_eq!(strip_prefix(s, p).as_deref(), s.strip_prefix(p), "{s:?} {p:?}");
            assert_eq!(strip_suffix(s, p).as_deref(), s.strip_suffix(p), "{s:?} {p:?}");
            assert_eq!(text_before(s, p), s < p, "{s:?} {p:?}");
        }
    }
    let parts: Vec<String> = SAMPLES.iter().map(|s| s.to_string()).collect();
    assert_eq!(join(&parts, ", "), parts.join(", "));
    let mut expected = parts.clone();
    expected.sort();
    assert_eq!(sorted(parts), expected);
}

#[test]
fn numbers_are_read_and_written_as_usual() {
    for s in ["", "0", "7", "+7", "-7", "007", "65535", "65536", "2147483647", "-2147483648", "2147483648",
        "18446744073709551615", "18446744073709551616", "1 ", "٣", "+", "-"] {
        assert_eq!(read_u16(s), s.parse().ok(), "{s:?}");
        assert_eq!(read_usize(s), s.parse().ok(), "{s:?}");
        assert_eq!(read_i32(s), s.parse().ok(), "{s:?}");
    }
    for n in [0, 9, 10, 12345, u64::MAX] {
        assert_eq!(show_unsigned(n), n.to_string());
    }
    for n in [0, -1, i32::MIN, i32::MAX] {
        assert_eq!(show_signed(n), n.to_string());
    }
}
