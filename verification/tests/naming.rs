use clipper::naming::{highest_short_number, next_short_name, short_name, short_number};

fn names(v: &[&str]) -> Vec<String> {
    v.iter().map(|s| s.to_string()).collect()
}

#[test]
fn empty_directory_gives_001() {
    assert_eq!(next_short_name(&names(&[])), "short_001.mp4");
}

#[test]
fn directory_with_001_and_007_gives_008() {
    assert_eq!(next_short_name(&names(&["short_001.mp4", "short_007.mp4"])), "short_008.mp4");
}

#[test]
fn same_directory_twice_gives_consecutive_names() {
    let mut dir = names(&[]);
    let first = next_short_name(&dir);
    assert_eq!(first, "short_001.mp4");
    dir.push(first);
    assert_eq!(next_short_name(&dir), "short_002.mp4");
}

#[test]
fn unrelated_and_malformed_names_are_ignored() {
    let dir = names(&[
        "clip.mp4",
        "short_.mp4",
        "short_abc.mp4",
        "short_-5.mp4",
        "short_3.mov",
        "Short_009.mp4",
        "short_ 9.mp4",
        "short_99999999999.mp4",
        "short_+9.mp4",
        "short_002.mp4",
    ]);
    assert_eq!(highest_short_number(&dir), 2);
    assert_eq!(next_short_name(&dir), "short_003.mp4");
}

#[test]
fn numbers_parse_like_u32_from_str() {
    assert_eq!(short_number("short_001.mp4"), Some(1));
    assert_eq!(short_number("short_+5.mp4"), None);
    assert_eq!(short_number("short_0042.mp4"), Some(42));
    assert_eq!(short_number("short_4294967295.mp4"), Some(u32::MAX));
    assert_eq!(short_number("short_4294967296.mp4"), None);
    assert_eq!(short_number("short_+.mp4"), None);
    assert_eq!(short_number("short_.mp4"), None);
    assert_eq!(short_number("short_1.mp4x"), None);
    for s in ["short_17.mp4", "short_+0.mp4", "short_x.mp4", "short_1e3.mp4", "short_-1.mp4"] {
        let expected = s
            .strip_prefix("short_")
            .and_then(|r| r.strip_suffix(".mp4"))
            .filter(|r| !r.is_empty() && r.bytes().all(|b| b.is_ascii_digit()))
            .and_then(|r| r.parse::<u32>().ok());
        assert_eq!(short_number(s), expected);
    }
}

#[test]
fn wide_numbers_are_not_truncated() {
    assert_eq!(next_short_name(&names(&["short_999.mp4"])), "short_1000.mp4");
    assert_eq!(short_name(12345), "short_12345.mp4");
    assert_eq!(short_name(0), "short_000.mp4");
    assert_eq!(short_name(7), "short_007.mp4");
}

#[test]
fn name_round_trips_to_its_number() {
    for n in [0u32, 1, 9, 10, 99, 100, 999, 1000, 65536, u32::MAX] {
        assert_eq!(short_number(&short_name(n)), Some(n));
    }
}

#[test]
fn highest_number_is_order_independent() {
    let a = names(&["short_010.mp4", "short_002.mp4", "short_007.mp4"]);
    let b = names(&["short_002.mp4", "short_007.mp4", "short_010.mp4"]);
    assert_eq!(highest_short_number(&a), 10);
    assert_eq!(highest_short_number(&b), 10);
}
