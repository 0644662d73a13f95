use brobot::text::{has_suffix, push_decimal, push_numeral, same_text};

#[test]
fn decimal_numerals() {
    let mut out = String::from("n=");
    push_decimal(&mut out, 0);
    out.push(' ');
    push_decimal(&mut out, 10);
    out.push(' ');
    push_decimal(&mut out, u64::MAX);
    assert_eq!(out, "n=0 10 18446744073709551615");
}

#[test]
fn hexadecimal_numerals_are_upper_case() {
    for n in [0u64, 9, 10, 15, 16, 255, 0xdead_beef, u64::MAX] {
        let mut out = String::new();
        push_numeral(&mut out, n, 16);
        assert_eq!(out, format!("{:X}", n));
    }
}

#[test]
fn numerals_read_back() {
    for n in [1u64, 7, 42, 1000, 987_654_321] {
        let mut out = String::new();
        push_decimal(&mut out, n);
        assert_eq!(out.parse::<u64>(), Ok(n));
    }
}

#[test]
fn suffixes() {
    assert!(has_suffix("artist.bandcamp.com", "bandcamp.com"));
    assert!(has_suffix("bandcamp.com", "bandcamp.com"));
    assert!(!has_suffix("andcamp.com", "bandcamp.com"));
    assert!(!has_suffix("bandcamp.com.evil", "bandcamp.com"));
    assert!(has_suffix("äöü", "ü"));
    assert!(has_suffix("x", ""));
}

#[test]
fn equal_texts() {
    assert!(same_text("", ""));
    assert!(same_text("straße", "straße"));
    assert!(!same_text("a", "A"));
}
