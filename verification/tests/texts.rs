use rustcafe::text::{decimal_string, digit, letter, push_decimal, same_text};

#[test]
fn letters_are_the_ascii_letters() {
    for c in ['a', 'm', 'z', 'A', 'M', 'Z'] {
        assert!(letter(c), "{:?}", c);
    }
    for c in ['0', '9', ' ', '.', '@', '[', '`', '{', 'ä', 'Ä', 'é', '\t', '\u{0}'] {
        assert!(!letter(c), "{:?}", c);
    }
}

#[test]
fn digits_are_the_ascii_digits() {
    assert_eq!(digit('0'), Some(0));
    assert_eq!(digit('5'), Some(5));
    assert_eq!(digit('9'), Some(9));
    for c in ['/', ':', 'a', ' ', '.', '\u{0663}', '\u{ff11}'] {
        assert_eq!(digit(c), None, "{:?}", c);
    }
}

#[test]
fn numerals_have_no_leading_zeros() {
    assert_eq!(decimal_string(0), "0");
    assert_eq!(decimal_string(7), "7");
    assert_eq!(decimal_string(10), "10");
    assert_eq!(decimal_string(503), "503");
    assert_eq!(decimal_string(1000), "1000");
    assert_eq!(decimal_string(u64::MAX), "18446744073709551615");
    for n in 0..2000u64 {
        assert_eq!(decimal_string(n), n.to_string());
    }
}

#[test]
fn push_decimal_appends() {
    let mut out = String::from("id ");
    push_decimal(&mut out, 42);
    assert_eq!(out, "id 42");
    push_decimal(&mut out, 0);
    assert_eq!(out, "id 420");
}

#[test]
fn same_text_compares_letter_for_letter() {
    assert!(same_text("", ""));
    assert!(same_text("Exactum", "Exactum"));
    assert!(!same_text("Exactum", "exactum"));
    assert!(!same_text("Exactum", "Exactum "));
    assert!(!same_text("Exactum", ""));
    assert!(same_text("€\tä", "€\tä"));
}
