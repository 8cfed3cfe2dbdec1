use rhema::text::{append_decimal, format_reference, joined};

fn decimal(i: i64) -> String {
    let mut out = String::new();
    append_decimal(&mut out, i);
    out
}

#[test]
fn decimals_match_std() {
    for i in [0, 1, 9, 10, 11, 99, 100, 305, -1, -10, -305, i64::MAX, i64::MIN, i32::MIN as i64] {
        assert_eq!(decimal(i), i.to_string());
    }
}

#[test]
fn decimals_are_appended() {
    let mut out = "Psalm ".to_string();
    append_decimal(&mut out, 119);
    assert_eq!(out, "Psalm 119");
}

#[test]
fn references_read_book_chapter_verse() {
    assert_eq!(format_reference("John", 3, 16), "John 3:16");
    assert_eq!(format_reference("1 Corinthians", 13, 4), "1 Corinthians 13:4");
    assert_eq!(format_reference("", 0, -7), " 0:-7");
    assert_eq!(format_reference("Génesis", i32::MAX, i32::MIN), format!("Génesis {}:{}", i32::MAX, i32::MIN));
}

#[test]
fn references_of_different_verses_differ() {
    let mut seen: Vec<String> = Vec::new();
    for book in ["John", "1 John", "John 1"] {
        for chapter in [1, 2, 11, 12] {
            for verse in [1, 2, 11, 12, 21] {
                let r = format_reference(book, chapter, verse);
                assert!(!seen.contains(&r));
                seen.push(r);
            }
        }
    }
}

#[test]
fn joined_keeps_both_pieces() {
    assert_eq!(joined("a", "bc"), "abc");
    assert_eq!(joined("", ""), "");
}
