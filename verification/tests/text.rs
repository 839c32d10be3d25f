use templess::text::{append_int, append_nat, c_string, decimal_text, find_nul, str_eq, text_before_nul};

#[test]
fn decimal_text_of_small_and_large_numbers() {
    assert_eq!(decimal_text(0), "0");
    assert_eq!(decimal_text(7), "7");
    assert_eq!(decimal_text(10), "10");
    assert_eq!(decimal_text(-1), "-1");
    assert_eq!(decimal_text(2147483647), "2147483647");
    assert_eq!(decimal_text(-2147483648), "-2147483648");
    assert_eq!(decimal_text(i64::MAX), i64::MAX.to_string());
    assert_eq!(decimal_text(i64::MIN), i64::MIN.to_string());
}

#[test]
fn append_keeps_what_was_there() {
    let mut text = String::from("n=");
    append_nat(&mut text, 1205);
    assert_eq!(text, "n=1205");
    append_int(&mut text, -34);
    assert_eq!(text, "n=1205-34");
    let mut max = String::new();
    append_nat(&mut max, u64::MAX);
    assert_eq!(max, u64::MAX.to_string());
}

#[test]
fn str_eq_compares_whole_texts() {
    assert!(str_eq("slot_chosen", "slot_chosen"));
    assert!(!str_eq("slot_chosen", "slot_chose"));
    assert!(!str_eq("slot_chosen", "slot_chosem"));
    assert!(str_eq("", ""));
    assert!(!str_eq("", "a"));
    assert!(str_eq("héllo", "héllo"));
}

#[test]
fn find_nul_gives_the_first_zero_byte() {
    assert_eq!(find_nul(b"abc"), 3);
    assert_eq!(find_nul(b"ab\0c\0"), 2);
    assert_eq!(find_nul(b"\0"), 0);
    assert_eq!(find_nul(b""), 0);
}

#[test]
fn c_string_ends_text_with_a_zero_byte() {
    assert_eq!(c_string("base"), Ok(vec![b'b', b'a', b's', b'e', 0]));
    assert_eq!(c_string(""), Ok(vec![0]));
    assert_eq!(c_string("a\0b"), Err(1));
    assert_eq!(c_string("\0"), Err(0));
}

#[test]
fn text_before_nul_reads_up_to_the_zero_byte() {
    assert_eq!(text_before_nul(b"f(1,2)\0junk"), Some("f(1,2)".to_string()));
    assert_eq!(text_before_nul(b"plain"), Some("plain".to_string()));
    assert_eq!(text_before_nul(b"\0"), Some(String::new()));
    assert_eq!(text_before_nul(&[0xff, 0xfe, 0]), None);
    assert_eq!(text_before_nul(&[b'a', 0, 0xff]), Some("a".to_string()));
    assert_eq!(text_before_nul("h\u{e9}\0".as_bytes()), Some("h\u{e9}".to_string()));
}
