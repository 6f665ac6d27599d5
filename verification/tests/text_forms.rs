use waldl::text::{append_decimal, append_hex, append_percent_encoded};

#[test]
fn decimal_is_appended_without_leading_zeros() {
    let mut out = String::from("n=");
    append_decimal(&mut out, 0);
    out.push(',');
    append_decimal(&mut out, 7);
    out.push(',');
    append_decimal(&mut out, 1050);
    out.push(',');
    append_decimal(&mut out, u64::MAX);
    assert_eq!(out, "n=0,7,1050,18446744073709551615");
}

#[test]
fn hex_is_lower_case_with_two_digits_per_byte() {
    let mut out = String::from("x");
    append_hex(&mut out, &[0x00, 0x0a, 0xa0, 0xff, 0x7f]);
    assert_eq!(out, "x000aa0ff7f");
    let mut none = String::new();
    append_hex(&mut none, &[]);
    assert_eq!(none, "");
}

#[test]
fn percent_encoding_keeps_unreserved_bytes_only() {
    let mut out = String::from("q=");
    append_percent_encoded(&mut out, "aZ09-._~ %+&=?#/\u{00e9}\u{20ac}");
    assert_eq!(out, "q=aZ09-._~%20%25%2B%26%3D%3F%23%2F%C3%A9%E2%82%AC");
}

#[test]
fn percent_encoding_of_nothing_adds_nothing() {
    let mut out = String::from("q=");
    append_percent_encoded(&mut out, "");
    assert_eq!(out, "q=");
}
