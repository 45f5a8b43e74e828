use mccl_node::text::{decimal_string, parse_usize};

#[test]
fn decimal_string_writes_numbers() {
    assert_eq!(decimal_string(0), "0");
    assert_eq!(decimal_string(7), "7");
    assert_eq!(decimal_string(1024), "1024");
    assert_eq!(decimal_string(usize::MAX), usize::MAX.to_string());
}

#[test]
fn parse_usize_follows_std() {
    let cases = ["0", "42", "+42", "007", "", "+", "-1", "4a", " 4", "18446744073709551615",
        "18446744073709551616", "99999999999999999999999"];
    for c in cases {
        assert_eq!(parse_usize(c.as_bytes()), c.parse::<usize>().ok(), "{}", c);
    }
}

#[test]
fn parse_usize_roundtrip() {
    for n in [0usize, 1, 9, 10, 99, 100, 65535, usize::MAX] {
        assert_eq!(parse_usize(decimal_string(n).as_bytes()), Some(n));
    }
}
