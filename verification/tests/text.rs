use camera_node::address::Ipv4Addr;
use camera_node::decimal::{push_decimal, push_signed_decimal, to_decimal_string};

#[test]
fn decimal_of_zero_is_one_digit() {
    assert_eq!(to_decimal_string(0), "0");
}

#[test]
fn decimal_has_no_leading_zero() {
    assert_eq!(to_decimal_string(7), "7");
    assert_eq!(to_decimal_string(10), "10");
    assert_eq!(to_decimal_string(4096), "4096");
    assert_eq!(to_decimal_string(1_000_000), "1000000");
}

#[test]
fn decimal_of_largest_number() {
    assert_eq!(to_decimal_string(u64::MAX), "18446744073709551615");
}

#[test]
fn decimal_agrees_with_std_on_many_numbers() {
    let mut n: u64 = 1;
    while n < 1_000_000_000_000 {
        assert_eq!(to_decimal_string(n), format!("{}", n));
        assert_eq!(to_decimal_string(n - 1), format!("{}", n - 1));
        n = n * 7 + 3;
    }
}

#[test]
fn push_decimal_appends() {
    let mut s = String::from("len=");
    push_decimal(&mut s, 512);
    assert_eq!(s, "len=512");
}

#[test]
fn signed_decimal_writes_the_sign() {
    let mut s = String::new();
    push_signed_decimal(&mut s, -42);
    assert_eq!(s, "-42");
    let mut s = String::new();
    push_signed_decimal(&mut s, 42);
    assert_eq!(s, "42");
    let mut s = String::new();
    push_signed_decimal(&mut s, 0);
    assert_eq!(s, "0");
}

#[test]
fn signed_decimal_of_the_extremes() {
    let mut s = String::new();
    push_signed_decimal(&mut s, i64::MIN);
    assert_eq!(s, "-9223372036854775808");
    let mut s = String::new();
    push_signed_decimal(&mut s, i64::MAX);
    assert_eq!(s, "9223372036854775807");
}

#[test]
fn address_text_is_dotted_decimal() {
    assert_eq!(Ipv4Addr::new(192, 168, 1, 10).to_string(), "192.168.1.10");
    assert_eq!(Ipv4Addr::new(10, 0, 0, 1).to_string(), "10.0.0.1");
}

#[test]
fn address_text_of_the_extremes() {
    assert_eq!(Ipv4Addr::unspecified().to_string(), "0.0.0.0");
    assert_eq!(Ipv4Addr::new(255, 255, 255, 255).to_string(), "255.255.255.255");
}

#[test]
fn address_octets_and_unspecified() {
    let a = Ipv4Addr::new(172, 16, 254, 3);
    assert_eq!(a.octets(), [172, 16, 254, 3]);
    assert!(!a.is_unspecified());
    assert!(Ipv4Addr::unspecified().is_unspecified());
    assert_eq!(Ipv4Addr::unspecified(), Ipv4Addr::new(0, 0, 0, 0));
    assert!(!Ipv4Addr::new(0, 0, 0, 1).is_unspecified());
}
