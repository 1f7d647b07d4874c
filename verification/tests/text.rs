use polydraw::text::{push_decimal_i32, push_decimal_u32};

#[test]
fn decimal_of_unsigned_matches_display() {
    for n in [0u32, 7, 9, 10, 11, 99, 100, 65535, 1_000_000, u32::MAX] {
        let mut s = String::from("n=");
        push_decimal_u32(&mut s, n);
        assert_eq!(s, format!("n={}", n));
    }
}

#[test]
fn decimal_of_signed_matches_display() {
    for n in [0i32, 1, -1, 9, -10, 480, -32768, i32::MAX, i32::MIN] {
        let mut s = String::new();
        push_decimal_i32(&mut s, n);
        assert_eq!(s, n.to_string());
    }
}
