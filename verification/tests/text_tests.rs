use darksaber::text::{i32_to_string, push_dec, push_fixed1, push_fixed2, push_hex, push_i32};

#[test]
fn decimal_rendering() {
    assert_eq!(i32_to_string(0), "0");
    assert_eq!(i32_to_string(7), "7");
    assert_eq!(i32_to_string(-123), "-123");
    assert_eq!(i32_to_string(i32::MIN), i32::MIN.to_string());
    assert_eq!(i32_to_string(i32::MAX), i32::MAX.to_string());
    let mut s = String::from("n=");
    push_dec(&mut s, u64::MAX);
    assert_eq!(s, format!("n={}", u64::MAX));
}

#[test]
fn hex_rendering() {
    let mut s = String::new();
    push_hex(&mut s, 0x180000000);
    assert_eq!(s, "180000000");
    let mut s = String::new();
    push_hex(&mut s, 0);
    assert_eq!(s, "0");
    let mut s = String::new();
    push_hex(&mut s, 0xdead_beef);
    assert_eq!(s, "deadbeef");
}

#[test]
fn fixed_point_rendering() {
    let mut s = String::new();
    push_fixed1(&mut s, 80);
    push_fixed2(&mut s, 5);
    push_i32(&mut s, -1);
    assert_eq!(s, "8.00.05-1");
}

#[test]
fn fixed_point_matches_float_formatting() {
    for tenths in [0i32, 5, 80, 123, 400, 1200] {
        let mut s = String::new();
        push_fixed1(&mut s, tenths);
        assert_eq!(s, format!("{:.1}", tenths as f64 / 10.0));
    }
    for hundredths in [1i32, 5, 10, 99, 100, 500] {
        let mut s = String::new();
        push_fixed2(&mut s, hundredths);
        assert_eq!(s, format!("{:.2}", hundredths as f64 / 100.0));
    }
}
