use limb_controller::status::banner;
use limb_controller::text::push_decimal;

#[test]
fn decimal_digits() {
    for (n, want) in [(0u64, "0"), (7, "7"), (10, "10"), (109, "109"), (65535, "65535")] {
        let mut s = String::from("n=");
        push_decimal(&mut s, n);
        assert_eq!(s, format!("n={}", want));
    }
    let mut s = String::new();
    push_decimal(&mut s, u64::MAX);
    assert_eq!(s, "18446744073709551615");
}

#[test]
fn startup_banner() {
    assert_eq!(banner("192.168.1.5"), "Robotic Limb V0.6\nIP Address: \n192.168.1.5");
}
