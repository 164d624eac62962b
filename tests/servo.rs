use limb_controller::servo::{
    Servo, HOBBY_FANS_MAX_DUTY, HOBBY_FANS_MIN_DUTY, MIUZEI_MINI_MAX_DUTY, MIUZEI_MINI_MIN_DUTY,
};

fn mini(name: &str) -> Servo {
    // 12-bit timer: the maximum duty is 4095.
    Servo::new(name.to_string(), 4095, MIUZEI_MINI_MIN_DUTY, MIUZEI_MINI_MAX_DUTY, 180)
}

#[test]
fn duty_endpoints_and_midpoint() {
    let s = mini("Top");
    // round(4095 * 0.024) = 98, round(4095 * 0.11) = 450
    assert_eq!(s.get_servo_duty(0), 98);
    assert_eq!(s.get_servo_duty(180), 450);
    // round(352 * 90 / 180) + 98
    assert_eq!(s.get_servo_duty(90), 274);
    // round(352 * 45 / 180) = 88
    assert_eq!(s.get_servo_duty(45), 186);
}

#[test]
fn duty_rounds_halves_up() {
    // interval round(100 * 0.5) - 0 = 50; 50 * 1 / 4 = 12.5 -> 13
    let s = Servo::new("x".to_string(), 100, 0, 500_000, 4);
    assert_eq!(s.get_servo_duty(1), 13);
    assert_eq!(s.get_servo_duty(4), 50);
}

#[test]
fn duty_is_monotonic_over_travel() {
    let s = Servo::new("Elbow".to_string(), 4095, HOBBY_FANS_MIN_DUTY, HOBBY_FANS_MAX_DUTY, 180);
    // round(4095 * 0.0275) = 113, round(4095 * 0.125) = 512
    assert_eq!(s.get_servo_duty(0), 113);
    assert_eq!(s.get_servo_duty(180), 512);
    let mut last = s.get_servo_duty(0);
    for a in 1..=180u16 {
        let d = s.get_servo_duty(a);
        assert!(d >= last);
        assert!(d <= 512);
        last = d;
    }
}

#[test]
fn duty_extrapolates_past_travel() {
    let s = mini("Top");
    assert_eq!(s.get_servo_duty(360), 98 + 704);
    assert_eq!(s.get_servo_duty(65535), 98 + (352u64 * 65535 * 2 + 180) / 360);
}

#[test]
fn large_calibration_does_not_overflow() {
    let s = Servo::new("big".to_string(), u32::MAX, 0, u32::MAX, 1);
    let top = s.get_servo_duty(1);
    assert_eq!(top, ((2 * (u32::MAX as u128) * (u32::MAX as u128) + 1_000_000) / 2_000_000) as u64);
    assert_eq!(s.get_servo_duty(65535), top * 65535);
}

#[test]
fn set_angle_stores_and_returns_duty() {
    let mut s = mini("Shoulder");
    assert_eq!(s.get_angle(), 0);
    assert_eq!(s.set_angle(90), 274);
    assert_eq!(s.get_angle(), 90);
    assert_eq!(s.set_angle(200), s.get_servo_duty(200));
    assert_eq!(s.get_angle(), 200);
}

#[test]
fn status_line_and_name() {
    let mut s = mini("Upper Arm");
    assert_eq!(s.get_name(), "Upper Arm");
    assert_eq!(s.to_string(), "Upper Arm: 0\u{b0}");
    s.set_angle(135);
    assert_eq!(s.to_string(), "Upper Arm: 135\u{b0}");
    s.set_angle(65535);
    assert_eq!(s.to_string(), "Upper Arm: 65535\u{b0}");
}
