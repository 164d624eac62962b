//! The servo model: calibration, the angle-to-duty map, and the last
//! commanded angle. The PWM channel itself belongs to the caller, which
//! writes each duty that this model computes.

use vstd::prelude::*;
use vstd::arithmetic::div_mod::lemma_div_is_ordered;
use vstd::arithmetic::mul::lemma_mul_inequality;
use crate::text::{decimal, push_decimal};

verus! {

/// Calibration fractions are given in millionths of the channel's maximum duty.
pub const PPM: u64 = 1_000_000;

/// HobbyFans servo: lowest duty, in millionths of the maximum duty.
pub const HOBBY_FANS_MIN_DUTY: u32 = 27_500;
/// HobbyFans servo: highest duty, in millionths of the maximum duty.
pub const HOBBY_FANS_MAX_DUTY: u32 = 125_000;
/// Miuzei servo: lowest duty, in millionths of the maximum duty.
pub const MIUZEI_MIN_DUTY: u32 = 18_000;
/// Miuzei servo: highest duty, in millionths of the maximum duty.
pub const MIUZEI_MAX_DUTY: u32 = 110_000;
/// Miuzei micro servo: lowest duty, in millionths of the maximum duty.
pub const MIUZEI_MINI_MIN_DUTY: u32 = 24_000;
/// Miuzei micro servo: highest duty, in millionths of the maximum duty.
pub const MIUZEI_MINI_MAX_DUTY: u32 = 110_000;

/// Bound on the calibrated duties, which keeps every duty computation in `u64`.
const DUTY_BOUND: u64 = 0x2000_0000_0000;

/// `n / d` rounded to the nearest integer, halves rounded up.
pub open spec fn round_div(n: int, d: int) -> int {
    (2 * n + d) / (2 * d)
}

/// The duty at `fraction` millionths of `max_duty`, rounded.
pub open spec fn scaled_duty(max_duty: u32, fraction: u32) -> int {
    round_div(max_duty * fraction, PPM as int)
}

/// What a servo is, as plain values.
pub struct ServoView {
    pub name: Seq<char>,
    /// The last commanded angle, in degrees.
    pub angle: u16,
    /// Duty at angle zero.
    pub min_duty: int,
    /// Duty added at the full travel.
    pub duty_interval: int,
    /// The full travel, in degrees.
    pub max_angle_degrees: u16,
}

/// The duty that drives `s` to `angle`: the duty interval scaled by
/// `angle / max_angle_degrees`, rounded, above the minimum duty. Angles past
/// the travel limit extrapolate along the same line.
pub open spec fn duty_at(s: ServoView, angle: u16) -> int {
    round_div(s.duty_interval * angle, s.max_angle_degrees as int) + s.min_duty
}

/// The status line of a servo: `<name>: <angle>°`.
pub open spec fn status_line(s: ServoView) -> Seq<char> {
    s.name + seq![':', ' '] + decimal(s.angle as nat) + seq!['\u{b0}']
}

/// One joint's servo.
pub struct Servo {
    name: String,
    angle: u16,
    min_angle_duty: u64,
    duty_interval: u64,
    max_angle_degrees: u16,
}

impl View for Servo {
    type V = ServoView;

    closed spec fn view(&self) -> ServoView {
        ServoView {
            name: self.name@,
            angle: self.angle,
            min_duty: self.min_angle_duty as int,
            duty_interval: self.duty_interval as int,
            max_angle_degrees: self.max_angle_degrees,
        }
    }
}

/// The rounded duty at `fraction` millionths of `max_duty`.
fn scale_duty(max_duty: u32, fraction: u32) -> (r: u64)
    ensures
        r == scaled_duty(max_duty, fraction),
        r < DUTY_BOUND,
{
    proof {
        assert(max_duty * fraction <= 0xffff_ffff * 0xffff_ffffu128) by (nonlinear_arith)
            requires
                max_duty <= 0xffff_ffff,
                fraction <= 0xffff_ffff,
        ;
    }
    let n: u128 = max_duty as u128 * fraction as u128;
    let r = (2 * n + 1_000_000) / 2_000_000;
    assert(r < DUTY_BOUND);
    r as u64
}

impl Servo {
    /// Servos are built with a positive travel and calibrated duties that
    /// keep every duty computation within `u64`.
    pub closed spec fn wf(&self) -> bool {
        &&& self.max_angle_degrees > 0
        &&& self.min_angle_duty < DUTY_BOUND
        &&& self.duty_interval < DUTY_BOUND
    }

    /// A servo at angle zero, calibrated from the channel's maximum duty and
    /// the duty fractions, in millionths, at angle zero and at full travel.
    pub fn new(
        name: String,
        max_duty: u32,
        min_fraction: u32,
        max_fraction: u32,
        max_angle_degrees: u16,
    ) -> (s: Servo)
        requires
            min_fraction <= max_fraction,
            max_angle_degrees > 0,
        ensures
            s.wf(),
            s@.name == name@,
            s@.angle == 0,
            s@.min_duty == scaled_duty(max_duty, min_fraction),
            s@.duty_interval == scaled_duty(max_duty, max_fraction) - scaled_duty(
                max_duty,
                min_fraction,
            ),
            s@.max_angle_degrees == max_angle_degrees,
    {
        let min_angle_duty = scale_duty(max_duty, min_fraction);
        let max_angle_duty = scale_duty(max_duty, max_fraction);
        proof {
            lemma_mul_inequality(min_fraction as int, max_fraction as int, max_duty as int);
            lemma_div_is_ordered(
                2 * (max_duty * min_fraction) + PPM,
                2 * (max_duty * max_fraction) + PPM,
                2 * PPM as int,
            );
        }
        Servo {
            name,
            angle: 0,
            min_angle_duty,
            duty_interval: max_angle_duty - min_angle_duty,
            max_angle_degrees,
        }
    }

    /// The duty that drives this servo to `angle`.
    pub fn get_servo_duty(&self, angle: u16) -> (r: u64)
        requires
            self.wf(),
        ensures
            r == duty_at(self@, angle),
            angle <= self@.max_angle_degrees ==> self@.min_duty <= r <= self@.min_duty
                + self@.duty_interval,
    {
        let d = self.max_angle_degrees as u64;
        proof {
            assert(self.duty_interval * angle <= 0x2000_0000_0000 * 0xffff) by (nonlinear_arith)
                requires
                    self.duty_interval < 0x2000_0000_0000,
                    angle <= 0xffff,
            ;
        }
        let n: u64 = self.duty_interval * angle as u64;
        proof {
            assert((2 * n + d) / (2 * d) <= 2 * n + d) by (nonlinear_arith)
                requires
                    d >= 1,
                    n >= 0,
            ;
            lemma_duty_range(self, angle);
        }
        (2 * n + d) / (2 * d) + self.min_angle_duty
    }

    /// Commands `angle`, as given, and returns the duty for the channel.
    pub fn set_angle(&mut self, angle: u16) -> (duty: u64)
        requires
            old(self).wf(),
        ensures
            final(self).wf(),
            final(self)@ == (ServoView { angle, ..old(self)@ }),
            duty == duty_at(final(self)@, angle),
    {
        self.angle = angle;
        self.get_servo_duty(angle)
    }

    /// The last commanded angle.
    pub fn get_angle(&self) -> (r: u16)
        ensures
            r == self@.angle,
    {
        self.angle
    }

    pub fn get_name(&self) -> (r: &str)
        ensures
            r@ == self@.name,
    {
        self.name.as_str()
    }

    /// The status line, `<name>: <angle>°`.
    pub fn to_string(&self) -> (r: String)
        ensures
            r@ == status_line(self@),
    {
        let mut s = self.name.clone();
        s.append(": ");
        push_decimal(&mut s, self.angle as u64);
        s.append("\u{b0}");
        proof {
            reveal_strlit(": ");
            reveal_strlit("\u{b0}");
        }
        assert(s@ =~= status_line(self@));
        s
    }
}

/// For a fixed calibration the duty never falls as the angle rises; angle
/// zero gives the minimum duty and the full travel gives the minimum duty
/// plus the duty interval, exactly.
pub proof fn lemma_duty_monotonic(servo: &Servo, a: u16, b: u16)
    requires
        servo.wf(),
        a <= b,
    ensures
        duty_at(servo@, a) <= duty_at(servo@, b),
        duty_at(servo@, 0) == servo@.min_duty,
        duty_at(servo@, servo@.max_angle_degrees) == servo@.min_duty + servo@.duty_interval,
{
    let d = servo.max_angle_degrees as int;
    let i = servo.duty_interval as int;
    lemma_mul_inequality(a as int, b as int, i);
    lemma_div_is_ordered(2 * (i * a) + d, 2 * (i * b) + d, 2 * d);
    assert(round_div(0, d) == 0) by (nonlinear_arith)
        requires
            d > 0,
    ;
    assert(round_div(i * d, d) == i) by (nonlinear_arith)
        requires
            d > 0,
            i >= 0,
    ;
}

/// Within the travel, the duty stays between the calibrated bounds.
proof fn lemma_duty_range(servo: &Servo, angle: u16)
    requires
        servo.wf(),
    ensures
        angle <= servo@.max_angle_degrees ==> servo@.min_duty <= duty_at(servo@, angle)
            <= servo@.min_duty + servo@.duty_interval,
{
    lemma_duty_monotonic(servo, 0, angle);
    if angle <= servo.max_angle_degrees {
        lemma_duty_monotonic(servo, angle, servo.max_angle_degrees);
    }
}

} // verus!
