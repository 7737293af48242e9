use winderoo_firmware::hardware::motor_duties;
use winderoo_firmware::model::MotorDirection;
use winderoo_firmware::hardware::{
    led_program, motor_duty, ramp_level_at, scaled_duty, LedPattern, LedProgram, RandomSource, XorShift32,
    RAMP_STEPS,
};

#[test]
fn xorshift_is_deterministic() {
    let mut rng = XorShift32::new(1);
    let first = rng.next_u8();
    let second = rng.next_u8();
    assert_ne!(first, second);
}

#[test]
fn xorshift_same_seed_same_sequence() {
    let mut a = XorShift32::new(42);
    let mut b = XorShift32::new(42);
    for _ in 0..16 {
        assert_eq!(a.next_u8(), b.next_u8());
    }
}

#[test]
fn xorshift_first_byte_from_seed_one() {
    // x = 1: x ^= x << 13 -> 0x2001; x ^= x >> 17 -> 0x2001; x ^= x << 5 -> 0x42021.
    let mut rng = XorShift32::new(1);
    assert_eq!(rng.next_u8(), 0x21);
}

#[test]
fn xorshift_zero_seed_is_replaced() {
    let mut zero = XorShift32::new(0);
    let mut fixed = XorShift32::new(0x1234_5678);
    assert_eq!(zero.next_u8(), fixed.next_u8());
}

#[test]
fn led_programs_match_patterns() {
    assert_eq!(led_program(LedPattern::On), LedProgram::Steady(true));
    assert_eq!(led_program(LedPattern::Off), LedProgram::Steady(false));
    assert_eq!(led_program(LedPattern::Pulse), LedProgram::Ramps { repeats: 1, step_ms: 7, gap_ms: 0 });
    assert_eq!(led_program(LedPattern::SlowBlink), LedProgram::Ramps { repeats: 3, step_ms: 7, gap_ms: 150 });
    assert_eq!(led_program(LedPattern::FastBlink), LedProgram::Ramps { repeats: 12, step_ms: 2, gap_ms: 50 });
}

#[test]
fn ramp_goes_up_then_down() {
    assert_eq!(RAMP_STEPS, 512);
    assert_eq!(ramp_level_at(0), 0);
    assert_eq!(ramp_level_at(255), 255);
    assert_eq!(ramp_level_at(256), 255);
    assert_eq!(ramp_level_at(511), 0);
}

#[test]
fn duties_scale_to_the_channel() {
    assert_eq!(scaled_duty(255, 8191), 8191);
    assert_eq!(scaled_duty(0, 8191), 0);
    assert_eq!(scaled_duty(128, 255), 128);
    assert_eq!(scaled_duty(100, 1000), 392);
    assert_eq!(motor_duty(145, 8191), 145 * 8191 / 255);
    assert_eq!(motor_duty(1000, 8191), 8191);
}

#[test]
fn motor_duties_drive_one_channel() {
    assert_eq!(motor_duties(MotorDirection::Clockwise, 145, 255), (145, 0));
    assert_eq!(motor_duties(MotorDirection::CounterClockwise, 145, 255), (0, 145));
}

#[test]
fn zero_seed_draws_like_the_replacement_seed() {
    let mut a = XorShift32::new(0);
    let mut b = XorShift32::new(0x1234_5678);
    let mut c = XorShift32::new(0x1234_5678);
    for _ in 0..64 {
        let x = a.next_u8();
        assert_eq!(x, b.next_u8());
        assert_eq!(x, c.next_u8());
    }
}
