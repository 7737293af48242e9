//! The random source used by the winding routine, and LED patterns.

use vstd::prelude::*;

use crate::model::MotorDirection;

verus! {

/// A minimal random number source used by the winding logic.
pub trait RandomSource {
    /// The byte the next draw gives.
    spec fn next_value(&self) -> u8;

    /// Return the next pseudo-random byte.
    fn next_u8(&mut self) -> (r: u8)
        ensures
            r == old(self).next_value(),
    ;
}

/// One step of the 32-bit xorshift generator (shifts 13, 17, 5).
pub open spec fn xorshift_step(x: u32) -> u32 {
    let a = x ^ (x << 13u32);
    let b = a ^ (a >> 17u32);
    b ^ (b << 5u32)
}

/// The seed a generator starts from: zero is replaced by `0x1234_5678`.
pub open spec fn effective_seed(seed: u32) -> u32 {
    if seed == 0 {
        0x1234_5678
    } else {
        seed
    }
}

/// A lightweight xorshift RNG suitable for deterministic tests.
#[derive(Debug, Clone)]
pub struct XorShift32 {
    /// Internal RNG state.
    state: u32,
}

impl XorShift32 {
    /// The generator's internal state.
    pub closed spec fn state(&self) -> u32 {
        self.state
    }

    /// Create a new RNG; a zero seed is replaced by a fixed non-zero one.
    pub fn new(seed: u32) -> (r: Self)
        ensures
            r.state() == effective_seed(seed),
            r.state() != 0,
    {
        let seed = if seed == 0 { 0x1234_5678 } else { seed };
        Self { state: seed }
    }
}

impl RandomSource for XorShift32 {
    open spec fn next_value(&self) -> u8 {
        (xorshift_step(self.state()) & 0xFF) as u8
    }

    fn next_u8(&mut self) -> (r: u8)
        ensures
            final(self).state() == xorshift_step(old(self).state()),
            r == (final(self).state() & 0xFF) as u8,
    {
        let mut x = self.state;
        x ^= x << 13u32;
        x ^= x >> 17u32;
        x ^= x << 5u32;
        self.state = x;
        (x & 0xFF) as u8
    }
}

/// The xorshift step never reaches the all-zero state from another state,
/// where the generator would be stuck forever.
pub proof fn lemma_xorshift_nonzero(x: u32)
    requires
        x != 0,
    ensures
        xorshift_step(x) != 0,
{
    assert(x != 0 ==> ((x ^ (x << 13u32)) ^ ((x ^ (x << 13u32)) >> 17u32)) ^ (((x ^ (x << 13u32)) ^ ((x ^ (x << 13u32)) >> 17u32)) << 5u32) != 0) by (bit_vector);
}

/// The generator state after `n` draws from `state`.
pub open spec fn state_after(state: u32, n: nat) -> u32
    decreases n,
{
    if n == 0 {
        state
    } else {
        xorshift_step(state_after(state, (n - 1) as nat))
    }
}

/// The bytes that `n` successive draws give from `state`, first draw first.
pub open spec fn draws(state: u32, n: nat) -> Seq<u8>
    decreases n,
{
    if n == 0 {
        Seq::empty()
    } else {
        draws(state, (n - 1) as nat).push((state_after(state, n) & 0xFF) as u8)
    }
}

/// A generator started from a non-zero state never reaches the all-zero
/// state, however many draws it makes.
pub proof fn lemma_states_stay_nonzero(state: u32, n: nat)
    requires
        state != 0,
    ensures
        state_after(state, n) != 0,
    decreases n,
{
    if n > 0 {
        lemma_states_stay_nonzero(state, (n - 1) as nat);
        lemma_xorshift_nonzero(state_after(state, (n - 1) as nat));
    }
}

/// Two generators built from seeds that start from the same state give the
/// same bytes for any number of draws; in particular the zero seed, which is
/// replaced, gives the bytes of the seed `0x1234_5678`.
pub proof fn lemma_same_start_same_draws(a: u32, b: u32, n: nat)
    requires
        effective_seed(a) == effective_seed(b),
    ensures
        draws(effective_seed(a), n) == draws(effective_seed(b), n),
        effective_seed(0) == effective_seed(0x1234_5678),
        effective_seed(a) != 0,
{
}

/// LED patterns supported by the firmware state machine.
#[derive(Debug, Clone, Copy, PartialEq, Eq, Structural)]
pub enum LedPattern {
    /// Turn the LED fully on.
    On,
    /// Turn the LED off.
    Off,
    /// Slow blink pattern (success).
    SlowBlink,
    /// Fast blink pattern (reset).
    FastBlink,
    /// PWM pulse pattern (sleep indicator).
    Pulse,
}

/// How a pattern drives a PWM LED.
#[derive(Debug, Clone, Copy, PartialEq, Eq, Structural)]
pub enum LedProgram {
    /// Hold the LED fully on (`true`) or off (`false`).
    Steady(bool),
    /// Run the brightness ramp (see [`ramp_level`]) `repeats` times, holding
    /// each of its levels `step_ms` milliseconds and waiting `gap_ms` after
    /// each run.
    Ramps { repeats: u32, step_ms: u32, gap_ms: u32 },
}

/// The program of each pattern: a pulse is one ramp at 7 ms a level; the
/// slow blink three of them, 150 ms apart; the fast blink twelve ramps at
/// 2 ms a level, 50 ms apart.
pub open spec fn program_of(pattern: LedPattern) -> LedProgram {
    match pattern {
        LedPattern::On => LedProgram::Steady(true),
        LedPattern::Off => LedProgram::Steady(false),
        LedPattern::Pulse => LedProgram::Ramps { repeats: 1, step_ms: 7, gap_ms: 0 },
        LedPattern::SlowBlink => LedProgram::Ramps { repeats: 3, step_ms: 7, gap_ms: 150 },
        LedPattern::FastBlink => LedProgram::Ramps { repeats: 12, step_ms: 2, gap_ms: 50 },
    }
}

/// The program that renders an LED pattern.
pub fn led_program(pattern: LedPattern) -> (p: LedProgram)
    ensures
        p == program_of(pattern),
{
    match pattern {
        LedPattern::On => LedProgram::Steady(true),
        LedPattern::Off => LedProgram::Steady(false),
        LedPattern::Pulse => LedProgram::Ramps { repeats: 1, step_ms: 7, gap_ms: 0 },
        LedPattern::SlowBlink => LedProgram::Ramps { repeats: 3, step_ms: 7, gap_ms: 150 },
        LedPattern::FastBlink => LedProgram::Ramps { repeats: 12, step_ms: 2, gap_ms: 50 },
    }
}

/// Number of levels in one brightness ramp.
pub const RAMP_STEPS: u32 = 512;

/// The brightness (out of 255) at step `i` of a ramp: up from 0 to 255,
/// then back down from 255 to 0.
pub open spec fn ramp_level(i: int) -> int {
    if i <= 255 {
        i
    } else {
        511 - i
    }
}

/// The brightness (out of 255) at step `i` of a ramp.
pub fn ramp_level_at(i: u32) -> (l: u32)
    requires
        i < RAMP_STEPS,
    ensures
        l == ramp_level(i as int),
        l <= 255,
{
    if i <= 255 {
        i
    } else {
        511 - i
    }
}

/// A brightness out of 255 as a duty of a PWM channel whose full duty is
/// `max_duty`, rounded down.
pub fn scaled_duty(level: u32, max_duty: u32) -> (d: u32)
    requires
        level <= 255,
    ensures
        d == level * max_duty / 255,
        d <= max_duty,
{
    proof {
        assert(level * max_duty <= 255 * max_duty) by (nonlinear_arith)
            requires
                level <= 255,
        ;
        assert(level * max_duty / 255 <= max_duty) by (nonlinear_arith)
            requires
                level * max_duty <= 255 * max_duty,
        ;
        assert(level * max_duty <= 255 * 0xFFFF_FFFF) by (nonlinear_arith)
            requires
                level <= 255,
                max_duty <= 0xFFFF_FFFF,
        ;
    }
    let product: u64 = (level as u64) * (max_duty as u64);
    (product / 255) as u32
}

/// The motor's PWM duty at `speed` out of 255 (capped at 255) on a channel
/// whose full duty is `max_duty`.
pub fn motor_duty(speed: u32, max_duty: u32) -> (d: u32)
    ensures
        d == (if speed <= 255 { speed as int } else { 255 }) * max_duty / 255,
        d <= max_duty,
{
    let capped = if speed <= 255 { speed } else { 255 };
    scaled_duty(capped, max_duty)
}

/// The duties `(A, B)` of the two channels of a PWM H-bridge turning in
/// `direction` at `speed`: the driving channel gets the motor duty, the
/// other none.
pub fn motor_duties(direction: MotorDirection, speed: u32, max_duty: u32) -> (d: (u32, u32))
    ensures
        (d.0 as int, d.1 as int) == (match direction {
            MotorDirection::Clockwise => ((if speed <= 255 { speed as int } else { 255 }) * max_duty / 255, 0int),
            MotorDirection::CounterClockwise => (0int, (if speed <= 255 { speed as int } else { 255 }) * max_duty / 255),
        }),
{
    let duty = motor_duty(speed, max_duty);
    match direction {
        MotorDirection::Clockwise => (duty, 0),
        MotorDirection::CounterClockwise => (0, duty),
    }
}

} // verus!
