//! Oscillators driven by a fixed-point phase accumulator.
//!
//! A phase of `SCALE` is one full cycle; frequencies are in millihertz and
//! sample rates in hertz, so one sample advances the phase by
//! `freq * 1000 / sample_rate` millionths of a cycle.
use vstd::prelude::*;

use crate::game::take_latest;
use crate::pong::fits;
use crate::SCALE;

verus! {

/// The accumulator's headroom: a phase never grows past this, even where a
/// frequency above the sample rate keeps it from wrapping back below one cycle.
pub const PHASE_LIMIT: i64 = 274_877_906_944;

/// Phase advance per sample, in millionths of a cycle.
pub open spec fn phase_inc(freq: int, sample_rate: int) -> int {
    freq * 1000 / sample_rate
}

/// One cycle is taken off once the phase has passed a full cycle.
pub open spec fn wrapped(phase: int, inc: int) -> int {
    if phase + inc > SCALE {
        phase + inc - SCALE
    } else {
        phase + inc
    }
}

/// What a generator may be stepped with: a positive sample rate, and a phase
/// that stays within the accumulator's headroom.
pub open spec fn can_step(phase: int, freq: int, sample_rate: int) -> bool {
    &&& 0 <= phase
    &&& 0 <= freq <= i64::MAX / 1000
    &&& sample_rate > 0
    &&& phase + phase_inc(freq, sample_rate) <= PHASE_LIMIT
}

/// Two-segment ramp: up from 0 to `SCALE` over `[0, midpoint)`, down to 0
/// over `[midpoint, SCALE]`, and on below 0 past a full cycle.
pub open spec fn saw_value(phase: int, midpoint: int) -> int {
    if phase < midpoint {
        phase * SCALE / midpoint
    } else if phase <= SCALE {
        (SCALE - phase) * SCALE / (SCALE - midpoint)
    } else {
        -((phase - SCALE) * SCALE / (SCALE - midpoint))
    }
}

/// High while the phase is below the duty cycle, low after.
pub open spec fn pulse_value(phase: int, duty: int) -> int {
    if phase < duty {
        SCALE as int
    } else {
        0
    }
}

/// Advances a phase by one sample at `freq` millihertz.
pub fn advance_phase(phase: i64, freq: i64, sample_rate: i64) -> (r: i64)
    requires
        can_step(phase as int, freq as int, sample_rate as int),
    ensures
        r == wrapped(phase as int, phase_inc(freq as int, sample_rate as int)),
        0 <= r <= PHASE_LIMIT,
{
    let inc = freq * 1000 / sample_rate;
    let p = phase + inc;
    if p > SCALE {
        p - SCALE
    } else {
        p
    }
}

/// Pulse oscillator.
#[derive(Clone, Copy, Debug)]
pub struct SqGen {
    pub current_phase: i64,
    pub freq: i64,
    pub dc: i64,
}

/// Sine oscillator. Its phase is kept here; the sine of it is taken by the
/// caller, so `step` hands back the new phase.
#[derive(Clone, Copy, Debug)]
pub struct SinGen {
    pub current_phase: i64,
    pub freq: i64,
}

/// Sawtooth oscillator with a movable peak.
#[derive(Clone, Copy, Debug)]
pub struct SawGen {
    pub current_phase: i64,
    pub freq: i64,
    pub midpoint: i64,
}

impl SqGen {
    pub fn step(&mut self, sample_rate: i64) -> (r: i64)
        requires
            can_step(old(self).current_phase as int, old(self).freq as int, sample_rate as int),
        ensures
            final(self).current_phase == wrapped(
                old(self).current_phase as int,
                phase_inc(old(self).freq as int, sample_rate as int),
            ),
            final(self).freq == old(self).freq,
            final(self).dc == old(self).dc,
            r == pulse_value(final(self).current_phase as int, final(self).dc as int),
    {
        self.current_phase = advance_phase(self.current_phase, self.freq, sample_rate);
        if self.current_phase < self.dc {
            SCALE
        } else {
            0
        }
    }
}

impl SinGen {
    pub fn step(&mut self, sample_rate: i64) -> (r: i64)
        requires
            can_step(old(self).current_phase as int, old(self).freq as int, sample_rate as int),
        ensures
            final(self).current_phase == wrapped(
                old(self).current_phase as int,
                phase_inc(old(self).freq as int, sample_rate as int),
            ),
            final(self).freq == old(self).freq,
            r == final(self).current_phase,
    {
        self.current_phase = advance_phase(self.current_phase, self.freq, sample_rate);
        self.current_phase
    }
}

impl SawGen {
    pub fn step(&mut self, sample_rate: i64) -> (r: i64)
        requires
            can_step(old(self).current_phase as int, old(self).freq as int, sample_rate as int),
            0 < old(self).midpoint < SCALE,
        ensures
            final(self).current_phase == wrapped(
                old(self).current_phase as int,
                phase_inc(old(self).freq as int, sample_rate as int),
            ),
            final(self).freq == old(self).freq,
            final(self).midpoint == old(self).midpoint,
            r == saw_value(final(self).current_phase as int, final(self).midpoint as int),
    {
        self.current_phase = advance_phase(self.current_phase, self.freq, sample_rate);
        let p = self.current_phase;
        let m = self.midpoint;
        if p < m {
            assert(p * SCALE <= PHASE_LIMIT * SCALE) by (nonlinear_arith)
                requires
                    0 <= p <= PHASE_LIMIT,
            ;
            p * SCALE / m
        } else if p <= SCALE {
            assert((SCALE - p) * SCALE <= SCALE * SCALE) by (nonlinear_arith)
                requires
                    0 <= SCALE - p <= SCALE,
            ;
            (SCALE - p) * SCALE / (SCALE - m)
        } else {
            assert((p - SCALE) * SCALE <= PHASE_LIMIT * SCALE) by (nonlinear_arith)
                requires
                    0 <= p - SCALE <= PHASE_LIMIT,
            ;
            let q = (p - SCALE) * SCALE / (SCALE - m);
            assert(q <= (p - SCALE) * SCALE) by (nonlinear_arith)
                requires
                    q == (p - SCALE) * SCALE / (SCALE - m),
                    p - SCALE >= 0,
                    SCALE - m >= 1,
            ;
            -q
        }
    }
}

/// Sums the three voices with weights 1 (saw), 1/10 (sine) and 6/10 (pulse)
/// and an overall gain of 3/10. The result is in hundredths of `SCALE`, so
/// that no rounding is needed.
pub fn mix(saw: i64, sine: i64, pulse: i64) -> (r: i64)
    requires
        fits(3 * (10 * saw + sine + 6 * pulse)),
    ensures
        r == 3 * (10 * saw + sine + 6 * pulse),
{
    let total: i128 = 3 * (10 * (saw as i128) + (sine as i128) + 6 * (pulse as i128));
    total as i64
}

/// Before the wrap check a phase that started within the cycle lies in
/// `[0, 1 + inc)`. After it, the phase is back within the cycle, provided the
/// advance is below one cycle and the sum did not land exactly on one cycle,
/// which is left as it is since only a phase past one cycle is wrapped.
pub proof fn lemma_phase_wrap(phase: int, inc: int)
    requires
        0 <= phase < SCALE,
        0 <= inc,
    ensures
        0 <= phase + inc < SCALE + inc,
        inc < SCALE && phase + inc != SCALE ==> 0 <= wrapped(phase, inc) < SCALE,
        inc <= SCALE ==> 0 <= wrapped(phase, inc) <= SCALE,
{
}

/// The saw starts at 0, peaks at `SCALE` at its midpoint, is within one
/// step of the peak just before it, and within one step of 0 just before
/// the end of the cycle.
pub proof fn lemma_saw_boundary(midpoint: int)
    requires
        0 < midpoint < SCALE,
    ensures
        saw_value(0, midpoint) == 0,
        saw_value(midpoint, midpoint) == SCALE,
        SCALE - saw_value(midpoint - 1, midpoint) <= SCALE as int / midpoint + 1,
        0 <= saw_value(SCALE - 1, midpoint) <= SCALE as int / (SCALE - midpoint),
        saw_value(SCALE as int, midpoint) == 0,
{
    let s = SCALE as int;
    assert((s - midpoint) * s / (s - midpoint) == s) by (nonlinear_arith)
        requires
            0 < midpoint < s,
    ;
    assert((midpoint - 1) * s / midpoint >= s - s / midpoint - 1) by (nonlinear_arith)
        requires
            0 < midpoint < s,
            s > 0,
    ;
    assert(s / (s - midpoint) >= 0) by (nonlinear_arith)
        requires
            0 < midpoint < s,
    ;
}

/// Within `delta` below its midpoint the saw is within one step of
/// `delta * SCALE / midpoint` below its peak; within `delta` below the end of
/// the cycle it is at most `delta * SCALE / (SCALE - midpoint)` above 0.
pub proof fn lemma_saw_near_ends(phase: int, midpoint: int, delta: int)
    requires
        0 < midpoint < SCALE,
        delta > 0,
        0 <= phase,
    ensures
        midpoint - delta <= phase < midpoint ==> {
            &&& saw_value(phase, midpoint) <= SCALE
            &&& SCALE - saw_value(phase, midpoint) <= delta * SCALE / midpoint + 1
        },
        midpoint <= phase <= SCALE && SCALE - delta <= phase ==> {
            &&& 0 <= saw_value(phase, midpoint)
            &&& saw_value(phase, midpoint) <= delta * SCALE / (SCALE - midpoint)
        },
{
    let s = SCALE as int;
    if midpoint - delta <= phase < midpoint {
        let q = phase * s / midpoint;
        assert(q * midpoint <= phase * s < (q + 1) * midpoint) by (nonlinear_arith)
            requires
                q == phase * s / midpoint,
                midpoint > 0,
        ;
        let e = delta * s / midpoint;
        assert(delta * s < (e + 1) * midpoint) by (nonlinear_arith)
            requires
                e == delta * s / midpoint,
                midpoint > 0,
        ;
        assert(q <= s) by (nonlinear_arith)
            requires
                q * midpoint <= phase * s,
                phase < midpoint,
                midpoint > 0,
                s > 0,
        ;
        assert(s - q <= e + 1) by (nonlinear_arith)
            requires
                phase * s < (q + 1) * midpoint,
                delta * s < (e + 1) * midpoint,
                midpoint - delta <= phase,
                midpoint > 0,
                s > 0,
        ;
    }
    if midpoint <= phase <= s && s - delta <= phase {
        let d = s - midpoint;
        vstd::arithmetic::div_mod::lemma_div_is_ordered((s - phase) * s, delta * s, d);
        assert((s - phase) * s <= delta * s) by (nonlinear_arith)
            requires
                s - phase <= delta,
                s > 0,
        ;
        assert((s - phase) * s / d >= 0) by (nonlinear_arith)
            requires
                s - phase >= 0,
                s > 0,
                d > 0,
        ;
    }
}

/// With a duty cycle within the cycle, the pulse is exactly high below it and
/// exactly low from it on.
pub proof fn lemma_pulse_duty(phase: int, duty: int)
    requires
        0 < duty < SCALE,
        0 <= phase,
    ensures
        phase < duty ==> pulse_value(phase, duty) == SCALE,
        phase >= duty ==> pulse_value(phase, duty) == 0,
{
}

/// Largest frequency, in millihertz, whose per-sample product stays an `i64`.
pub const FREQ_LIMIT: i64 = 9_223_372_036_854_775;

/// A parameter set: the ball's, the left paddle's and the right paddle's
/// frequency in millihertz, and the pulse's duty cycle. Its frequencies are
/// in range.
pub open spec fn params_ok(p: ([i64; 3], i64)) -> bool {
    forall|i: int| 0 <= i < 3 ==> 0 <= #[trigger] p.0[i] <= FREQ_LIMIT
}

/// The three voices of the sonification: a saw for the left paddle, a sine
/// for the right paddle and a pulse for the ball.
#[derive(Clone, Copy, Debug)]
pub struct Voices {
    pub saw: SawGen,
    pub sine: SinGen,
    pub pulse: SqGen,
}

impl Voices {
    /// Phases within one cycle, frequencies in range, the saw's peak inside
    /// the cycle.
    pub open spec fn wf(&self) -> bool {
        &&& 0 <= self.saw.current_phase <= SCALE
        &&& 0 <= self.sine.current_phase <= SCALE
        &&& 0 <= self.pulse.current_phase <= SCALE
        &&& 0 <= self.saw.freq <= FREQ_LIMIT
        &&& 0 <= self.sine.freq <= FREQ_LIMIT
        &&& 0 <= self.pulse.freq <= FREQ_LIMIT
        &&& 0 < self.saw.midpoint < SCALE
    }

    /// No voice advances by more than a cycle per sample at this rate.
    pub open spec fn below_rate(&self, sample_rate: int) -> bool {
        &&& phase_inc(self.saw.freq as int, sample_rate) <= SCALE
        &&& phase_inc(self.sine.freq as int, sample_rate) <= SCALE
        &&& phase_inc(self.pulse.freq as int, sample_rate) <= SCALE
    }

    /// Silent voices at phase 0, the saw peaking at 0.8 of its cycle and the
    /// pulse high for half of it.
    pub fn new() -> (r: Voices)
        ensures
            r.wf(),
            r.saw == (SawGen { current_phase: 0, freq: 0, midpoint: 800_000 }),
            r.sine == (SinGen { current_phase: 0, freq: 0 }),
            r.pulse == (SqGen { current_phase: 0, freq: 0, dc: 500_000 }),
    {
        Voices {
            saw: SawGen { current_phase: 0, freq: 0, midpoint: 800_000 },
            sine: SinGen { current_phase: 0, freq: 0 },
            pulse: SqGen { current_phase: 0, freq: 0, dc: 500_000 },
        }
    }

    /// Takes new parameters: `fs` holds the ball's, the left paddle's and the
    /// right paddle's frequency, in millihertz; `dc` the pulse's duty cycle.
    pub fn apply(&mut self, fs: [i64; 3], dc: i64)
        requires
            old(self).wf(),
            forall|i: int| 0 <= i < 3 ==> 0 <= #[trigger] fs[i] <= FREQ_LIMIT,
        ensures
            final(self).wf(),
            final(self).pulse == (SqGen { freq: fs[0], dc, ..old(self).pulse }),
            final(self).saw == (SawGen { freq: fs[1], ..old(self).saw }),
            final(self).sine == (SinGen { freq: fs[2], ..old(self).sine }),
    {
        self.pulse.freq = fs[0];
        self.saw.freq = fs[1];
        self.sine.freq = fs[2];
        self.pulse.dc = dc;
    }

    /// Takes the newest of the parameter sets that arrived since the last
    /// buffer, or keeps `held` where none did, and applies it. Returns the set
    /// now in force, to be held for the next buffer.
    pub fn receive(&mut self, pending: Vec<([i64; 3], i64)>, held: ([i64; 3], i64)) -> (r: (
        [i64; 3],
        i64,
    ))
        requires
            old(self).wf(),
            params_ok(held),
            forall|k: int| 0 <= k < pending@.len() ==> params_ok(#[trigger] pending@[k]),
        ensures
            pending@.len() == 0 ==> r == held,
            pending@.len() > 0 ==> r == pending@.last(),
            final(self).wf(),
            final(self).pulse == (SqGen { freq: r.0[0], dc: r.1, ..old(self).pulse }),
            final(self).saw == (SawGen { freq: r.0[1], ..old(self).saw }),
            final(self).sine == (SinGen { freq: r.0[2], ..old(self).sine }),
    {
        let ghost last_index = pending@.len() - 1;
        let r = take_latest(pending, held);
        proof {
            if last_index >= 0 {
                assert(params_ok(pending@[last_index]));
            }
        }
        self.apply(r.0, r.1);
        r
    }

    /// Steps every voice by one sample and returns the saw's value, the sine's
    /// phase and the pulse's value.
    pub fn step(&mut self, sample_rate: i64) -> (r: (i64, i64, i64))
        requires
            old(self).wf(),
            sample_rate > 0,
            old(self).below_rate(sample_rate as int),
        ensures
            final(self).wf(),
            final(self).saw == (SawGen {
                current_phase: wrapped(
                    old(self).saw.current_phase as int,
                    phase_inc(old(self).saw.freq as int, sample_rate as int),
                ) as i64,
                ..old(self).saw
            }),
            final(self).sine == (SinGen {
                current_phase: wrapped(
                    old(self).sine.current_phase as int,
                    phase_inc(old(self).sine.freq as int, sample_rate as int),
                ) as i64,
                ..old(self).sine
            }),
            final(self).pulse == (SqGen {
                current_phase: wrapped(
                    old(self).pulse.current_phase as int,
                    phase_inc(old(self).pulse.freq as int, sample_rate as int),
                ) as i64,
                ..old(self).pulse
            }),
            r.0 == saw_value(final(self).saw.current_phase as int, final(self).saw.midpoint as int),
            r.1 == final(self).sine.current_phase,
            r.2 == pulse_value(final(self).pulse.current_phase as int, final(self).pulse.dc as int),
    {
        let a = self.saw.step(sample_rate);
        let b = self.sine.step(sample_rate);
        let c = self.pulse.step(sample_rate);
        (a, b, c)
    }
}

} // verus!
