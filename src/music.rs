//! Pitch and timbre: semitone indices, their frequencies, and the pulse-wave
//! timings that an instrument derives from them.
use vstd::prelude::*;
use vstd::arithmetic::power2::*;
use vstd::arithmetic::div_mod::*;

verus! {

/// Semitone index of the reference pitch (middle C).
pub const REFERENCE_IDX: i16 = 61;

/// Length of one period at 1 Hz, in microsecond ticks.
pub const PERIOD_1HZ: u64 = 1_000_000;

/// Frequencies are held in millionths of a hertz.
pub const MICROHERTZ_PER_HZ: u64 = 1_000_000;

/// Durations are held in nanoseconds.
pub const NANOS_PER_SEC: u64 = 1_000_000_000;

/// Cycle count that makes a device repeat a waveform until told otherwise;
/// no count derived from a duration ever takes this value.
pub const REPEAT_FOREVER: u16 = 0x7FFF;

/// A duration's cycle count, moved off the repeat-forever value when it lands on it.
pub open spec fn bounded_cycles(cycles: u16) -> u16 {
    if cycles == REPEAT_FOREVER { (REPEAT_FOREVER - 1) as u16 } else { cycles }
}

/// The largest value a 16-bit timing field can hold.
pub const U16_MAX: u64 = 65535;

/// Frequency, in millionths of a hertz, of each of the twelve equal-tempered
/// degrees of the octave that starts at the reference pitch:
/// `261.625565 Hz * 2^(degree / 12)`, rounded to the nearest microhertz.
pub open spec fn degree_micro_hz(degree: int) -> int {
    if degree == 0 { 261_625_565 }
    else if degree == 1 { 277_182_631 }
    else if degree == 2 { 293_664_768 }
    else if degree == 3 { 311_126_983 }
    else if degree == 4 { 329_627_557 }
    else if degree == 5 { 349_228_231 }
    else if degree == 6 { 369_994_422 }
    else if degree == 7 { 391_995_436 }
    else if degree == 8 { 415_304_697 }
    else if degree == 9 { 439_999_999 }
    else if degree == 10 { 466_163_761 }
    else { 493_883_301 }
}

/// Octaves between a semitone index and the reference octave (rounded down).
pub open spec fn octave_of(idx: int) -> int {
    (idx - REFERENCE_IDX) / 12
}

/// Position of a semitone index within its octave, `0..12`.
pub open spec fn degree_of(idx: int) -> int {
    (idx - REFERENCE_IDX) % 12
}

/// `value` clamped to what a 16-bit field holds.
pub open spec fn saturate16(value: int) -> u16 {
    if value > U16_MAX { U16_MAX as u16 } else if value < 0 { 0 } else { value as u16 }
}

/// An exact frequency: `micro_hz / 1_000_000` hertz, times `2^octave`.
#[derive(Clone, Copy, Debug, PartialEq, Eq)]
pub struct Frequency {
    pub micro_hz: u32,
    pub octave: i32,
}

impl Frequency {
    /// Numerator of the frequency in hertz.
    pub open spec fn num(self) -> int {
        self.micro_hz * (if self.octave >= 0 { pow2(self.octave as nat) as int } else { 1 })
    }

    /// The base lies within the reference octave and the exponent within
    /// what a 16-bit semitone index can reach.
    pub open spec fn well_formed(self) -> bool {
        &&& 261_625_565 <= self.micro_hz <= 493_883_301
        &&& -3000 <= self.octave <= 3000
    }

    /// Denominator of the frequency in hertz (always positive).
    pub open spec fn den(self) -> int {
        MICROHERTZ_PER_HZ * (if self.octave < 0 { pow2((-self.octave) as nat) as int } else { 1 })
    }
}

/// The frequency of a semitone index in twelve-tone equal temperament.
pub open spec fn frequency_of(idx: int) -> Frequency {
    Frequency { micro_hz: degree_micro_hz(degree_of(idx)) as u32, octave: octave_of(idx) as i32 }
}

/// A pitch, as a signed semitone index; the reference pitch is index 61.
#[derive(Clone, Copy, Debug, PartialEq, Eq)]
pub struct Note {
    pub semitone_idx: i16,
}

impl Note {
    pub open spec fn idx(self) -> int {
        self.semitone_idx as int
    }

    pub fn new(semitone_idx: i16) -> (r: Note)
        ensures
            r.idx() == semitone_idx,
    {
        Note { semitone_idx }
    }

    pub fn semitone_idx(&self) -> (r: i16)
        ensures
            r == self.idx(),
    {
        self.semitone_idx
    }

    /// The note `semitones` higher, as [`Note::transpose`] computes it.
    pub open spec fn transposed(self, semitones: int) -> Note {
        Note {
            semitone_idx: if self.idx() + semitones > i16::MAX { i16::MAX } else {
                (self.idx() + semitones) as i16
            },
        }
    }

    /// The note `semitones` higher; indices past the top of the range stay at the top.
    pub fn transpose(self, semitones: u8) -> (r: Note)
        ensures
            r == self.transposed(semitones as int),
    {
        let sum: i32 = self.semitone_idx as i32 + semitones as i32;
        if sum > i16::MAX as i32 {
            Note { semitone_idx: i16::MAX }
        } else {
            Note { semitone_idx: sum as i16 }
        }
    }

    /// The exact frequency of this note.
    pub fn get_frequency(&self) -> (r: Frequency)
        ensures
            r == frequency_of(self.idx()),
            r.well_formed(),
    {
        let d: i32 = self.semitone_idx as i32 - REFERENCE_IDX as i32;
        let octave: i32;
        let degree: i32;
        if d >= 0 {
            octave = d / 12;
            degree = d % 12;
        } else {
            let e: i32 = -d;
            let q: i32 = (e + 11) / 12;
            octave = -q;
            degree = 12 * q - e;
        }
        proof {
            lemma_fundamental_div_mod_converse(d as int, 12, octave as int, degree as int);
        }
        let micro_hz: u32 = degree_table(degree);
        Frequency { micro_hz, octave }
    }
}

fn degree_table(degree: i32) -> (r: u32)
    requires
        0 <= degree < 12,
    ensures
        r == degree_micro_hz(degree as int),
{
    match degree {
        0 => 261_625_565,
        1 => 277_182_631,
        2 => 293_664_768,
        3 => 311_126_983,
        4 => 329_627_557,
        5 => 349_228_231,
        6 => 369_994_422,
        7 => 391_995_436,
        8 => 415_304_697,
        9 => 439_999_999,
        10 => 466_163_761,
        _ => 493_883_301,
    }
}


/// `x / d` is at least `c` when `x` is at least `c * d`.
proof fn lemma_quotient_at_least(x: int, c: int, d: int)
    requires
        d > 0,
        c >= 0,
        x >= c * d,
    ensures
        x / d >= c,
{
    lemma_div_is_ordered(c * d, x, d);
    lemma_div_multiples_vanish(c, d);
    assert(c * d == d * c) by (nonlinear_arith);
}

/// `a * 2^e` grows with `e` for non-negative `a`.
proof fn lemma_scaled_monotone(a: int, e1: nat, e2: nat)
    requires
        a >= 0,
        e1 <= e2,
    ensures
        a * pow2(e1) <= a * pow2(e2),
{
    if e1 < e2 {
        lemma_pow2_strictly_increases(e1, e2);
    }
    assert(a * pow2(e1) <= a * pow2(e2)) by (nonlinear_arith)
        requires
            a >= 0,
            pow2(e1) <= pow2(e2),
    ;
}

/// `a * 2^(e + 1)` is twice `a * 2^e`.
proof fn lemma_scaled_double(a: int, e: nat)
    ensures
        a * pow2(e + 1) == 2 * (a * pow2(e)),
{
    lemma_pow2_unfold(e + 1);
    assert(a * (2 * pow2(e)) == 2 * (a * pow2(e))) by (nonlinear_arith);
}

/// `saturate16(a * 2^up / (b * 2^down))`, for operands of at most 96 bits
/// and with at most one of the two exponents non-zero.
fn scale_saturate(a: u128, up: u32, b: u128, down: u32) -> (r: u16)
    requires
        a < 0x1_0000_0000_0000_0000_0000_0000,
        1 <= b < 0x1_0000_0000_0000_0000_0000_0000,
        up == 0 || down == 0,
    ensures
        r == saturate16((a * pow2(up as nat)) / (b * pow2(down as nat))),
{
    proof {
        lemma2_to64();
        lemma_pow2_pos(up as nat);
        lemma_pow2_pos(down as nat);
    }
    if down == 0 {
        assert(pow2(0) == 1 && b * pow2(down as nat) == b);
        let limit: u128 = b * 65536;
        if a >= limit {
            proof {
                lemma_scaled_monotone(a as int, 0, up as nat);
                lemma_quotient_at_least(a * pow2(up as nat), 65536, b as int);
            }
            return 65535;
        }
        let mut cur: u128 = a;
        let mut i: u32 = 0;
        while i < up
            invariant
                i <= up,
                limit == b * 65536,
                down == 0,
                b * pow2(down as nat) == b,
                cur == a * pow2(i as nat),
                cur < limit,
                a < 0x1_0000_0000_0000_0000_0000_0000,
                1 <= b < 0x1_0000_0000_0000_0000_0000_0000,
            decreases up - i,
        {
            proof {
                lemma_scaled_double(a as int, i as nat);
            }
            if cur >= limit - cur {
                proof {
                    assert(a * pow2((i + 1) as nat) >= 65536 * b);
                    lemma_scaled_monotone(a as int, (i + 1) as nat, up as nat);
                    lemma_quotient_at_least(a * pow2(up as nat), 65536, b as int);
                }
                return 65535;
            }
            cur = cur * 2;
            i = i + 1;
        }
        let q: u128 = cur / b;
        proof {
            assert(b * pow2(0) == b);
            lemma_multiply_divide_lt(cur as int, b as int, 65536);
        }
        q as u16
    } else {
        let mut cur_b: u128 = b;
        let mut i: u32 = 0;
        assert(up == 0 && a * pow2(0) == a);
        while i < down
            invariant
                i <= down,
                up == 0,
                a * pow2(up as nat) == a,
                cur_b == b * pow2(i as nat),
                1 <= cur_b <= 2 * (a as int) + 2 * b,
                a < 0x1_0000_0000_0000_0000_0000_0000,
                1 <= b < 0x1_0000_0000_0000_0000_0000_0000,
            decreases down - i,
        {
            if cur_b > a {
                proof {
                    lemma_scaled_monotone(b as int, i as nat, down as nat);
                    lemma_basic_div(a as int, b * pow2(down as nat));
                }
                return 0;
            }
            proof {
                lemma_scaled_double(b as int, i as nat);
            }
            cur_b = cur_b * 2;
            i = i + 1;
        }
        let q: u128 = a / cur_b;
        if q > 65535 {
            65535
        } else {
            q as u16
        }
    }
}


/// What a channel is playing, kept from tick to tick and row to row.
#[derive(Clone, Copy, Debug, PartialEq, Eq)]
pub enum ChannelInstruction {
    /// Plays until replaced by another instruction.
    Long(Note),
    /// Plays for one tick; if not renewed it settles into `Long` of the same note.
    Short(Note),
    /// Silence.
    Stop,
}

/// Timbre of a channel: a pulse wave with its on and off duty weights, or nothing.
#[derive(Clone, Copy, Debug, PartialEq, Eq)]
pub enum Instrument {
    PulseWave(u32, u32),
    NoInstrument,
}

pub const NO_INSTRUMENT: Instrument = Instrument::NoInstrument;

/// One phase of a pulse wave, in microseconds: the 1 Hz period scaled by the
/// phase's duty weight over `frequency * total` (truncated, saturated to 16 bits).
/// The quotient is that of exact fractions, not of single-precision floats,
/// so where the true value lies within float error of an integer it can be
/// one unit away from a truncated `f32` computation of the same formula.
pub open spec fn pulse_period(duty: int, total: int, f: Frequency) -> u16 {
    if total == 0 {
        0
    } else {
        saturate16((duty * PERIOD_1HZ * f.den()) / (f.num() * total))
    }
}

/// Whole waveform cycles that fit in `duration_ns` nanoseconds at frequency `f`
/// (truncated, saturated to 16 bits; exact fractions, as for [`pulse_period`]).
pub open spec fn cycle_count(duration_ns: int, f: Frequency) -> u16 {
    saturate16((duration_ns * f.num()) / (NANOS_PER_SEC * f.den()))
}

impl Instrument {
    /// High and low periods that this instrument gives the semitone index `idx`.
    pub open spec fn periods(self, idx: int) -> (u16, u16) {
        match self {
            Instrument::PulseWave(on, off) => (
                pulse_period(on as int, on + off, frequency_of(idx)),
                pulse_period(off as int, on + off, frequency_of(idx)),
            ),
            Instrument::NoInstrument => (0, 0),
        }
    }

    /// Waveform cycles that this instrument plays of index `idx` in `duration_ns`.
    pub open spec fn cycles(self, idx: int, duration_ns: int) -> u16 {
        match self {
            Instrument::PulseWave(_, _) => cycle_count(duration_ns, frequency_of(idx)),
            Instrument::NoInstrument => 0,
        }
    }

    pub fn get_periods_for_note(&self, note: &Note) -> (r: (u16, u16))
        ensures
            r == self.periods(note.idx()),
    {
        match *self {
            Instrument::PulseWave(duty_on, duty_off) => {
                let freq = note.get_frequency();
                pulsewave_get_periods_for_freq(freq, duty_on, duty_off)
            },
            Instrument::NoInstrument => (0, 0),
        }
    }

    /// Periods as above, and the cycles that fill `duration_ns` nanoseconds;
    /// a count that lands on [`REPEAT_FOREVER`] is lowered by one.
    pub fn get_periods_for_note_with_duration(&self, note: &Note, duration_ns: u64) -> (r: (
        u16,
        u16,
        u16,
    ))
        ensures
            (r.0, r.1) == self.periods(note.idx()),
            r.2 == bounded_cycles(self.cycles(note.idx(), duration_ns as int)),
            r.2 != REPEAT_FOREVER,
    {
        match *self {
            Instrument::PulseWave(duty_on, duty_off) => {
                let freq = note.get_frequency();
                let (hi_period, lo_period) = pulsewave_get_periods_for_freq(freq, duty_on, duty_off);
                let cycles = cycles_for_duration(freq, duration_ns);
                let duration_cycles = if cycles == REPEAT_FOREVER { REPEAT_FOREVER - 1 } else { cycles };
                (hi_period, lo_period, duration_cycles)
            },
            Instrument::NoInstrument => (0, 0, 0),
        }
    }
}

/// Splits an octave exponent into its raising and lowering parts.
fn octave_shifts(octave: i32) -> (r: (u32, u32))
    requires
        -3000 <= octave <= 3000,
    ensures
        r.0 == (if octave >= 0 { octave as int } else { 0 }),
        r.1 == (if octave < 0 { -octave } else { 0 }),
{
    if octave >= 0 {
        (octave as u32, 0)
    } else {
        (0, (-octave) as u32)
    }
}

fn pulse_phase(freq: Frequency, duty: u32, total: u64) -> (r: u16)
    requires
        freq.well_formed(),
        total <= 2 * (u32::MAX as int),
    ensures
        r == pulse_period(duty as int, total as int, freq),
{
    if total == 0 {
        return 0;
    }
    let (raise, lower) = octave_shifts(freq.octave);
    assert(duty * (PERIOD_1HZ * MICROHERTZ_PER_HZ) < 0x1_0000_0000_0000_0000_0000_0000) by (nonlinear_arith)
        requires
            duty <= u32::MAX,
    ;
    let a: u128 = duty as u128 * (PERIOD_1HZ as u128 * MICROHERTZ_PER_HZ as u128);
    assert(1 <= freq.micro_hz * total < 0x1_0000_0000_0000_0000_0000_0000) by (nonlinear_arith)
        requires
            1 <= total <= 2 * (u32::MAX as int),
            261_625_565 <= freq.micro_hz <= 493_883_301,
    ;
    let b: u128 = freq.micro_hz as u128 * total as u128;
    let r = scale_saturate(a, lower, b, raise);
    proof {
        let pr = pow2(raise as nat) as int;
        let pl = pow2(lower as nat) as int;
        lemma2_to64();
        assert(freq.num() == freq.micro_hz * pr);
        assert(freq.den() == MICROHERTZ_PER_HZ * pl);
        assert(duty * PERIOD_1HZ * freq.den() == a * pl) by (nonlinear_arith)
            requires
                freq.den() == MICROHERTZ_PER_HZ * pl,
                a == duty * (PERIOD_1HZ * MICROHERTZ_PER_HZ),
        ;
        assert(freq.num() * total == b * pr) by (nonlinear_arith)
            requires
                freq.num() == freq.micro_hz * pr,
                b == freq.micro_hz * total,
        ;
    }
    r
}

fn pulsewave_get_periods_for_freq(freq: Frequency, duty_on: u32, duty_off: u32) -> (r: (u16, u16))
    requires
        freq.well_formed(),
    ensures
        r.0 == pulse_period(duty_on as int, duty_on + duty_off, freq),
        r.1 == pulse_period(duty_off as int, duty_on + duty_off, freq),
{
    let total: u64 = duty_on as u64 + duty_off as u64;
    (pulse_phase(freq, duty_on, total), pulse_phase(freq, duty_off, total))
}

fn cycles_for_duration(freq: Frequency, duration_ns: u64) -> (r: u16)
    requires
        freq.well_formed(),
    ensures
        r == cycle_count(duration_ns as int, freq),
{
    let (raise, lower) = octave_shifts(freq.octave);
    assert(duration_ns * freq.micro_hz < 0x1_0000_0000_0000_0000_0000_0000) by (nonlinear_arith)
        requires
            duration_ns <= u64::MAX,
            freq.micro_hz <= 493_883_301,
    ;
    let a: u128 = duration_ns as u128 * freq.micro_hz as u128;
    let b: u128 = NANOS_PER_SEC as u128 * MICROHERTZ_PER_HZ as u128;
    let r = scale_saturate(a, raise, b, lower);
    proof {
        let pr = pow2(raise as nat) as int;
        let pl = pow2(lower as nat) as int;
        lemma2_to64();
        assert(freq.num() == freq.micro_hz * pr);
        assert(freq.den() == MICROHERTZ_PER_HZ * pl);
        assert(duration_ns * freq.num() == a * pr) by (nonlinear_arith)
            requires
                freq.num() == freq.micro_hz * pr,
                a == duration_ns * freq.micro_hz,
        ;
        assert(NANOS_PER_SEC * freq.den() == b * pl) by (nonlinear_arith)
            requires
                freq.den() == MICROHERTZ_PER_HZ * pl,
                b == NANOS_PER_SEC * MICROHERTZ_PER_HZ,
        ;
    }
    r
}


/// Twelve semitones up is exactly twice the frequency: for every index `i`
/// such that `i` and `i + 12` are both notes, `f(i + 12) == 2 * f(i)`
/// (compared as exact fractions).
pub proof fn lemma_octave_doubles_frequency(idx: int)
    requires
        i16::MIN <= idx,
        idx + 12 <= i16::MAX,
    ensures
        frequency_of(idx + 12).num() * frequency_of(idx).den() == 2 * frequency_of(idx).num()
            * frequency_of(idx + 12).den(),
{
    let o = octave_of(idx);
    let d = degree_of(idx);
    lemma_fundamental_div_mod(idx - REFERENCE_IDX, 12);
    lemma_fundamental_div_mod_converse(idx + 12 - REFERENCE_IDX, 12, o + 1, d);
    let f0 = frequency_of(idx);
    let f1 = frequency_of(idx + 12);
    assert(f1.micro_hz == f0.micro_hz);
    assert(f1.octave == f0.octave + 1);
    lemma2_to64();
    let m = f0.micro_hz as int;
    let e = 1_000_000int;
    assert(-3000 <= o <= 3000);
    assert(f0.octave == o && f1.octave == o + 1);
    if o >= 0 {
        lemma_pow2_unfold((o + 1) as nat);
        let p = pow2(o as nat) as int;
        assert(f0.num() == m * p && f0.den() == e && f1.den() == e);
        assert(f1.num() == m * (2 * p));
        assert(m * (2 * p) * e == 2 * (m * p) * e) by (nonlinear_arith);
    } else if o == -1 {
        assert(f1.octave as nat == 0nat);
        assert(pow2(0) == 1);
        assert(f0.num() == m && f1.num() == m);
        assert(f0.den() == e * 2 && f1.den() == e);
        assert(m * (e * 2) == 2 * m * e) by (nonlinear_arith);
    } else {
        lemma_pow2_unfold((-o) as nat);
        let p = pow2((-o - 1) as nat) as int;
        assert(f0.num() == m && f1.num() == m);
        assert((-f1.octave) as nat == (-o - 1) as nat);
        assert(f1.den() == e * p);
        assert(f0.den() == e * (2 * p));
        assert(m * (e * (2 * p)) == 2 * m * (e * p)) by (nonlinear_arith);
    }
}

/// The two phases of a pulse wave keep the ratio of its duty weights, up to
/// truncation: for weights `on, off > 0` whose phases fit in 16 bits, `hi / lo`
/// differs from `on / off` by less than one unit of each phase
/// (`hi * off - lo * on` lies strictly between `-off` and `on`).
pub proof fn lemma_periods_keep_duty_ratio(on: u32, off: u32, idx: int)
    requires
        on > 0,
        off > 0,
        (on * PERIOD_1HZ * frequency_of(idx).den()) / (frequency_of(idx).num() * (on + off)) <= U16_MAX,
        (off * PERIOD_1HZ * frequency_of(idx).den()) / (frequency_of(idx).num() * (on + off)) <= U16_MAX,
        i16::MIN <= idx <= i16::MAX,
    ensures
        ({
            let (hi, lo) = Instrument::PulseWave(on, off).periods(idx);
            &&& -(off as int) < hi * off - lo * on
            &&& hi * off - lo * on < on
        }),
{
    let f = frequency_of(idx);
    lemma_fundamental_div_mod(idx - REFERENCE_IDX, 12);
    lemma2_to64();
    if f.octave >= 0 {
        lemma_pow2_pos(f.octave as nat);
    } else {
        lemma_pow2_pos((-f.octave) as nat);
    }
    assert(f.micro_hz > 0);
    let pw = if f.octave >= 0 { pow2(f.octave as nat) as int } else { pow2((-f.octave) as nat) as int };
    assert(f.micro_hz * pw > 0 && MICROHERTZ_PER_HZ * pw > 0) by (nonlinear_arith)
        requires
            f.micro_hz > 0,
            pw > 0,
    ;
    let k = PERIOD_1HZ * f.den();
    let dd = f.num() * (on + off);
    assert(f.num() > 0 && f.den() > 0);
    assert(dd > 0) by (nonlinear_arith)
        requires
            f.num() > 0,
            on + off > 0,
            dd == f.num() * (on + off),
    ;
    assert(k > 0);
    let hi = (on * k) / dd;
    let lo = (off * k) / dd;
    assert(on * PERIOD_1HZ * f.den() == on * k) by (nonlinear_arith)
        requires
            k == PERIOD_1HZ * f.den(),
    ;
    assert(off * PERIOD_1HZ * f.den() == off * k) by (nonlinear_arith)
        requires
            k == PERIOD_1HZ * f.den(),
    ;
    lemma_fundamental_div_mod(on * k, dd);
    lemma_fundamental_div_mod(off * k, dd);
    lemma_mod_bound(on * k, dd);
    lemma_mod_bound(off * k, dd);
    assert(hi * off - lo * on < on) by (nonlinear_arith)
        requires
            dd * hi <= on * k,
            on * k < dd * hi + dd,
            dd * lo <= off * k,
            off * k < dd * lo + dd,
            dd > 0,
            on > 0,
            off > 0,
    ;
    assert(-(off as int) < hi * off - lo * on) by (nonlinear_arith)
        requires
            dd * hi <= on * k,
            on * k < dd * hi + dd,
            dd * lo <= off * k,
            off * k < dd * lo + dd,
            dd > 0,
            on > 0,
            off > 0,
    ;
}

} // verus!
