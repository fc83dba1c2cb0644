//! The lock-step musical clock: tempo and speed, and the row and tick
//! durations they give.
use vstd::prelude::*;

verus! {

pub const MILLIS_PER_MINUTE: u64 = 60_000;
pub const NANOS_PER_MILLI: u64 = 1_000_000;
/// Ticks per beat: a row lasts `speed` ticks and a beat `24 / speed` rows.
pub const TICKS_PER_BEAT: u64 = 24;

/// Length of a row in milliseconds: a minute over `lines_per_beat * tempo`,
/// where `lines_per_beat = 24 / speed` is kept as an exact fraction; only
/// the final quotient is truncated.
pub open spec fn row_duration_ms_spec(tempo: int, speed: int) -> int {
    (MILLIS_PER_MINUTE * speed) / (TICKS_PER_BEAT * tempo)
}

/// Length of a tick in nanoseconds: a row over its ticks (truncated).
pub open spec fn tick_duration_ns_spec(tempo: int, speed: int) -> int {
    (row_duration_ms_spec(tempo, speed) * NANOS_PER_MILLI) / speed
}

/// Tempo (beats per minute) and speed (ticks per row) of the playback.
pub struct Timer {
    beats_per_minute: i32,
    ticks_per_line: i32,
}

impl Timer {
    pub closed spec fn tempo(&self) -> int {
        self.beats_per_minute as int
    }

    pub closed spec fn speed(&self) -> int {
        self.ticks_per_line as int
    }

    pub fn new(initial_tempo: i32, initial_speed: i32) -> (r: Timer)
        requires
            initial_tempo > 0,
            initial_speed > 0,
        ensures
            r.tempo() == initial_tempo,
            r.speed() == initial_speed,
    {
        let mut timer = Timer { beats_per_minute: 0, ticks_per_line: 0 };
        timer.set_tempo(initial_tempo);
        timer.set_speed(initial_speed);
        timer
    }

    pub fn set_speed(&mut self, speed: i32)
        requires
            speed > 0,
        ensures
            final(self).speed() == speed,
            final(self).tempo() == old(self).tempo(),
    {
        self.ticks_per_line = speed;
    }

    pub fn set_tempo(&mut self, tempo: i32)
        requires
            tempo > 0,
        ensures
            final(self).tempo() == tempo,
            final(self).speed() == old(self).speed(),
    {
        self.beats_per_minute = tempo;
    }

    pub fn ticks_per_row(&self) -> (r: u32)
        requires
            self.speed() > 0,
        ensures
            r == self.speed(),
    {
        self.ticks_per_line as u32
    }

    pub fn row_duration_ms(&self) -> (r: u64)
        requires
            self.tempo() > 0,
            self.speed() > 0,
        ensures
            r == row_duration_ms_spec(self.tempo(), self.speed()),
    {
        let speed = self.ticks_per_line as u64;
        let tempo = self.beats_per_minute as u64;
        assert(MILLIS_PER_MINUTE * speed <= MILLIS_PER_MINUTE * 0x8000_0000) by (nonlinear_arith)
            requires
                speed < 0x8000_0000,
        ;
        assert(TICKS_PER_BEAT * tempo <= TICKS_PER_BEAT * 0x8000_0000) by (nonlinear_arith)
            requires
                tempo < 0x8000_0000,
        ;
        (MILLIS_PER_MINUTE * speed) / (TICKS_PER_BEAT * tempo)
    }

    pub fn tick_duration_ns(&self) -> (r: u64)
        requires
            self.tempo() > 0,
            self.speed() > 0,
        ensures
            r == tick_duration_ns_spec(self.tempo(), self.speed()),
    {
        let row_ms = self.row_duration_ms();
        let speed = self.ticks_per_line as u64;
        assert(row_duration_ms_spec(self.tempo(), self.speed()) <= 2500 * self.speed()) by {
            assert(TICKS_PER_BEAT * self.tempo() >= TICKS_PER_BEAT) by (nonlinear_arith)
                requires
                    self.tempo() >= 1,
            ;
            vstd::arithmetic::div_mod::lemma_div_is_ordered_by_denominator(
                MILLIS_PER_MINUTE * self.speed(),
                TICKS_PER_BEAT as int,
                TICKS_PER_BEAT * self.tempo(),
            );
            assert((MILLIS_PER_MINUTE * self.speed()) / (TICKS_PER_BEAT as int) == 2500 * self.speed());
        }
        assert(row_ms * NANOS_PER_MILLI <= 2500 * 0x8000_0000 * NANOS_PER_MILLI) by (nonlinear_arith)
            requires
                row_ms <= 2500 * speed,
                speed < 0x8000_0000,
        ;
        (row_ms * NANOS_PER_MILLI) / speed
    }
}

} // verus!
