//! Routines: the per-row effect that decides, tick by tick, what a channel
//! transmits, and the rule by which an unrenewed short note settles.
use vstd::prelude::*;
use crate::music::{ChannelInstruction, Instrument, Note};
use crate::device_io::{bounded_cycles, instruction_fields, REPEAT_FOREVER};

verus! {

/// The effect bound to a channel for the current row.
#[derive(Clone, Copy, Debug, PartialEq, Eq)]
pub enum Routine {
    /// Bound to a channel that no cell has reached yet; transmits nothing.
    Idle,
    /// Silences the channel at the start of the row.
    StopNote,
    /// Plays the channel's held instruction at the start of the row.
    FlatNote,
    /// Cycles the held note through itself, `x` and `y` semitones above.
    Arpeggio { x: u8, y: u8 },
}

/// The note an arpeggio plays on `tick`: the held note, then `x` above, then `y` above.
pub open spec fn arpeggio_note(note: Note, x: u8, y: u8, tick: int) -> Note {
    if tick % 3 == 0 {
        note
    } else if tick % 3 == 1 {
        note.transposed(x as int)
    } else {
        note.transposed(y as int)
    }
}

impl Routine {
    /// What the routine asks to transmit on `tick`, given the held instruction.
    pub open spec fn tick_spec(self, tick: int, state: ChannelInstruction) -> Option<ChannelInstruction> {
        match self {
            Routine::Idle => None,
            Routine::StopNote => if tick == 0 { Some(ChannelInstruction::Stop) } else { None },
            Routine::FlatNote => if tick == 0 { Some(state) } else { None },
            Routine::Arpeggio { x, y } => match state {
                ChannelInstruction::Short(note) => Some(ChannelInstruction::Short(arpeggio_note(note, x, y, tick))),
                ChannelInstruction::Long(note) => Some(ChannelInstruction::Short(arpeggio_note(note, x, y, tick))),
                ChannelInstruction::Stop => None,
            },
        }
    }

    /// The instruction to transmit on `tick`, or `None`; the held state is left as it is.
    pub fn tick_value(self, tick: i32, state: &mut ChannelInstruction) -> (r: Option<ChannelInstruction>)
        requires
            tick >= 0,
        ensures
            r == self.tick_spec(tick as int, *old(state)),
            *final(state) == *old(state),
            (self is StopNote || self is FlatNote) && tick != 0 ==> r is None,
            self is Idle ==> r is None,
    {
        match self {
            Routine::Idle => None,
            Routine::StopNote => if tick == 0 { Some(ChannelInstruction::Stop) } else { None },
            Routine::FlatNote => if tick == 0 { Some(*state) } else { None },
            Routine::Arpeggio { x, y } => match *state {
                ChannelInstruction::Short(note) => Some(ChannelInstruction::Short(arpeggio_step(note, x, y, tick))),
                ChannelInstruction::Long(note) => Some(ChannelInstruction::Short(arpeggio_step(note, x, y, tick))),
                ChannelInstruction::Stop => None,
            },
        }
    }
}

fn arpeggio_step(note: Note, x: u8, y: u8, tick: i32) -> (r: Note)
    requires
        tick >= 0,
    ensures
        r == arpeggio_note(note, x, y, tick as int),
{
    let phase: i32 = tick % 3;
    if phase == 0 {
        note
    } else if phase == 1 {
        note.transpose(x)
    } else {
        note.transpose(y)
    }
}

/// The transition table applied after a routine has spoken on a tick:
/// returns what to transmit and the held state that follows.
/// A routine's own instruction is transmitted as is; with nothing from the
/// routine, a held `Short` settles into `Long` of the same note and that is
/// transmitted once; otherwise nothing is sent.
pub open spec fn settle_spec(
    state: ChannelInstruction,
    outcome: Option<ChannelInstruction>,
) -> (Option<ChannelInstruction>, ChannelInstruction) {
    match outcome {
        Some(instruction) => (Some(instruction), state),
        None => match state {
            ChannelInstruction::Short(note) => (Some(ChannelInstruction::Long(note)), ChannelInstruction::Long(note)),
            _ => (None, state),
        },
    }
}

/// Applies [`settle_spec`] to the held state and returns what to transmit.
pub fn settle(state: &mut ChannelInstruction, outcome: Option<ChannelInstruction>) -> (r: Option<
    ChannelInstruction,
>)
    ensures
        (r, *final(state)) == settle_spec(*old(state), outcome),
{
    match outcome {
        Some(instruction) => Some(instruction),
        None => match *state {
            ChannelInstruction::Short(note) => {
                *state = ChannelInstruction::Long(note);
                Some(ChannelInstruction::Long(note))
            },
            _ => None,
        },
    }
}

/// One tick of a channel: what the routine asks for, then the settling rule.
pub open spec fn channel_tick_spec(
    routine: Routine,
    tick: int,
    state: ChannelInstruction,
) -> (Option<ChannelInstruction>, ChannelInstruction) {
    settle_spec(state, routine.tick_spec(tick, state))
}

/// Runs one tick of a channel: returns what to transmit and updates the held state.
pub fn channel_tick(routine: Routine, tick: i32, state: &mut ChannelInstruction) -> (r: Option<
    ChannelInstruction,
>)
    requires
        tick >= 0,
    ensures
        (r, *final(state)) == channel_tick_spec(routine, tick as int, *old(state)),
{
    let outcome = routine.tick_value(tick, state);
    settle(state, outcome)
}


/// A held short note that its routine does not renew on the next tick is
/// transmitted exactly twice in its row: once as `Short`, with a bounded
/// cycle count, and once as the `Long` it settles into, with the
/// repeat-forever count; every later tick of the row sends nothing.
pub proof fn lemma_unrenewed_short_transmits_twice(note: Note, instr: Instrument, tick_ns: u64)
    ensures
        channel_tick_spec(Routine::FlatNote, 0, ChannelInstruction::Short(note)) == (
            Some(ChannelInstruction::Short(note)),
            ChannelInstruction::Short(note),
        ),
        channel_tick_spec(Routine::FlatNote, 1, ChannelInstruction::Short(note)) == (
            Some(ChannelInstruction::Long(note)),
            ChannelInstruction::Long(note),
        ),
        forall|t: int|
            t >= 2 ==> #[trigger] channel_tick_spec(Routine::FlatNote, t, ChannelInstruction::Long(note)) == (
                None::<ChannelInstruction>,
                ChannelInstruction::Long(note),
            ),
        instruction_fields(ChannelInstruction::Short(note), instr, tick_ns).2 == bounded_cycles(
            instr.cycles(note.idx(), tick_ns as int),
        ),
        instruction_fields(ChannelInstruction::Short(note), instr, tick_ns).2 != REPEAT_FOREVER,
        instruction_fields(ChannelInstruction::Long(note), instr, tick_ns).2 == REPEAT_FOREVER,
{
}

/// Against a held note `n`, an arpeggio transmits `Short(n)`, `Short(n + x)`,
/// `Short(n + y)` and then starts over, every three ticks, leaving the held
/// instruction as it was.
pub proof fn lemma_arpeggio_cycles(note: Note, x: u8, y: u8, held: ChannelInstruction, tick: int)
    requires
        held == ChannelInstruction::Long(note) || held == ChannelInstruction::Short(note),
        tick >= 0,
    ensures
        channel_tick_spec(Routine::Arpeggio { x, y }, 0, held) == (Some(ChannelInstruction::Short(note)), held),
        channel_tick_spec(Routine::Arpeggio { x, y }, 1, held) == (
            Some(ChannelInstruction::Short(note.transposed(x as int))),
            held,
        ),
        channel_tick_spec(Routine::Arpeggio { x, y }, 2, held) == (
            Some(ChannelInstruction::Short(note.transposed(y as int))),
            held,
        ),
        channel_tick_spec(Routine::Arpeggio { x, y }, tick + 3, held) == channel_tick_spec(
            Routine::Arpeggio { x, y },
            tick,
            held,
        ),
{
    assert((tick + 3) % 3 == tick % 3);
}

} // verus!
