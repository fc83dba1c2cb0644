//! Binding tracker cells to channel routines: each row's cell either keeps a
//! channel's routine, stops it, or starts a note (plain or arpeggiated) and
//! seeds the channel's held instruction.
use vstd::prelude::*;
use crate::music::{ChannelInstruction, Instrument, Note, NO_INSTRUMENT};
use crate::routines::{channel_tick_spec, Routine};

verus! {

/// The note column of a tracker cell.
#[derive(Clone, Copy, Debug, PartialEq, Eq)]
pub enum CellNote {
    /// Nothing in the note column.
    Empty,
    /// A concrete pitch, as the tracker numbers it.
    Pitch(u8),
    /// Key off: the channel stops.
    KeyOff,
    /// Note cut: the channel stops.
    NoteCut,
    /// Fade: the channel stops.
    Fade,
    /// Parameter control, which binds nothing.
    ParamControl,
    /// Smooth parameter control, which binds nothing.
    ParamControlSmooth,
}

/// Whether a note column value stops the channel.
pub open spec fn stops_channel(note: CellNote) -> bool {
    note is KeyOff || note is NoteCut || note is Fade
}

/// What a tracker cell holds that playback reads.
#[derive(Clone, Copy, Debug, PartialEq, Eq)]
pub struct CellData {
    pub note: CellNote,
    /// Instrument number, counted from 1; 0 for none.
    pub instr: u8,
    /// The arpeggio effect's offsets, if the cell carries that effect.
    pub arpeggio: Option<(u8, u8)>,
}

/// The instrument a cell names: none for 0, else the table entry counted from 1.
pub open spec fn cell_instrument(cell: CellData, instruments: Seq<Instrument>) -> Instrument {
    if cell.instr == 0 {
        NO_INSTRUMENT
    } else {
        instruments[cell.instr - 1]
    }
}

/// The binding and held instruction of a channel after reading `cell`.
/// Key off, note cut and fade bind `StopNote`; a pitch binds `FlatNote`, or `Arpeggio` with
/// the effect, and becomes the held `Long` note; an arpeggio without a pitch
/// rebinds over the held note; anything else leaves the channel as it was.
pub open spec fn bind_spec(
    cell: CellData,
    instruments: Seq<Instrument>,
    binding: (Routine, Instrument),
    state: ChannelInstruction,
) -> ((Routine, Instrument), ChannelInstruction) {
    let instr = cell_instrument(cell, instruments);
    if stops_channel(cell.note) {
        ((Routine::StopNote, instr), state)
    } else {
        let held = match cell.note {
            CellNote::Pitch(k) => ChannelInstruction::Long(Note { semitone_idx: k as i16 }),
            _ => state,
        };
        match cell.arpeggio {
            Some((x, y)) => ((Routine::Arpeggio { x, y }, instr), held),
            None => match cell.note {
                CellNote::Pitch(_) => ((Routine::FlatNote, instr), held),
                _ => (binding, state),
            },
        }
    }
}

/// Reads one cell into a channel's binding and held instruction.
pub fn cell_to_routine(
    cell: &CellData,
    instruments: &Vec<Instrument>,
    binding: &mut (Routine, Instrument),
    state: &mut ChannelInstruction,
)
    requires
        cell.instr <= instruments@.len(),
    ensures
        (*final(binding), *final(state)) == bind_spec(*cell, instruments@, *old(binding), *old(state)),
{
    let instr = if cell.instr == 0 {
        NO_INSTRUMENT
    } else {
        instruments[(cell.instr - 1) as usize]
    };
    match cell.note {
        CellNote::KeyOff | CellNote::NoteCut | CellNote::Fade => {
            *binding = (Routine::StopNote, instr);
        },
        _ => {
            let new_note = match cell.note {
                CellNote::Pitch(k) => Some(Note::new(k as i16)),
                _ => None,
            };
            match cell.arpeggio {
                Some((x, y)) => {
                    if let Some(note) = new_note {
                        *state = ChannelInstruction::Long(note);
                    }
                    *binding = (Routine::Arpeggio { x, y }, instr);
                },
                None => {
                    if let Some(note) = new_note {
                        *state = ChannelInstruction::Long(note);
                        *binding = (Routine::FlatNote, instr);
                    }
                },
            }
        },
    }
}

/// Reads one row: cell `i` goes to channel `i`.
pub fn bind_row(
    cells: &Vec<CellData>,
    instruments: &Vec<Instrument>,
    routines: &mut Vec<(Routine, Instrument)>,
    chan_state: &mut Vec<ChannelInstruction>,
)
    requires
        cells@.len() == old(routines)@.len(),
        cells@.len() == old(chan_state)@.len(),
        forall|i: int| 0 <= i < cells@.len() ==> #[trigger] cells@[i].instr <= instruments@.len(),
    ensures
        final(routines)@.len() == old(routines)@.len(),
        final(chan_state)@.len() == old(chan_state)@.len(),
        forall|i: int|
            0 <= i < cells@.len() ==> (#[trigger] final(routines)@[i], final(chan_state)@[i]) == bind_spec(
                cells@[i],
                instruments@,
                old(routines)@[i],
                old(chan_state)@[i],
            ),
{
    let mut i: usize = 0;
    while i < cells.len()
        invariant
            i <= cells@.len(),
            cells@.len() == routines@.len(),
            cells@.len() == chan_state@.len(),
            forall|j: int| 0 <= j < cells@.len() ==> #[trigger] cells@[j].instr <= instruments@.len(),
            forall|j: int|
                0 <= j < i ==> (#[trigger] routines@[j], chan_state@[j]) == bind_spec(
                    cells@[j],
                    instruments@,
                    old(routines)@[j],
                    old(chan_state)@[j],
                ),
            forall|j: int| i <= j < cells@.len() ==> #[trigger] routines@[j] == old(routines)@[j],
            forall|j: int| i <= j < cells@.len() ==> #[trigger] chan_state@[j] == old(chan_state)@[j],
        decreases cells@.len() - i,
    {
        let mut binding = routines[i];
        let mut state = chan_state[i];
        cell_to_routine(&cells[i], instruments, &mut binding, &mut state);
        routines.set(i, binding);
        chan_state.set(i, state);
        i = i + 1;
    }
}

/// The bindings at the start of a session: every channel idle, with no instrument.
pub fn initial_routines(num_channels: usize) -> (r: Vec<(Routine, Instrument)>)
    ensures
        r@ == Seq::new(num_channels as nat, |_i: int| (Routine::Idle, NO_INSTRUMENT)),
{
    let mut r: Vec<(Routine, Instrument)> = Vec::new();
    while r.len() < num_channels
        invariant
            r@.len() <= num_channels,
            forall|j: int| 0 <= j < r@.len() ==> #[trigger] r@[j] == (Routine::Idle, NO_INSTRUMENT),
        decreases num_channels - r@.len(),
    {
        r.push((Routine::Idle, NO_INSTRUMENT));
    }
    assert(r@ =~= Seq::new(num_channels as nat, |_i: int| (Routine::Idle, NO_INSTRUMENT)));
    r
}

/// The held instructions at the start of a session: every channel silent.
pub fn initial_state(num_channels: usize) -> (r: Vec<ChannelInstruction>)
    ensures
        r@ == Seq::new(num_channels as nat, |_i: int| ChannelInstruction::Stop),
{
    let mut r: Vec<ChannelInstruction> = Vec::new();
    while r.len() < num_channels
        invariant
            r@.len() <= num_channels,
            forall|j: int| 0 <= j < r@.len() ==> #[trigger] r@[j] == ChannelInstruction::Stop,
        decreases num_channels - r@.len(),
    {
        r.push(ChannelInstruction::Stop);
    }
    assert(r@ =~= Seq::new(num_channels as nat, |_i: int| ChannelInstruction::Stop));
    r
}

/// A channel that no cell has reached since the session started stays
/// silent: a cell that binds nothing leaves it idle and stopped, and on every
/// tick it transmits nothing.
pub proof fn lemma_untouched_channel_stays_silent(cell: CellData, instruments: Seq<Instrument>, tick: int)
    requires
        cell.note is Empty || cell.note is ParamControl || cell.note is ParamControlSmooth,
        cell.arpeggio is None,
        tick >= 0,
    ensures
        bind_spec(cell, instruments, (Routine::Idle, NO_INSTRUMENT), ChannelInstruction::Stop) == (
            (Routine::Idle, NO_INSTRUMENT),
            ChannelInstruction::Stop,
        ),
        channel_tick_spec(Routine::Idle, tick, ChannelInstruction::Stop) == (
            None::<ChannelInstruction>,
            ChannelInstruction::Stop,
        ),
{
}

} // verus!
