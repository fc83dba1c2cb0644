use std::cell::RefCell;
use std::rc::Rc;

use sc_tracker::device_io::{DeviceManager, MusicDevice, TransportError, USBControlTransfer};
use sc_tracker::module_parser::{bind_row, cell_to_routine, initial_routines, initial_state, CellData, CellNote};
use sc_tracker::music::{ChannelInstruction, Instrument, Note, NO_INSTRUMENT};
use sc_tracker::playback_timer::Timer;
use sc_tracker::routines::{channel_tick, Routine};

struct Recorder {
    log: Rc<RefCell<Vec<USBControlTransfer>>>,
}

impl MusicDevice for Recorder {
    fn send_packet(&self, transfer: USBControlTransfer) -> Result<(), TransportError> {
        self.log.borrow_mut().push(transfer);
        Ok(())
    }
}

fn cell(note: CellNote, instr: u8, arpeggio: Option<(u8, u8)>) -> CellData {
    CellData { note, instr, arpeggio }
}

#[test]
fn row_and_tick_durations() {
    let timer = Timer::new(125, 6);
    assert_eq!(timer.row_duration_ms(), 120);
    assert_eq!(timer.ticks_per_row(), 6);
    assert_eq!(timer.tick_duration_ns(), 20_000_000);
}

#[test]
fn tempo_and_speed_changes() {
    let mut timer = Timer::new(125, 6);
    timer.set_speed(3);
    assert_eq!(timer.row_duration_ms(), 60);
    timer.set_tempo(150);
    assert_eq!(timer.row_duration_ms(), 50);
    assert_eq!(timer.tick_duration_ns(), 16_666_666);
}

#[test]
fn release_binds_stop() {
    let instruments = vec![Instrument::PulseWave(1, 1)];
    for release in [CellNote::KeyOff, CellNote::NoteCut, CellNote::Fade] {
        let mut binding = (Routine::FlatNote, NO_INSTRUMENT);
        let mut state = ChannelInstruction::Long(Note::new(61));
        cell_to_routine(&cell(release, 0, None), &instruments, &mut binding, &mut state);
        assert_eq!(binding, (Routine::StopNote, NO_INSTRUMENT));
        assert_eq!(state, ChannelInstruction::Long(Note::new(61)));
    }
}

#[test]
fn pitch_binds_flat_note_and_seeds_state() {
    let instruments = vec![Instrument::PulseWave(1, 1), Instrument::PulseWave(1, 3)];
    let mut binding = (Routine::StopNote, NO_INSTRUMENT);
    let mut state = ChannelInstruction::Stop;
    cell_to_routine(&cell(CellNote::Pitch(70), 2, None), &instruments, &mut binding, &mut state);
    assert_eq!(binding, (Routine::FlatNote, Instrument::PulseWave(1, 3)));
    assert_eq!(state, ChannelInstruction::Long(Note::new(70)));
}

#[test]
fn arpeggio_binds_with_or_without_pitch() {
    let instruments = vec![Instrument::PulseWave(1, 1)];
    let mut binding = (Routine::StopNote, NO_INSTRUMENT);
    let mut state = ChannelInstruction::Stop;
    cell_to_routine(&cell(CellNote::Pitch(60), 1, Some((4, 7))), &instruments, &mut binding, &mut state);
    assert_eq!(binding, (Routine::Arpeggio { x: 4, y: 7 }, Instrument::PulseWave(1, 1)));
    assert_eq!(state, ChannelInstruction::Long(Note::new(60)));
    cell_to_routine(&cell(CellNote::Empty, 0, Some((3, 5))), &instruments, &mut binding, &mut state);
    assert_eq!(binding, (Routine::Arpeggio { x: 3, y: 5 }, NO_INSTRUMENT));
    assert_eq!(state, ChannelInstruction::Long(Note::new(60)));
}

#[test]
fn empty_cell_keeps_binding() {
    let instruments = vec![Instrument::PulseWave(1, 1)];
    let mut binding = (Routine::FlatNote, Instrument::PulseWave(1, 1));
    let mut state = ChannelInstruction::Long(Note::new(61));
    cell_to_routine(&cell(CellNote::Empty, 1, None), &instruments, &mut binding, &mut state);
    cell_to_routine(&cell(CellNote::ParamControl, 0, None), &instruments, &mut binding, &mut state);
    cell_to_routine(&cell(CellNote::ParamControlSmooth, 1, None), &instruments, &mut binding, &mut state);
    assert_eq!(binding, (Routine::FlatNote, Instrument::PulseWave(1, 1)));
    assert_eq!(state, ChannelInstruction::Long(Note::new(61)));
}

#[test]
fn session_starts_silent() {
    assert_eq!(initial_routines(3), vec![(Routine::Idle, NO_INSTRUMENT); 3]);
    assert_eq!(initial_state(3), vec![ChannelInstruction::Stop; 3]);
    assert!(initial_state(0).is_empty());
}

#[test]
fn bind_row_applies_each_cell_to_its_channel() {
    let instruments = vec![Instrument::PulseWave(1, 1)];
    let mut routines = initial_routines(3);
    let mut state = initial_state(3);
    let cells = vec![
        cell(CellNote::Pitch(61), 1, None),
        cell(CellNote::Empty, 0, None),
        cell(CellNote::NoteCut, 0, None),
    ];
    bind_row(&cells, &instruments, &mut routines, &mut state);
    assert_eq!(routines[0], (Routine::FlatNote, Instrument::PulseWave(1, 1)));
    assert_eq!(routines[1], (Routine::Idle, NO_INSTRUMENT));
    assert_eq!(routines[2], (Routine::StopNote, NO_INSTRUMENT));
    assert_eq!(state, vec![ChannelInstruction::Long(Note::new(61)), ChannelInstruction::Stop, ChannelInstruction::Stop]);
}

/// One device with two sub-channels, a one-channel module at tempo 125 and
/// speed 6, a square wave at the reference pitch for one row.
#[test]
fn one_row_on_one_device() {
    let log = Rc::new(RefCell::new(Vec::new()));
    let mut dm = DeviceManager::new(vec![Recorder { log: log.clone() }]);
    let timer = Timer::new(125, 6);
    let instruments = vec![Instrument::PulseWave(1, 1)];
    let mut routines = initial_routines(1);
    let mut state = initial_state(1);
    bind_row(&vec![cell(CellNote::Pitch(61), 1, None)], &instruments, &mut routines, &mut state);
    let tick_ns = timer.tick_duration_ns();
    for channel in 0..routines.len() {
        let (routine, instr) = routines[channel];
        for tick in 0..timer.ticks_per_row() {
            if let Some(instruction) = channel_tick(routine, tick as i32, &mut state[channel]) {
                dm.play_instruction(channel as u32, instruction, &instr, tick_ns).unwrap();
            }
        }
    }
    let log = log.borrow();
    assert_eq!(log.len(), 1);
    let b = &log[0].buf;
    assert_eq!(b[2], 0);
    let hi = u16::from_le_bytes([b[3], b[4]]);
    let lo = u16::from_le_bytes([b[5], b[6]]);
    assert_eq!(hi, lo);
    assert_eq!(u16::from_le_bytes([b[7], b[8]]), 0x7FFF);
}

/// One device with two sub-channels, a two-channel module at tempo 125 and
/// speed 6, a square wave at the reference pitch on channel 0 for one row and
/// nothing on channel 1.
#[test]
fn one_row_leaves_idle_channel_silent() {
    let log = Rc::new(RefCell::new(Vec::new()));
    let mut dm = DeviceManager::new(vec![Recorder { log: log.clone() }]);
    let timer = Timer::new(125, 6);
    let instruments = vec![Instrument::PulseWave(1, 1)];
    let mut routines = initial_routines(2);
    let mut state = initial_state(2);
    let cells = vec![cell(CellNote::Pitch(61), 1, None), cell(CellNote::Empty, 0, None)];
    bind_row(&cells, &instruments, &mut routines, &mut state);
    let tick_ns = timer.tick_duration_ns();
    for channel in 0..routines.len() {
        let (routine, instr) = routines[channel];
        for tick in 0..timer.ticks_per_row() {
            if let Some(instruction) = channel_tick(routine, tick as i32, &mut state[channel]) {
                dm.play_instruction(channel as u32, instruction, &instr, tick_ns).unwrap();
            }
        }
    }
    let log = log.borrow();
    assert_eq!(log.len(), 1);
    let b = &log[0].buf;
    assert_eq!(b[2], 0);
    assert_eq!(u16::from_le_bytes([b[3], b[4]]), u16::from_le_bytes([b[5], b[6]]));
    assert_eq!(u16::from_le_bytes([b[7], b[8]]), 0x7FFF);
    assert!(log.iter().all(|t| t.buf[2] != 1));
}

#[test]
fn idle_routine_sends_nothing() {
    let mut state = ChannelInstruction::Stop;
    for tick in 0..6 {
        assert_eq!(Routine::Idle.tick_value(tick, &mut state), None);
        assert_eq!(channel_tick(Routine::Idle, tick, &mut state), None);
    }
    assert_eq!(state, ChannelInstruction::Stop);
}
