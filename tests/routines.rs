use sc_tracker::music::{ChannelInstruction, Note};
use sc_tracker::routines::{channel_tick, settle, Routine};

#[test]
fn stop_note_fires_on_first_tick_only() {
    let mut state = ChannelInstruction::Long(Note::new(61));
    assert_eq!(Routine::StopNote.tick_value(0, &mut state), Some(ChannelInstruction::Stop));
    for tick in 1..6 {
        assert_eq!(Routine::StopNote.tick_value(tick, &mut state), None);
    }
    assert_eq!(state, ChannelInstruction::Long(Note::new(61)));
}

#[test]
fn flat_note_reemits_held_state_on_first_tick_only() {
    let mut state = ChannelInstruction::Long(Note::new(70));
    assert_eq!(Routine::FlatNote.tick_value(0, &mut state), Some(ChannelInstruction::Long(Note::new(70))));
    for tick in 1..6 {
        assert_eq!(Routine::FlatNote.tick_value(tick, &mut state), None);
    }
}

#[test]
fn arpeggio_four_seven_cycles() {
    let n = Note::new(60);
    let mut state = ChannelInstruction::Long(n);
    let routine = Routine::Arpeggio { x: 4, y: 7 };
    let got: Vec<_> = (0..4).map(|t| routine.tick_value(t, &mut state)).collect();
    assert_eq!(
        got,
        vec![
            Some(ChannelInstruction::Short(Note::new(60))),
            Some(ChannelInstruction::Short(Note::new(64))),
            Some(ChannelInstruction::Short(Note::new(67))),
            Some(ChannelInstruction::Short(Note::new(60))),
        ]
    );
    assert_eq!(state, ChannelInstruction::Long(n));
}

#[test]
fn arpeggio_on_silence_sends_nothing() {
    let mut state = ChannelInstruction::Stop;
    assert_eq!(Routine::Arpeggio { x: 4, y: 7 }.tick_value(1, &mut state), None);
}

#[test]
fn settle_keeps_routine_output() {
    let mut state = ChannelInstruction::Short(Note::new(61));
    assert_eq!(settle(&mut state, Some(ChannelInstruction::Stop)), Some(ChannelInstruction::Stop));
    assert_eq!(state, ChannelInstruction::Short(Note::new(61)));
}

#[test]
fn settle_turns_unrenewed_short_into_long() {
    let mut state = ChannelInstruction::Short(Note::new(61));
    assert_eq!(settle(&mut state, None), Some(ChannelInstruction::Long(Note::new(61))));
    assert_eq!(state, ChannelInstruction::Long(Note::new(61)));
    assert_eq!(settle(&mut state, None), None);
    let mut silent = ChannelInstruction::Stop;
    assert_eq!(settle(&mut silent, None), None);
}

#[test]
fn unrenewed_short_transmits_twice_in_a_row() {
    let note = Note::new(61);
    let mut state = ChannelInstruction::Short(note);
    let sent: Vec<_> = (0..6).filter_map(|t| channel_tick(Routine::FlatNote, t, &mut state)).collect();
    assert_eq!(sent, vec![ChannelInstruction::Short(note), ChannelInstruction::Long(note)]);
    assert_eq!(state, ChannelInstruction::Long(note));
}
