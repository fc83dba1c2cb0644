use std::cell::RefCell;
use std::rc::Rc;

use sc_tracker::device_io::{
    is_feedback_device, DeviceError, DeviceManager, MusicDevice, SCFeedbackPacket, TransportError, USBControlTransfer,
    REPEAT_FOREVER,
};
use sc_tracker::music::{ChannelInstruction, Instrument, Note, NO_INSTRUMENT};

/// Keeps every transfer it is handed; fails them all when `fail` is set.
struct Recorder {
    log: Rc<RefCell<Vec<USBControlTransfer>>>,
    fail: bool,
}

impl MusicDevice for Recorder {
    fn send_packet(&self, transfer: USBControlTransfer) -> Result<(), TransportError> {
        self.log.borrow_mut().push(transfer);
        if self.fail {
            Err(TransportError { message: String::from("timeout") })
        } else {
            Ok(())
        }
    }
}

fn fields(t: &USBControlTransfer) -> (u8, u16, u16, u16) {
    let b = &t.buf;
    (
        b[2],
        u16::from_le_bytes([b[3], b[4]]),
        u16::from_le_bytes([b[5], b[6]]),
        u16::from_le_bytes([b[7], b[8]]),
    )
}

fn manager(n: usize) -> (DeviceManager<Recorder>, Vec<Rc<RefCell<Vec<USBControlTransfer>>>>) {
    let logs: Vec<_> = (0..n).map(|_| Rc::new(RefCell::new(Vec::new()))).collect();
    let devices = logs.iter().map(|l| Recorder { log: l.clone(), fail: false }).collect();
    (DeviceManager::new(devices), logs)
}

#[test]
fn packet_layout() {
    let p = SCFeedbackPacket { haptic_channel: 1, hi_period: 0x1234, lo_period: 0xABCD, cycle_count: 0x7FFF, priority: 1 };
    let bytes = p.serialize();
    assert_eq!(bytes.len(), 64);
    assert_eq!(&bytes[..10], &[0x8F, 0x08, 0x01, 0x34, 0x12, 0xCD, 0xAB, 0xFF, 0x7F, 0x01]);
    assert!(bytes[10..].iter().all(|&b| b == 0));
}

#[test]
fn raw_transfer_envelope() {
    let t = USBControlTransfer::from_raw(0, 0xFFFF, 0xFFFF, 6);
    assert_eq!(t.request_type, 0x21);
    assert_eq!(t.request, 0x09);
    assert_eq!(t.value, 0x0300);
    assert_eq!(t.index, 2);
    assert_eq!(t.timeout_ms, 1000);
    assert_eq!(fields(&t), (0, 0xFFFF, 0xFFFF, 6));
}

#[test]
fn long_note_repeats_forever() {
    let t = USBControlTransfer::from_note(1, &Note::new(61), &Instrument::PulseWave(1, 1), None);
    assert_eq!(fields(&t), (1, 1911, 1911, REPEAT_FOREVER));
}

#[test]
fn short_note_counts_cycles() {
    let t = USBControlTransfer::from_note(0, &Note::new(96), &Instrument::PulseWave(1, 1), Some(200_000_000));
    assert_eq!(fields(&t), (0, 253, 253, 395));
}

#[test]
fn short_note_never_lands_on_sentinel() {
    let instr = Instrument::PulseWave(1, 1);
    let lowered = instr.get_periods_for_note_with_duration(&Note::new(61), 125_243_876_684);
    assert_eq!(lowered.2, 0x7FFE);
    let below = instr.get_periods_for_note_with_duration(&Note::new(61), 125_243_876_683);
    assert_eq!(below.2, 32766);
    let above = instr.get_periods_for_note_with_duration(&Note::new(61), 125_300_000_000);
    assert_eq!(above.2, 32781);
    let t = USBControlTransfer::from_note(0, &Note::new(61), &instr, Some(125_243_876_684));
    assert_eq!(fields(&t).3, 0x7FFE);
}

#[test]
fn stop_encodes_as_zeros_for_any_instrument() {
    for instr in [Instrument::PulseWave(1, 1), Instrument::PulseWave(3, 9), NO_INSTRUMENT] {
        let t = USBControlTransfer::from_instruction(1, ChannelInstruction::Stop, &instr, 20_000_000);
        assert_eq!(fields(&t), (1, 0, 0, 0));
    }
}

#[test]
fn instruction_encoding() {
    let instr = Instrument::PulseWave(1, 1);
    let n = Note::new(61);
    let long = USBControlTransfer::from_instruction(0, ChannelInstruction::Long(n), &instr, 20_000_000);
    assert_eq!(fields(&long), (0, 1911, 1911, 0x7FFF));
    let short = USBControlTransfer::from_instruction(0, ChannelInstruction::Short(n), &instr, 20_000_000);
    assert_eq!(fields(&short), (0, 1911, 1911, 5));
}

#[test]
fn channels_map_to_device_and_sub_channel() {
    let (mut dm, logs) = manager(2);
    assert_eq!(dm.len(), 2);
    assert!(dm.play_raw(3, 1, 2, 3).is_ok());
    assert!(dm.play_raw(0, 4, 5, 6).is_ok());
    assert_eq!(logs[0].borrow().len(), 1);
    assert_eq!(logs[1].borrow().len(), 1);
    assert_eq!(fields(&logs[1].borrow()[0]), (1, 1, 2, 3));
    assert_eq!(fields(&logs[0].borrow()[0]), (0, 4, 5, 6));
}

#[test]
fn missing_channel_is_reported() {
    let (mut dm, logs) = manager(1);
    let r = dm.play_note(2, &Note::new(61), &Instrument::PulseWave(1, 1), None);
    assert!(matches!(r, Err(DeviceError::NoSuchChannel)));
    assert!(matches!(dm.play_raw(7, 0, 0, 0), Err(DeviceError::NoSuchChannel)));
    assert!(logs[0].borrow().is_empty());
}

#[test]
fn transport_failure_is_returned() {
    let log = Rc::new(RefCell::new(Vec::new()));
    let mut dm = DeviceManager::new(vec![Recorder { log: log.clone(), fail: true }]);
    match dm.play_raw(1, 0, 0, 0) {
        Err(DeviceError::Transport(e)) => assert_eq!(e.message, "timeout"),
        _ => panic!("expected a transport error"),
    }
    assert_eq!(log.borrow().len(), 1);
    assert!(matches!(dm.play_raw(1, 0, 0, 0), Err(DeviceError::Transport(_))));
    assert_eq!(log.borrow().len(), 2);
}

#[test]
fn sound_tests() {
    let (mut dm, logs) = manager(1);
    let note = Note::new(96);
    let instr = Instrument::PulseWave(1, 1);
    dm.play_note(1, &note, &instr, Some(200_000_000)).expect("Failed to send to device");
    dm.play_raw(1, 0xFFFF, 0xFFFF, 6).expect("Failed to send to device");
    let log = logs[0].borrow();
    assert_eq!(&log[0].buf[..10], &[0x8F, 0x08, 0x01, 0xFD, 0x00, 0xFD, 0x00, 0x8B, 0x01, 0x01]);
    assert!(log[0].buf[10..].iter().all(|&b| b == 0));
    assert_eq!(&log[1].buf[..10], &[0x8F, 0x08, 0x01, 0xFF, 0xFF, 0xFF, 0xFF, 0x06, 0x00, 0x01]);
    assert!(log[1].buf[10..].iter().all(|&b| b == 0));
}

#[test]
fn only_the_controller_matches() {
    assert!(is_feedback_device(0x28DE, 0x1102));
    assert!(!is_feedback_device(0x28DE, 0x1142));
    assert!(!is_feedback_device(0x046D, 0x1102));
}
