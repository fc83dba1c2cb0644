//! The haptic feedback protocol: a fixed 64-byte feedback packet inside a
//! class control transfer, and the manager that maps logical channels onto
//! the sub-channels of the attached devices.
use vstd::prelude::*;
pub use crate::music::{bounded_cycles, REPEAT_FOREVER};
use crate::music::{ChannelInstruction, Instrument, Note};

verus! {

/// Touch feedback runs at priority 0; notes at priority 1 are not cut off
/// when the user touches the controller.
pub const NOTE_PRIORITY: u8 = 1;

pub const FEEDBACK_OPCODE: u8 = 0x8F;
pub const FEEDBACK_LENGTH: u8 = 0x08;
pub const PACKET_SIZE: usize = 64;

/// Control request type bits: host to device, class request, interface recipient.
pub const DIRECTION_OUT: u8 = 0x00;
pub const REQUEST_KIND_CLASS: u8 = 0x20;
pub const RECIPIENT_INTERFACE: u8 = 0x01;
pub const FEEDBACK_REQUEST_TYPE: u8 = DIRECTION_OUT | REQUEST_KIND_CLASS | RECIPIENT_INTERFACE;

/// HID SET_REPORT.
pub const SET_REPORT: u8 = 0x09;
/// Report type 3 (feature) in the high byte, report id 0 in the low byte.
pub const FEATURE_REPORT_VALUE: u16 = 0x0300;
/// The interface that takes feedback reports.
pub const FEEDBACK_INTERFACE: u16 = 2;
pub const TRANSFER_TIMEOUT_MS: u64 = 1000;

/// USB identifiers of the supported controller.
pub const CONTROLLER_VENDOR_ID: u16 = 0x28DE;
pub const CONTROLLER_PRODUCT_ID: u16 = 0x1102;

/// Haptic sub-channels on each device.
pub const CHANNELS_PER_DEVICE: u32 = 2;

/// Whether a USB device with these identifiers is a supported controller.
pub fn is_feedback_device(vendor_id: u16, product_id: u16) -> (r: bool)
    ensures
        r == (vendor_id == CONTROLLER_VENDOR_ID && product_id == CONTROLLER_PRODUCT_ID),
{
    vendor_id == CONTROLLER_VENDOR_ID && product_id == CONTROLLER_PRODUCT_ID
}

/// A 16-bit value as two bytes, least significant first.
pub open spec fn le_bytes(value: u16) -> Seq<u8> {
    seq![(value % 256) as u8, (value / 256) as u8]
}

/// The 64 bytes of a feedback packet.
pub open spec fn feedback_payload(
    haptic_channel: u8,
    hi_period: u16,
    lo_period: u16,
    cycle_count: u16,
    priority: u8,
) -> Seq<u8> {
    seq![FEEDBACK_OPCODE, FEEDBACK_LENGTH, haptic_channel] + le_bytes(hi_period) + le_bytes(lo_period)
        + le_bytes(cycle_count) + seq![priority] + Seq::new(54, |_i: int| 0u8)
}

/// The fields of one feedback packet.
#[derive(Debug)]
pub struct SCFeedbackPacket {
    pub haptic_channel: u8,
    pub hi_period: u16,
    pub lo_period: u16,
    pub cycle_count: u16,
    pub priority: u8,
}

fn push_u16_le(buf: &mut Vec<u8>, value: u16)
    ensures
        final(buf)@ == old(buf)@ + le_bytes(value),
{
    buf.push((value % 256) as u8);
    buf.push((value / 256) as u8);
}

impl SCFeedbackPacket {
    /// The packet's wire form.
    pub fn serialize(&self) -> (r: Vec<u8>)
        ensures
            r@ == feedback_payload(
                self.haptic_channel,
                self.hi_period,
                self.lo_period,
                self.cycle_count,
                self.priority,
            ),
            r@.len() == PACKET_SIZE,
    {
        let mut buf: Vec<u8> = Vec::new();
        buf.push(FEEDBACK_OPCODE);
        buf.push(FEEDBACK_LENGTH);
        buf.push(self.haptic_channel);
        push_u16_le(&mut buf, self.hi_period);
        push_u16_le(&mut buf, self.lo_period);
        push_u16_le(&mut buf, self.cycle_count);
        buf.push(self.priority);
        let ghost header = buf@;
        assert(header == seq![FEEDBACK_OPCODE, FEEDBACK_LENGTH, self.haptic_channel] + le_bytes(
            self.hi_period,
        ) + le_bytes(self.lo_period) + le_bytes(self.cycle_count) + seq![self.priority]);
        while buf.len() < PACKET_SIZE
            invariant
                10 <= buf@.len() <= PACKET_SIZE,
                buf@.subrange(0, 10) == header,
                forall|i: int| 10 <= i < buf@.len() ==> buf@[i] == 0u8,
            decreases PACKET_SIZE - buf@.len(),
        {
            buf.push(0);
        }
        assert(buf@ =~= feedback_payload(
            self.haptic_channel,
            self.hi_period,
            self.lo_period,
            self.cycle_count,
            self.priority,
        ));
        buf
    }
}

/// A control transfer, as handed to the USB transport.
#[derive(Debug)]
pub struct USBControlTransfer {
    pub request_type: u8,
    pub request: u8,
    pub value: u16,
    pub index: u16,
    pub buf: Vec<u8>,
    pub timeout_ms: u64,
}

/// `t` is the feedback transfer that carries the given timing fields.
pub open spec fn is_feedback_transfer(
    t: USBControlTransfer,
    haptic_channel: u8,
    fields: (u16, u16, u16),
) -> bool {
    &&& t.request_type == FEEDBACK_REQUEST_TYPE
    &&& t.request == SET_REPORT
    &&& t.value == FEATURE_REPORT_VALUE
    &&& t.index == FEEDBACK_INTERFACE
    &&& t.timeout_ms == TRANSFER_TIMEOUT_MS
    &&& t.buf@ == feedback_payload(haptic_channel, fields.0, fields.1, fields.2, NOTE_PRIORITY)
}

/// Timing fields for a note: repeat forever without a duration, otherwise
/// the cycles that fill the duration.
pub open spec fn note_fields(instr: Instrument, idx: int, max_duration_ns: Option<u64>) -> (u16, u16, u16) {
    let (hi, lo) = instr.periods(idx);
    match max_duration_ns {
        None => (hi, lo, REPEAT_FOREVER),
        Some(d) => (hi, lo, bounded_cycles(instr.cycles(idx, d as int))),
    }
}

/// Timing fields for an instruction: zeros for `Stop`, repeat forever for
/// `Long`, and one tick's worth of cycles for `Short`.
pub open spec fn instruction_fields(
    instruction: ChannelInstruction,
    instr: Instrument,
    tick_ns: u64,
) -> (u16, u16, u16) {
    match instruction {
        ChannelInstruction::Stop => (0, 0, 0),
        ChannelInstruction::Long(note) => note_fields(instr, note.idx(), None),
        ChannelInstruction::Short(note) => note_fields(instr, note.idx(), Some(tick_ns)),
    }
}

impl USBControlTransfer {
    pub fn new(request_type: u8, request: u8, value: u16, index: u16, buf: Vec<u8>, timeout_ms: u64) -> (r:
        USBControlTransfer)
        ensures
            r.request_type == request_type,
            r.request == request,
            r.value == value,
            r.index == index,
            r.buf == buf,
            r.timeout_ms == timeout_ms,
    {
        USBControlTransfer { request_type, request, value, index, buf, timeout_ms }
    }

    /// The feedback transfer for raw timing fields.
    pub fn from_raw(haptic_channel: u8, hi_period: u16, lo_period: u16, cycle_count: u16) -> (r:
        USBControlTransfer)
        ensures
            is_feedback_transfer(r, haptic_channel, (hi_period, lo_period, cycle_count)),
    {
        let packet = SCFeedbackPacket {
            haptic_channel,
            hi_period,
            lo_period,
            cycle_count,
            priority: NOTE_PRIORITY,
        };
        assert(FEEDBACK_REQUEST_TYPE == 0x21) by (bit_vector);
        USBControlTransfer::new(
            FEEDBACK_REQUEST_TYPE,
            SET_REPORT,
            FEATURE_REPORT_VALUE,
            FEEDBACK_INTERFACE,
            packet.serialize(),
            TRANSFER_TIMEOUT_MS,
        )
    }

    /// The feedback transfer that plays `note` on `instr`: forever without a
    /// duration, otherwise for the cycles that fill `max_duration_ns`.
    pub fn from_note(haptic_channel: u8, note: &Note, instr: &Instrument, max_duration_ns: Option<u64>) -> (r:
        USBControlTransfer)
        ensures
            is_feedback_transfer(r, haptic_channel, note_fields(*instr, note.idx(), max_duration_ns)),
    {
        match max_duration_ns {
            Some(duration) => {
                let (hi_period, lo_period, cycle_count) = instr.get_periods_for_note_with_duration(note, duration);
                USBControlTransfer::from_raw(haptic_channel, hi_period, lo_period, cycle_count)
            },
            None => {
                let (hi_period, lo_period) = instr.get_periods_for_note(note);
                USBControlTransfer::from_raw(haptic_channel, hi_period, lo_period, REPEAT_FOREVER)
            },
        }
    }

    /// The feedback transfer for a channel instruction; a `Short` note lasts `tick_ns`.
    pub fn from_instruction(
        haptic_channel: u8,
        instruction: ChannelInstruction,
        instr: &Instrument,
        tick_ns: u64,
    ) -> (r: USBControlTransfer)
        ensures
            is_feedback_transfer(r, haptic_channel, instruction_fields(instruction, *instr, tick_ns)),
    {
        match instruction {
            ChannelInstruction::Stop => USBControlTransfer::from_raw(haptic_channel, 0, 0, 0),
            ChannelInstruction::Long(note) => USBControlTransfer::from_note(haptic_channel, &note, instr, None),
            ChannelInstruction::Short(note) => USBControlTransfer::from_note(
                haptic_channel,
                &note,
                instr,
                Some(tick_ns),
            ),
        }
    }
}


/// `Stop` encodes as zero periods and zero cycles whatever the instrument.
pub proof fn lemma_stop_encodes_as_zeros(instr: Instrument, tick_ns: u64)
    ensures
        instruction_fields(ChannelInstruction::Stop, instr, tick_ns) == (0u16, 0u16, 0u16),
{
}

/// A transfer that a device reported as failed (timeout, stall, disconnect),
/// with the transport's own description.
#[derive(Debug)]
pub struct TransportError {
    pub message: String,
}

/// Why a dispatch did not reach a device.
#[derive(Debug)]
pub enum DeviceError {
    /// No attached device serves the logical channel.
    NoSuchChannel,
    /// The device did not accept the transfer.
    Transport(TransportError),
}

/// A kind of haptic device that accepts feedback transfers.
pub trait MusicDevice {
    /// Sends one control transfer to the device.
    fn send_packet(&self, transfer: USBControlTransfer) -> Result<(), TransportError>;
}

/// Device that serves logical channel `channel`.
pub open spec fn device_of(channel: u32) -> nat {
    (channel / CHANNELS_PER_DEVICE) as nat
}

/// Sub-channel of its device that serves logical channel `channel`.
pub open spec fn sub_channel_of(channel: u32) -> u8 {
    (channel % CHANNELS_PER_DEVICE) as u8
}

/// The attached devices, in the order they were found, each serving
/// `CHANNELS_PER_DEVICE` consecutive logical channels.
pub struct DeviceManager<D> {
    devices: Vec<D>,
    dispatched: Ghost<Seq<(nat, USBControlTransfer, bool)>>,
}

impl<D: MusicDevice> DeviceManager<D> {
    /// The attached devices, in order.
    pub closed spec fn devices(&self) -> Seq<D> {
        self.devices@
    }

    /// Number of attached devices.
    pub open spec fn device_count(&self) -> nat {
        self.devices().len()
    }

    /// Every transfer handed to a device so far: the device's position, the
    /// transfer, and whether the device accepted it.
    pub closed spec fn dispatched(&self) -> Seq<(nat, USBControlTransfer, bool)> {
        self.dispatched@
    }

    /// `self` differs from `prev` by exactly one more transfer, carrying
    /// `fields`, to the device that serves `channel`; the pool is unchanged.
    pub open spec fn one_more_dispatch(self, prev: Self, channel: u32, fields: (u16, u16, u16)) -> bool {
        &&& self.devices() == prev.devices()
        &&& self.dispatched().len() == prev.dispatched().len() + 1
        &&& self.dispatched().drop_last() == prev.dispatched()
        &&& self.dispatched().last().0 == device_of(channel)
        &&& is_feedback_transfer(self.dispatched().last().1, sub_channel_of(channel), fields)
    }

    /// Whether the device accepted the last transfer.
    pub open spec fn last_accepted(self) -> bool {
        self.dispatched().last().2
    }

    /// `self` is `prev` with nothing dispatched.
    pub open spec fn unchanged(self, prev: Self) -> bool {
        &&& self.devices() == prev.devices()
        &&& self.dispatched() == prev.dispatched()
    }

    /// Takes charge of the devices found at startup, in order.
    pub fn new(devices: Vec<D>) -> (r: DeviceManager<D>)
        ensures
            r.devices() == devices@,
            r.dispatched() == Seq::<(nat, USBControlTransfer, bool)>::empty(),
    {
        DeviceManager { devices, dispatched: Ghost(Seq::empty()) }
    }

    /// Number of attached devices.
    pub fn len(&self) -> (r: usize)
        ensures
            r == self.device_count(),
    {
        self.devices.len()
    }

    /// Position of the device and its sub-channel that serve logical channel
    /// `channel_num`, if a device serves it.
    fn get_device_channel(&self, channel_num: u32) -> (r: Option<(usize, u8)>)
        ensures
            device_of(channel_num) < self.device_count() <==> r is Some,
            r matches Some((device, sub)) ==> device == device_of(channel_num) && sub == sub_channel_of(
                channel_num,
            ),
    {
        let device = (channel_num / CHANNELS_PER_DEVICE) as usize;
        if device < self.devices.len() {
            Some((device, (channel_num % CHANNELS_PER_DEVICE) as u8))
        } else {
            None
        }
    }

    /// Hands one transfer to one device and reports the device's answer.
    fn dispatch(&mut self, device: usize, transfer: USBControlTransfer) -> (r: Result<(), DeviceError>)
        requires
            device < old(self).device_count(),
        ensures
            final(self).devices() == old(self).devices(),
            final(self).dispatched().len() == old(self).dispatched().len() + 1,
            final(self).dispatched().drop_last() == old(self).dispatched(),
            final(self).dispatched().last().0 == device as nat,
            final(self).dispatched().last().1 == transfer,
            final(self).dispatched().last().2 == r is Ok,
            r matches Err(e) ==> e is Transport,
    {
        let ghost prev = self.dispatched@;
        let ghost sent = transfer;
        let answer = self.devices[device].send_packet(transfer);
        proof {
            self.dispatched@ = prev.push((device as nat, sent, answer is Ok));
            assert(self.dispatched@.drop_last() =~= prev);
        }
        match answer {
            Ok(()) => Ok(()),
            Err(e) => Err(DeviceError::Transport(e)),
        }
    }

    /// Plays `note` on `instr` on a logical channel: forever without a
    /// duration, otherwise for the cycles that fill `max_duration_ns`.
    /// Exactly one transfer goes to the device that serves the channel;
    /// without such a device nothing is sent and `NoSuchChannel` comes back.
    pub fn play_note(&mut self, channel: u32, note: &Note, instr: &Instrument, max_duration_ns: Option<u64>) -> (r:
        Result<(), DeviceError>)
        ensures
            device_of(channel) < old(self).device_count() ==> final(self).one_more_dispatch(
                *old(self),
                channel,
                note_fields(*instr, note.idx(), max_duration_ns),
            ) && (r is Ok <==> final(self).last_accepted()) && (r matches Err(e) ==> e is Transport),
            device_of(channel) >= old(self).device_count() ==> final(self).unchanged(*old(self)) && (r matches Err(
                e,
            ) && e is NoSuchChannel),
    {
        match self.get_device_channel(channel) {
            Some((device, haptic_channel)) => {
                let transfer = USBControlTransfer::from_note(haptic_channel, note, instr, max_duration_ns);
                self.dispatch(device, transfer)
            },
            None => Err(DeviceError::NoSuchChannel),
        }
    }

    /// Sends raw timing fields on a logical channel, with the same routing
    /// and outcomes as [`DeviceManager::play_note`].
    pub fn play_raw(&mut self, channel: u32, hi_period: u16, lo_period: u16, cycle_count: u16) -> (r: Result<
        (),
        DeviceError,
    >)
        ensures
            device_of(channel) < old(self).device_count() ==> final(self).one_more_dispatch(
                *old(self),
                channel,
                (hi_period, lo_period, cycle_count),
            ) && (r is Ok <==> final(self).last_accepted()) && (r matches Err(e) ==> e is Transport),
            device_of(channel) >= old(self).device_count() ==> final(self).unchanged(*old(self)) && (r matches Err(
                e,
            ) && e is NoSuchChannel),
    {
        match self.get_device_channel(channel) {
            Some((device, haptic_channel)) => {
                let transfer = USBControlTransfer::from_raw(haptic_channel, hi_period, lo_period, cycle_count);
                self.dispatch(device, transfer)
            },
            None => Err(DeviceError::NoSuchChannel),
        }
    }

    /// Plays a channel instruction: `Stop` as raw zeros, `Long` forever,
    /// `Short` for one tick of `tick_ns`.
    pub fn play_instruction(
        &mut self,
        channel: u32,
        instruction: ChannelInstruction,
        instr: &Instrument,
        tick_ns: u64,
    ) -> (r: Result<(), DeviceError>)
        ensures
            device_of(channel) < old(self).device_count() ==> final(self).one_more_dispatch(
                *old(self),
                channel,
                instruction_fields(instruction, *instr, tick_ns),
            ) && (r is Ok <==> final(self).last_accepted()) && (r matches Err(e) ==> e is Transport),
            device_of(channel) >= old(self).device_count() ==> final(self).unchanged(*old(self)) && (r matches Err(
                e,
            ) && e is NoSuchChannel),
    {
        match instruction {
            ChannelInstruction::Stop => self.play_raw(channel, 0, 0, 0),
            ChannelInstruction::Long(note) => self.play_note(channel, &note, instr, None),
            ChannelInstruction::Short(note) => self.play_note(channel, &note, instr, Some(tick_ns)),
        }
    }
}

} // verus!
