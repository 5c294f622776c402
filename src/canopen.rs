//! A CANopen-style application protocol carried in CAN frames: sync pulses,
//! process data (PDO), network management (NMT) and service data (SDO).
//!
//! A frame is classified by its function code, the identifier bits
//! `0xF80`; the low seven bits address a node.
use vstd::prelude::*;

use crate::frame::{encode_spec, lemma_encode_decode, padded, CANFrame, FrameError, FrameModel};

verus! {

/// Function code of the sync pulse.
pub const SYNC_ID: u32 = 0x80;

/// Function code of network management messages.
pub const NMT_ID: u32 = 0x700;

/// Function code of service data sent to a node.
pub const SDO_ID: u32 = 0x580;

/// Bits of an identifier that hold the function code.
pub const FUNCTION_MASK: u32 = 0xf80;

/// Declares `std::io::Error` to the verifier as an opaque type: a failed
/// read is carried in `ReadError` as it came, and the retry decision reads
/// it only through its own trusted accessors.
#[verifier::external_type_specification]
#[verifier::external_body]
pub struct ExIoError(std::io::Error);

/// One of the four process data channels.
#[derive(Debug, Clone, Copy, PartialEq, Eq, Structural)]
pub enum PDO {
    PDO1,
    PDO2,
    PDO3,
    PDO4,
}

pub open spec fn from_device_id_of(pdo: PDO) -> u32 {
    match pdo {
        PDO::PDO1 => 0x180,
        PDO::PDO2 => 0x280,
        PDO::PDO3 => 0x380,
        PDO::PDO4 => 0x480,
    }
}

pub open spec fn to_device_id_of(pdo: PDO) -> u32 {
    match pdo {
        PDO::PDO1 => 0x200,
        PDO::PDO2 => 0x300,
        PDO::PDO3 => 0x400,
        PDO::PDO4 => 0x500,
    }
}

impl PDO {
    /// Function code of this channel's data sent by a node.
    pub fn get_from_device_id(&self) -> (r: u32)
        ensures
            r == from_device_id_of(*self),
    {
        match self {
            PDO::PDO1 => 0x180,
            PDO::PDO2 => 0x280,
            PDO::PDO3 => 0x380,
            PDO::PDO4 => 0x480,
        }
    }

    /// Function code of this channel's data sent to a node.
    pub fn get_to_device_id(&self) -> (r: u32)
        ensures
            r == to_device_id_of(*self),
    {
        match self {
            PDO::PDO1 => 0x200,
            PDO::PDO2 => 0x300,
            PDO::PDO3 => 0x400,
            PDO::PDO4 => 0x500,
        }
    }
}

/// The state a node reports.
#[derive(Debug, Clone, Copy, PartialEq, Eq, Structural)]
pub enum NMTState {
    Initializing,
    Stopped,
    Operational,
    PreOperational,
}

/// The state that a reported byte stands for; a byte outside the three
/// known codes reads as `Initializing`.
pub open spec fn nmt_state_of(raw: u8) -> NMTState {
    if raw == 0x04 {
        NMTState::Stopped
    } else if raw == 0x05 {
        NMTState::Operational
    } else if raw == 0x7f {
        NMTState::PreOperational
    } else {
        NMTState::Initializing
    }
}

impl From<u8> for NMTState {
    fn from(raw: u8) -> NMTState {
        match raw {
            0x04 => NMTState::Stopped,
            0x05 => NMTState::Operational,
            0x7f => NMTState::PreOperational,
            _ => NMTState::Initializing,
        }
    }
}

impl vstd::std_specs::convert::FromSpecImpl<u8> for NMTState {
    open spec fn obeys_from_spec() -> bool {
        true
    }

    open spec fn from_spec(v: u8) -> NMTState {
        nmt_state_of(v)
    }
}

/// A state change commanded to a node.
#[derive(Debug, Clone, Copy, PartialEq, Eq, Structural)]
pub enum NMTCommand {
    GoToOperational,
    GoToStopped,
    GoToPreOperational,
    ResetNode,
    ResetCommunication,
}

pub open spec fn nmt_command_code(command: NMTCommand) -> u8 {
    match command {
        NMTCommand::GoToOperational => 0x01,
        NMTCommand::GoToStopped => 0x02,
        NMTCommand::GoToPreOperational => 0x80,
        NMTCommand::ResetNode => 0x81,
        NMTCommand::ResetCommunication => 0x82,
    }
}

impl From<NMTCommand> for u8 {
    fn from(command: NMTCommand) -> u8 {
        match command {
            NMTCommand::GoToOperational => 0x01,
            NMTCommand::GoToStopped => 0x02,
            NMTCommand::GoToPreOperational => 0x80,
            NMTCommand::ResetNode => 0x81,
            NMTCommand::ResetCommunication => 0x82,
        }
    }
}

impl vstd::std_specs::convert::FromSpecImpl<NMTCommand> for u8 {
    open spec fn obeys_from_spec() -> bool {
        true
    }

    open spec fn from_spec(v: NMTCommand) -> u8 {
        nmt_command_code(v)
    }
}

/// The control byte of a service data transfer.
#[derive(Debug, Clone, Copy, PartialEq, Eq, Structural)]
pub struct SDOControlByte {
    ccs: u8,
    bytes_not_containing_data: u8,
    expedited: bool,
    data_size_in_control_byte: bool,
}

/// A message for the bus.
#[derive(Debug, Clone, Copy)]
pub enum CANOpenNodeCommand {
    /// Process data for node `.0` on a channel: buffer and length.
    SendPDO(u8, PDO, [u8; 8], usize),
    /// A state change for node `.0`.
    SendNMT(u8, NMTCommand),
    /// Service data for node `.0`: control byte, index, sub-index, data and
    /// byte count. Only the identifier is sent; the payload is not built.
    SendSDO(u8, SDOControlByte, u16, u8, [u8; 4], usize),
}

/// A message read from the bus.
#[derive(Debug, Clone, Copy)]
pub enum CANOpenNodeMessage {
    SyncReceived,
    /// Process data on a channel: the frame's whole buffer and its length.
    PDOReceived(PDO, [u8; 8], usize),
    NMTReceived(NMTState),
    SDOReceived(SDOControlByte, u16, u8, [u8; 4], u8),
}

/// The content of a message read from the bus.
pub ghost enum MessageModel {
    SyncReceived,
    PDOReceived(PDO, Seq<u8>, nat),
    NMTReceived(NMTState),
    SDOReceived(SDOControlByte, u16, u8, Seq<u8>, u8),
}

impl View for CANOpenNodeMessage {
    type V = MessageModel;

    open spec fn view(&self) -> MessageModel {
        match *self {
            CANOpenNodeMessage::SyncReceived => MessageModel::SyncReceived,
            CANOpenNodeMessage::PDOReceived(p, d, n) => MessageModel::PDOReceived(p, d@, n as nat),
            CANOpenNodeMessage::NMTReceived(s) => MessageModel::NMTReceived(s),
            CANOpenNodeMessage::SDOReceived(c, i, s, d, n) => MessageModel::SDOReceived(
                c,
                i,
                s,
                d@,
                n,
            ),
        }
    }
}

/// Why a frame is not a message of this protocol.
#[derive(Debug, Clone, Copy, PartialEq, Eq, Structural)]
pub enum MessageParseError {
    /// The function code found in the frame.
    InvalidID(u32),
}

/// Why reading a message failed.
#[derive(Debug)]
pub enum ReadError {
    /// No frame could be read from the bus.
    IO(std::io::Error),
    /// The frame read is not a message of this protocol.
    Parse(MessageParseError),
}

/// The state a network management frame reports: its first payload byte,
/// read as `Initializing` when the payload is empty.
pub open spec fn reported_state(m: FrameModel) -> NMTState {
    if m.len > 0 {
        nmt_state_of(m.data[0])
    } else {
        NMTState::Initializing
    }
}

/// What classifying frame `m` yields, by its function code.
pub open spec fn classify_spec(m: FrameModel) -> Result<MessageModel, MessageParseError> {
    let code = m.id() & FUNCTION_MASK;
    if code == 0x80 {
        Ok(MessageModel::SyncReceived)
    } else if code == 0x180 {
        Ok(MessageModel::PDOReceived(PDO::PDO1, m.data, m.len as nat))
    } else if code == 0x280 {
        Ok(MessageModel::PDOReceived(PDO::PDO2, m.data, m.len as nat))
    } else if code == 0x380 {
        Ok(MessageModel::PDOReceived(PDO::PDO3, m.data, m.len as nat))
    } else if code == 0x480 {
        Ok(MessageModel::PDOReceived(PDO::PDO4, m.data, m.len as nat))
    } else if code == 0x700 {
        Ok(MessageModel::NMTReceived(reported_state(m)))
    } else {
        Err(MessageParseError::InvalidID(code))
    }
}

/// What classifying `frame` yields, as a message value.
pub open spec fn classify_frame(frame: CANFrame) -> Result<CANOpenNodeMessage, MessageParseError> {
    let m = frame@;
    let code = m.id() & FUNCTION_MASK;
    if code == 0x80 {
        Ok(CANOpenNodeMessage::SyncReceived)
    } else if code == 0x180 {
        Ok(CANOpenNodeMessage::PDOReceived(PDO::PDO1, frame.buffer(), m.len as usize))
    } else if code == 0x280 {
        Ok(CANOpenNodeMessage::PDOReceived(PDO::PDO2, frame.buffer(), m.len as usize))
    } else if code == 0x380 {
        Ok(CANOpenNodeMessage::PDOReceived(PDO::PDO3, frame.buffer(), m.len as usize))
    } else if code == 0x480 {
        Ok(CANOpenNodeMessage::PDOReceived(PDO::PDO4, frame.buffer(), m.len as usize))
    } else if code == 0x700 {
        Ok(CANOpenNodeMessage::NMTReceived(reported_state(m)))
    } else {
        Err(MessageParseError::InvalidID(code))
    }
}

impl CANOpenNodeMessage {
    /// Classifies a frame by its function code. Service data (0x580) is not
    /// decoded and, like every other unknown code, is refused with the code.
    pub fn classify(frame: &CANFrame) -> (r: Result<CANOpenNodeMessage, MessageParseError>)
        ensures
            r matches Ok(msg) ==> classify_spec(frame@) == Ok::<MessageModel, MessageParseError>(
                msg@,
            ),
            r matches Err(e) ==> classify_spec(frame@) == Err::<MessageModel, MessageParseError>(
                e,
            ),
            r == classify_frame(*frame),
    {
        let code = frame.id() & FUNCTION_MASK;
        match code {
            0x80 => Ok(CANOpenNodeMessage::SyncReceived),
            0x180 => Ok(CANOpenNodeMessage::PDOReceived(PDO::PDO1, frame.raw_data(), frame.len())),
            0x280 => Ok(CANOpenNodeMessage::PDOReceived(PDO::PDO2, frame.raw_data(), frame.len())),
            0x380 => Ok(CANOpenNodeMessage::PDOReceived(PDO::PDO3, frame.raw_data(), frame.len())),
            0x480 => Ok(CANOpenNodeMessage::PDOReceived(PDO::PDO4, frame.raw_data(), frame.len())),
            0x700 => {
                let data = frame.data();
                if data.len() > 0 {
                    Ok(CANOpenNodeMessage::NMTReceived(NMTState::from(data[0])))
                } else {
                    Ok(CANOpenNodeMessage::NMTReceived(NMTState::Initializing))
                }
            },
            _ => Err(MessageParseError::InvalidID(code)),
        }
    }
}

impl TryFrom<CANFrame> for CANOpenNodeMessage {
    type Error = MessageParseError;

    fn try_from(frame: CANFrame) -> Result<CANOpenNodeMessage, MessageParseError> {
        CANOpenNodeMessage::classify(&frame)
    }
}

impl vstd::std_specs::convert::TryFromSpecImpl<CANFrame> for CANOpenNodeMessage {
    open spec fn obeys_try_from_spec() -> bool {
        true
    }

    open spec fn try_from_spec(v: CANFrame) -> Result<Self, Self::Error> {
        classify_frame(v)
    }
}

/// The frame that a command is sent as.
pub open spec fn serialize_spec(command: CANOpenNodeCommand) -> FrameModel {
    match command {
        CANOpenNodeCommand::SendPDO(id, pdo, data, size) => encode_spec(
            to_device_id_of(pdo) | id as u32,
            data@.subrange(0, size as int),
            false,
            false,
        )->Ok_0,
        CANOpenNodeCommand::SendNMT(id, command) => encode_spec(
            NMT_ID | id as u32,
            seq![nmt_command_code(command)],
            false,
            false,
        )->Ok_0,
        CANOpenNodeCommand::SendSDO(id, _, _, _, _, _) => encode_spec(
            SDO_ID | id as u32,
            Seq::empty(),
            false,
            false,
        )->Ok_0,
    }
}

/// A command is well formed when its process data length fits the buffer.
pub open spec fn command_wf(command: CANOpenNodeCommand) -> bool {
    command matches CANOpenNodeCommand::SendPDO(_, _, _, size) ==> size <= 8
}

impl CANOpenNodeCommand {
    /// The frame this command is sent as: process data under the channel's
    /// to-device code or'ed with the node, carrying the first `size` bytes;
    /// a state change under `0x700` or'ed with the node, carrying the
    /// command byte; service data under `0x580` or'ed with the node, empty.
    pub fn serialize(self) -> (r: CANFrame)
        requires
            command_wf(self),
        ensures
            r@ == serialize_spec(self),
    {
        match self {
            CANOpenNodeCommand::SendPDO(id, pdo, data, size) => {
                let base = pdo.get_to_device_id();
                let ident = base | id as u32;
                assert(ident <= 0x5ff) by (bit_vector)
                    requires
                        ident == base | id as u32,
                        base == 0x200 || base == 0x300 || base == 0x400 || base == 0x500,
                ;
                let payload = vstd::slice::slice_subrange(data.as_slice(), 0, size);
                CANFrame::new(ident, payload, false, false).unwrap()
            },
            CANOpenNodeCommand::SendNMT(id, command) => {
                let ident = NMT_ID | id as u32;
                assert(ident <= 0x7ff) by (bit_vector)
                    requires
                        ident == 0x700u32 | id as u32,
                ;
                let byte: u8 = u8::from(command);
                let payload = [byte];
                assert(payload@ =~= seq![nmt_command_code(command)]);
                CANFrame::new(ident, payload.as_slice(), false, false).unwrap()
            },
            CANOpenNodeCommand::SendSDO(id, _, _, _, _, _) => {
                let ident = SDO_ID | id as u32;
                assert(ident <= 0x7ff) by (bit_vector)
                    requires
                        ident == 0x580u32 | id as u32,
                ;
                let payload: [u8; 0] = [];
                assert(payload@ =~= Seq::<u8>::empty());
                CANFrame::new(ident, payload.as_slice(), false, false).unwrap()
            },
        }
    }
}

/// The frame of the sync pulse: identifier `0x80`, no flags, empty payload.
pub fn sync_frame() -> (r: CANFrame)
    ensures
        encode_spec(SYNC_ID, Seq::empty(), false, false) == Ok::<FrameModel, FrameError>(r@),
{
    let payload: [u8; 0] = [];
    assert(payload@ =~= Seq::<u8>::empty());
    CANFrame::new(SYNC_ID, payload.as_slice(), false, false).unwrap()
}

/// A state change sent to a node below 0x80 is classified back as the
/// state report that its command byte stands for.
pub proof fn lemma_nmt_round_trip(node: u8, command: NMTCommand)
    requires
        node <= 0x7f,
    ensures
        classify_spec(serialize_spec(CANOpenNodeCommand::SendNMT(node, command))) == Ok::<
            MessageModel,
            MessageParseError,
        >(MessageModel::NMTReceived(nmt_state_of(nmt_command_code(command)))),
{
    let ident = NMT_ID | node as u32;
    assert(ident <= 0x7ff && ident & FUNCTION_MASK == 0x700) by (bit_vector)
        requires
            ident == 0x700u32 | node as u32,
            node <= 0x7f,
    ;
    lemma_encode_decode(ident, seq![nmt_command_code(command)], false, false);
}

/// The channel whose from-device code follows this channel's to-device
/// code, if any.
pub open spec fn next_channel(pdo: PDO) -> Option<PDO> {
    match pdo {
        PDO::PDO1 => Some(PDO::PDO2),
        PDO::PDO2 => Some(PDO::PDO3),
        PDO::PDO3 => Some(PDO::PDO4),
        PDO::PDO4 => None,
    }
}

/// Process data sent to a node below 0x80 is not recognized when read
/// back: its to-device code is not a from-device code.
pub proof fn lemma_pdo_to_low_node_unrecognized(node: u8, pdo: PDO, data: [u8; 8], size: usize)
    requires
        node <= 0x7f,
        size <= 8,
    ensures
        classify_spec(serialize_spec(CANOpenNodeCommand::SendPDO(node, pdo, data, size))) == Err::<
            MessageModel,
            MessageParseError,
        >(MessageParseError::InvalidID(to_device_id_of(pdo))),
{
    let base = to_device_id_of(pdo);
    let ident = base | node as u32;
    assert(ident <= 0x5ff && ident & FUNCTION_MASK == base) by (bit_vector)
        requires
            ident == base | node as u32,
            base == 0x200 || base == 0x300 || base == 0x400 || base == 0x500,
            node <= 0x7f,
    ;
    lemma_encode_decode(ident, data@.subrange(0, size as int), false, false);
}

/// Process data sent to a node at 0x80 or above is read back as process
/// data on the next channel, when there is one, carrying the bytes sent
/// followed by zeros and the length sent.
pub proof fn lemma_pdo_to_high_node(node: u8, pdo: PDO, data: [u8; 8], size: usize)
    requires
        node >= 0x80,
        size <= 8,
        next_channel(pdo) is Some,
    ensures
        classify_spec(serialize_spec(CANOpenNodeCommand::SendPDO(node, pdo, data, size))) == Ok::<
            MessageModel,
            MessageParseError,
        >(
            MessageModel::PDOReceived(
                next_channel(pdo)->Some_0,
                padded(data@.subrange(0, size as int)),
                size as nat,
            ),
        ),
{
    let base = to_device_id_of(pdo);
    let ident = base | node as u32;
    assert(ident <= 0x5ff && ident & FUNCTION_MASK == base + 0x80) by (bit_vector)
        requires
            ident == base | node as u32,
            base == 0x200 || base == 0x300 || base == 0x400,
            node >= 0x80,
    ;
    lemma_encode_decode(ident, data@.subrange(0, size as int), false, false);
}

} // verus!
