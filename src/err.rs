//! Decoding of CAN error frames, after the kernel's `linux/can/error.h`.
//!
//! An error frame carries its error class in the identifier bits and, for
//! some classes, detail bytes in the payload. Every table below accepts
//! exactly the values the kernel defines and refuses all others.
use vstd::prelude::*;

use crate::frame::{CANFrame, FrameModel};

verus! {

/// Why an error frame could not be decoded.
#[derive(Copy, Clone, Debug, PartialEq, Eq, Structural)]
pub enum CANErrorDecodingFailure {
    /// The frame did not have the error flag set.
    NotAnError,
    /// The error class is not known.
    UnknownErrorType(u32),
    /// The class needs the payload byte at this index, and the payload is
    /// shorter.
    NotEnoughData(u8),
    /// The controller problem byte holds no known value.
    InvalidControllerProblem,
    /// The protocol violation type byte holds no known value.
    InvlaidViolationType,
    /// The protocol violation location byte holds no known value.
    InvalidLocation,
    /// The transceiver error byte holds no known value.
    InvalidTransceiverError,
}

/// What an error frame reports.
#[derive(Copy, Clone, Debug, PartialEq, Eq, Structural)]
pub enum CANError {
    /// TX timeout (by the network device driver).
    TransmitTimeout,
    /// Arbitration was lost, in the bit given (0 if unspecified).
    LostArbitration(u8),
    ControllerProblem(ControllerProblem),
    ProtocolViolation { vtype: ViolationType, location: Location },
    TransceiverError,
    NoAck,
    BusOff,
    BusError,
    Restarted,
    Unknown(u32),
}

#[derive(Copy, Clone, Debug, PartialEq, Eq, Structural)]
pub enum ControllerProblem {
    Unspecified,
    /// RX buffer overflow
    ReceiveBufferOverflow,
    /// TX buffer overflow
    TransmitBufferOverflow,
    /// reached warning level for RX errors
    ReceiveErrorWarning,
    /// reached warning level for TX errors
    TransmitErrorWarning,
    /// reached error passive status RX
    ReceiveErrorPassive,
    /// reached error passive status TX
    TransmitErrorPassive,
    /// recovered to error active state
    Active,
}

pub open spec fn controller_problem_of(val: u8) -> Result<ControllerProblem, CANErrorDecodingFailure> {
    if val == 0x00 {
        Ok(ControllerProblem::Unspecified)
    } else if val == 0x01 {
        Ok(ControllerProblem::ReceiveBufferOverflow)
    } else if val == 0x02 {
        Ok(ControllerProblem::TransmitBufferOverflow)
    } else if val == 0x04 {
        Ok(ControllerProblem::ReceiveErrorWarning)
    } else if val == 0x08 {
        Ok(ControllerProblem::TransmitErrorWarning)
    } else if val == 0x10 {
        Ok(ControllerProblem::ReceiveErrorPassive)
    } else if val == 0x20 {
        Ok(ControllerProblem::TransmitErrorPassive)
    } else if val == 0x40 {
        Ok(ControllerProblem::Active)
    } else {
        Err(CANErrorDecodingFailure::InvalidControllerProblem)
    }
}

impl TryFrom<u8> for ControllerProblem {
    type Error = CANErrorDecodingFailure;

    fn try_from(val: u8) -> Result<ControllerProblem, CANErrorDecodingFailure> {
        match val {
            0x00 => Ok(ControllerProblem::Unspecified),
            0x01 => Ok(ControllerProblem::ReceiveBufferOverflow),
            0x02 => Ok(ControllerProblem::TransmitBufferOverflow),
            0x04 => Ok(ControllerProblem::ReceiveErrorWarning),
            0x08 => Ok(ControllerProblem::TransmitErrorWarning),
            0x10 => Ok(ControllerProblem::ReceiveErrorPassive),
            0x20 => Ok(ControllerProblem::TransmitErrorPassive),
            0x40 => Ok(ControllerProblem::Active),
            _ => Err(CANErrorDecodingFailure::InvalidControllerProblem),
        }
    }
}

impl vstd::std_specs::convert::TryFromSpecImpl<u8> for ControllerProblem {
    open spec fn obeys_try_from_spec() -> bool {
        true
    }

    open spec fn try_from_spec(v: u8) -> Result<Self, Self::Error> {
        controller_problem_of(v)
    }
}

#[derive(Copy, Clone, Debug, PartialEq, Eq, Structural)]
pub enum ViolationType {
    /// unspecified
    Unspecified,
    /// single bit error
    SingleBitError,
    /// frame format error
    FrameFormatError,
    /// bit stuffing error
    BitStuffingError,
    /// unable to send dominant bit
    UnableToSendDominantBit,
    /// unable to send recessive bit
    UnableToSendRecessiveBit,
    /// bus overload
    BusOverload,
    /// active error announcement
    Active,
    /// error occurred on transmission
    TransmissionError,
}

pub open spec fn violation_type_of(val: u8) -> Result<ViolationType, CANErrorDecodingFailure> {
    if val == 0x00 {
        Ok(ViolationType::Unspecified)
    } else if val == 0x01 {
        Ok(ViolationType::SingleBitError)
    } else if val == 0x02 {
        Ok(ViolationType::FrameFormatError)
    } else if val == 0x04 {
        Ok(ViolationType::BitStuffingError)
    } else if val == 0x08 {
        Ok(ViolationType::UnableToSendDominantBit)
    } else if val == 0x10 {
        Ok(ViolationType::UnableToSendRecessiveBit)
    } else if val == 0x20 {
        Ok(ViolationType::BusOverload)
    } else if val == 0x40 {
        Ok(ViolationType::Active)
    } else if val == 0x80 {
        Ok(ViolationType::TransmissionError)
    } else {
        Err(CANErrorDecodingFailure::InvlaidViolationType)
    }
}

impl TryFrom<u8> for ViolationType {
    type Error = CANErrorDecodingFailure;

    fn try_from(val: u8) -> Result<ViolationType, CANErrorDecodingFailure> {
        match val {
            0x00 => Ok(ViolationType::Unspecified),
            0x01 => Ok(ViolationType::SingleBitError),
            0x02 => Ok(ViolationType::FrameFormatError),
            0x04 => Ok(ViolationType::BitStuffingError),
            0x08 => Ok(ViolationType::UnableToSendDominantBit),
            0x10 => Ok(ViolationType::UnableToSendRecessiveBit),
            0x20 => Ok(ViolationType::BusOverload),
            0x40 => Ok(ViolationType::Active),
            0x80 => Ok(ViolationType::TransmissionError),
            _ => Err(CANErrorDecodingFailure::InvlaidViolationType),
        }
    }
}

impl vstd::std_specs::convert::TryFromSpecImpl<u8> for ViolationType {
    open spec fn obeys_try_from_spec() -> bool {
        true
    }

    open spec fn try_from_spec(v: u8) -> Result<Self, Self::Error> {
        violation_type_of(v)
    }
}

/// Where inside a received frame an error occurred.
#[derive(Copy, Clone, Debug, PartialEq, Eq, Structural)]
pub enum Location {
    /// Unspecified
    Unspecified,
    /// Start of frame.
    StartOfFrame,
    /// ID bits 28-21 (SFF: 10-3)
    Id2821,
    /// ID bits 20-18 (SFF: 2-0)
    Id2018,
    /// substitute RTR (SFF: RTR)
    SubstituteRtr,
    /// extension of identifier
    IdentifierExtension,
    /// ID bits 17-13
    Id1713,
    /// ID bits 12-5
    Id1205,
    /// ID bits 4-0
    Id0400,
    /// RTR bit
    Rtr,
    /// Reserved bit 1
    Reserved1,
    /// Reserved bit 0
    Reserved0,
    /// Data length
    DataLengthCode,
    /// Data section
    DataSection,
    /// CRC sequence
    CrcSequence,
    /// CRC delimiter
    CrcDelimiter,
    /// ACK slot
    AckSlot,
    /// ACK delimiter
    AckDelimiter,
    /// End-of-frame
    EndOfFrame,
    /// Intermission (between frames)
    Intermission,
}

pub open spec fn location_of(val: u8) -> Result<Location, CANErrorDecodingFailure> {
    if val == 0x00 {
        Ok(Location::Unspecified)
    } else if val == 0x03 {
        Ok(Location::StartOfFrame)
    } else if val == 0x02 {
        Ok(Location::Id2821)
    } else if val == 0x06 {
        Ok(Location::Id2018)
    } else if val == 0x04 {
        Ok(Location::SubstituteRtr)
    } else if val == 0x05 {
        Ok(Location::IdentifierExtension)
    } else if val == 0x07 {
        Ok(Location::Id1713)
    } else if val == 0x0F {
        Ok(Location::Id1205)
    } else if val == 0x0E {
        Ok(Location::Id0400)
    } else if val == 0x0C {
        Ok(Location::Rtr)
    } else if val == 0x0D {
        Ok(Location::Reserved1)
    } else if val == 0x09 {
        Ok(Location::Reserved0)
    } else if val == 0x0B {
        Ok(Location::DataLengthCode)
    } else if val == 0x0A {
        Ok(Location::DataSection)
    } else if val == 0x08 {
        Ok(Location::CrcSequence)
    } else if val == 0x18 {
        Ok(Location::CrcDelimiter)
    } else if val == 0x19 {
        Ok(Location::AckSlot)
    } else if val == 0x1B {
        Ok(Location::AckDelimiter)
    } else if val == 0x1A {
        Ok(Location::EndOfFrame)
    } else if val == 0x12 {
        Ok(Location::Intermission)
    } else {
        Err(CANErrorDecodingFailure::InvalidLocation)
    }
}

impl TryFrom<u8> for Location {
    type Error = CANErrorDecodingFailure;

    fn try_from(val: u8) -> Result<Location, CANErrorDecodingFailure> {
        match val {
            0x00 => Ok(Location::Unspecified),
            0x03 => Ok(Location::StartOfFrame),
            0x02 => Ok(Location::Id2821),
            0x06 => Ok(Location::Id2018),
            0x04 => Ok(Location::SubstituteRtr),
            0x05 => Ok(Location::IdentifierExtension),
            0x07 => Ok(Location::Id1713),
            0x0F => Ok(Location::Id1205),
            0x0E => Ok(Location::Id0400),
            0x0C => Ok(Location::Rtr),
            0x0D => Ok(Location::Reserved1),
            0x09 => Ok(Location::Reserved0),
            0x0B => Ok(Location::DataLengthCode),
            0x0A => Ok(Location::DataSection),
            0x08 => Ok(Location::CrcSequence),
            0x18 => Ok(Location::CrcDelimiter),
            0x19 => Ok(Location::AckSlot),
            0x1B => Ok(Location::AckDelimiter),
            0x1A => Ok(Location::EndOfFrame),
            0x12 => Ok(Location::Intermission),
            _ => Err(CANErrorDecodingFailure::InvalidLocation),
        }
    }
}

impl vstd::std_specs::convert::TryFromSpecImpl<u8> for Location {
    open spec fn obeys_try_from_spec() -> bool {
        true
    }

    open spec fn try_from_spec(v: u8) -> Result<Self, Self::Error> {
        location_of(v)
    }
}

#[derive(Copy, Clone, Debug, PartialEq, Eq, Structural)]
pub enum TransceiverError {
    Unspecified,
    CanHighNoWire,
    CanHighShortToBat,
    CanHighShortToVcc,
    CanHighShortToGnd,
    CanLowNoWire,
    CanLowShortToBat,
    CanLowShortToVcc,
    CanLowShortToGnd,
    CanLowShortToCanHigh,
}

pub open spec fn transceiver_error_of(val: u8) -> Result<TransceiverError, CANErrorDecodingFailure> {
    if val == 0x00 {
        Ok(TransceiverError::Unspecified)
    } else if val == 0x04 {
        Ok(TransceiverError::CanHighNoWire)
    } else if val == 0x05 {
        Ok(TransceiverError::CanHighShortToBat)
    } else if val == 0x06 {
        Ok(TransceiverError::CanHighShortToVcc)
    } else if val == 0x07 {
        Ok(TransceiverError::CanHighShortToGnd)
    } else if val == 0x40 {
        Ok(TransceiverError::CanLowNoWire)
    } else if val == 0x50 {
        Ok(TransceiverError::CanLowShortToBat)
    } else if val == 0x60 {
        Ok(TransceiverError::CanLowShortToVcc)
    } else if val == 0x70 {
        Ok(TransceiverError::CanLowShortToGnd)
    } else if val == 0x80 {
        Ok(TransceiverError::CanLowShortToCanHigh)
    } else {
        Err(CANErrorDecodingFailure::InvalidTransceiverError)
    }
}

impl TryFrom<u8> for TransceiverError {
    type Error = CANErrorDecodingFailure;

    fn try_from(val: u8) -> Result<TransceiverError, CANErrorDecodingFailure> {
        match val {
            0x00 => Ok(TransceiverError::Unspecified),
            0x04 => Ok(TransceiverError::CanHighNoWire),
            0x05 => Ok(TransceiverError::CanHighShortToBat),
            0x06 => Ok(TransceiverError::CanHighShortToVcc),
            0x07 => Ok(TransceiverError::CanHighShortToGnd),
            0x40 => Ok(TransceiverError::CanLowNoWire),
            0x50 => Ok(TransceiverError::CanLowShortToBat),
            0x60 => Ok(TransceiverError::CanLowShortToVcc),
            0x70 => Ok(TransceiverError::CanLowShortToGnd),
            0x80 => Ok(TransceiverError::CanLowShortToCanHigh),
            _ => Err(CANErrorDecodingFailure::InvalidTransceiverError),
        }
    }
}

impl vstd::std_specs::convert::TryFromSpecImpl<u8> for TransceiverError {
    open spec fn obeys_try_from_spec() -> bool {
        true
    }

    open spec fn try_from_spec(v: u8) -> Result<Self, Self::Error> {
        transceiver_error_of(v)
    }
}

/// The payload byte at `idx`, or the failure that names `idx` when the
/// payload is shorter.
pub open spec fn byte_at(m: FrameModel, idx: u8) -> Result<u8, CANErrorDecodingFailure> {
    if (idx as int) < m.len as int {
        Ok(m.data[idx as int])
    } else {
        Err(CANErrorDecodingFailure::NotEnoughData(idx))
    }
}

/// What decoding frame `m` as an error frame yields.
pub open spec fn decode_error(m: FrameModel) -> Result<CANError, CANErrorDecodingFailure> {
    if !m.is_error() {
        Err(CANErrorDecodingFailure::NotAnError)
    } else {
        let e = m.err();
        if e == 0x00000001 {
            Ok(CANError::TransmitTimeout)
        } else if e == 0x00000002 {
            match byte_at(m, 0) {
                Ok(b) => Ok(CANError::LostArbitration(b)),
                Err(f) => Err(f),
            }
        } else if e == 0x00000004 {
            match byte_at(m, 1) {
                Ok(b) => match controller_problem_of(b) {
                    Ok(p) => Ok(CANError::ControllerProblem(p)),
                    Err(f) => Err(f),
                },
                Err(f) => Err(f),
            }
        } else if e == 0x00000008 {
            match byte_at(m, 2) {
                Ok(b) => match violation_type_of(b) {
                    Ok(vtype) => match byte_at(m, 3) {
                        Ok(c) => match location_of(c) {
                            Ok(location) => Ok(CANError::ProtocolViolation { vtype, location }),
                            Err(f) => Err(f),
                        },
                        Err(f) => Err(f),
                    },
                    Err(f) => Err(f),
                },
                Err(f) => Err(f),
            }
        } else if e == 0x00000010 {
            Ok(CANError::TransceiverError)
        } else if e == 0x00000020 {
            Ok(CANError::NoAck)
        } else if e == 0x00000040 {
            Ok(CANError::BusOff)
        } else if e == 0x00000080 {
            Ok(CANError::BusError)
        } else if e == 0x00000100 {
            Ok(CANError::Restarted)
        } else {
            Err(CANErrorDecodingFailure::UnknownErrorType(e))
        }
    }
}

/// The payload byte at `idx`, if the payload reaches it.
fn get_data(frame: &CANFrame, idx: u8) -> (r: Result<u8, CANErrorDecodingFailure>)
    ensures
        r == byte_at(frame@, idx),
{
    let data = frame.data();
    if (idx as usize) < data.len() {
        Ok(data[idx as usize])
    } else {
        Err(CANErrorDecodingFailure::NotEnoughData(idx))
    }
}

impl CANError {
    /// Decodes an error frame. Fails on a frame without the error flag, on
    /// an unknown error class, on a payload too short for the class, and on
    /// a detail byte that its table does not hold.
    pub fn from_frame(frame: &CANFrame) -> (r: Result<CANError, CANErrorDecodingFailure>)
        ensures
            r == decode_error(frame@),
    {
        if !frame.is_error() {
            return Err(CANErrorDecodingFailure::NotAnError);
        }
        match frame.err() {
            0x00000001 => Ok(CANError::TransmitTimeout),
            0x00000002 => Ok(CANError::LostArbitration(get_data(frame, 0)?)),
            0x00000004 => {
                let b = get_data(frame, 1)?;
                Ok(CANError::ControllerProblem(ControllerProblem::try_from(b)?))
            },
            0x00000008 => {
                let b = get_data(frame, 2)?;
                let vtype = ViolationType::try_from(b)?;
                let c = get_data(frame, 3)?;
                let location = Location::try_from(c)?;
                Ok(CANError::ProtocolViolation { vtype, location })
            },
            0x00000010 => Ok(CANError::TransceiverError),
            0x00000020 => Ok(CANError::NoAck),
            0x00000040 => Ok(CANError::BusOff),
            0x00000080 => Ok(CANError::BusError),
            0x00000100 => Ok(CANError::Restarted),
            e => Err(CANErrorDecodingFailure::UnknownErrorType(e)),
        }
    }
}

impl CANFrame {
    /// Decodes this frame as an error frame.
    pub fn error(&self) -> (r: Result<CANError, CANErrorDecodingFailure>)
        ensures
            r == decode_error(self@),
    {
        CANError::from_frame(self)
    }
}

/// A frame without the error flag is never decoded as an error, whatever
/// its payload.
pub proof fn lemma_not_an_error(m: FrameModel)
    requires
        !m.is_error(),
    ensures
        decode_error(m) == Err::<CANError, CANErrorDecodingFailure>(CANErrorDecodingFailure::NotAnError),
{
}

/// The controller-specific bytes of an error frame: the last three of a
/// full 8-byte payload.
pub open spec fn ctrl_err_of(m: FrameModel) -> Option<Seq<u8>> {
    if m.len == 8 {
        Some(m.data.subrange(5, 8))
    } else {
        None
    }
}

/// Access to the controller-specific detail of an error frame.
pub trait ControllerSpecificErrorInformation {
    spec fn ctrl_err_spec(&self) -> Option<Seq<u8>>;

    fn get_ctrl_err(&self) -> (r: Option<&[u8]>)
        ensures
            r is Some <==> self.ctrl_err_spec() is Some,
            r matches Some(s) ==> s@ == self.ctrl_err_spec()->Some_0,
    ;
}

impl ControllerSpecificErrorInformation for CANFrame {
    open spec fn ctrl_err_spec(&self) -> Option<Seq<u8>> {
        ctrl_err_of(self@)
    }

    fn get_ctrl_err(&self) -> (r: Option<&[u8]>) {
        let data = self.data();
        if data.len() != 8 {
            None
        } else {
            let s = vstd::slice::slice_subrange(data, 5, 8);
            assert(s@ =~= self@.data.subrange(5, 8));
            Some(s)
        }
    }
}

/// Why a frame could not be built.
#[derive(Debug, Copy, Clone, PartialEq, Eq, Structural)]
pub enum ConstructionError {
    /// The identifier was outside the range of valid identifiers.
    IDTooLarge,
    /// More than 8 bytes of payload were given.
    TooMuchData,
}

impl ConstructionError {
    /// A sentence that describes the error.
    pub fn message(&self) -> (r: &'static str)
        ensures
            *self == ConstructionError::IDTooLarge ==> r@ == "CAN ID too large"@,
            *self == ConstructionError::TooMuchData ==> r@
                == "Payload is larger than CAN maximum of 8 bytes"@,
    {
        match self {
            ConstructionError::IDTooLarge => "CAN ID too large",
            ConstructionError::TooMuchData => "Payload is larger than CAN maximum of 8 bytes",
        }
    }

    /// A short description of the error.
    pub fn description(&self) -> (r: &'static str)
        ensures
            *self == ConstructionError::IDTooLarge ==> r@ == "can id too large"@,
            *self == ConstructionError::TooMuchData ==> r@ == "too much data"@,
    {
        match self {
            ConstructionError::IDTooLarge => "can id too large",
            ConstructionError::TooMuchData => "too much data",
        }
    }
}

} // verus!
