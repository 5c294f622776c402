use std::convert::TryFrom;

use socketcan::err::{
    CANError, CANErrorDecodingFailure, ConstructionError, ControllerProblem,
    ControllerSpecificErrorInformation, Location, TransceiverError, ViolationType,
};
use socketcan::frame::CANFrame;

fn error_frame(class: u32, data: &[u8]) -> CANFrame {
    CANFrame::new(class, data, false, true).unwrap()
}

#[test]
fn frame_without_error_flag_is_not_an_error() {
    let f = CANFrame::new(0x2, &[7], false, false).unwrap();
    assert_eq!(CANError::from_frame(&f).unwrap_err(), CANErrorDecodingFailure::NotAnError);
    let g = CANFrame::new(0x4, &[0, 0x01, 0, 0, 0, 0, 0, 0], true, false).unwrap();
    assert_eq!(g.error().unwrap_err(), CANErrorDecodingFailure::NotAnError);
}

#[test]
fn lost_arbitration_reads_byte_zero() {
    let f = error_frame(0x2, &[7]);
    assert_eq!(CANError::from_frame(&f).unwrap(), CANError::LostArbitration(7));
}

#[test]
fn unknown_controller_problem_is_refused() {
    let f = error_frame(0x4, &[0, 0x99]);
    assert_eq!(
        CANError::from_frame(&f).unwrap_err(),
        CANErrorDecodingFailure::InvalidControllerProblem
    );
}

#[test]
fn controller_problem_reads_byte_one() {
    let f = error_frame(0x4, &[0, 0x08]);
    assert_eq!(
        CANError::from_frame(&f).unwrap(),
        CANError::ControllerProblem(ControllerProblem::TransmitErrorWarning)
    );
}

#[test]
fn short_payload_names_the_missing_byte() {
    assert_eq!(
        CANError::from_frame(&error_frame(0x2, &[])).unwrap_err(),
        CANErrorDecodingFailure::NotEnoughData(0)
    );
    assert_eq!(
        CANError::from_frame(&error_frame(0x4, &[0])).unwrap_err(),
        CANErrorDecodingFailure::NotEnoughData(1)
    );
    assert_eq!(
        CANError::from_frame(&error_frame(0x8, &[0, 0])).unwrap_err(),
        CANErrorDecodingFailure::NotEnoughData(2)
    );
    assert_eq!(
        CANError::from_frame(&error_frame(0x8, &[0, 0, 0x04])).unwrap_err(),
        CANErrorDecodingFailure::NotEnoughData(3)
    );
}

#[test]
fn protocol_violation_reads_type_and_location() {
    let f = error_frame(0x8, &[0, 0, 0x04, 0x19]);
    assert_eq!(
        CANError::from_frame(&f).unwrap(),
        CANError::ProtocolViolation {
            vtype: ViolationType::BitStuffingError,
            location: Location::AckSlot
        }
    );
    assert_eq!(
        CANError::from_frame(&error_frame(0x8, &[0, 0, 0x03, 0x19])).unwrap_err(),
        CANErrorDecodingFailure::InvlaidViolationType
    );
    assert_eq!(
        CANError::from_frame(&error_frame(0x8, &[0, 0, 0x80, 0x01])).unwrap_err(),
        CANErrorDecodingFailure::InvalidLocation
    );
}

#[test]
fn classes_without_detail() {
    assert_eq!(CANError::from_frame(&error_frame(0x1, &[])).unwrap(), CANError::TransmitTimeout);
    assert_eq!(CANError::from_frame(&error_frame(0x10, &[])).unwrap(), CANError::TransceiverError);
    assert_eq!(CANError::from_frame(&error_frame(0x20, &[])).unwrap(), CANError::NoAck);
    assert_eq!(CANError::from_frame(&error_frame(0x40, &[])).unwrap(), CANError::BusOff);
    assert_eq!(CANError::from_frame(&error_frame(0x80, &[])).unwrap(), CANError::BusError);
    assert_eq!(CANError::from_frame(&error_frame(0x100, &[])).unwrap(), CANError::Restarted);
}

#[test]
fn unknown_error_class_is_refused_with_its_code() {
    assert_eq!(
        CANError::from_frame(&error_frame(0x3, &[])).unwrap_err(),
        CANErrorDecodingFailure::UnknownErrorType(0x3)
    );
    assert_eq!(
        CANError::from_frame(&error_frame(0x200, &[1, 2])).unwrap_err(),
        CANErrorDecodingFailure::UnknownErrorType(0x200)
    );
}

#[test]
fn detail_tables() {
    assert_eq!(ControllerProblem::try_from(0x40u8).unwrap(), ControllerProblem::Active);
    assert_eq!(
        ControllerProblem::try_from(0x03u8).unwrap_err(),
        CANErrorDecodingFailure::InvalidControllerProblem
    );
    assert_eq!(ViolationType::try_from(0x80u8).unwrap(), ViolationType::TransmissionError);
    assert_eq!(Location::try_from(0x12u8).unwrap(), Location::Intermission);
    assert_eq!(Location::try_from(0x0Fu8).unwrap(), Location::Id1205);
    assert_eq!(Location::try_from(0x01u8).unwrap_err(), CANErrorDecodingFailure::InvalidLocation);
    assert_eq!(TransceiverError::try_from(0x70u8).unwrap(), TransceiverError::CanLowShortToGnd);
    assert_eq!(
        TransceiverError::try_from(0x08u8).unwrap_err(),
        CANErrorDecodingFailure::InvalidTransceiverError
    );
}

#[test]
fn controller_specific_bytes() {
    let f = error_frame(0x4, &[0, 1, 2, 3, 4, 5, 6, 7]);
    assert_eq!(f.get_ctrl_err(), Some(&[5u8, 6, 7][..]));
    let g = error_frame(0x4, &[0, 1, 2]);
    assert_eq!(g.get_ctrl_err(), None);
}

#[test]
fn construction_error_texts() {
    assert_eq!(ConstructionError::IDTooLarge.message(), "CAN ID too large");
    assert_eq!(
        ConstructionError::TooMuchData.message(),
        "Payload is larger than CAN maximum of 8 bytes"
    );
    assert_eq!(ConstructionError::IDTooLarge.description(), "can id too large");
    assert_eq!(ConstructionError::TooMuchData.description(), "too much data");
}
