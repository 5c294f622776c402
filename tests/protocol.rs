use socketcan::canopen::{
    sync_frame, CANOpenNodeCommand, CANOpenNodeMessage, MessageParseError, NMTCommand, NMTState,
    PDO,
};
use socketcan::frame::CANFrame;
use std::convert::TryFrom;

fn classify(id: u32, data: &[u8]) -> Result<CANOpenNodeMessage, MessageParseError> {
    CANOpenNodeMessage::classify(&CANFrame::new(id, data, false, false).unwrap())
}

#[test]
fn sync_with_empty_payload() {
    assert!(matches!(classify(0x080, &[]), Ok(CANOpenNodeMessage::SyncReceived)));
}

#[test]
fn nmt_operational() {
    assert!(matches!(
        classify(0x700, &[0x05]),
        Ok(CANOpenNodeMessage::NMTReceived(NMTState::Operational))
    ));
}

#[test]
fn unknown_identifier_is_refused_with_its_function_code() {
    assert!(matches!(classify(0x999, &[]), Err(MessageParseError::InvalidID(0x980))));
    assert!(matches!(classify(0x585, &[1]), Err(MessageParseError::InvalidID(0x580))));
    assert!(matches!(classify(0x205, &[1]), Err(MessageParseError::InvalidID(0x200))));
}

#[test]
fn nmt_states_and_fallback() {
    assert!(matches!(classify(0x705, &[0x04]), Ok(CANOpenNodeMessage::NMTReceived(NMTState::Stopped))));
    assert!(matches!(
        classify(0x77f, &[0x7f]),
        Ok(CANOpenNodeMessage::NMTReceived(NMTState::PreOperational))
    ));
    assert!(matches!(
        classify(0x700, &[0x33]),
        Ok(CANOpenNodeMessage::NMTReceived(NMTState::Initializing))
    ));
    assert!(matches!(
        classify(0x700, &[]),
        Ok(CANOpenNodeMessage::NMTReceived(NMTState::Initializing))
    ));
    assert_eq!(NMTState::from(0x05u8), NMTState::Operational);
    assert_eq!(NMTState::from(0x00u8), NMTState::Initializing);
}

#[test]
fn process_data_channels() {
    let expect = [
        (0x181, PDO::PDO1),
        (0x2a0, PDO::PDO2),
        (0x3ff, PDO::PDO3),
        (0x480, PDO::PDO4),
    ];
    for (id, pdo) in expect {
        match classify(id, &[1, 2, 3]) {
            Ok(CANOpenNodeMessage::PDOReceived(p, data, len)) => {
                assert_eq!(p, pdo);
                assert_eq!(data, [1, 2, 3, 0, 0, 0, 0, 0]);
                assert_eq!(len, 3);
            }
            _ => panic!("not process data"),
        }
    }
}

#[test]
fn extended_identifier_is_masked_by_function_bits() {
    // 0x10180 is extended; its function bits are those of 0x180
    assert!(matches!(classify(0x10180, &[]), Ok(CANOpenNodeMessage::PDOReceived(PDO::PDO1, _, 0))));
}

#[test]
fn channel_codes() {
    assert_eq!(PDO::PDO1.get_from_device_id(), 0x180);
    assert_eq!(PDO::PDO4.get_from_device_id(), 0x480);
    assert_eq!(PDO::PDO1.get_to_device_id(), 0x200);
    assert_eq!(PDO::PDO2.get_to_device_id(), 0x300);
    assert_eq!(PDO::PDO3.get_to_device_id(), 0x400);
    assert_eq!(PDO::PDO4.get_to_device_id(), 0x500);
}

#[test]
fn command_bytes() {
    assert_eq!(u8::from(NMTCommand::GoToOperational), 0x01);
    assert_eq!(u8::from(NMTCommand::GoToStopped), 0x02);
    assert_eq!(u8::from(NMTCommand::GoToPreOperational), 0x80);
    assert_eq!(u8::from(NMTCommand::ResetNode), 0x81);
    assert_eq!(u8::from(NMTCommand::ResetCommunication), 0x82);
}

#[test]
fn serialize_process_data() {
    let f = CANOpenNodeCommand::SendPDO(0x05, PDO::PDO2, [1, 2, 3, 4, 5, 6, 7, 8], 3).serialize();
    assert_eq!(f.id(), 0x305);
    assert_eq!(f.data(), &[1, 2, 3]);
    assert!(!f.is_extended());
    let g = CANOpenNodeCommand::SendPDO(0x7f, PDO::PDO4, [9; 8], 8).serialize();
    assert_eq!(g.id(), 0x57f);
    assert_eq!(g.data(), &[9; 8]);
}

#[test]
fn serialize_nmt() {
    let f = CANOpenNodeCommand::SendNMT(0x12, NMTCommand::ResetNode).serialize();
    assert_eq!(f.id(), 0x712);
    assert_eq!(f.data(), &[0x81]);
    let b = socketcan::canopen::CANOpenNodeCommand::SendNMT(0, NMTCommand::GoToStopped).serialize();
    assert_eq!(b.data(), &[0x02]);
}

#[test]
fn nmt_command_read_back_as_state_report() {
    let f = CANOpenNodeCommand::SendNMT(0x05, NMTCommand::GoToOperational).serialize();
    assert!(matches!(
        CANOpenNodeMessage::classify(&f),
        Ok(CANOpenNodeMessage::NMTReceived(NMTState::Initializing))
    ));
}

#[test]
fn process_data_read_back() {
    // to a node below 0x80 the to-device code is not recognized
    let low = CANOpenNodeCommand::SendPDO(0x05, PDO::PDO1, [1, 2, 0, 0, 0, 0, 0, 0], 2).serialize();
    assert!(matches!(CANOpenNodeMessage::classify(&low), Err(MessageParseError::InvalidID(0x200))));
    // to a node at 0x80 or above it reads as the next channel
    let high = CANOpenNodeCommand::SendPDO(0x85, PDO::PDO1, [1, 2, 3, 4, 5, 6, 7, 8], 2).serialize();
    match CANOpenNodeMessage::classify(&high) {
        Ok(CANOpenNodeMessage::PDOReceived(p, data, len)) => {
            assert_eq!(p, PDO::PDO2);
            assert_eq!(data, [1, 2, 0, 0, 0, 0, 0, 0]);
            assert_eq!(len, 2);
        }
        _ => panic!("not process data"),
    }
}

#[test]
fn sync_pulse_frame() {
    let f = sync_frame();
    assert_eq!(f.id(), 0x80);
    assert_eq!(f.len(), 0);
    assert!(!f.is_rtr() && !f.is_error() && !f.is_extended());
}

#[test]
fn try_from_frame_classifies() {
    let f = CANFrame::new(0x281, &[4, 5], false, false).unwrap();
    match CANOpenNodeMessage::try_from(f) {
        Ok(CANOpenNodeMessage::PDOReceived(p, data, len)) => {
            assert_eq!(p, PDO::PDO2);
            assert_eq!(data, [4, 5, 0, 0, 0, 0, 0, 0]);
            assert_eq!(len, 2);
        }
        _ => panic!("not process data"),
    }
    let g = CANFrame::new(0x600, &[], false, false).unwrap();
    assert!(matches!(CANOpenNodeMessage::try_from(g), Err(MessageParseError::InvalidID(0x600))));
}
