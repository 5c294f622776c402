use socketcan::frame::CANFrame;
use socketcan::hub::{BusState, PumpAction, PumpEvent, PumpPhase};

fn frame(id: u32) -> CANFrame {
    CANFrame::new(id, &[id as u8], false, false).unwrap()
}

#[test]
fn frame_reaches_every_live_subscriber_and_no_later_one() {
    let mut hub = BusState::new();
    let a = hub.subscribe();
    let b = hub.subscribe();
    let c = hub.subscribe();
    // a frame sent through one subscriber, written and read back from the channel
    hub.send(frame(0x181));
    let mut phase = PumpPhase::Draining;
    let (p, act) = hub.pump_step(phase, PumpEvent::ReadIdle);
    phase = p;
    let written = match act {
        PumpAction::Write(f) => f,
        _ => panic!("expected a write"),
    };
    let (p, _) = hub.pump_step(phase, PumpEvent::WriteDone);
    phase = p;
    assert_eq!(phase, PumpPhase::Resting);
    let (p, act) = hub.pump_step(phase, PumpEvent::Rested);
    assert!(matches!(act, PumpAction::Read));
    let (_, act) = hub.pump_step(p, PumpEvent::Received(written));
    assert!(matches!(act, PumpAction::Read));
    let late = hub.subscribe();
    for s in [a, b, c] {
        assert_eq!(hub.receive(s).map(|f| f.id()), Some(0x181));
        assert!(hub.receive(s).is_none());
    }
    assert!(hub.receive(late).is_none());
}

#[test]
fn delivery_keeps_order_per_subscriber() {
    let mut hub = BusState::new();
    let a = hub.subscribe();
    hub.publish(frame(1));
    let b = hub.subscribe();
    hub.publish(frame(2));
    hub.publish(frame(3));
    assert_eq!(hub.receive(a).unwrap().id(), 1);
    assert_eq!(hub.receive(b).unwrap().id(), 2);
    assert_eq!(hub.receive(a).unwrap().id(), 2);
    assert_eq!(hub.receive(a).unwrap().id(), 3);
    assert_eq!(hub.receive(b).unwrap().id(), 3);
    assert!(hub.receive(a).is_none());
    assert!(hub.receive(b).is_none());
}

#[test]
fn one_subscriber_cannot_take_anothers_frames() {
    let mut hub = BusState::new();
    let a = hub.subscribe();
    let b = hub.subscribe();
    hub.publish(frame(7));
    assert!(hub.receive(a).is_some());
    assert!(hub.receive(a).is_none());
    assert_eq!(hub.receive(b).unwrap().id(), 7);
}

#[test]
fn unsubscribed_and_unknown_subscribers_get_nothing() {
    let mut hub = BusState::new();
    let a = hub.subscribe();
    let b = hub.subscribe();
    hub.unsubscribe(a);
    hub.publish(frame(4));
    assert!(hub.receive(a).is_none());
    assert!(hub.receive(99).is_none());
    hub.unsubscribe(99);
    assert_eq!(hub.receive(b).unwrap().id(), 4);
}

#[test]
fn compaction_keeps_what_is_pending() {
    let mut hub = BusState::new();
    let a = hub.subscribe();
    let b = hub.subscribe();
    for i in 1..=4 {
        hub.publish(frame(i));
    }
    hub.receive(a);
    hub.receive(a);
    hub.receive(a);
    hub.receive(b);
    hub.compact();
    assert_eq!(hub.receive(a).unwrap().id(), 4);
    assert_eq!(hub.receive(b).unwrap().id(), 2);
    hub.compact();
    let c = hub.subscribe();
    hub.publish(frame(5));
    assert_eq!(hub.receive(c).unwrap().id(), 5);
    assert_eq!(hub.receive(b).unwrap().id(), 3);
    assert_eq!(hub.receive(b).unwrap().id(), 4);
    assert_eq!(hub.receive(b).unwrap().id(), 5);
    assert_eq!(hub.receive(a).unwrap().id(), 5);
}

#[test]
fn outbound_queue_is_first_in_first_out() {
    let mut hub = BusState::new();
    hub.send(frame(1));
    hub.send(frame(2));
    assert_eq!(hub.next_outbound().unwrap().id(), 1);
    hub.send(frame(3));
    assert_eq!(hub.next_outbound().unwrap().id(), 2);
    assert_eq!(hub.next_outbound().unwrap().id(), 3);
    assert!(hub.next_outbound().is_none());
}

#[test]
fn pump_drains_then_flushes_then_rests() {
    let mut hub = BusState::new();
    let a = hub.subscribe();
    hub.send(frame(0x10));
    hub.send(frame(0x11));
    let (p, act) = hub.pump_step(PumpPhase::Draining, PumpEvent::Received(frame(0x20)));
    assert_eq!(p, PumpPhase::Draining);
    assert!(matches!(act, PumpAction::Read));
    let (p, act) = hub.pump_step(p, PumpEvent::ReadIdle);
    assert_eq!(p, PumpPhase::Flushing);
    assert!(matches!(act, PumpAction::Write(f) if f.id() == 0x10));
    // a failed write is reported by the caller and the pump goes on
    let (p, act) = hub.pump_step(p, PumpEvent::WriteDone);
    assert!(matches!(act, PumpAction::Write(f) if f.id() == 0x11));
    let (p, act) = hub.pump_step(p, PumpEvent::WriteDone);
    assert_eq!(p, PumpPhase::Resting);
    assert!(matches!(act, PumpAction::Rest));
    let (p, act) = hub.pump_step(p, PumpEvent::Rested);
    assert_eq!(p, PumpPhase::Draining);
    assert!(matches!(act, PumpAction::Read));
    assert_eq!(hub.receive(a).unwrap().id(), 0x20);
}

#[test]
fn stop_exits_and_stays_stopped() {
    let mut hub = BusState::new();
    hub.send(frame(1));
    let (p, act) = hub.pump_step(PumpPhase::Flushing, PumpEvent::StopRequested);
    assert_eq!(p, PumpPhase::Stopped);
    assert!(matches!(act, PumpAction::Exit));
    let (p, act) = hub.pump_step(p, PumpEvent::WriteDone);
    assert_eq!(p, PumpPhase::Stopped);
    assert!(matches!(act, PumpAction::Exit));
    // nothing was taken from the queue
    assert_eq!(hub.next_outbound().unwrap().id(), 1);
}

#[test]
fn pending_frames_then_new_frame_in_order() {
    let mut hub = BusState::new();
    let a = hub.subscribe();
    let b = hub.subscribe();
    hub.publish(frame(1));
    hub.publish(frame(2));
    hub.publish(frame(3));
    let ids: Vec<u32> = (0..4).filter_map(|_| hub.receive(a)).map(|f| f.id()).collect();
    assert_eq!(ids, vec![1, 2, 3]);
    // b's frames were not taken by a's reads
    let ids: Vec<u32> = (0..4).filter_map(|_| hub.receive(b)).map(|f| f.id()).collect();
    assert_eq!(ids, vec![1, 2, 3]);
}

#[test]
fn late_subscriber_gets_only_later_frames() {
    let mut hub = BusState::new();
    let a = hub.subscribe();
    hub.publish(frame(1));
    let late = hub.subscribe();
    hub.publish(frame(2));
    hub.publish(frame(3));
    let ids: Vec<u32> = (0..4).filter_map(|_| hub.receive(late)).map(|f| f.id()).collect();
    assert_eq!(ids, vec![2, 3]);
    assert_eq!(hub.receive(a).unwrap().id(), 1);
}
