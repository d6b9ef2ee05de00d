use alpine_protocol::control::{ControlClient, ControlCrypto, ControlResponder};
use alpine_protocol::crypto::{compute_mac, verify_mac, SessionKeys};
use alpine_protocol::handshake::HandshakeOutcome;
use alpine_protocol::messages::{CapabilitySet, DeviceIdentity, SessionEstablished};
use alpine_protocol::session::{AlnpRole, AlnpSession};
use alpine_protocol::handshake::replay::ReplayWindow;
use alpine_protocol::handshake::transport::{
    ControlAction, ControlEvent, PendingSend, ReliableControlChannel, TimeoutTransport,
};
use alpine_protocol::handshake::{HandshakeError, HandshakeMessage};
use alpine_protocol::messages::{
    Acknowledge, ControlEnvelope, ControlHeader, ControlOp, Keepalive, MessageType,
};
use alpine_protocol::session_id::SessionId;
use std::collections::BTreeMap;

fn ctl_keys() -> SessionKeys {
    SessionKeys { shared_secret: vec![1; 32], control_key: [0x5a; 32], stream_key: [0xa5; 32] }
}

fn ctl_sid() -> SessionId {
    SessionId { high: 0x0102_0304_0506_0708, low: 0x1112_1314_1516_1718 }
}

fn ctl_crypto() -> ControlCrypto {
    ControlCrypto::new(ctl_keys())
}

fn ctl_session() -> AlnpSession {
    let mut session = AlnpSession::new(AlnpRole::Controller, 0);
    session.begin_handshake().unwrap();
    session
        .complete_handshake(
            HandshakeOutcome {
                established: SessionEstablished {
                    session_id: ctl_sid(),
                    controller_nonce: vec![1; 32],
                    device_nonce: vec![2; 32],
                    capabilities: CapabilitySet::default(),
                    device_identity: DeviceIdentity {
                        device_id: "d".to_string(),
                        manufacturer_id: "m".to_string(),
                        model_id: "o".to_string(),
                        hardware_rev: "h".to_string(),
                        firmware_rev: "f".to_string(),
                    },
                },
                keys: ctl_keys(),
            },
            1,
        )
        .unwrap();
    session
}

fn ctl_lock_payload() -> Vec<u8> {
    let mut object = serde_json::Map::new();
    object.insert("action".to_string(), serde_json::Value::String("lock".to_string()));
    serde_cbor::to_vec(&serde_json::Value::Object(object)).unwrap()
}

fn ctl_ack(seq: u64, nonce: &[u8], ok: bool) -> Acknowledge {
    Acknowledge {
        message_type: MessageType::AlpineControlAck,
        session_id: ctl_sid(),
        header: ControlHeader { seq, nonce: nonce.to_vec(), timestamp_ms: 0 },
        ok,
        detail: None,
        payload: None,
        mac: vec![0; 16],
    }
}

fn ctl_begin(channel: &mut ReliableControlChannel<()>) -> PendingSend {
    let (pending, action) = channel
        .begin_send(&ctl_crypto(), ctl_sid(), ControlOp::Identify, vec![1, 2, 3], vec![7; 16], 99)
        .unwrap();
    assert!(matches!(action, ControlAction::Transmit { timeout_ms: 200 }));
    pending
}

fn ctl_record(ok: bool, detail: Option<&str>, payload: Option<&[u8]>) -> Vec<u8> {
    let mut map = BTreeMap::new();
    map.insert(serde_cbor::Value::Text("ok".to_string()), serde_cbor::Value::Bool(ok));
    map.insert(
        serde_cbor::Value::Text("detail".to_string()),
        match detail {
            Some(text) => serde_cbor::Value::Text(text.to_string()),
            None => serde_cbor::Value::Null,
        },
    );
    if let Some(bytes) = payload {
        map.insert(
            serde_cbor::Value::Text("payload".to_string()),
            serde_cbor::Value::Array(
                bytes.iter().map(|b| serde_cbor::Value::Integer(*b as i128)).collect(),
            ),
        );
    }
    serde_cbor::to_vec(&serde_cbor::Value::Map(map)).unwrap()
}

#[test]
fn control_round_trip() {
    // Controller sends Identify {"action":"lock"}; the node verifies the tag
    // and acknowledges; the sender reports ok.
    let session_id = ctl_sid();
    let client = ControlClient::new(SessionId { high: 1, low: 1 }, session_id, ctl_crypto());
    let responder = ControlResponder::new(session_id, ctl_crypto());
    let mut channel = ReliableControlChannel::new(());

    let session = ctl_session();
    let (mut pending, action) = client
        .send(&session, &mut channel, ControlOp::Identify, ctl_lock_payload(), 1_000)
        .unwrap();
    assert!(matches!(action, ControlAction::Transmit { timeout_ms: 200 }));
    assert_eq!(pending.envelope.header.seq, 1);
    assert_eq!(pending.envelope.header.nonce.len(), 16);
    assert_eq!(pending.envelope.header.timestamp_ms, 1_000);
    assert_eq!(pending.envelope.op, ControlOp::Identify);
    assert_eq!(pending.envelope.message_type, MessageType::AlpineControl);
    assert_eq!(pending.envelope.payload, ctl_lock_payload());

    responder.verify(&pending.envelope).unwrap();
    let record = ctl_record(true, Some("ok"), None);
    let ack = responder
        .respond(&pending.envelope, true, Some("ok".to_string()), None, &record, 2_000)
        .unwrap();
    assert_eq!(ack.mac.len(), 16);
    assert!(ctl_crypto().verify_ack(&ack, &record).is_ok());
    assert_eq!(ack.message_type, MessageType::AlpineControlAck);
    assert_eq!(ack.session_id, session_id);
    assert_eq!(
        ack.header,
        ControlHeader {
            seq: 1,
            nonce: pending.envelope.header.nonce.clone(),
            timestamp_ms: 2_000,
        }
    );
    assert_eq!(
        ack.mac,
        ctl_crypto().mac_for_ack(1, &session_id, &record).unwrap()
    );

    let delivered =
        channel.on_event(&mut pending, ControlEvent::Message(HandshakeMessage::Ack(ack)));
    match delivered {
        ControlAction::Delivered(ack) => {
            assert!(ack.ok);
            assert_eq!(ack.detail.as_deref(), Some("ok"));
            assert!(channel.has_seen(&ack.header.nonce));
        }
        other => panic!("unexpected action {:?}", other),
    }
}

#[test]
fn envelope_tag_binds_sequence_session_and_payload() {
    let client = ControlClient::new(SessionId { high: 1, low: 1 }, ctl_sid(), ctl_crypto());
    let header = ControlHeader { seq: 17, nonce: vec![9; 16], timestamp_ms: 5 };
    let envelope = client.envelope(header, ControlOp::SetMode, vec![0xa0]).unwrap();
    let expected = compute_mac(&ctl_keys(), 17, &[0xa0], &ctl_sid().as_bytes()).unwrap();
    assert_eq!(
        envelope,
        ControlEnvelope {
            message_type: MessageType::AlpineControl,
            session_id: ctl_sid(),
            header: ControlHeader { seq: 17, nonce: vec![9; 16], timestamp_ms: 5 },
            op: ControlOp::SetMode,
            payload: vec![0xa0],
            mac: expected,
        }
    );
    assert_eq!(
        ctl_crypto().mac_for_payload(17, &ctl_sid(), &[0xa0]).unwrap(),
        envelope.mac
    );
}

#[test]
fn tampered_payload_is_refused() {
    // A payload that was tampered with on the way no longer matches its tag.
    let client = ControlClient::new(SessionId { high: 1, low: 1 }, ctl_sid(), ctl_crypto());
    let responder = ControlResponder::new(ctl_sid(), ctl_crypto());
    let header = ControlHeader { seq: 3, nonce: vec![9; 16], timestamp_ms: 5 };
    let mut envelope = client.envelope(header, ControlOp::Identify, ctl_lock_payload()).unwrap();
    assert!(responder.verify(&envelope).is_ok());
    envelope.payload[2] ^= 1;
    let refused = responder.verify(&envelope).unwrap_err();
    assert!(matches!(
        &refused,
        HandshakeError::Authentication(detail) if detail == "control MAC validation failed"
    ));
}

#[test]
fn responder_refuses_wrong_sequence_session_key_or_tag_length() {
    let client = ControlClient::new(SessionId { high: 1, low: 1 }, ctl_sid(), ctl_crypto());
    let responder = ControlResponder::new(ctl_sid(), ctl_crypto());
    let header = ControlHeader { seq: 3, nonce: vec![9; 16], timestamp_ms: 5 };
    let good = client.envelope(header, ControlOp::Identify, vec![1, 2]).unwrap();

    let mut other_seq = client
        .envelope(ControlHeader { seq: 3, nonce: vec![], timestamp_ms: 0 }, ControlOp::Identify, vec![1, 2])
        .unwrap();
    other_seq.header.seq = 4;
    assert!(responder.verify(&other_seq).is_err());

    let mut other_session = client
        .envelope(ControlHeader { seq: 3, nonce: vec![], timestamp_ms: 0 }, ControlOp::Identify, vec![1, 2])
        .unwrap();
    other_session.session_id = SessionId { high: 0, low: 0 };
    assert!(responder.verify(&other_session).is_err());

    let stranger = ControlResponder::new(
        ctl_sid(),
        ControlCrypto::new(SessionKeys {
            shared_secret: vec![],
            control_key: [1; 32],
            stream_key: [2; 32],
        }),
    );
    assert!(stranger.verify(&good).is_err());

    let mut short = client
        .envelope(ControlHeader { seq: 3, nonce: vec![], timestamp_ms: 0 }, ControlOp::Identify, vec![1, 2])
        .unwrap();
    short.mac.pop();
    assert!(responder.verify(&short).is_err());
    assert!(ctl_crypto().verify_mac(3, &ctl_sid(), &[1, 2], &good.mac).is_ok());
}

#[test]
fn ack_tag_binds_record_sequence_and_session() {
    let responder = ControlResponder::new(ctl_sid(), ctl_crypto());
    let header = ControlHeader { seq: 8, nonce: vec![4; 16], timestamp_ms: 1 };
    let record = ctl_record(true, Some("done"), Some(&[1, 2]));
    let ack = responder
        .ack(header, true, Some("done".to_string()), Some(vec![1, 2]), &record)
        .unwrap();
    assert_eq!(ack.header, ControlHeader { seq: 8, nonce: vec![4; 16], timestamp_ms: 1 });
    assert!(ack.ok);
    assert_eq!(ack.detail, Some("done".to_string()));
    assert_eq!(ack.payload, Some(vec![1, 2]));
    assert_eq!(ack.mac.len(), 16);
    assert_eq!(ack.mac, compute_mac(&ctl_keys(), 8, &record, &ctl_sid().as_bytes()).unwrap());
    assert!(verify_mac(&ctl_keys(), 8, &record, &ctl_sid().as_bytes(), &ack.mac));
    assert_eq!(ctl_crypto().mac_for_ack(8, &ctl_sid(), &record).unwrap(), ack.mac);
    let other = ctl_record(false, Some("done"), Some(&[1, 2]));
    assert_ne!(ctl_crypto().mac_for_ack(8, &ctl_sid(), &other).unwrap(), ack.mac);
    assert_ne!(ctl_crypto().mac_for_ack(9, &ctl_sid(), &record).unwrap(), ack.mac);
    let elsewhere = SessionId { high: 0, low: 0 };
    assert_ne!(ctl_crypto().mac_for_ack(8, &elsewhere, &record).unwrap(), ack.mac);
}

#[test]
fn new_channel_has_the_default_budget() {
    let mut channel = ReliableControlChannel::new("transport");
    assert_eq!(*channel.transport(), "transport");
    assert!(!channel.has_seen(&[]));
    let mut pending = ctl_begin_str(&mut channel);
    let mut waits = Vec::new();
    loop {
        match channel.on_event(&mut pending, ControlEvent::TimerExpired) {
            ControlAction::Transmit { timeout_ms } => waits.push(timeout_ms),
            ControlAction::Failed(error) => {
                assert_eq!(error.message(), "transport error: retransmit limit exceeded");
                break;
            }
            other => panic!("unexpected action {:?}", other),
        }
    }
    assert_eq!(waits, vec![400, 800, 800]);
    assert_eq!(pending.attempt, 4);
}

fn ctl_begin_str(channel: &mut ReliableControlChannel<&'static str>) -> PendingSend {
    channel
        .begin_send(&ctl_crypto(), ctl_sid(), ControlOp::Identify, vec![1, 2, 3], vec![7; 16], 99)
        .unwrap()
        .0
}

#[test]
fn sequence_numbers_count_up_from_one() {
    let mut channel = ReliableControlChannel::new(());
    assert_eq!(channel.next_seq(), 1);
    assert_eq!(channel.next_seq(), 2);
    let pending = ctl_begin(&mut channel);
    assert_eq!(pending.envelope.header.seq, 3);
    assert_eq!(pending.envelope.header.nonce, vec![7; 16]);
    assert_eq!(pending.envelope.header.timestamp_ms, 99);
    assert_eq!(pending.attempt, 1);
    let expected = compute_mac(&ctl_keys(), 3, &[1, 2, 3], &ctl_sid().as_bytes()).unwrap();
    assert_eq!(pending.envelope.mac, expected);
    assert_eq!(channel.next_seq(), 4);
}

#[test]
fn sequence_wraps_around_to_zero() {
    let mut channel = ReliableControlChannel::resume_after((), u64::MAX - 1);
    assert_eq!(channel.next_seq(), u64::MAX);
    assert_eq!(channel.next_seq(), 0);
    assert_eq!(channel.next_seq(), 1);

    let mut channel = ReliableControlChannel::resume_after((), u64::MAX);
    let mut pending = ctl_begin(&mut channel);
    assert_eq!(pending.envelope.header.seq, 0);
    let expected = compute_mac(&ctl_keys(), 0, &[1, 2, 3], &ctl_sid().as_bytes()).unwrap();
    assert_eq!(pending.envelope.mac, expected);
    // An ack for the number before the wrap does not answer this envelope.
    let late = ctl_ack(u64::MAX, &[1], true);
    assert!(matches!(
        channel.on_event(&mut pending, ControlEvent::Message(HandshakeMessage::Ack(late))),
        ControlAction::Wait
    ));
    let answer = ctl_ack(0, &[2], true);
    assert!(matches!(
        channel.on_event(&mut pending, ControlEvent::Message(HandshakeMessage::Ack(answer))),
        ControlAction::Delivered(_)
    ));
    assert!(channel.has_seen(&[2]));
    assert!(!channel.has_seen(&[1]));
}

#[test]
fn handshake_fail_replay() {
    // The server sends the same Ack{seq:1, nonce:[1,2,3]} twice.
    let mut channel = ReliableControlChannel::new(());
    let mut first = ctl_begin(&mut channel);
    let accepted = channel.on_event(
        &mut first,
        ControlEvent::Message(HandshakeMessage::Ack(ctl_ack(1, &[1, 2, 3], true))),
    );
    assert!(matches!(accepted, ControlAction::Delivered(ack) if ack.header.seq == 1));

    let mut second = ctl_begin(&mut channel);
    assert_eq!(second.envelope.header.seq, 2);
    let replayed = channel.on_event(
        &mut second,
        ControlEvent::Message(HandshakeMessage::Ack(ctl_ack(1, &[1, 2, 3], true))),
    );
    match replayed {
        ControlAction::Failed(error) => {
            assert!(matches!(&error, HandshakeError::Protocol(detail) if detail == "replay detected"))
        }
        other => panic!("unexpected action {:?}", other),
    }
}

#[test]
fn refused_operation_is_delivered_and_not_remembered() {
    let mut channel = ReliableControlChannel::new(());
    let mut pending = ctl_begin(&mut channel);
    let action = channel.on_event(
        &mut pending,
        ControlEvent::Message(HandshakeMessage::Ack(ctl_ack(1, &[5, 5], false))),
    );
    assert!(matches!(action, ControlAction::Delivered(ack) if !ack.ok));
    assert!(!channel.has_seen(&[5, 5]));
}

#[test]
fn control_reorder() {
    // Acks that belong to other envelopes and were not seen before are
    // ignored; the pending envelope is answered by its own ack.
    let mut channel = ReliableControlChannel::new(());
    let _ = ctl_begin(&mut channel);
    let mut pending = ctl_begin(&mut channel);
    assert_eq!(pending.envelope.header.seq, 2);
    let early = channel.on_event(
        &mut pending,
        ControlEvent::Message(HandshakeMessage::Ack(ctl_ack(1, &[1], true))),
    );
    assert!(matches!(early, ControlAction::Wait));
    assert_eq!(pending.attempt, 1);
    assert!(!channel.has_seen(&[1]));
    let own = channel.on_event(
        &mut pending,
        ControlEvent::Message(HandshakeMessage::Ack(ctl_ack(2, &[2], true))),
    );
    assert!(matches!(own, ControlAction::Delivered(ack) if ack.header.seq == 2));
}

#[test]
fn control_retransmit_backoff() {
    let mut channel = ReliableControlChannel::new(());
    channel.set_budget(7, 100, 7);
    let (mut pending, action) = channel
        .begin_send(&ctl_crypto(), ctl_sid(), ControlOp::GetInfo, vec![], vec![0; 16], 0)
        .unwrap();
    assert!(matches!(action, ControlAction::Transmit { timeout_ms: 100 }));
    let mut waits = Vec::new();
    for _ in 0..5 {
        match channel.on_event(&mut pending, ControlEvent::TimerExpired) {
            ControlAction::Transmit { timeout_ms } => waits.push(timeout_ms),
            other => panic!("unexpected action {:?}", other),
        }
    }
    assert_eq!(waits, vec![200, 400, 400, 400, 400]);
    assert_eq!(pending.attempt, 6);
    assert!(matches!(
        channel.on_event(&mut pending, ControlEvent::TimerExpired),
        ControlAction::Failed(HandshakeError::Transport(_))
    ));
    assert_eq!(pending.attempt, 6);
}

#[test]
fn backoff_is_held_to_64_bits() {
    let mut channel = ReliableControlChannel::new(());
    channel.set_budget(9, u64::MAX / 3, 9);
    let mut pending = channel
        .begin_send(&ctl_crypto(), ctl_sid(), ControlOp::GetInfo, vec![], vec![0; 16], 0)
        .unwrap()
        .0;
    assert!(matches!(
        channel.on_event(&mut pending, ControlEvent::TimerExpired),
        ControlAction::Transmit { timeout_ms } if timeout_ms == u64::MAX / 3 * 2
    ));
    assert!(matches!(
        channel.on_event(&mut pending, ControlEvent::TimerExpired),
        ControlAction::Transmit { timeout_ms: u64::MAX }
    ));
}

#[test]
fn drop_threshold_limits_attempts_too() {
    let mut channel = ReliableControlChannel::new(());
    channel.set_budget(5, 10, 2);
    let (mut pending, action) = channel
        .begin_send(&ctl_crypto(), ctl_sid(), ControlOp::GetInfo, vec![], vec![0; 16], 0)
        .unwrap();
    assert!(matches!(action, ControlAction::Transmit { timeout_ms: 10 }));
    assert!(matches!(
        channel.on_event(&mut pending, ControlEvent::TimerExpired),
        ControlAction::Failed(HandshakeError::Transport(detail)) if detail == "retransmit limit exceeded"
    ));
}

#[test]
fn control_keepalive_reset() {
    let mut channel = ReliableControlChannel::new(());
    let mut pending = ctl_begin(&mut channel);
    for _ in 0..3 {
        assert!(matches!(
            channel.on_event(&mut pending, ControlEvent::TimerExpired),
            ControlAction::Transmit { .. }
        ));
    }
    assert_eq!(pending.attempt, 4);
    let keepalive = Keepalive { message_type: MessageType::Keepalive, session_id: ctl_sid(), tick_ms: 5 };
    let action = channel
        .on_event(&mut pending, ControlEvent::Message(HandshakeMessage::Keepalive(keepalive)));
    assert!(matches!(action, ControlAction::RestartTimer { timeout_ms: 200 }));
    assert_eq!(pending.attempt, 0);
    // The budget is whole again: four more retransmissions before the limit.
    let mut waits = Vec::new();
    loop {
        match channel.on_event(&mut pending, ControlEvent::TimerExpired) {
            ControlAction::Transmit { timeout_ms } => waits.push(timeout_ms),
            ControlAction::Failed(_) => break,
            other => panic!("unexpected action {:?}", other),
        }
    }
    assert_eq!(waits, vec![200, 400, 800, 800]);
}

#[test]
fn control_loss_recovery() {
    // The first two transmissions are lost; the third is answered.
    let mut channel = ReliableControlChannel::new(());
    let mut pending = ctl_begin(&mut channel);
    let envelope_before = format!("{:?}", pending.envelope);
    assert!(matches!(
        channel.on_event(&mut pending, ControlEvent::TimerExpired),
        ControlAction::Transmit { timeout_ms: 400 }
    ));
    assert!(matches!(
        channel.on_event(&mut pending, ControlEvent::TimerExpired),
        ControlAction::Transmit { timeout_ms: 800 }
    ));
    assert_eq!(format!("{:?}", pending.envelope), envelope_before);
    let answered = channel.on_event(
        &mut pending,
        ControlEvent::Message(HandshakeMessage::Ack(ctl_ack(1, &[3], true))),
    );
    assert!(matches!(answered, ControlAction::Delivered(ack) if ack.ok));
}

#[test]
fn stray_messages_are_ignored_until_the_budget_is_spent() {
    // A peer that sends anything but acks and keepalives is ignored until
    // the budget is spent.
    let mut channel = ReliableControlChannel::new(());
    let mut pending = ctl_begin(&mut channel);
    let stray = HandshakeMessage::Control(ControlEnvelope {
        message_type: MessageType::AlpineControl,
        session_id: ctl_sid(),
        header: ControlHeader { seq: 1, nonce: vec![], timestamp_ms: 0 },
        op: ControlOp::Restart,
        payload: vec![],
        mac: vec![],
    });
    assert!(matches!(
        channel.on_event(&mut pending, ControlEvent::Message(stray)),
        ControlAction::Wait
    ));
    assert_eq!(pending.attempt, 1);
    let mut failed = false;
    for _ in 0..10 {
        if let ControlAction::Failed(error) = channel.on_event(&mut pending, ControlEvent::TimerExpired) {
            assert!(matches!(error, HandshakeError::Transport(_)));
            failed = true;
            break;
        }
    }
    assert!(failed);
}

#[test]
fn send_signed_is_send_reliable() {
    let mut channel = ReliableControlChannel::new(());
    let (pending, _) = channel
        .send_signed(&ctl_crypto(), ctl_sid(), ControlOp::GetStatus, vec![4], 7)
        .unwrap();
    assert_eq!(pending.envelope.header.seq, 1);
    assert_eq!(pending.envelope.header.nonce.len(), 16);
    let (next, _) = channel
        .send_reliable(&ctl_crypto(), ctl_sid(), ControlOp::GetStatus, vec![4], 8)
        .unwrap();
    assert_eq!(next.envelope.header.seq, 2);
    assert_ne!(next.envelope.header.nonce, pending.envelope.header.nonce);
}

#[test]
fn timeout_transport_keeps_its_parts() {
    let transport = TimeoutTransport::new(5u8, 3_000);
    assert_eq!(transport.recv_timeout(), 3_000);
    assert_eq!(*transport.inner(), 5);
    assert_eq!(transport.into_inner(), 5);
}

#[test]
fn responder_drops_an_envelope_with_a_wrong_tag() {
    let client = ControlClient::new(SessionId { high: 1, low: 1 }, ctl_sid(), ctl_crypto());
    let responder = ControlResponder::new(ctl_sid(), ctl_crypto());
    let header = ControlHeader { seq: 3, nonce: vec![9; 16], timestamp_ms: 5 };
    let mut envelope = client.envelope(header, ControlOp::Identify, vec![1]).unwrap();
    let record = ctl_record(true, None, None);
    assert!(responder.respond(&envelope, true, None, None, &record, 0).is_some());
    envelope.mac[0] ^= 1;
    assert!(responder.respond(&envelope, true, None, None, &record, 0).is_none());
}

#[test]
fn session_that_is_not_ready_accepts_no_control_operation() {
    let client = ControlClient::new(SessionId { high: 1, low: 1 }, ctl_sid(), ctl_crypto());
    let mut channel = ReliableControlChannel::new(());

    let fresh = AlnpSession::new(AlnpRole::Controller, 0);
    let refused = client.send(&fresh, &mut channel, ControlOp::GetInfo, vec![], 0).unwrap_err();
    assert_eq!(refused.message(), "authentication failed: session not ready; streaming blocked");

    let mut timed_out = ctl_session();
    assert!(timed_out.check_timeouts(100_000).is_err());
    let refused =
        client.send(&timed_out, &mut channel, ControlOp::GetInfo, vec![], 0).unwrap_err();
    assert_eq!(refused.message(), "authentication failed: session timeout");

    let mut closed = ctl_session();
    closed.close();
    assert!(client.send(&closed, &mut channel, ControlOp::GetInfo, vec![], 0).is_err());

    // No sequence number was spent on the refusals.
    let (pending, _) =
        client.send(&ctl_session(), &mut channel, ControlOp::GetInfo, vec![], 0).unwrap();
    assert_eq!(pending.envelope.header.seq, 1);
}

#[test]
fn retransmit_under_loss() {
    // A network that drops every fourth datagram, in each of its four
    // phases: the envelope is acknowledged within the budget.
    for phase in 0..4u32 {
        let mut datagrams = phase;
        let mut lost = move || {
            datagrams += 1;
            datagrams % 4 == 0
        };
        let responder = ControlResponder::new(ctl_sid(), ctl_crypto());
        let mut channel = ReliableControlChannel::new(());
        let (mut pending, mut action) = channel
            .begin_send(&ctl_crypto(), ctl_sid(), ControlOp::Identify, vec![1], vec![phase as u8; 16], 0)
            .unwrap();
        let mut transmissions = 0;
        let ack = loop {
            match action {
                ControlAction::Transmit { .. } => {
                    transmissions += 1;
                    let arrived = !lost();
                    let answered = arrived && !lost();
                    action = if answered {
                        let record = ctl_record(true, Some("ok"), None);
                        let ack = responder
                            .respond(&pending.envelope, true, Some("ok".to_string()), None, &record, 1)
                            .unwrap();
                        channel.on_event(&mut pending, ControlEvent::Message(HandshakeMessage::Ack(ack)))
                    } else {
                        channel.on_event(&mut pending, ControlEvent::TimerExpired)
                    };
                }
                ControlAction::Delivered(ack) => break ack,
                other => panic!("unexpected action {:?}", other),
            }
        };
        assert!(ack.ok);
        assert!(transmissions <= 4);
    }
}

#[test]
fn replay_memory_is_a_window_of_the_newest_nonces() {
    let mut channel = ReliableControlChannel::new(());
    assert_eq!(channel.replay_window(), 1024);
    channel.set_replay_window(2);
    for nonce in 1..=3u8 {
        let mut pending = ctl_begin(&mut channel);
        let seq = pending.envelope.header.seq;
        let action = channel.on_event(
            &mut pending,
            ControlEvent::Message(HandshakeMessage::Ack(ctl_ack(seq, &[nonce], true))),
        );
        assert!(matches!(action, ControlAction::Delivered(_)));
    }
    assert!(!channel.has_seen(&[1]));
    assert!(channel.has_seen(&[2]));
    assert!(channel.has_seen(&[3]));

    // A nonce that is remembered already does not push another one out.
    let mut pending = ctl_begin(&mut channel);
    let seq = pending.envelope.header.seq;
    channel.on_event(
        &mut pending,
        ControlEvent::Message(HandshakeMessage::Ack(ctl_ack(seq, &[3], true))),
    );
    assert!(channel.has_seen(&[2]));
    assert!(channel.has_seen(&[3]));

    channel.set_replay_window(1);
    assert!(!channel.has_seen(&[2]));
    assert!(channel.has_seen(&[3]));
    channel.set_replay_window(0);
    assert!(!channel.has_seen(&[3]));
    let mut pending = ctl_begin(&mut channel);
    let seq = pending.envelope.header.seq;
    channel.on_event(
        &mut pending,
        ControlEvent::Message(HandshakeMessage::Ack(ctl_ack(seq, &[4], true))),
    );
    assert!(!channel.has_seen(&[4]));
}

#[test]
fn ack_tag_is_verified_against_the_record_of_its_outcome() {
    let responder = ControlResponder::new(ctl_sid(), ctl_crypto());
    let header = ControlHeader { seq: 8, nonce: vec![4; 16], timestamp_ms: 1 };
    let record = ctl_record(true, Some("done"), Some(&[1, 2]));
    let mut ack = responder
        .ack(header, true, Some("done".to_string()), Some(vec![1, 2]), &record)
        .unwrap();
    assert!(ctl_crypto().verify_ack(&ack, &record).is_ok());
    let refused =
        ctl_crypto().verify_ack(&ack, &ctl_record(false, Some("done"), Some(&[1, 2]))).unwrap_err();
    assert_eq!(refused.message(), "authentication failed: control MAC validation failed");
    assert!(ctl_crypto().verify_ack(&ack, &ctl_record(true, None, Some(&[1, 2]))).is_err());
    assert!(ctl_crypto().verify_ack(&ack, &ctl_record(true, Some("done"), Some(&[1, 3]))).is_err());
    ack.header.seq = 9;
    assert!(ctl_crypto().verify_ack(&ack, &record).is_err());
    ack.header.seq = 8;
    ack.mac.pop();
    assert!(ctl_crypto().verify_ack(&ack, &record).is_err());
}

#[test]
fn replay_memory_holds_no_nonce_twice_and_never_more_than_its_window() {
    let mut memory = ReplayWindow::new(3);
    assert_eq!(memory.window(), 3);
    assert!(!memory.contains(&[1]));
    for nonce in [1u8, 2, 1, 2, 3] {
        memory.remember(&[nonce]);
    }
    // Three distinct nonces fill the window; none was pushed out by a repeat.
    assert!(memory.contains(&[1]) && memory.contains(&[2]) && memory.contains(&[3]));
    memory.remember(&[4]);
    assert!(!memory.contains(&[1]));
    assert!(memory.contains(&[2]) && memory.contains(&[3]) && memory.contains(&[4]));
    memory.resize(1);
    assert_eq!(memory.window(), 1);
    assert!(!memory.contains(&[3]));
    assert!(memory.contains(&[4]));
    memory.resize(5);
    assert!(memory.contains(&[4]));
    memory.remember(&[]);
    assert!(memory.contains(&[]) && memory.contains(&[4]));
    memory.resize(0);
    memory.remember(&[9]);
    assert!(!memory.contains(&[9]));
}
