use alpine_protocol::crypto::SessionKeys;
use alpine_protocol::handshake::HandshakeOutcome;
use alpine_protocol::messages::{
    CapabilitySet, ChannelFormat, ChannelGroup, DeviceIdentity, FrameEnvelope, MessageType,
    MetadataEntry, MetadataField, MetadataScalar, MetadataValue, SessionEstablished,
};
use alpine_protocol::profile::{ProfileError, StreamIntent, StreamProfile};
use alpine_protocol::session::{AlnpRole, AlnpSession, JitterStrategy};
use alpine_protocol::session_id::SessionId;
use alpine_protocol::stream::adaptive::{
    decide_next_state, event_name, AdaptationEvent, AdaptationState,
};
use alpine_protocol::stream::network::NetworkConditions;
use alpine_protocol::stream::recovery::{
    RecoveryEvent, RecoveryMonitor, RecoveryReason, RecoveryThresholds,
};
use alpine_protocol::stream::{
    annotate_metadata, apply_jitter, AlnpStream, FrameCodec, FrameTransport, QuicFrameTransport,
    StreamError,
};
use std::cell::RefCell;
use std::rc::Rc;

struct StreamSink {
    frames: Rc<RefCell<Vec<Vec<u8>>>>,
    refuse: Rc<RefCell<bool>>,
}

impl FrameTransport for StreamSink {
    fn send_frame(&self, bytes: &[u8]) -> Result<(), String> {
        if *self.refuse.borrow() {
            return Err("socket closed".to_string());
        }
        self.frames.borrow_mut().push(bytes.to_vec());
        Ok(())
    }
}

fn stream_sid() -> SessionId {
    SessionId { high: 0xaaaa, low: 0xbbbb }
}

fn stream_session() -> AlnpSession {
    let mut session = AlnpSession::new(AlnpRole::Controller, 0);
    session.begin_handshake().unwrap();
    session
        .complete_handshake(
            HandshakeOutcome {
                established: SessionEstablished {
                    session_id: stream_sid(),
                    controller_nonce: vec![1; 32],
                    device_nonce: vec![2; 32],
                    capabilities: CapabilitySet::default(),
                    device_identity: DeviceIdentity {
                        device_id: "d".to_string(),
                        manufacturer_id: "m".to_string(),
                        model_id: "o".to_string(),
                        hardware_rev: "h".to_string(),
                        firmware_rev: "f".to_string(),
                    },
                },
                keys: SessionKeys {
                    shared_secret: vec![],
                    control_key: [0; 32],
                    stream_key: [0; 32],
                },
            },
            1,
        )
        .unwrap();
    session
}

fn stream_engine(profile: StreamProfile) -> (AlnpStream<StreamSink>, Rc<RefCell<Vec<Vec<u8>>>>, Rc<RefCell<bool>>) {
    let frames = Rc::new(RefCell::new(Vec::new()));
    let refuse = Rc::new(RefCell::new(false));
    let sink = StreamSink { frames: frames.clone(), refuse: refuse.clone() };
    (AlnpStream::new(sink, profile.compile().unwrap()), frames, refuse)
}

fn stream_send(
    stream: &mut AlnpStream<StreamSink>,
    session: &AlnpSession,
    channels: Vec<u16>,
    now_us: u64,
) -> Result<FrameEnvelope, StreamError> {
    let frame = stream.prepare(session, ChannelFormat::U16, channels, 3, None, None, now_us)?;
    let copy = FrameEnvelope {
        message_type: frame.message_type,
        session_id: frame.session_id,
        timestamp_us: frame.timestamp_us,
        priority: frame.priority,
        channel_format: frame.channel_format,
        channels: frame.channels.clone(),
        groups: None,
        metadata: None,
    };
    let encoded: Vec<u8> = frame.channels.iter().flat_map(|c| c.to_be_bytes()).collect();
    stream.transmit(frame, Ok(encoded))?;
    Ok(copy)
}

fn stream_field<'a>(entries: &'a [MetadataEntry], key: &str, name: &str) -> &'a MetadataScalar {
    let entry = entries.iter().find(|e| e.key == key).unwrap();
    match &entry.value {
        MetadataValue::Record(fields) => {
            &fields.iter().find(|f| f.name == name).unwrap().value
        }
        other => panic!("no record under {}: {:?}", key, other),
    }
}

fn stream_quiet() -> NetworkConditions {
    NetworkConditions { loss_permille: 0, jitter_ms: 1, rtt_ms: 10, throughput_kbps: 10_000 }
}

#[test]
fn frame_streaming_basic() {
    let session = stream_session();
    let (mut stream, frames, _) = stream_engine(StreamProfile::realtime());
    let frame = stream_send(&mut stream, &session, vec![1, 2, 3, 4], 1_234).unwrap();
    assert_eq!(frame.message_type, MessageType::AlpineFrame);
    assert_eq!(frame.session_id, stream_sid());
    assert_eq!(frame.timestamp_us, 1_234);
    assert_eq!(frame.priority, 3);
    assert_eq!(frame.channel_format, ChannelFormat::U16);
    assert_eq!(frame.channels, vec![1, 2, 3, 4]);
    assert_eq!(frames.borrow().len(), 1);
    assert_eq!(frames.borrow()[0], vec![0, 1, 0, 2, 0, 3, 0, 4]);
}

#[test]
fn streaming_hold_last() {
    // Send [9,9,9]; send []: the second transmission carries [9,9,9].
    let session = stream_session();
    let (mut stream, frames, _) = stream_engine(StreamProfile::realtime());
    assert_eq!(stream.jitter_strategy_from_profile(), JitterStrategy::HoldLast);
    stream_send(&mut stream, &session, vec![9, 9, 9], 1).unwrap();
    let second = stream_send(&mut stream, &session, vec![], 2).unwrap();
    assert_eq!(second.channels, vec![9, 9, 9]);
    assert_eq!(frames.borrow()[1], vec![0, 9, 0, 9, 0, 9]);
}

#[test]
fn first_frame_goes_out_as_it_came_in() {
    let session = stream_session();
    let (mut stream, _, _) = stream_engine(StreamProfile::realtime());
    assert_eq!(stream_send(&mut stream, &session, vec![], 1).unwrap().channels, Vec::<u16>::new());
    let (mut stream, _, _) = stream_engine(StreamProfile::install());
    assert_eq!(stream.jitter_strategy_from_profile(), JitterStrategy::Lerp);
    assert_eq!(stream_send(&mut stream, &session, vec![100, 200], 1).unwrap().channels, vec![100, 200]);
}

#[test]
fn frame_jitter_modes() {
    let last = vec![10u16, 20, 65_535];
    assert_eq!(apply_jitter(JitterStrategy::HoldLast, Some(&last), vec![]), last);
    assert_eq!(apply_jitter(JitterStrategy::HoldLast, Some(&last), vec![1]), vec![1]);
    assert_eq!(apply_jitter(JitterStrategy::HoldLast, None, vec![]), Vec::<u16>::new());
    assert_eq!(apply_jitter(JitterStrategy::Drop, Some(&last), vec![]), Vec::<u16>::new());
    assert_eq!(apply_jitter(JitterStrategy::Drop, Some(&last), vec![7, 8]), vec![7, 8]);
    assert_eq!(
        apply_jitter(JitterStrategy::Lerp, Some(&last), vec![20, 31, 65_535, 40, 1]),
        vec![15, 25, 65_535, 20, 0]
    );
    assert_eq!(apply_jitter(JitterStrategy::Lerp, Some(&last), vec![]), Vec::<u16>::new());
    assert_eq!(apply_jitter(JitterStrategy::Lerp, None, vec![4, 5]), vec![4, 5]);
    assert_eq!(apply_jitter(JitterStrategy::Lerp, Some(&vec![]), vec![4, 5]), vec![2, 2]);
}

#[test]
fn resilient_stream_blends_with_the_last_frame() {
    let session = stream_session();
    let (mut stream, _, _) = stream_engine(StreamProfile::install());
    stream_send(&mut stream, &session, vec![100, 200], 1).unwrap();
    let second = stream_send(&mut stream, &session, vec![200, 100, 50], 2).unwrap();
    assert_eq!(second.channels, vec![150, 150, 25]);
    let third = stream_send(&mut stream, &session, vec![150], 3).unwrap();
    assert_eq!(third.channels, vec![150]);
}

#[test]
fn stream_needs_a_ready_session_with_streaming_enabled() {
    let (mut stream, frames, _) = stream_engine(StreamProfile::auto());
    let fresh = AlnpSession::new(AlnpRole::Controller, 0);
    assert!(matches!(
        stream_send(&mut stream, &fresh, vec![1], 1),
        Err(StreamError::NotAuthenticated)
    ));
    let mut session = stream_session();
    session.set_streaming_enabled(false);
    assert!(matches!(
        stream_send(&mut stream, &session, vec![1], 1),
        Err(StreamError::StreamingDisabled)
    ));
    session.set_streaming_enabled(true);
    session.fail("gone".to_string());
    assert!(matches!(
        stream_send(&mut stream, &session, vec![1], 1),
        Err(StreamError::NotAuthenticated)
    ));
    assert!(frames.borrow().is_empty());
    assert_eq!(stream.adaptation().frames_since_keyframe, 0);
}

#[test]
fn only_a_frame_that_went_out_becomes_the_last_frame() {
    let session = stream_session();
    let (mut stream, frames, refuse) = stream_engine(StreamProfile::realtime());
    stream_send(&mut stream, &session, vec![5, 5], 1).unwrap();
    *refuse.borrow_mut() = true;
    let refused = stream_send(&mut stream, &session, vec![7, 7], 2).unwrap_err();
    assert!(matches!(&refused, StreamError::Transport(reason) if reason == "socket closed"));
    assert_eq!(refused.message(), "transport error: socket closed");
    *refuse.borrow_mut() = false;
    let held = stream_send(&mut stream, &session, vec![], 3).unwrap();
    assert_eq!(held.channels, vec![5, 5]);
    assert_eq!(frames.borrow().len(), 2);
}

#[test]
fn a_frame_that_cannot_be_encoded_is_a_transport_error() {
    let session = stream_session();
    let (mut stream, frames, _) = stream_engine(StreamProfile::realtime());
    let frame = stream.prepare(&session, ChannelFormat::U8, vec![1], 0, None, None, 5).unwrap();
    let refused = stream.transmit(frame, Err("too deep".to_string())).unwrap_err();
    assert!(matches!(&refused, StreamError::Transport(reason) if reason == "encode: too deep"));
    assert!(frames.borrow().is_empty());
}

#[test]
fn frame_carries_groups_and_annotated_metadata() {
    let session = stream_session();
    let (mut stream, _, _) = stream_engine(StreamProfile::realtime());
    let groups = vec![ChannelGroup { name: "front".to_string(), channels: vec![1, 2] }];
    let metadata = vec![
        MetadataEntry { key: "scene".to_string(), value: MetadataValue::Encoded(vec![0x01]) },
        MetadataEntry {
            key: "alpine_adaptation".to_string(),
            value: MetadataValue::Encoded(vec![0x02]),
        },
        MetadataEntry {
            key: "alpine_recovery".to_string(),
            value: MetadataValue::Encoded(vec![0x03]),
        },
    ];
    let frame = stream
        .prepare(&session, ChannelFormat::U8, vec![1, 2], 200, Some(groups), Some(metadata), 77)
        .unwrap();
    assert_eq!(
        frame.groups,
        Some(vec![ChannelGroup { name: "front".to_string(), channels: vec![1, 2] }])
    );
    let entries = frame.metadata.unwrap();
    let keys: Vec<&str> = entries.iter().map(|e| e.key.as_str()).collect();
    assert_eq!(keys, vec!["scene", "alpine_adaptation"]);
    assert_eq!(entries[0].value, MetadataValue::Encoded(vec![0x01]));
    assert_eq!(
        entries[1].value,
        MetadataValue::Record(vec![
            MetadataField { name: "keyframe_interval".to_string(), value: MetadataScalar::Number(30) },
            MetadataField { name: "delta_depth".to_string(), value: MetadataScalar::Number(4) },
            MetadataField { name: "deadline_offset_ms".to_string(), value: MetadataScalar::Number(0) },
            MetadataField { name: "degraded_safe".to_string(), value: MetadataScalar::Flag(false) },
            MetadataField { name: "frames_since_keyframe".to_string(), value: MetadataScalar::Number(1) },
            MetadataField { name: "force_keyframe".to_string(), value: MetadataScalar::Flag(false) },
            MetadataField { name: "event".to_string(), value: MetadataScalar::Text("steady".to_string()) },
        ])
    );
}

#[test]
fn recovery_is_written_into_metadata_while_it_lasts() {
    let session = stream_session();
    let (mut stream, _, _) = stream_engine(StreamProfile::realtime());
    let lossy = NetworkConditions { loss_permille: 51, ..stream_quiet() };
    assert_eq!(
        stream.observe_network_conditions(&lossy),
        Some(RecoveryEvent::RecoveryStarted(RecoveryReason::HighLoss))
    );
    assert_eq!(stream.recovery_reason(), Some(RecoveryReason::HighLoss));
    let frame = stream.prepare(&session, ChannelFormat::U8, vec![1], 0, None, None, 1).unwrap();
    let entries = frame.metadata.unwrap();
    assert_eq!(
        entries[0],
        MetadataEntry {
            key: "alpine_recovery".to_string(),
            value: MetadataValue::Record(vec![
                MetadataField { name: "phase".to_string(), value: MetadataScalar::Text("recovery".to_string()) },
                MetadataField { name: "reason".to_string(), value: MetadataScalar::Text("high_loss".to_string()) },
            ]),
        }
    );
    assert_eq!(
        stream_field(&entries, "alpine_adaptation", "event"),
        &MetadataScalar::Text("degrade".to_string())
    );
    assert_eq!(
        stream_field(&entries, "alpine_adaptation", "degraded_safe"),
        &MetadataScalar::Flag(true)
    );
    assert_eq!(
        stream_field(&entries, "alpine_adaptation", "keyframe_interval"),
        &MetadataScalar::Number(60)
    );

    assert_eq!(
        stream.observe_network_conditions(&stream_quiet()),
        Some(RecoveryEvent::RecoveryComplete(RecoveryReason::HighLoss))
    );
    let frame = stream.prepare(&session, ChannelFormat::U8, vec![1], 0, None, None, 2).unwrap();
    let entries = frame.metadata.unwrap();
    assert!(entries.iter().all(|e| e.key != "alpine_recovery"));
    assert_eq!(
        stream_field(&entries, "alpine_adaptation", "event"),
        &MetadataScalar::Text("recover".to_string())
    );
}

#[test]
fn keyframe_is_forced_when_the_count_reaches_the_interval() {
    let session = stream_session();
    let (mut stream, _, _) = stream_engine(StreamProfile::realtime());
    let mut forced = Vec::new();
    for i in 1..=65u64 {
        let frame = stream.prepare(&session, ChannelFormat::U8, vec![1], 0, None, None, i).unwrap();
        let entries = frame.metadata.unwrap();
        if stream_field(&entries, "alpine_adaptation", "force_keyframe") == &MetadataScalar::Flag(true) {
            forced.push(i);
            assert_eq!(
                stream_field(&entries, "alpine_adaptation", "frames_since_keyframe"),
                &MetadataScalar::Number(0)
            );
        }
        let state = stream.adaptation();
        assert!(state.frames_since_keyframe < state.keyframe_interval);
    }
    assert_eq!(forced, vec![30, 60]);
}

#[test]
fn annotation_replaces_entries_of_the_same_key() {
    let state = AdaptationState {
        keyframe_interval: 12,
        delta_depth: 3,
        deadline_offset_ms: 4,
        degraded_safe: true,
        frames_since_keyframe: 5,
        last_event: Some(AdaptationEvent::Recover),
    };
    let annotated =
        annotate_metadata(None, Some(RecoveryReason::LowThroughput), true, &state).unwrap();
    assert_eq!(annotated.len(), 2);
    assert_eq!(annotated[0].key, "alpine_recovery");
    assert_eq!(
        stream_field(&annotated, "alpine_recovery", "reason"),
        &MetadataScalar::Text("low_throughput".to_string())
    );
    assert_eq!(
        annotated[1].value,
        MetadataValue::Record(vec![
            MetadataField { name: "keyframe_interval".to_string(), value: MetadataScalar::Number(12) },
            MetadataField { name: "delta_depth".to_string(), value: MetadataScalar::Number(3) },
            MetadataField { name: "deadline_offset_ms".to_string(), value: MetadataScalar::Number(4) },
            MetadataField { name: "degraded_safe".to_string(), value: MetadataScalar::Flag(true) },
            MetadataField { name: "frames_since_keyframe".to_string(), value: MetadataScalar::Number(5) },
            MetadataField { name: "force_keyframe".to_string(), value: MetadataScalar::Flag(true) },
            MetadataField { name: "event".to_string(), value: MetadataScalar::Text("recover".to_string()) },
        ])
    );
    let twice = annotate_metadata(Some(annotated), None, false, &state).unwrap();
    assert_eq!(twice.len(), 1);
    assert_eq!(twice[0].key, "alpine_adaptation");
}

#[test]
fn quic_transport_refuses_every_frame() {
    assert_eq!(
        QuicFrameTransport.send_frame(&[1, 2, 3]),
        Err("QUIC transport is not implemented yet".to_string())
    );
}

#[test]
fn stream_error_messages() {
    assert_eq!(StreamError::NotAuthenticated.message(), "sender not authenticated");
    assert_eq!(StreamError::StreamingDisabled.message(), "streaming disabled");
    assert_eq!(StreamError::MissingSession.message(), "no session available");
    assert_eq!(StreamError::Transport("x".to_string()).message(), "transport error: x");
}

#[test]
fn monitor_reports_each_episode_once() {
    let mut monitor = RecoveryMonitor::new();
    assert_eq!(monitor.active_reason(), None);
    let quiet = stream_quiet();
    let jittery = NetworkConditions { jitter_ms: 31, ..quiet };
    let slow = NetworkConditions { rtt_ms: 201, ..quiet };
    let thin = NetworkConditions { throughput_kbps: 499, ..quiet };
    let lossy_and_slow = NetworkConditions { loss_permille: 900, rtt_ms: 900, ..quiet };
    let observations = vec![quiet, jittery, slow, lossy_and_slow, quiet, quiet, thin, quiet, slow];
    let mut events = Vec::new();
    for seen in &observations {
        events.push(monitor.feed(seen));
        assert_eq!(monitor.last_observation, Some(*seen));
    }
    assert_eq!(
        events,
        vec![
            None,
            Some(RecoveryEvent::RecoveryStarted(RecoveryReason::HighJitter)),
            None,
            None,
            Some(RecoveryEvent::RecoveryComplete(RecoveryReason::HighJitter)),
            None,
            Some(RecoveryEvent::RecoveryStarted(RecoveryReason::LowThroughput)),
            Some(RecoveryEvent::RecoveryComplete(RecoveryReason::LowThroughput)),
            Some(RecoveryEvent::RecoveryStarted(RecoveryReason::HighLatency)),
        ]
    );
    assert_eq!(monitor.active_reason(), Some(RecoveryReason::HighLatency));
}

#[test]
fn thresholds_are_crossed_only_beyond_the_limit() {
    let limits = RecoveryThresholds {
        max_loss_permille: 10,
        max_jitter_ms: 20,
        max_rtt_ms: 30,
        min_throughput_kbps: 40,
    };
    let edge = NetworkConditions { loss_permille: 10, jitter_ms: 20, rtt_ms: 30, throughput_kbps: 40 };
    let mut monitor = RecoveryMonitor::with_thresholds(limits);
    assert_eq!(monitor.feed(&edge), None);
    let cases = vec![
        (NetworkConditions { loss_permille: 11, ..edge }, RecoveryReason::HighLoss),
        (NetworkConditions { jitter_ms: 21, ..edge }, RecoveryReason::HighJitter),
        (NetworkConditions { rtt_ms: 31, ..edge }, RecoveryReason::HighLatency),
        (NetworkConditions { throughput_kbps: 39, ..edge }, RecoveryReason::LowThroughput),
        (
            NetworkConditions { loss_permille: 11, jitter_ms: 21, rtt_ms: 31, throughput_kbps: 0 },
            RecoveryReason::HighLoss,
        ),
        (
            NetworkConditions { loss_permille: 0, jitter_ms: 21, rtt_ms: 31, throughput_kbps: 0 },
            RecoveryReason::HighJitter,
        ),
    ];
    for (seen, reason) in cases {
        let mut monitor = RecoveryMonitor::with_thresholds(limits);
        assert_eq!(monitor.feed(&seen), Some(RecoveryEvent::RecoveryStarted(reason)));
        assert_eq!(monitor.feed(&edge), Some(RecoveryEvent::RecoveryComplete(reason)));
    }
    let defaults = RecoveryMonitor::new().thresholds;
    assert_eq!(
        defaults,
        RecoveryThresholds {
            max_loss_permille: 50,
            max_jitter_ms: 30,
            max_rtt_ms: 200,
            min_throughput_kbps: 500,
        }
    );
}

#[test]
fn recovery_reason_texts() {
    assert_eq!(RecoveryReason::HighLoss.as_str(), "high_loss");
    assert_eq!(RecoveryReason::HighJitter.as_str(), "high_jitter");
    assert_eq!(RecoveryReason::HighLatency.as_str(), "high_latency");
    assert_eq!(RecoveryReason::LowThroughput.as_str(), "low_throughput");
    assert_eq!(AdaptationEvent::Degrade.as_str(), "degrade");
    assert_eq!(AdaptationEvent::Recover.as_str(), "recover");
    assert_eq!(event_name(None), "steady");
    assert_eq!(event_name(Some(AdaptationEvent::Degrade)), "degrade");
}

#[test]
fn baseline_depends_on_what_the_stream_favours() {
    let latency = StreamIntent { latency_weight: 80, resilience_weight: 20 };
    let resilience = StreamIntent { latency_weight: 20, resilience_weight: 80 };
    assert_eq!(
        AdaptationState::baseline(latency),
        AdaptationState {
            keyframe_interval: 30,
            delta_depth: 4,
            deadline_offset_ms: 0,
            degraded_safe: false,
            frames_since_keyframe: 0,
            last_event: None,
        }
    );
    assert_eq!(
        AdaptationState::baseline(resilience),
        AdaptationState {
            keyframe_interval: 15,
            delta_depth: 2,
            deadline_offset_ms: 5,
            degraded_safe: false,
            frames_since_keyframe: 0,
            last_event: None,
        }
    );
    assert!(latency.favors_latency());
    assert!(!resilience.favors_latency());
    assert!(StreamIntent { latency_weight: 5, resilience_weight: 5 }.favors_latency());
}

#[test]
fn scheduler_degrades_recovers_and_holds_steady() {
    let latency = StreamIntent { latency_weight: 80, resilience_weight: 20 };
    let resilience = StreamIntent { latency_weight: 20, resilience_weight: 80 };
    let start = AdaptationState {
        keyframe_interval: 30,
        delta_depth: 4,
        deadline_offset_ms: 7,
        degraded_safe: false,
        frames_since_keyframe: 29,
        last_event: None,
    };
    let degraded = decide_next_state(&start, Some(RecoveryReason::HighLoss), latency);
    assert_eq!(degraded.event, Some(AdaptationEvent::Degrade));
    assert_eq!(
        degraded.state,
        AdaptationState {
            keyframe_interval: 60,
            delta_depth: 2,
            deadline_offset_ms: 7,
            degraded_safe: true,
            frames_since_keyframe: 29,
            last_event: Some(AdaptationEvent::Degrade),
        }
    );
    let further = decide_next_state(&degraded.state, Some(RecoveryReason::HighLoss), resilience);
    assert_eq!(further.state.keyframe_interval, 60);
    assert_eq!(further.state.delta_depth, 1);
    let floor = decide_next_state(&further.state, Some(RecoveryReason::HighJitter), resilience);
    assert_eq!(floor.state.delta_depth, 1);

    let recovered = decide_next_state(&start, None, latency);
    assert_eq!(recovered.event, Some(AdaptationEvent::Recover));
    assert_eq!(
        recovered.state,
        AdaptationState {
            keyframe_interval: 25,
            delta_depth: 5,
            deadline_offset_ms: 7,
            degraded_safe: false,
            frames_since_keyframe: 24,
            last_event: Some(AdaptationEvent::Recover),
        }
    );
    let mut state = recovered.state;
    for _ in 0..10 {
        state = decide_next_state(&state, None, latency).state;
        assert!(state.frames_since_keyframe < state.keyframe_interval);
    }
    assert_eq!(state.keyframe_interval, 10);
    assert_eq!(state.delta_depth, 8);
    assert_eq!(state.frames_since_keyframe, 9);

    let steady = decide_next_state(&degraded.state, None, resilience);
    assert_eq!(steady.event, None);
    assert_eq!(
        steady.state,
        AdaptationState { last_event: None, ..degraded.state }
    );
}

#[test]
fn keyframe_counter_wraps_at_the_interval() {
    let mut state = AdaptationState {
        keyframe_interval: 3,
        delta_depth: 1,
        deadline_offset_ms: 0,
        degraded_safe: false,
        frames_since_keyframe: 0,
        last_event: None,
    };
    let forced: Vec<bool> = (0..7).map(|_| state.should_emit_keyframe()).collect();
    assert_eq!(forced, vec![false, false, true, false, false, true, false]);
    assert_eq!(state.frames_since_keyframe, 1);
    let mut every = AdaptationState { keyframe_interval: 1, ..state };
    assert!(every.should_emit_keyframe());
    assert!(every.should_emit_keyframe());
    assert_eq!(every.frames_since_keyframe, 0);
    let mut none = AdaptationState { keyframe_interval: 0, frames_since_keyframe: 9, ..state };
    assert!(none.should_emit_keyframe());
    assert_eq!(none.frames_since_keyframe, 0);
}

#[test]
fn profiles_compile_or_say_why_not() {
    let compiled = StreamProfile::realtime().compile().unwrap();
    assert_eq!(compiled.latency_weight(), 80);
    assert_eq!(compiled.resilience_weight(), 20);
    assert_eq!(compiled.intent(), StreamIntent { latency_weight: 80, resilience_weight: 20 });
    assert_eq!(compiled.config_id(), "latency-favored");
    assert_eq!(compiled.clone().config_id(), "latency-favored");
    assert_eq!(StreamProfile::install().compile().unwrap().config_id(), "resilience-favored");
    assert_eq!(StreamProfile::auto().compile().unwrap().config_id(), "balanced");
    assert_eq!(StreamProfile::auto(), StreamProfile { latency_weight: 50, resilience_weight: 50 });
    let none = StreamProfile { latency_weight: 0, resilience_weight: 0 }.compile().unwrap_err();
    assert_eq!(none, ProfileError::NoPreference);
    assert_eq!(none.message(), "profile states no preference");
    let over = StreamProfile { latency_weight: 101, resilience_weight: 0 }.compile().unwrap_err();
    assert_eq!(over, ProfileError::WeightOutOfRange);
    assert_eq!(over.message(), "profile weight above 100");
    assert!(StreamProfile { latency_weight: 100, resilience_weight: 0 }.compile().is_ok());
    assert!(StreamProfile { latency_weight: 0, resilience_weight: 1 }.compile().is_ok());
}

/// A codec that writes the channels big-endian after the priority, and
/// refuses frames of more than four channels.
struct StreamToyCodec;

impl FrameCodec for StreamToyCodec {
    fn encode(&self, frame: &FrameEnvelope) -> Result<Vec<u8>, String> {
        if frame.channels.len() > 4 {
            return Err("too many channels".to_string());
        }
        let mut bytes = vec![frame.priority];
        bytes.extend(frame.channels.iter().flat_map(|c| c.to_be_bytes()));
        Ok(bytes)
    }
}

#[test]
fn send_prepares_encodes_and_transmits() {
    let session = stream_session();
    let (mut stream, frames, refuse) = stream_engine(StreamProfile::realtime());
    stream
        .send(&session, &StreamToyCodec, ChannelFormat::U16, vec![258, 3], 7, None, None, 10)
        .unwrap();
    assert_eq!(*frames.borrow(), vec![vec![7, 1, 2, 0, 3]]);
    assert_eq!(stream.adaptation().frames_since_keyframe, 1);

    // The codec refuses: a transport error, and the last frame stays.
    let refused = stream
        .send(&session, &StreamToyCodec, ChannelFormat::U16, vec![1; 5], 7, None, None, 11)
        .unwrap_err();
    assert!(matches!(
        &refused,
        StreamError::Transport(reason) if reason == "encode: too many channels"
    ));
    assert_eq!(stream.adaptation().frames_since_keyframe, 2);

    // The transport refuses: the same.
    *refuse.borrow_mut() = true;
    let refused = stream
        .send(&session, &StreamToyCodec, ChannelFormat::U16, vec![9], 7, None, None, 12)
        .unwrap_err();
    assert!(matches!(&refused, StreamError::Transport(reason) if reason == "socket closed"));
    *refuse.borrow_mut() = false;

    // HoldLast falls back on the one frame that went out.
    stream.send(&session, &StreamToyCodec, ChannelFormat::U16, vec![], 7, None, None, 13).unwrap();
    assert_eq!(frames.borrow().last().unwrap(), &vec![7, 1, 2, 0, 3]);

    let mut disabled = stream_session();
    disabled.set_streaming_enabled(false);
    let before = stream.adaptation();
    assert!(matches!(
        stream.send(&disabled, &StreamToyCodec, ChannelFormat::U16, vec![1], 7, None, None, 14),
        Err(StreamError::StreamingDisabled)
    ));
    assert_eq!(stream.adaptation(), before);
    assert_eq!(frames.borrow().len(), 2);
}

#[test]
fn settle_takes_in_the_transport_answer() {
    let session = stream_session();
    let (mut stream, frames, _) = stream_engine(StreamProfile::realtime());
    let first = stream.prepare(&session, ChannelFormat::U16, vec![5, 6], 1, None, None, 1).unwrap();
    assert!(stream.settle(first, Ok(())).is_ok());
    let second = stream.prepare(&session, ChannelFormat::U16, vec![7], 1, None, None, 2).unwrap();
    let refused = stream.settle(second, Err("no route".to_string())).unwrap_err();
    assert!(matches!(&refused, StreamError::Transport(reason) if reason == "no route"));
    // The frame that was taken is the last frame; the refused one is not.
    let held = stream.prepare(&session, ChannelFormat::U16, vec![], 1, None, None, 3).unwrap();
    assert_eq!(held.channels, vec![5, 6]);
    assert!(frames.borrow().is_empty());
}
