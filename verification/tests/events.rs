use jsentinel::events::{
    mock_demo_events, mock_network_event, mock_process_event, EventId, EventKind, EventParseError,
    EventSeverity, EventSource, EventTimestamp, ProcessRef,
};

#[test]
fn mock_events_are_marked_as_mock() {
    for event in mock_demo_events(1) {
        assert_eq!(event.source, EventSource::Mock);
        assert_eq!(event.confidence.as_deref(), Some("demo_only"));
    }
}

#[test]
fn demo_timeline_has_three_warnings_one_critical_and_one_process_event() {
    let events = mock_demo_events(10);
    assert_eq!(events.len(), 7);
    let warnings = events.iter().filter(|e| e.severity == EventSeverity::Warning).count();
    let critical = events.iter().filter(|e| e.severity == EventSeverity::Critical).count();
    let processes = events.iter().filter(|e| e.kind == EventKind::Process).count();
    assert_eq!(warnings, 3);
    assert_eq!(critical, 1);
    assert_eq!(processes, 1);
    for event in &events {
        let demo = event.metadata_json.as_ref().and_then(|m| m.get("demo")).and_then(|v| v.as_bool());
        assert_eq!(demo, Some(true));
        assert!(event.timestamp.as_str().starts_with("unix:"));
    }
}

#[test]
fn demo_events_have_their_titles() {
    let process = mock_process_event(1);
    assert_eq!(process.kind, EventKind::Process);
    assert_eq!(process.title, "Demo process observed");
    let network = mock_network_event(2);
    assert_eq!(network.kind, EventKind::Network);
    assert_eq!(network.severity, EventSeverity::Warning);
    assert!(network.id.as_str().starts_with("network-"));
    assert!(network.id.as_str().ends_with("-2"));
}

#[test]
fn event_names_round_trip_and_unknown_names_are_rejected() {
    assert_eq!(EventKind::parse("locked_file"), Ok(EventKind::LockedFile));
    assert_eq!(EventKind::DeviceAccess.as_str(), "device_access");
    assert_eq!(EventSeverity::parse(EventSeverity::Critical.as_str()), Ok(EventSeverity::Critical));
    assert_eq!(EventSource::parse("mock"), Ok(EventSource::Mock));
    assert_eq!(
        EventKind::parse("keyboard"),
        Err(EventParseError::UnknownKind("keyboard".to_string()))
    );
    assert_eq!(
        EventSeverity::parse("fatal"),
        Err(EventParseError::UnknownSeverity("fatal".to_string()))
    );
    assert_eq!(
        EventSource::parse("cloud"),
        Err(EventParseError::UnknownSource("cloud".to_string()))
    );
    assert_eq!(
        EventParseError::UnknownSource("cloud".to_string()).message(),
        "unknown event source: cloud"
    );
}

#[test]
fn identifiers_and_timestamps_keep_their_text() {
    assert_eq!(EventId::at("file", 123, 4).as_str(), "file-123-4");
    assert_eq!(EventId::new("abc").as_str(), "abc");
    assert_eq!(EventTimestamp::new("unix:5").as_str(), "unix:5");
    let process = ProcessRef::new(Some(4), "System", None);
    assert_eq!(process.pid, Some(4));
    assert_eq!(process.name, "System");
    assert_eq!(process.path, None);
}

#[test]
fn demo_event_ids_are_distinct_and_numbered() {
    let events = mock_demo_events(40);
    for (i, a) in events.iter().enumerate() {
        assert!(a.id.as_str().starts_with(&format!("{}-", a.kind.as_str())));
        assert!(a.id.as_str().ends_with(&format!("-{}", 40 + i)));
        for b in events.iter().skip(i + 1) {
            assert_ne!(a.id, b.id);
        }
    }
    let copy = events[1].clone();
    assert_eq!(copy, events[1]);
}
