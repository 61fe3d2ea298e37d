use ble_discovery::DiscoveryError;
use ble_discovery::accumulator::Accumulator;
use ble_discovery::accumulator::Event;
use ble_discovery::accumulator::GateStep;
use ble_discovery::accumulator::LookupOutcome;
use ble_discovery::accumulator::LookupStep;
use ble_discovery::accumulator::PAUSE_POLL_MILLIS;
use ble_discovery::accumulator::scan_start_result;
use ble_discovery::accumulator::select_adapter;
use ble_discovery::device::DeviceInfo;
use ble_discovery::device::ManufacturerEntry;
use ble_discovery::device::PropertySet;
use ble_discovery::device::ServiceDataEntry;

fn sample_properties(name: &str, rssi: i16) -> PropertySet {
    PropertySet {
        local_name: Some(name.to_string()),
        tx_power_level: Some(4),
        address: "AA:BB:CC:DD:EE:FF".to_string(),
        rssi: Some(rssi),
        manufacturer_data: vec![ManufacturerEntry { company_id: 0x004C, payload: vec![1, 2, 3] }],
        services: vec![0x1809],
        service_data: vec![ServiceDataEntry { service: 0x180F, payload: vec![9] }],
    }
}

/// Drives one discovery through the machine, delivery succeeding, and
/// returns the published snapshot.
fn discover(acc: &mut Accumulator, id: &str, props: Option<PropertySet>) -> Vec<DeviceInfo> {
    acc.accept_event(Event::Discovered(id.to_string()));
    match acc.poll_pause(false) {
        GateStep::Resolve(resolved) => assert_eq!(resolved, id),
        _ => panic!("a discovered identity must be resolved"),
    }
    let snap = match acc.complete_lookup(LookupOutcome::Properties(props)) {
        LookupStep::Publish(s) => s,
        _ => panic!("a completed lookup must publish a snapshot"),
    };
    assert!(acc.delivery_result(true).is_none());
    snap
}

#[test]
fn monotonic_accumulation() {
    let mut acc = Accumulator::new();
    let ids = ["dev-1", "dev-2", "dev-3"];
    let mut previous: Vec<DeviceInfo> = Vec::new();
    for (k, id) in ids.iter().enumerate() {
        let snap = discover(&mut acc, id, Some(sample_properties(id, -40 - k as i16)));
        // The k-th snapshot has exactly k records ...
        assert_eq!(snap.len(), k + 1);
        // ... and is a prefix-ordered superset of the previous one.
        for (i, earlier) in previous.iter().enumerate() {
            assert_eq!(snap[i].id, earlier.id);
            assert_eq!(snap[i].local_name, earlier.local_name);
            assert_eq!(snap[i].rssi, earlier.rssi);
        }
        assert_eq!(snap[k].id, *id);
        previous = snap;
    }
    assert_eq!(acc.device_count(), 3);
}

#[test]
fn pause_holds_event_and_publishes_nothing() {
    let mut acc = Accumulator::new();
    acc.accept_event(Event::Discovered("paused-dev".to_string()));
    // While the flag is set, every poll says "sleep": nothing is processed,
    // nothing is published, the event stays queued.
    for _ in 0..5 {
        assert!(matches!(acc.poll_pause(true), GateStep::Sleep));
        assert_eq!(acc.device_count(), 0);
    }
    // Once the flag clears, processing resumes with exactly the held event.
    match acc.poll_pause(false) {
        GateStep::Resolve(id) => assert_eq!(id, "paused-dev"),
        _ => panic!("the held event must be processed after the pause"),
    }
    let snap = match acc.complete_lookup(LookupOutcome::Properties(None)) {
        LookupStep::Publish(s) => s,
        _ => panic!("the resumed event must publish a snapshot"),
    };
    assert_eq!(snap.len(), 1);
    assert_eq!(snap[0].id, "paused-dev");
}

#[test]
fn missing_properties_yield_default_record() {
    let mut acc = Accumulator::new();
    let snap = discover(&mut acc, "bare-dev", None);
    assert_eq!(snap.len(), 1);
    let d = &snap[0];
    assert_eq!(d.id, "bare-dev");
    assert_eq!(d.local_name, None);
    assert_eq!(d.tx_power_level, None);
    assert_eq!(d.rssi, None);
    assert_eq!(d.address, "00:00:00:00:00:00");
    assert!(d.manufacturer_data.is_empty());
    assert!(d.services.is_empty());
    assert!(d.service_data.is_empty());
    // The run goes on: the next discovery is still accumulated.
    let snap = discover(&mut acc, "next-dev", Some(sample_properties("next", -50)));
    assert_eq!(snap.len(), 2);
}

#[test]
fn resolved_properties_fill_the_record() {
    let mut acc = Accumulator::new();
    let snap = discover(&mut acc, "rich-dev", Some(sample_properties("Thermometer", -63)));
    let d = &snap[0];
    assert_eq!(d.id, "rich-dev");
    assert_eq!(d.local_name.as_deref(), Some("Thermometer"));
    assert_eq!(d.tx_power_level, Some(4));
    assert_eq!(d.address, "AA:BB:CC:DD:EE:FF");
    assert_eq!(d.rssi, Some(-63));
    assert_eq!(d.manufacturer_data.len(), 1);
    assert_eq!(d.manufacturer_data[0].company_id, 0x004C);
    assert_eq!(d.manufacturer_data[0].payload, vec![1, 2, 3]);
    assert_eq!(d.services, vec![0x1809]);
    assert_eq!(d.service_data.len(), 1);
    assert_eq!(d.service_data[0].service, 0x180F);
    assert_eq!(d.service_data[0].payload, vec![9]);
}

#[test]
fn closed_output_stops_the_run() {
    let mut acc = Accumulator::new();
    acc.accept_event(Event::Discovered("dev".to_string()));
    assert!(matches!(acc.poll_pause(false), GateStep::Resolve(_)));
    assert!(matches!(
        acc.complete_lookup(LookupOutcome::Properties(None)),
        LookupStep::Publish(_)
    ));
    // The consumer dropped the receiving end.
    assert_eq!(acc.delivery_result(false), Some(DiscoveryError::OutputClosed));
    assert!(acc.is_stopped());
    assert_eq!(acc.terminal_result(), Some(Err(DiscoveryError::OutputClosed)));
    // The record pushed before the failure remains valid.
    assert_eq!(acc.device_count(), 1);
}

#[test]
fn property_lookup_failure_aborts_the_run() {
    let mut acc = Accumulator::new();
    acc.accept_event(Event::Discovered("dev".to_string()));
    assert!(matches!(acc.poll_pause(false), GateStep::Resolve(_)));
    match acc.complete_lookup(LookupOutcome::Failed) {
        LookupStep::Abort(e) => assert_eq!(e, DiscoveryError::PropertyLookupFailed),
        _ => panic!("an errored lookup must abort the run"),
    }
    assert!(acc.is_stopped());
    assert_eq!(acc.device_count(), 0);
    assert_eq!(acc.terminal_result(), Some(Err(DiscoveryError::PropertyLookupFailed)));
}

#[test]
fn unknown_identity_is_skipped() {
    let mut acc = Accumulator::new();
    acc.accept_event(Event::Discovered("gone-dev".to_string()));
    assert!(matches!(acc.poll_pause(false), GateStep::Resolve(_)));
    assert!(matches!(acc.complete_lookup(LookupOutcome::NoHandle), LookupStep::Skip));
    assert!(acc.is_idle());
    assert_eq!(acc.device_count(), 0);
}

#[test]
fn other_events_are_ignored() {
    let mut acc = Accumulator::new();
    acc.accept_event(Event::Other);
    assert!(matches!(acc.poll_pause(false), GateStep::Skip));
    assert!(acc.is_idle());
    assert_eq!(acc.device_count(), 0);
}

#[test]
fn exhausted_source_ends_cleanly() {
    let mut acc = Accumulator::new();
    acc.source_exhausted();
    assert!(acc.is_stopped());
    assert_eq!(acc.terminal_result(), Some(Ok(())));
}

#[test]
fn no_adapter_is_unavailable() {
    assert_eq!(select_adapter(0), Err(DiscoveryError::AdapterUnavailable));
    assert_eq!(select_adapter(1), Ok(0));
    assert_eq!(select_adapter(3), Ok(0));
}

#[test]
fn rejected_scan_fails() {
    assert_eq!(scan_start_result(false), Err(DiscoveryError::ScanStartFailed));
    assert_eq!(scan_start_result(true), Ok(()));
}

#[test]
fn pause_poll_interval_is_fixed() {
    assert_eq!(PAUSE_POLL_MILLIS, 100);
}
