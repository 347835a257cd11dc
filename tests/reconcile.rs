use hetzner_ddns::cycle::{is_success, Action, CycleError, Event, Notice, Reconciler, POLL_INTERVAL_SECS};
use hetzner_ddns::plan::{has_match, identical_records, plan_updates};
use hetzner_ddns::record::{make_update, record_kind, update_url, DnsRecord, RecordKind, UPDATE_TTL};

const HOST: &str = "host.example.com";

fn rec(id: &str, name: &str, value: &str, record_type: &str, zone_id: &str) -> DnsRecord {
    DnsRecord {
        id: id.to_string(),
        name: name.to_string(),
        value: value.to_string(),
        record_type: record_type.to_string(),
        zone_id: zone_id.to_string(),
    }
}

fn s(x: &str) -> String {
    x.to_string()
}

/// Runs a machine for `HOST` up to the point where it asks for the records.
fn up_to_records(ipv4: &str, ipv6: &str) -> Reconciler {
    let mut r = Reconciler::new(s(HOST));
    let (a, n) = r.step(Event::Tick);
    assert!(matches!(a, Action::FetchIpv4));
    assert!(n.is_empty());
    let (a, _) = r.step(Event::Ipv4Fetched { status: 200, body: s(ipv4) });
    assert!(matches!(a, Action::FetchIpv6));
    let (a, n) = r.step(Event::Ipv6Fetched { status: 200, body: s(ipv6) });
    assert!(matches!(a, Action::ListRecords));
    assert_eq!(n.len(), 1);
    match &n[0] {
        Notice::CurrentAddress { ipv4: v4, ipv6: v6 } => {
            assert_eq!(v4, ipv4);
            assert_eq!(v6, ipv6);
        }
        other => panic!("unexpected notice {:?}", other),
    }
    let (a, n) = r.step(Event::ListAnswered { status: 200 });
    assert!(matches!(a, Action::ReadRecords));
    assert!(n.is_empty());
    r
}

#[test]
fn scenario_differing_value_is_updated() {
    let mut r = up_to_records("2.2.2.2", "::1");
    let records = vec![rec("r1", HOST, "1.1.1.1", "A", "z1")];
    let (a, n) = r.step(Event::RecordsRead { records });
    assert!(n.is_empty());
    match a {
        Action::Put(u) => {
            assert_eq!(u.record_id, "r1");
            assert_eq!(u.url, "https://dns.hetzner.com/api/v1/records/r1");
            assert_eq!(u.payload.value, "2.2.2.2");
            assert_eq!(u.payload.ttl, 60);
            assert_eq!(u.payload.name, HOST);
            assert_eq!(u.payload.record_type, "A");
            assert_eq!(u.payload.zone_id, "z1");
        }
        other => panic!("expected a put, got {:?}", other),
    }
    let (a, n) = r.step(Event::UpdateAnswered { status: 200 });
    assert!(matches!(a, Action::Sleep(300)));
    assert_eq!(n.len(), 1);
    match &n[0] {
        Notice::Updated { name, value } => {
            assert_eq!(name, HOST);
            assert_eq!(value, "2.2.2.2");
        }
        other => panic!("unexpected notice {:?}", other),
    }
    assert!(!r.is_stopped());
}

#[test]
fn scenario_identical_value_needs_no_update() {
    let mut r = up_to_records("1.1.1.1", "::1");
    let records = vec![rec("r1", HOST, "1.1.1.1", "A", "z1")];
    let (a, n) = r.step(Event::RecordsRead { records });
    assert!(matches!(a, Action::Sleep(300)));
    assert_eq!(n.len(), 1);
    assert!(matches!(n[0], Notice::Identical(RecordKind::A)));
}

#[test]
fn scenario_missing_record_is_reported() {
    let mut r = up_to_records("2.2.2.2", "::1");
    let records = vec![
        rec("r1", "other.example.com", "1.1.1.1", "A", "z1"),
        rec("r2", "www.example.com", "1.1.1.1", "A", "z1"),
    ];
    let (a, n) = r.step(Event::RecordsRead { records });
    assert!(matches!(a, Action::Sleep(300)));
    assert_eq!(n.len(), 1);
    assert!(matches!(n[0], Notice::NotFound));
    assert!(!r.is_stopped());
}

#[test]
fn scenario_list_failure_stops() {
    let mut r = Reconciler::new(s(HOST));
    r.step(Event::Tick);
    r.step(Event::Ipv4Fetched { status: 200, body: s("2.2.2.2") });
    r.step(Event::Ipv6Fetched { status: 200, body: s("::1") });
    let (a, n) = r.step(Event::ListAnswered { status: 500 });
    assert!(matches!(a, Action::Stop(CycleError::ListStatus(500))));
    assert!(n.is_empty());
    assert!(r.is_stopped());
    let (a, _) = r.step(Event::RecordsRead { records: vec![rec("r1", HOST, "1.1.1.1", "A", "z1")] });
    assert!(matches!(a, Action::Stop(CycleError::ListStatus(500))));
}

#[test]
fn update_failure_stops() {
    let mut r = up_to_records("2.2.2.2", "::1");
    let (a, _) = r.step(Event::RecordsRead { records: vec![rec("r1", HOST, "1.1.1.1", "A", "z1")] });
    assert!(matches!(a, Action::Put(_)));
    let (a, n) = r.step(Event::UpdateAnswered { status: 404 });
    assert!(matches!(a, Action::Stop(CycleError::UpdateStatus(404))));
    assert!(n.is_empty());
    assert!(r.is_stopped());
    let (a, _) = r.step(Event::Tick);
    assert!(matches!(a, Action::Stop(CycleError::UpdateStatus(404))));
}

#[test]
fn address_service_failures_stop() {
    let mut r = Reconciler::new(s(HOST));
    r.step(Event::Tick);
    let (a, _) = r.step(Event::Ipv4Fetched { status: 503, body: s("") });
    assert!(matches!(a, Action::Stop(CycleError::Ipv4Status(503))));

    let mut r = Reconciler::new(s(HOST));
    r.step(Event::Tick);
    r.step(Event::Ipv4Fetched { status: 200, body: s("2.2.2.2") });
    let (a, n) = r.step(Event::Ipv6Fetched { status: 502, body: s("") });
    assert!(matches!(a, Action::Stop(CycleError::Ipv6Status(502))));
    assert!(n.is_empty());
}

#[test]
fn out_of_order_event_stops() {
    let mut r = Reconciler::new(s(HOST));
    let (a, _) = r.step(Event::UpdateAnswered { status: 200 });
    assert!(matches!(a, Action::Stop(CycleError::OutOfOrder)));
    assert!(r.is_stopped());
}

#[test]
fn dual_stack_cycle_updates_both_in_order() {
    let mut r = up_to_records("2.2.2.2", "2001:db8::2");
    let records = vec![
        rec("r1", HOST, "1.1.1.1", "A", "z1"),
        rec("r9", HOST, "text", "TXT", "z1"),
        rec("r2", HOST, "2001:db8::1", "AAAA", "z1"),
    ];
    let (a, n) = r.step(Event::RecordsRead { records });
    assert!(n.is_empty());
    match a {
        Action::Put(u) => {
            assert_eq!(u.record_id, "r1");
            assert_eq!(u.payload.value, "2.2.2.2");
        }
        other => panic!("expected a put, got {:?}", other),
    }
    let (a, _) = r.step(Event::UpdateAnswered { status: 200 });
    match a {
        Action::Put(u) => {
            assert_eq!(u.record_id, "r2");
            assert_eq!(u.url, "https://dns.hetzner.com/api/v1/records/r2");
            assert_eq!(u.payload.value, "2001:db8::2");
            assert_eq!(u.payload.record_type, "AAAA");
            assert_eq!(u.payload.ttl, 60);
        }
        other => panic!("expected a put, got {:?}", other),
    }
    let (a, n) = r.step(Event::UpdateAnswered { status: 204 });
    assert!(matches!(a, Action::Sleep(POLL_INTERVAL_SECS)));
    assert!(matches!(&n[0], Notice::Updated { value, .. } if value == "2001:db8::2"));
    let (a, _) = r.step(Event::Tick);
    assert!(matches!(a, Action::FetchIpv4));
}

#[test]
fn equal_values_send_nothing() {
    let records = vec![
        rec("r1", HOST, "1.1.1.1", "A", "z1"),
        rec("r2", HOST, "::1", "AAAA", "z1"),
    ];
    let ups = plan_updates(&records, &s(HOST), &s("1.1.1.1"), &s("::1"));
    assert!(ups.is_empty());
    let same = identical_records(&records, &s(HOST), &s("1.1.1.1"), &s("::1"));
    assert_eq!(same, vec![RecordKind::A, RecordKind::Aaaa]);
}

#[test]
fn differing_value_sends_exactly_one() {
    let records = vec![
        rec("r1", HOST, "1.1.1.1", "A", "z1"),
        rec("r2", HOST, "::1", "AAAA", "z1"),
    ];
    let ups = plan_updates(&records, &s(HOST), &s("3.3.3.3"), &s("::1"));
    assert_eq!(ups.len(), 1);
    assert_eq!(ups[0].record_id, "r1");
    assert_eq!(ups[0].payload.value, "3.3.3.3");
    assert_eq!(ups[0].payload.ttl, UPDATE_TTL);
}

#[test]
fn matching_is_exact() {
    let records = vec![
        rec("r1", "HOST.example.com", "0.0.0.0", "A", "z1"),
        rec("r2", "host.example.com.", "0.0.0.0", "A", "z1"),
        rec("r3", HOST, "0.0.0.0", "a", "z1"),
        rec("r4", HOST, "0.0.0.0", "CNAME", "z1"),
        rec("r5", HOST, "0.0.0.0", "AAAAA", "z1"),
    ];
    let ups = plan_updates(&records, &s(HOST), &s("2.2.2.2"), &s("::2"));
    assert!(ups.is_empty());
    assert!(identical_records(&records, &s(HOST), &s("0.0.0.0"), &s("0.0.0.0")).is_empty());
    assert!(!has_match(&records, &s(HOST)));
    for r in &records {
        assert_eq!(record_kind(r, &s(HOST)), None);
    }
    assert_eq!(record_kind(&rec("x", HOST, "", "A", ""), &s(HOST)), Some(RecordKind::A));
    assert_eq!(record_kind(&rec("x", HOST, "", "AAAA", ""), &s(HOST)), Some(RecordKind::Aaaa));
}

#[test]
fn empty_record_list_is_not_found() {
    let mut r = up_to_records("2.2.2.2", "::1");
    let (a, n) = r.step(Event::RecordsRead { records: Vec::new() });
    assert!(matches!(a, Action::Sleep(300)));
    assert_eq!(n.len(), 1);
    assert!(matches!(n[0], Notice::NotFound));
}

#[test]
fn update_request_fields() {
    assert_eq!(update_url("abc"), "https://dns.hetzner.com/api/v1/records/abc");
    let u = make_update(&rec("id7", HOST, "1.1.1.1", "A", "zone9"), &s("9.9.9.9"));
    assert_eq!(u.record_id, "id7");
    assert_eq!(u.url, "https://dns.hetzner.com/api/v1/records/id7");
    assert_eq!(u.payload.name, HOST);
    assert_eq!(u.payload.ttl, 60);
    assert_eq!(u.payload.record_type, "A");
    assert_eq!(u.payload.value, "9.9.9.9");
    assert_eq!(u.payload.zone_id, "zone9");
    let d = u.duplicate();
    assert_eq!(d.url, u.url);
    assert_eq!(d.payload.value, "9.9.9.9");
}

#[test]
fn success_statuses() {
    assert!(is_success(200));
    assert!(is_success(204));
    assert!(is_success(299));
    assert!(!is_success(199));
    assert!(!is_success(300));
    assert!(!is_success(404));
    assert!(!is_success(500));
}

#[test]
fn target_is_kept() {
    let r = Reconciler::new(s(HOST));
    assert_eq!(r.target(), HOST);
    assert!(!r.is_stopped());
}
