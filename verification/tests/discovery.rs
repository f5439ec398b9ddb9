use joku::discovery::{
    device_from, distinct, friendly_name, probe_url, Discovery, DiscoveryAction, DiscoveryError,
    ProbeOutcome,
};
use joku::markup::{element_text, scan_step, ScanMove, XmlStep};

fn locations(items: &[&str]) -> Vec<String> {
    items.iter().map(|s| s.to_string()).collect()
}

fn answer(addr: &str, name: &str) -> ProbeOutcome {
    ProbeOutcome::Answered {
        addr: addr.to_string(),
        status: 200,
        body: format!(
            "<?xml version=\"1.0\" encoding=\"UTF-8\" ?>\n<device-info>\n  <udn>015e5108</udn>\n  <friendly-device-name>{}</friendly-device-name>\n  <model-name>Roku Ultra</model-name>\n</device-info>",
            name
        ),
    }
}

fn probe(d: &mut Discovery) -> String {
    match d.next_action() {
        DiscoveryAction::Probe(location) => location,
        other => panic!("expected a probe, got {:?}", other),
    }
}

#[test]
fn friendly_name_is_read_and_decoded() {
    let body = "<friendly-device-name>Living Room&quot;TV</friendly-device-name>";
    assert_eq!(friendly_name(body), Some("Living Room\"TV".to_string()));
}

#[test]
fn friendly_name_is_the_first_of_its_tag() {
    let body = "<device-info><udn>1</udn><friendly-device-name>Den</friendly-device-name><friendly-device-name>Attic</friendly-device-name></device-info>";
    assert_eq!(friendly_name(body), Some("Den".to_string()));
}

#[test]
fn body_without_the_tag_names_no_device() {
    assert_eq!(friendly_name("<device-info><udn>1</udn></device-info>"), None);
    assert_eq!(friendly_name(""), None);
    assert_eq!(friendly_name("plain text"), None);
    assert_eq!(friendly_name("<friendly-device-name/>"), None);
}

#[test]
fn malformed_body_names_no_device() {
    assert_eq!(friendly_name("<friendly-device-name>Den"), None);
    assert_eq!(friendly_name("<device-info></udn><friendly-device-name>Den</friendly-device-name>"), None);
}

#[test]
fn element_text_is_raw() {
    let doc = "<a><b>x &amp; <i>y</i></b><c>z</c></a>";
    assert_eq!(element_text(doc, "b"), Some("x &amp; <i>y</i>".to_string()));
    assert_eq!(element_text(doc, "c"), Some("z".to_string()));
    assert_eq!(element_text(doc, "a"), Some("<b>x &amp; <i>y</i></b><c>z</c>".to_string()));
    assert_eq!(element_text(doc, "d"), None);
}

#[test]
fn discovery_round_trip() {
    let mut d = Discovery::new(&locations(&["http://192.168.1.20:8060/"]), 5).unwrap();
    assert_eq!(probe(&mut d), "http://192.168.1.20:8060/");
    assert!(matches!(d.next_action(), DiscoveryAction::Wait));
    assert!(d.record(&answer("192.168.1.20:8060", "Living Room&quot;TV")));
    assert!(matches!(d.next_action(), DiscoveryAction::Done));
    assert!(d.is_done());
    let devices = d.finish();
    assert_eq!(devices.len(), 1);
    assert_eq!(devices[0].name, "Living Room\"TV");
    assert_eq!(devices[0].addr, "192.168.1.20:8060");
    assert_eq!(devices[0].label(), "Living Room\"TV");
    assert_eq!(devices[0].base_url(), "http://192.168.1.20:8060");
}

#[test]
fn discovery_partial_failure() {
    let mut d =
        Discovery::new(&locations(&["http://192.168.1.20:8060/", "http://192.168.1.21:8060/"]), 5)
            .unwrap();
    probe(&mut d);
    probe(&mut d);
    assert!(d.record(&ProbeOutcome::Failed));
    assert!(!d.is_done());
    assert!(matches!(d.next_action(), DiscoveryAction::Wait));
    assert!(d.record(&answer("192.168.1.21:8060", "Den")));
    assert!(matches!(d.next_action(), DiscoveryAction::Done));
    let devices = d.finish();
    assert_eq!(devices.len(), 1);
    assert_eq!(devices[0].name, "Den");
    assert_eq!(devices[0].addr, "192.168.1.21:8060");
}

#[test]
fn discovery_without_responders_is_done_at_once() {
    let mut d = Discovery::new(&vec![], 5).unwrap();
    assert!(d.is_done());
    assert!(matches!(d.next_action(), DiscoveryAction::Done));
    assert!(d.finish().is_empty());
}

#[test]
fn discovery_needs_a_probe_slot() {
    assert_eq!(
        Discovery::new(&locations(&["http://192.168.1.20:8060/"]), 0).err(),
        Some(DiscoveryError::NoProbeSlots)
    );
}

#[test]
fn discovery_keeps_probes_within_the_limit() {
    let mut d = Discovery::new(&locations(&["a", "b", "c"]), 2).unwrap();
    assert_eq!(probe(&mut d), "a");
    assert_eq!(probe(&mut d), "b");
    assert_eq!(d.in_flight, 2);
    assert!(matches!(d.next_action(), DiscoveryAction::Wait));
    assert_eq!(d.in_flight, 2);
    assert!(d.record(&ProbeOutcome::Failed));
    assert_eq!(probe(&mut d), "c");
    assert!(matches!(d.next_action(), DiscoveryAction::Wait));
    assert!(d.record(&ProbeOutcome::Failed));
    assert!(d.record(&ProbeOutcome::Failed));
    assert!(matches!(d.next_action(), DiscoveryAction::Done));
    assert!(d.finish().is_empty());
}

#[test]
fn discovery_probes_each_responder_once() {
    let mut d = Discovery::new(&locations(&["a", "b", "a", "a", "b"]), 1).unwrap();
    assert_eq!(d.targets, locations(&["a", "b"]));
    assert_eq!(probe(&mut d), "a");
    assert!(d.record(&answer("10.0.0.1:8060", "One")));
    assert_eq!(probe(&mut d), "b");
    assert!(d.record(&answer("10.0.0.2:8060", "Two")));
    assert!(matches!(d.next_action(), DiscoveryAction::Done));
    let names: Vec<String> = d.finish().into_iter().map(|x| x.name).collect();
    assert_eq!(names, vec!["One".to_string(), "Two".to_string()]);
}

#[test]
fn outcome_without_a_probe_is_left_aside() {
    let mut d = Discovery::new(&locations(&["a"]), 3).unwrap();
    assert!(!d.record(&answer("10.0.0.1:8060", "One")));
    assert_eq!(d.in_flight, 0);
    assert!(d.found.is_empty());
    assert_eq!(probe(&mut d), "a");
}

#[test]
fn distinct_keeps_first_occurrences() {
    assert_eq!(distinct(&locations(&["b", "a", "b", "c", "a"])), locations(&["b", "a", "c"]));
    assert_eq!(distinct(&vec![]), Vec::<String>::new());
}

#[test]
fn device_needs_a_success_and_a_name() {
    let d = device_from(&answer("10.0.0.1:8060", "Den")).unwrap();
    assert_eq!((d.name.as_str(), d.addr.as_str()), ("Den", "10.0.0.1:8060"));
    assert!(device_from(&ProbeOutcome::Failed).is_none());
    let refused = ProbeOutcome::Answered {
        addr: "10.0.0.1:8060".to_string(),
        status: 404,
        body: "<friendly-device-name>Den</friendly-device-name>".to_string(),
    };
    assert!(device_from(&refused).is_none());
    let nameless = ProbeOutcome::Answered {
        addr: "10.0.0.1:8060".to_string(),
        status: 200,
        body: "<device-info/>".to_string(),
    };
    assert!(device_from(&nameless).is_none());
}

#[test]
fn probe_asks_for_the_device_info() {
    assert_eq!(
        probe_url("http://192.168.1.20:8060/").unwrap().as_str(),
        "http://192.168.1.20:8060/query/device-info"
    );
    assert_eq!(probe_url("192.168.1.20").err(), Some(joku::roku::TransportError::BadAddress));
}

#[test]
fn scan_takes_the_tag_and_stops_at_the_end() {
    let tag = "friendly-device-name".to_string();
    assert_eq!(scan_step(&XmlStep::Start("friendly-device-name".to_string()), &tag), ScanMove::Take);
    assert_eq!(scan_step(&XmlStep::Start("Friendly-Device-Name".to_string()), &tag), ScanMove::Skip);
    assert_eq!(scan_step(&XmlStep::Start("udn".to_string()), &tag), ScanMove::Skip);
    assert_eq!(scan_step(&XmlStep::Other, &tag), ScanMove::Skip);
    assert_eq!(scan_step(&XmlStep::Failed, &tag), ScanMove::Stop);
    assert_eq!(scan_step(&XmlStep::Eof, &tag), ScanMove::Stop);
}
