use osc_cue_monitor::{
    decode, CueChannel, CueEvent, Display, Listener, Matcher, Outcome, Packet, PatternError, MAX_DATAGRAM,
};
use rosc::{OscBundle, OscMessage, OscPacket, OscTime, OscType};

const CUE_PATTERN: &str = r"^/cue/([\d\.]+)/go$";

fn message(addr: &str, args: Vec<OscType>) -> Vec<u8> {
    rosc::encoder::encode(&OscPacket::Message(OscMessage { addr: addr.to_string(), args })).unwrap()
}

fn bundle(content: Vec<OscPacket>) -> Vec<u8> {
    let timetag = OscTime { seconds: 0, fractional: 1 };
    rosc::encoder::encode(&OscPacket::Bundle(OscBundle { timetag, content })).unwrap()
}

fn listener() -> Listener {
    Listener::new(Matcher::compile(CUE_PATTERN).unwrap())
}

fn event(id: &str) -> CueEvent {
    CueEvent { cue_id: id.to_string() }
}

#[test]
fn compile_keeps_pattern() {
    let m = Matcher::compile(CUE_PATTERN).unwrap();
    assert_eq!(m.pattern(), CUE_PATTERN);
}

#[test]
fn compile_rejects_invalid_pattern() {
    assert!(matches!(Matcher::compile("^/cue/(["), Err(PatternError::InvalidPattern(_))));
    assert!(matches!(Matcher::compile("("), Err(PatternError::InvalidPattern(_))));
}

#[test]
fn match_captures_first_group() {
    let m = Matcher::compile(CUE_PATTERN).unwrap();
    assert_eq!(m.match_address("/cue/4.2/go"), Some("4.2".to_string()));
    assert_eq!(m.match_address("/cue/17/go"), Some("17".to_string()));
}

#[test]
fn match_rejects_other_addresses() {
    let m = Matcher::compile(CUE_PATTERN).unwrap();
    assert_eq!(m.match_address("/cue/4.2/stop"), None);
    assert_eq!(m.match_address(""), None);
    assert_eq!(m.match_address("/cue/\u{0}\u{7}/go"), None);
    assert_eq!(m.match_address("/cue//go"), None);
}

#[test]
fn match_without_anchors_searches() {
    let m = Matcher::compile(r"cue/(\d+)").unwrap();
    assert_eq!(m.match_address("/show/cue/12/go"), Some("12".to_string()));
}

#[test]
fn match_with_group_not_taking_part_is_no_match() {
    let m = Matcher::compile(r"^/cue(/(\d+))?$").unwrap();
    assert_eq!(m.match_address("/cue"), None);
    assert_eq!(m.match_address("/cue/3"), Some("/3".to_string()));
    let none = Matcher::compile(r"^/cue$").unwrap();
    assert_eq!(none.match_address("/cue"), None);
}

#[test]
fn match_is_repeatable() {
    let m1 = Matcher::compile(CUE_PATTERN).unwrap();
    let m2 = Matcher::compile(CUE_PATTERN).unwrap();
    for a in ["/cue/4.2/go", "/cue/4.2/stop", "", "/cue/1/go"] {
        let first = m1.match_address(a);
        assert_eq!(m1.match_address(a), first);
        assert_eq!(m2.match_address(a), first);
    }
}

#[test]
fn decode_message_keeps_address() {
    let bytes = message("/cue/4.2/go", vec![OscType::Int(3), OscType::Float(1.5)]);
    match decode(&bytes) {
        Ok(Packet::Message { address, arguments }) => {
            assert_eq!(address, "/cue/4.2/go");
            assert!(arguments.contains("Int(3)"));
        }
        _ => panic!("expected a message"),
    }
}

#[test]
fn decode_bundle_is_bundle() {
    let inner = OscPacket::Message(OscMessage { addr: "/cue/1/go".to_string(), args: vec![] });
    assert!(matches!(decode(&bundle(vec![inner])), Ok(Packet::Bundle { .. })));
}

#[test]
fn decode_refuses_garbage() {
    assert!(decode(&[]).is_err());
    assert!(decode(&[0xff, 0x00, 0x13]).is_err());
    assert!(decode(b"no slash\0\0\0\0").is_err());
}

#[test]
fn channel_is_fifo() {
    let mut ch = CueChannel::new();
    assert!(ch.receive().is_none());
    ch.send(event("1"));
    ch.send(event("2"));
    assert_eq!(ch.receive().unwrap().cue_id, "1");
    ch.send(event("3"));
    assert_eq!(ch.len(), 2);
    assert_eq!(ch.receive().unwrap().cue_id, "2");
    assert_eq!(ch.receive().unwrap().cue_id, "3");
    assert!(ch.receive().is_none());
    assert_eq!(ch.len(), 0);
}

#[test]
fn channel_keeps_duplicates() {
    let mut ch = CueChannel::new();
    ch.send(event("5"));
    ch.send(event("5"));
    assert_eq!(ch.len(), 2);
    assert_eq!(ch.receive().unwrap().cue_id, "5");
    assert_eq!(ch.receive().unwrap().cue_id, "5");
}

#[test]
fn display_starts_with_sentinel() {
    let d = Display::new(640, 480);
    assert_eq!(d.current_cue(), "-");
    assert_eq!((d.width(), d.height()), (640, 480));
}

#[test]
fn display_takes_cue_and_resize() {
    let mut d = Display::new(640, 480);
    d.on_cue_event(event("7"));
    assert_eq!(d.current_cue(), "7");
    d.on_resize(800, 600);
    assert_eq!(d.current_cue(), "7");
    assert_eq!((d.width(), d.height()), (800, 600));
}

#[test]
fn display_deliver_next_from_channel() {
    let mut d = Display::new(1, 1);
    let mut ch = CueChannel::new();
    assert!(!d.deliver_next(&mut ch));
    assert_eq!(d.current_cue(), "-");
    ch.send(event("9"));
    assert!(d.deliver_next(&mut ch));
    assert_eq!(d.current_cue(), "9");
    assert_eq!(ch.len(), 0);
}

#[test]
fn listener_dispatches_matching_message() {
    let mut l = listener();
    let mut ch = CueChannel::new();
    let out = l.handle_datagram(&message("/cue/4.2/go", vec![]), &mut ch);
    match out {
        Outcome::Dispatched { address, cue_id, .. } => {
            assert_eq!(address, "/cue/4.2/go");
            assert_eq!(cue_id, "4.2");
        }
        _ => panic!("expected a dispatch"),
    }
    assert_eq!(ch.len(), 1);
    assert_eq!(ch.receive().unwrap().cue_id, "4.2");
}

#[test]
fn scenario_matching_cue_reaches_display() {
    let mut l = listener();
    let mut ch = CueChannel::new();
    let mut d = Display::new(640, 480);
    l.handle_datagram(&message("/cue/4.2/go", vec![]), &mut ch);
    assert!(d.deliver_next(&mut ch));
    assert_eq!(d.current_cue(), "4.2");
}

#[test]
fn scenario_unmatched_leaves_display() {
    let mut l = listener();
    let mut ch = CueChannel::new();
    let mut d = Display::new(640, 480);
    l.handle_datagram(&message("/cue/1/go", vec![]), &mut ch);
    d.deliver_next(&mut ch);
    let out = l.handle_datagram(&message("/cue/4.2/stop", vec![]), &mut ch);
    match out {
        Outcome::Unmatched { address, .. } => assert_eq!(address, "/cue/4.2/stop"),
        _ => panic!("expected no match"),
    }
    assert_eq!(ch.len(), 0);
    assert!(!d.deliver_next(&mut ch));
    assert_eq!(d.current_cue(), "1");
}

#[test]
fn listener_survives_undecodable_datagrams() {
    let mut l = listener();
    let mut ch = CueChannel::new();
    for bytes in [vec![], vec![0xffu8, 0, 1], b"garbage".to_vec()] {
        assert!(matches!(l.handle_datagram(&bytes, &mut ch), Outcome::DecodeFailed(_)));
        assert!(l.is_running());
        assert_eq!(ch.len(), 0);
    }
    l.handle_datagram(&message("/cue/2/go", vec![]), &mut ch);
    assert_eq!(ch.receive().unwrap().cue_id, "2");
}

#[test]
fn listener_drops_bundles() {
    let mut l = listener();
    let mut ch = CueChannel::new();
    let inner = OscPacket::Message(OscMessage { addr: "/cue/4.2/go".to_string(), args: vec![] });
    for b in [bundle(vec![]), bundle(vec![inner])] {
        assert!(matches!(l.handle_datagram(&b, &mut ch), Outcome::Bundle { .. }));
        assert_eq!(ch.len(), 0);
    }
    assert!(l.is_running());
}

#[test]
fn cues_arrive_in_order_with_slow_display() {
    let mut l = listener();
    let mut ch = CueChannel::new();
    let mut d = Display::new(640, 480);
    let ids = ["1", "2.5", "3", "10.1", "11"];
    let mut seen: Vec<String> = Vec::new();
    for (i, id) in ids.iter().enumerate() {
        l.handle_datagram(&message(&format!("/cue/{}/go", id), vec![]), &mut ch);
        if i % 2 == 1 && d.deliver_next(&mut ch) {
            seen.push(d.current_cue().to_string());
        }
    }
    while d.deliver_next(&mut ch) {
        seen.push(d.current_cue().to_string());
    }
    assert_eq!(seen, ids.iter().map(|s| s.to_string()).collect::<Vec<_>>());
    assert_eq!(d.current_cue(), "11");
}

#[test]
fn listener_stops_on_receive_failure() {
    let mut l = listener();
    assert!(l.is_running());
    l.on_receive_failed();
    assert!(!l.is_running());
    assert_eq!(l.matcher().pattern(), CUE_PATTERN);
}

#[test]
fn largest_datagram_is_handled() {
    assert_eq!(MAX_DATAGRAM, rosc::decoder::MTU);
    let mut l = listener();
    let mut ch = CueChannel::new();
    let bytes = vec![0x23u8; MAX_DATAGRAM];
    assert!(matches!(l.handle_datagram(&bytes, &mut ch), Outcome::DecodeFailed(_)));
    assert!(l.is_running());
    assert_eq!(ch.len(), 0);
}
