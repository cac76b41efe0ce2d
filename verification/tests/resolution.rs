use watering_system::mdns::MdnsFacade;
use watering_system::resolver::{
    address_is_unset, ResolutionCache, ResolverAction, ResolverEvent, ResolverState,
};

const SERVICE: &str = "_mqtt._tcp.local";

fn reply_header(answers: u16, additional: u16) -> Vec<u8> {
    let a = answers.to_be_bytes();
    let x = additional.to_be_bytes();
    vec![0, 0, 0x84, 0, 0, 0, a[0], a[1], 0, 0, x[0], x[1]]
}

fn put_name(out: &mut Vec<u8>, name: &str) {
    for label in name.split('.') {
        out.push(label.len() as u8);
        out.extend_from_slice(label.as_bytes());
    }
    out.push(0);
}

fn put_record(out: &mut Vec<u8>, owner: &str, rtype: u16, rdata: &[u8]) {
    put_name(out, owner);
    out.extend_from_slice(&rtype.to_be_bytes());
    out.extend_from_slice(&[0, 1, 0, 0, 0x11, 0x94]);
    out.extend_from_slice(&(rdata.len() as u16).to_be_bytes());
    out.extend_from_slice(rdata);
}

fn locator(port: u16, target: &str) -> Vec<u8> {
    let mut rdata = vec![0, 0, 0, 0];
    rdata.extend_from_slice(&port.to_be_bytes());
    put_name(&mut rdata, target);
    rdata
}

fn pointer_to(instance: &str) -> Vec<u8> {
    let mut rdata = Vec::new();
    put_name(&mut rdata, instance);
    rdata
}

fn locator_only() -> Vec<u8> {
    let mut p = reply_header(1, 0);
    put_record(&mut p, "mqtt._mqtt._tcp.local", 33, &locator(1883, "broker.local"));
    p
}

fn address_only() -> Vec<u8> {
    let mut p = reply_header(1, 0);
    put_record(&mut p, "broker.local", 1, &[192, 168, 1, 10]);
    p
}

fn locator_and_address() -> Vec<u8> {
    let mut p = reply_header(2, 0);
    put_record(&mut p, "mqtt._mqtt._tcp.local", 33, &locator(1883, "broker.local"));
    put_record(&mut p, "broker.local", 1, &[192, 168, 1, 10]);
    p
}

fn full_reply(target: &str, owner: &str) -> Vec<u8> {
    let mut p = reply_header(3, 0);
    put_record(&mut p, SERVICE, 12, &pointer_to("mqtt._mqtt._tcp.local"));
    put_record(&mut p, "mqtt._mqtt._tcp.local", 33, &locator(1883, target));
    put_record(&mut p, owner, 1, &[192, 168, 1, 10]);
    p
}

#[test]
fn single_packet_resolves() {
    let f = MdnsFacade::new();
    let mut cache = ResolutionCache::new();
    let answer = f.parse_with_state(&locator_and_address(), 1000, SERVICE, &mut cache);
    assert_eq!(answer, ([192, 168, 1, 10], 1883));
}

#[test]
fn single_packet_with_service_pointer_resolves() {
    let f = MdnsFacade::new();
    let mut cache = ResolutionCache::new();
    let answer =
        f.parse_with_state(&full_reply("broker.local", "broker.local"), 1000, SERVICE, &mut cache);
    assert_eq!(answer, ([192, 168, 1, 10], 1883));
    // a complete bundled answer leaves the cache alone
    assert!(cache.hostname.is_none());
    assert!(cache.port.is_none());
    assert!(cache.address.is_none());
    assert!(cache.last_update.is_none());
}

#[test]
fn bundled_lookup_decides_where_records_alone_would_not() {
    let f = MdnsFacade::new();
    // the host names differ in case: only the whole-message lookup pairs them
    let packet = full_reply("Broker.local", "broker.local");
    let mut cache = ResolutionCache::new();
    let answer = f.parse_with_state(&packet, 1000, SERVICE, &mut cache);
    assert_eq!(answer, ([192, 168, 1, 10], 1883));
    assert!(cache.hostname.is_none());

    // asked for another service, the same datagram resolves nothing
    let mut cache = ResolutionCache::new();
    let answer = f.parse_with_state(&packet, 1000, "_http._tcp.local", &mut cache);
    assert_eq!(answer, ([0, 0, 0, 0], 0));
    assert_eq!(cache.hostname.as_ref().unwrap().as_str(), "Broker.local");
    assert_eq!(cache.port, Some(1883));
    assert_eq!(cache.address, Some([192, 168, 1, 10]));
    assert_eq!(cache.last_update, Some(1000));
}

#[test]
fn locator_first_then_address() {
    let f = MdnsFacade::new();
    let mut cache = ResolutionCache::new();
    let first = f.parse_with_state(&locator_only(), 1000, SERVICE, &mut cache);
    assert_eq!(first, ([0, 0, 0, 0], 0));
    assert_eq!(cache.hostname.as_ref().unwrap().as_str(), "broker.local");
    assert_eq!(cache.port, Some(1883));
    assert_eq!(cache.address, None);
    assert_eq!(cache.last_update, Some(1000));
    let second = f.parse_with_state(&address_only(), 2000, SERVICE, &mut cache);
    assert_eq!(second, ([192, 168, 1, 10], 1883));
}

#[test]
fn address_first_then_locator() {
    let f = MdnsFacade::new();
    let mut cache = ResolutionCache::new();
    let first = f.parse_with_state(&address_only(), 1000, SERVICE, &mut cache);
    assert_eq!(first, ([0, 0, 0, 0], 0));
    assert_eq!(cache.address, Some([192, 168, 1, 10]));
    assert_eq!(cache.last_update, Some(1000));
    assert!(cache.hostname.is_none());
    let second = f.parse_with_state(&locator_only(), 2000, SERVICE, &mut cache);
    assert_eq!(second, ([192, 168, 1, 10], 1883));
}

#[test]
fn stale_locator_is_forgotten() {
    let f = MdnsFacade::new();
    let mut cache = ResolutionCache::new();
    f.parse_with_state(&locator_only(), 1000, SERVICE, &mut cache);
    let late = f.parse_with_state(&address_only(), 31001, SERVICE, &mut cache);
    assert_eq!(late, ([0, 0, 0, 0], 0));
    assert!(cache.hostname.is_none());
    assert!(cache.port.is_none());
    assert_eq!(cache.address, Some([192, 168, 1, 10]));
    assert_eq!(cache.last_update, Some(31001));
    // a fresh locator completes the resolution
    let fresh = f.parse_with_state(&locator_only(), 31002, SERVICE, &mut cache);
    assert_eq!(fresh, ([192, 168, 1, 10], 1883));
}

#[test]
fn records_of_exactly_the_maximum_age_still_count() {
    let f = MdnsFacade::new();
    let mut cache = ResolutionCache::new();
    f.parse_with_state(&locator_only(), 1000, SERVICE, &mut cache);
    let answer = f.parse_with_state(&address_only(), 31000, SERVICE, &mut cache);
    assert_eq!(answer, ([192, 168, 1, 10], 1883));
}

#[test]
fn clock_going_backwards_evicts_nothing() {
    let mut cache = ResolutionCache::new();
    cache.port = Some(1883);
    cache.last_update = Some(50_000);
    cache.evict(10);
    assert_eq!(cache.port, Some(1883));
    assert_eq!(cache.last_update, Some(50_000));
    cache.evict(80_000);
    assert_eq!(cache.port, Some(1883));
    cache.evict(80_001);
    assert_eq!(cache.port, None);
    assert_eq!(cache.last_update, None);
}

#[test]
fn address_for_another_host_is_only_remembered() {
    let f = MdnsFacade::new();
    let mut cache = ResolutionCache::new();
    f.parse_with_state(&locator_only(), 1000, SERVICE, &mut cache);
    let mut other = reply_header(1, 0);
    put_record(&mut other, "printer.local", 1, &[10, 0, 0, 9]);
    let answer = f.parse_with_state(&other, 1500, SERVICE, &mut cache);
    assert_eq!(answer, ([0, 0, 0, 0], 0));
    assert_eq!(cache.address, Some([10, 0, 0, 9]));
    // the time stamp of the locator stays
    assert_eq!(cache.last_update, Some(1000));
    assert_eq!(cache.hostname.as_ref().unwrap().as_str(), "broker.local");
}

#[test]
fn garbage_changes_nothing() {
    let f = MdnsFacade::new();
    let mut cache = ResolutionCache::new();
    f.parse_with_state(&locator_only(), 1000, SERVICE, &mut cache);
    let answer = f.parse_with_state(&[0xFF; 40], 1200, SERVICE, &mut cache);
    assert_eq!(answer, ([0, 0, 0, 0], 0));
    let answer = f.parse_with_state(&[], 1300, SERVICE, &mut cache);
    assert_eq!(answer, ([0, 0, 0, 0], 0));
    assert_eq!(cache.port, Some(1883));
    assert_eq!(cache.last_update, Some(1000));
}

#[test]
fn correlate_prefers_a_complete_bundled_answer() {
    let f = MdnsFacade::new();
    let mut cache = ResolutionCache::new();
    let answer = f.correlate(([10, 1, 1, 1], 99), &locator_and_address(), 5, &mut cache);
    assert_eq!(answer, ([10, 1, 1, 1], 99));
    assert!(cache.port.is_none());
    // half an answer is not complete
    let answer = f.correlate(([10, 1, 1, 1], 0), &locator_and_address(), 5, &mut cache);
    assert_eq!(answer, ([192, 168, 1, 10], 1883));
    let mut cache = ResolutionCache::new();
    let answer = f.correlate(([0, 0, 0, 0], 99), &[], 5, &mut cache);
    assert_eq!(answer, ([0, 0, 0, 0], 99));
}

#[test]
fn unset_address_is_four_zeros() {
    assert!(address_is_unset(&[0, 0, 0, 0]));
    assert!(!address_is_unset(&[0, 0, 0, 1]));
    assert!(!address_is_unset(&[1, 0, 0, 0]));
}

#[test]
fn session_waits_for_link_and_address() {
    let f = MdnsFacade::new();
    for (link_up, configured) in [(false, false), (true, false), (false, true)] {
        let event = ResolverEvent::NetworkStatus { link_up, configured, now: 10 };
        let (state, action) = f.query_service(ResolverState::AwaitingNetwork, event);
        assert_eq!(state, ResolverState::AwaitingNetwork);
        assert_eq!(action, ResolverAction::PollNetwork { after_ms: 400 });
    }
    let event = ResolverEvent::NetworkStatus { link_up: true, configured: true, now: 10 };
    let (state, action) = f.query_service(ResolverState::AwaitingNetwork, event);
    assert_eq!(state, ResolverState::Listening { deadline: 5010 });
    assert_eq!(
        action,
        ResolverAction::OpenSession {
            group: [224, 0, 0, 251],
            port: 5353,
            hop_limit: 255,
            resend_ms: 1000
        }
    );
}

#[test]
fn session_ends_only_on_a_resolved_answer() {
    let f = MdnsFacade::new();
    let listening = ResolverState::Listening { deadline: 5000 };
    let (state, action) = f.query_service(
        listening,
        ResolverEvent::Answer { address: [192, 168, 1, 10], port: 1883, now: 100 },
    );
    assert_eq!(state, ResolverState::Resolved { address: [192, 168, 1, 10], port: 1883 });
    assert_eq!(action, ResolverAction::Finish { address: [192, 168, 1, 10], port: 1883 });

    for (address, port) in [([0, 0, 0, 0], 0), ([0, 0, 0, 0], 1883), ([192, 168, 1, 10], 0)] {
        let (state, action) =
            f.query_service(listening, ResolverEvent::Answer { address, port, now: 100 });
        assert_eq!(state, listening);
        assert_eq!(action, ResolverAction::Exchange { after_ms: 40 });
    }
}

#[test]
fn deadline_only_adds_a_pause() {
    let f = MdnsFacade::new();
    let listening = ResolverState::Listening { deadline: 5000 };
    let (state, action) = f.query_service(listening, ResolverEvent::Silence { now: 4999 });
    assert_eq!(state, listening);
    assert_eq!(action, ResolverAction::Exchange { after_ms: 40 });
    let (state, action) = f.query_service(listening, ResolverEvent::Silence { now: 5000 });
    assert_eq!(state, listening);
    assert_eq!(action, ResolverAction::Exchange { after_ms: 290 });
    let (state, action) = f.query_service(listening, ResolverEvent::Silence { now: u64::MAX });
    assert_eq!(state, listening);
    assert_eq!(action, ResolverAction::Exchange { after_ms: 290 });
    let (state, _) = f.query_service(
        ResolverState::AwaitingNetwork,
        ResolverEvent::NetworkStatus { link_up: true, configured: true, now: u64::MAX - 1 },
    );
    assert_eq!(state, ResolverState::Listening { deadline: u64::MAX });
}

#[test]
fn resolved_session_stays_resolved() {
    let f = MdnsFacade::new();
    let done = ResolverState::Resolved { address: [10, 0, 0, 1], port: 1883 };
    let (state, action) = f.query_service(done, ResolverEvent::Silence { now: 1 });
    assert_eq!(state, done);
    assert_eq!(action, ResolverAction::Finish { address: [10, 0, 0, 1], port: 1883 });
}

#[test]
fn reports_out_of_turn_change_nothing() {
    let f = MdnsFacade::new();
    let (state, action) =
        f.query_service(ResolverState::AwaitingNetwork, ResolverEvent::Silence { now: 7 });
    assert_eq!(state, ResolverState::AwaitingNetwork);
    assert_eq!(action, ResolverAction::PollNetwork { after_ms: 400 });
    let (state, action) = f.query_service(
        ResolverState::AwaitingNetwork,
        ResolverEvent::Answer { address: [10, 0, 0, 1], port: 1883, now: 7 },
    );
    assert_eq!(state, ResolverState::AwaitingNetwork);
    assert_eq!(action, ResolverAction::PollNetwork { after_ms: 400 });
    let listening = ResolverState::Listening { deadline: 100 };
    let (state, action) = f.query_service(
        listening,
        ResolverEvent::NetworkStatus { link_up: false, configured: false, now: 7 },
    );
    assert_eq!(state, listening);
    assert_eq!(action, ResolverAction::Exchange { after_ms: 40 });
}
