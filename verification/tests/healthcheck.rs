use port_forwarder::config::{Config, Forwarding, Listener, Policy, Rules};
use port_forwarder::healthcheck::{self, HealthState, HostStatus, ProbeOutcome};
use port_forwarder::resolve::ResolveConfig;

fn strings(items: &[&str]) -> Vec<String> {
    items.iter().map(|s| s.to_string()).collect()
}

fn plain(targets: &[&str]) -> Listener {
    Listener { bind: "0.0.0.0:1".to_string(), forwarding: Forwarding::Plain { targets: strings(targets) } }
}

fn state_with(results: &[(&str, bool)], now: i64) -> HealthState {
    let mut s = HealthState::new();
    let r: Vec<(String, bool)> = results.iter().map(|(h, u)| (h.to_string(), *u)).collect();
    s.record(&r, now);
    s
}

#[test]
fn init_registers_the_targets_of_plain_listeners() {
    let mut config = Config::default();
    config.listeners.insert("a".to_string(), plain(&["h1:1", "h2:2"]));
    config.listeners.insert("b".to_string(), plain(&["h2:2", "h3:3"]));
    config.listeners.insert(
        "s".to_string(),
        Listener {
            bind: "0.0.0.0:2".to_string(),
            forwarding: Forwarding::Sni {
                target_port: 443,
                policy: Policy::ALLOW,
                rules: Rules { static_hosts: strings(&["x.test"]), patterns: vec![] },
                max_idle_time_ms: None,
            },
        },
    );
    let mut s = state_with(&[("old:1", true)], 5);
    healthcheck::init(&mut s, &config);
    assert_eq!(s.probe_list(), strings(&["h1:1", "h2:2", "h3:3"]));
    assert!(s.get_all_status().is_empty());
}

#[test]
fn init_inner_replaces_hosts_and_forgets_status() {
    let mut s = state_with(&[("a:1", false)], 1);
    s.init_inner(&strings(&["x:1"]));
    s.init_inner(&strings(&["b:1", "c:1", "b:1"]));
    assert_eq!(s.probe_list(), strings(&["b:1", "c:1"]));
    assert!(s.get_all_status().is_empty());
    assert_eq!(s.status_or("a:1", 9), (true, 9));
}

#[test]
fn register_adds_hosts_once() {
    let mut s = HealthState::new();
    s.register(&strings(&["a:1", "b:1"]));
    s.register(&strings(&["b:1", "c:1"]));
    assert_eq!(s.probe_list(), strings(&["a:1", "b:1", "c:1"]));
}

#[test]
fn record_writes_a_first_result() {
    let s = state_with(&[("a:1", true), ("b:1", false)], 100);
    assert_eq!(s.status_or("a:1", 0), (true, 100));
    assert_eq!(s.status_or("b:1", 0), (false, 100));
    assert_eq!(
        s.get_all_status(),
        vec![
            ("a:1".to_string(), HostStatus { up: true, last_changed: 100 }),
            ("b:1".to_string(), HostStatus { up: false, last_changed: 100 }),
        ]
    );
}

#[test]
fn record_keeps_the_time_of_an_unchanged_host() {
    let mut s = state_with(&[("a:1", true), ("b:1", false)], 100);
    s.record(&vec![("a:1".to_string(), true), ("b:1".to_string(), true)], 200);
    assert_eq!(s.status_or("a:1", 0), (true, 100));
    assert_eq!(s.status_or("b:1", 0), (true, 200));
    s.record(&vec![("a:1".to_string(), false)], 300);
    assert_eq!(s.status_or("a:1", 0), (false, 300));
    assert_eq!(s.status_or("b:1", 0), (true, 200));
}

#[test]
fn record_takes_results_in_order() {
    let s = state_with(&[("a:1", true), ("a:1", false), ("a:1", false)], 7);
    assert_eq!(s.status_or("a:1", 0), (false, 7));
    assert_eq!(s.get_all_status().len(), 1);
}

#[test]
fn an_unknown_host_is_reported_up_since_now() {
    let s = state_with(&[("a:1", false)], 100);
    assert_eq!(s.status_or("b:1", 555), (true, 555));
    let (up, when) = s.get_status_for("b:1").unwrap();
    assert!(up);
    assert!(when > 1_600_000_000_000);
    assert_eq!(s.get_status_for("a:1"), Some((false, 100)));
}

#[test]
fn select_at_chooses_among_the_hosts_that_are_up() {
    let s = state_with(&[("a:1", true), ("b:1", false), ("c:1", true), ("d:1", true)], 1);
    let what = strings(&["a:1", "b:1", "c:1", "d:1", "e:1"]);
    assert_eq!(s.select_at(&what, 0), (true, 0));
    assert_eq!(s.select_at(&what, 1), (true, 2));
    assert_eq!(s.select_at(&what, 2), (true, 3));
    assert_eq!(s.select_at(&what, 3), (true, 0));
    assert_eq!(s.select_at(&what, 100), (true, 2));
}

#[test]
fn select_at_falls_back_to_all_hosts_when_none_is_up() {
    let s = state_with(&[("a:1", false), ("b:1", false)], 1);
    let what = strings(&["a:1", "b:1", "c:1"]);
    assert_eq!(s.select_at(&what, 0), (false, 0));
    assert_eq!(s.select_at(&what, 4), (false, 1));
    assert_eq!(s.select_at(&what, 5), (false, 2));
    let fresh = HealthState::new();
    assert_eq!(fresh.select_at(&what, 7), (false, 1));
}

#[test]
fn select_returns_a_host_that_is_up() {
    let s = state_with(&[("a:1", false), ("b:1", true), ("c:1", false)], 1);
    let what = strings(&["a:1", "b:1", "c:1"]);
    for _ in 0..64 {
        assert_eq!(s.select("l", &what), (true, "b:1"));
    }
}

#[test]
fn select_with_all_targets_down_returns_a_candidate_marked_false() {
    let s = state_with(&[("a:1", false), ("b:1", false)], 1);
    let what = strings(&["a:1", "b:1"]);
    let mut seen = std::collections::HashSet::new();
    for _ in 0..256 {
        let (ok, chosen) = s.select("l", &what);
        assert!(!ok);
        assert!(what.iter().any(|h| h == chosen));
        seen.insert(chosen.to_string());
    }
    assert_eq!(seen.len(), 2);
}

#[test]
fn select_with_one_candidate_returns_it() {
    let s = HealthState::new();
    let what = strings(&["only:1"]);
    assert_eq!(s.select("l", &what), (false, "only:1"));
    let s = state_with(&[("only:1", true)], 1);
    assert_eq!(s.select("l", &what), (true, "only:1"));
}

#[test]
fn a_probe_is_up_only_when_connected() {
    assert!(healthcheck::check(ProbeOutcome::Connected));
    assert!(!healthcheck::check(ProbeOutcome::Failed));
    assert!(!healthcheck::check(ProbeOutcome::TimedOut));
    assert!(!healthcheck::check(ProbeOutcome::Cancelled));
}

#[test]
fn a_probe_dials_the_override() {
    let mut t = ResolveConfig::new();
    t.insert("h1:1", "10.0.0.9:1".to_string());
    assert_eq!(healthcheck::probe_target(&t, "H1:1"), "10.0.0.9:1");
    assert_eq!(healthcheck::probe_target(&t, "h2:1"), "h2:1");
}
