use port_forwarder::config::{
    AdminServerConfig, Config, Forwarding, Listener, Options, Policy, Rules,
};

fn rules(hosts: &[&str], patterns: &[&str]) -> Rules {
    Rules {
        static_hosts: hosts.iter().map(|s| s.to_string()).collect(),
        patterns: patterns.iter().map(|s| s.to_string()).collect(),
    }
}

fn sni(policy: Policy, rules: Rules, idle: Option<u64>) -> Listener {
    Listener {
        bind: "127.0.0.1:18443".to_string(),
        forwarding: Forwarding::Sni { target_port: 443, policy, rules, max_idle_time_ms: idle },
    }
}

fn plain(targets: &[&str]) -> Listener {
    Listener {
        bind: "127.0.0.1:18001".to_string(),
        forwarding: Forwarding::Plain { targets: targets.iter().map(|s| s.to_string()).collect() },
    }
}

#[test]
fn max_idle_time_defaults_to_one_hour() {
    assert_eq!(sni(Policy::ALLOW, rules(&[], &[]), None).max_idle_time_ms(), 3600000);
    assert_eq!(plain(&["a:1"]).max_idle_time_ms(), 3600000);
}

#[test]
fn max_idle_time_zero_means_no_limit() {
    assert_eq!(sni(Policy::ALLOW, rules(&[], &[]), Some(0)).max_idle_time_ms(), u64::MAX);
}

#[test]
fn max_idle_time_keeps_a_setting() {
    assert_eq!(sni(Policy::DENY, rules(&[], &[]), Some(1)).max_idle_time_ms(), 1);
    assert_eq!(sni(Policy::DENY, rules(&[], &[]), Some(1000)).max_idle_time_ms(), 1000);
}

#[test]
fn static_hosts_match_without_regard_to_case() {
    let r = rules(&["Example.Test", "other.test"], &[]);
    assert!(r.match_host("example.test"));
    assert!(r.match_host("EXAMPLE.TEST"));
    assert!(r.match_host("other.test"));
    assert!(!r.match_host("example.tes"));
    assert!(!r.match_host("sub.example.test"));
}

#[test]
fn patterns_match_anywhere_in_the_host() {
    let r = rules(&[], &[r"\.internal$", r"^db[0-9]+\."]);
    assert!(r.match_host("api.internal"));
    assert!(r.match_host("db12.example"));
    assert!(!r.match_host("internal.example"));
    assert!(!r.match_host("API.INTERNAL"));
    let r = rules(&[], &["test"]);
    assert!(r.match_host("my.test.example"));
}

#[test]
fn a_pattern_that_does_not_compile_matches_nothing() {
    let r = rules(&[], &["("]);
    assert!(!r.match_host("("));
    assert!(!r.match_host("anything"));
    let r = rules(&[], &["(", "any"]);
    assert!(r.match_host("anything"));
}

#[test]
fn empty_rules_match_nothing() {
    assert!(!rules(&[], &[]).match_host("example.test"));
    assert!(!rules(&[], &[]).match_host(""));
}

#[test]
fn allow_admits_only_what_matches() {
    let l = sni(Policy::ALLOW, rules(&["example.test"], &[r"\.corp$"]), None);
    assert!(l.is_allowed("example.test"));
    assert!(l.is_allowed("Example.Test"));
    assert!(l.is_allowed("mail.corp"));
    assert!(!l.is_allowed("evil.test"));
    assert!(l.match_host("example.test"));
    assert!(!l.match_host("evil.test"));
}

#[test]
fn deny_admits_only_what_does_not_match() {
    let l = sni(Policy::DENY, rules(&["example.test"], &[r"\.corp$"]), None);
    assert!(!l.is_allowed("example.test"));
    assert!(!l.is_allowed("EXAMPLE.test"));
    assert!(!l.is_allowed("mail.corp"));
    assert!(l.is_allowed("good.test"));
}

#[test]
fn a_plain_listener_has_no_rules() {
    let l = plain(&["127.0.0.1:18101"]);
    assert!(!l.match_host("example.test"));
    assert!(l.is_allowed("example.test"));
}

#[test]
fn default_options_are_empty() {
    let o = Options::default();
    assert_eq!(o.log_config_file, "");
    assert_eq!(o.health_check_timeout_ms, 0);
    assert_eq!(o.max_idle_time_ms, 0);
    assert!(o.self_ips.is_empty());
}

#[test]
fn default_admin_server_config_has_the_stock_values() {
    let a = AdminServerConfig::default();
    assert_eq!(a.bind_address.as_deref(), Some("0.0.0.0"));
    assert_eq!(a.bind_port, Some(48888));
    assert_eq!(a.username.as_deref(), Some("admin"));
    assert_eq!(a.password.as_deref(), Some("admin"));
    assert_eq!(a.tls, Some(false));
    assert_eq!(a.tls_cert.as_deref(), Some(""));
    assert_eq!(a.tls_key.as_deref(), Some(""));
    assert_eq!(a.tls_ca_cert.as_deref(), Some(""));
    assert_eq!(a.mutual_tls, Some(false));
    assert_eq!(a.rocket_log_level.as_deref(), Some("normal"));
}

#[test]
fn default_config_is_empty() {
    let c = Config::default();
    assert_eq!(c.listeners.len(), 0);
    assert_eq!(c.dns.len(), 0);
    assert!(c.admin_server.is_none());
    assert_eq!(c.options.log_config_file, "");
}
