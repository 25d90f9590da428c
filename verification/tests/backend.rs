use port_forwarder::backend::{HostGroup, HostGroupTracker};
use port_forwarder::resolve::ResolveConfig;
use port_forwarder::strmap::StringMap;
use std::time::Instant;

fn strings(items: &[&str]) -> Vec<String> {
    items.iter().map(|s| s.to_string()).collect()
}

fn report(entries: &[(&str, bool)]) -> StringMap<bool> {
    let mut m = StringMap::new();
    for (h, up) in entries {
        m.insert(h.to_string(), *up);
    }
    m
}

fn group(name: &str, hosts: &[&str]) -> HostGroup {
    let mut g = HostGroup::new(name);
    for h in hosts {
        g.add(h);
    }
    g
}

#[test]
fn a_new_host_counts_as_up() {
    let g = group("some", &["a:80", "b:80"]);
    assert_eq!(g.name(), "some");
    assert_eq!(g.get_all(), strings(&["a:80", "b:80"]));
    assert_eq!(g.select_at(0), Some("a:80".to_string()));
    assert_eq!(g.select_at(1), Some("b:80".to_string()));
    assert_eq!(g.select_at(2), Some("a:80".to_string()));
    assert_eq!(HostGroup::new("empty").select_at(0), None);
    assert!(HostGroup::new("empty").get_all().is_empty());
}

#[test]
fn a_report_finds_a_host_up_only_when_it_says_so() {
    let r = report(&[("a:80", true), ("b:80", false)]);
    assert!(HostGroup::is_up(&r, "a:80"));
    assert!(!HostGroup::is_up(&r, "b:80"));
    assert!(!HostGroup::is_up(&r, "c:80"));
}

#[test]
fn an_update_moves_hosts_between_up_and_down() {
    let mut g = group("some", &["a:80", "b:80", "c:80"]);
    g.update(&report(&[("a:80", true), ("b:80", false)]));
    assert_eq!(g.get_all(), strings(&["a:80", "b:80", "c:80"]));
    assert_eq!(g.select_at(0), Some("a:80".to_string()));
    assert_eq!(g.select_at(1), Some("a:80".to_string()));
    g.update(&report(&[("c:80", true), ("b:80", true)]));
    assert_eq!(g.get_all(), strings(&["b:80", "c:80", "a:80"]));
    g.update(&report(&[]));
    assert_eq!(g.get_all(), strings(&["a:80", "b:80", "c:80"]));
    assert_eq!(g.select_at(1), Some("b:80".to_string()));
    assert_eq!(g.select_at(5), Some("c:80".to_string()));
}

#[test]
fn an_update_keeps_hosts_that_stay_in_order() {
    let mut g = group("some", &["a:80", "b:80", "c:80", "d:80"]);
    let now = Instant::now();
    g.update_at(&report(&[("a:80", true), ("c:80", true), ("d:80", true)]), now);
    assert_eq!(g.get_all(), strings(&["a:80", "c:80", "d:80", "b:80"]));
    g.update_at(&report(&[("a:80", true), ("b:80", true), ("d:80", true)]), now);
    assert_eq!(g.get_all(), strings(&["a:80", "d:80", "b:80", "c:80"]));
}

#[test]
fn index_of_finds_the_first_entry() {
    let now = Instant::now();
    let list = vec![("a".to_string(), now), ("b".to_string(), now), ("a".to_string(), now)];
    assert_eq!(HostGroup::index_of(&list, "a"), Some(0));
    assert_eq!(HostGroup::index_of(&list, "b"), Some(1));
    assert_eq!(HostGroup::index_of(&list, "c"), None);
}

#[test]
fn remove_takes_out_the_first_entry() {
    let now = Instant::now();
    let mut list = vec![("a".to_string(), now), ("b".to_string(), now), ("a".to_string(), now)];
    HostGroup::remove(&mut list, "a");
    let names: Vec<&str> = list.iter().map(|e| e.0.as_str()).collect();
    assert_eq!(names, vec!["b", "a"]);
    HostGroup::remove(&mut list, "zzz");
    assert_eq!(list.len(), 2);
}

#[test]
fn the_tracker_clamps_the_timeout() {
    assert_eq!(HostGroupTracker::new(10, ResolveConfig::new()).host_checker().timeout_ms(), 100);
    assert_eq!(HostGroupTracker::new(99, ResolveConfig::new()).host_checker().timeout_ms(), 100);
    assert_eq!(HostGroupTracker::new(100, ResolveConfig::new()).host_checker().timeout_ms(), 100);
    assert_eq!(HostGroupTracker::new(10000, ResolveConfig::new()).host_checker().timeout_ms(), 10000);
}

#[test]
fn the_tracker_selects_within_a_group() {
    let mut t = HostGroupTracker::new(10000, ResolveConfig::new());
    t.add(group("some", &["a:80", "b:80"]));
    t.add(group("some1", &["c:22"]));
    assert_eq!(t.select_at("some", 3), Some("b:80".to_string()));
    assert_eq!(t.select_at("some1", 3), Some("c:22".to_string()));
    assert_eq!(t.select_at("none", 0), None);
    assert_eq!(t.select("none"), None);
    for _ in 0..32 {
        assert_eq!(t.select("some1"), Some("c:22".to_string()));
        let chosen = t.select("some").unwrap();
        assert!(chosen == "a:80" || chosen == "b:80");
    }
    t.add(HostGroup::new("empty"));
    assert_eq!(t.select("empty"), None);
}

#[test]
fn the_tracker_prefers_hosts_that_are_up() {
    let mut t = HostGroupTracker::new(10000, ResolveConfig::new());
    t.add(group("some", &["a:80", "b:80", "c:80"]));
    assert_eq!(t.hosts_to_check(), strings(&["a:80", "b:80", "c:80"]));
    t.apply(&report(&[("b:80", true)]));
    for _ in 0..32 {
        assert_eq!(t.select("some"), Some("b:80".to_string()));
    }
    t.apply(&report(&[]));
    assert_eq!(t.select_at("some", 0), Some("a:80".to_string()));
    assert_eq!(t.select_at("some", 1), Some("c:80".to_string()));
    assert_eq!(t.select_at("some", 2), Some("b:80".to_string()));
    assert_eq!(t.hosts_to_check(), strings(&["a:80", "c:80", "b:80"]));
}

#[test]
fn adding_a_group_replaces_one_of_the_same_name() {
    let mut t = HostGroupTracker::new(1000, ResolveConfig::new());
    t.add(group("some", &["a:80"]));
    t.add(group("some", &["z:80"]));
    assert_eq!(t.hosts_to_check(), strings(&["z:80"]));
}

#[test]
fn select_random_returns_an_entry() {
    let now = Instant::now();
    let list = vec![("a".to_string(), now), ("b".to_string(), now)];
    for _ in 0..32 {
        let chosen = HostGroupTracker::select_random(&list).unwrap();
        assert!(chosen == "a" || chosen == "b");
    }
    let one = vec![("only".to_string(), now)];
    assert_eq!(HostGroupTracker::select_random(&one), Some("only".to_string()));
}

#[test]
fn the_checker_plans_each_host_once_with_its_override() {
    let mut table = ResolveConfig::new();
    table.insert("web:80", "10.0.0.1:8080".to_string());
    let t = HostGroupTracker::new(500, table);
    let plan = t.host_checker().plan(&strings(&["web:80", "db:5432", "WEB:80", "web:80"]));
    assert_eq!(plan.len(), 3);
    assert_eq!(plan.get("web:80"), Some(&"10.0.0.1:8080".to_string()));
    assert_eq!(plan.get("WEB:80"), Some(&"10.0.0.1:8080".to_string()));
    assert_eq!(plan.get("db:5432"), Some(&"db:5432".to_string()));
    assert_eq!(t.host_checker().target("Web:80"), "10.0.0.1:8080");
}

#[test]
fn a_host_is_added_with_its_moment() {
    let now = Instant::now();
    let mut g = HostGroup::new("some");
    g.add_at("a:80", now);
    g.add_at("b:80", now);
    g.add("c:80");
    assert_eq!(g.get_all(), strings(&["a:80", "b:80", "c:80"]));
    assert_eq!(g.select_at(4), Some("b:80".to_string()));
}
