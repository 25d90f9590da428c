use port_forwarder::activetracker::{ActiveConnections, PeerAddr, PeerIp};
use port_forwarder::controller::{Controller, TaskHandle};
use port_forwarder::errors::PipeError;
use port_forwarder::idletracker::IdleTracker;
use port_forwarder::listener_context::{CancelStep, ListenerContext, Stats};
use port_forwarder::listener_stats::{ListenerStats, StatsSerde};
use port_forwarder::statistics::{ConnStats, GlobalStats};

#[test]
fn listener_stats_start_at_zero() {
    let s = ListenerStats::new("web", 1500);
    assert_eq!(s.name(), "web");
    assert_eq!(s.idle_timeout_ms(), 1500);
    assert_eq!((s.total_count(), s.active_count()), (0, 0));
    assert_eq!((s.uploaded_bytes_count(), s.downloaded_bytes_count()), (0, 0));
}

#[test]
fn connection_counts_follow_opens_and_closes() {
    let mut s = ListenerStats::new("web", 0);
    assert_eq!(s.increase_conn_count(), 1);
    assert_eq!(s.increase_conn_count(), 2);
    assert_eq!(s.increase_conn_count(), 3);
    assert_eq!(s.decrease_conn_count(), 2);
    assert_eq!((s.total_count(), s.active_count()), (3, 2));
    assert_eq!(s.decrease_conn_count(), 1);
    assert_eq!(s.decrease_conn_count(), 0);
    assert_eq!(s.increase_conn_count(), 1);
    assert_eq!((s.total_count(), s.active_count()), (4, 1));
}

#[test]
fn total_covers_the_peak_of_active() {
    let mut s = ListenerStats::new("web", 0);
    let mut peak = 0;
    for step in 0..40 {
        if step % 3 == 2 {
            s.decrease_conn_count();
        } else {
            s.increase_conn_count();
        }
        peak = peak.max(s.active_count());
        assert!(s.total_count() >= peak);
        assert!(s.total_count() >= s.active_count());
    }
}

#[test]
fn byte_counters_add_up_and_never_fall() {
    let mut s = ListenerStats::new("web", 0);
    assert_eq!(s.increase_uploaded_bytes(3), 3);
    assert_eq!(s.increase_uploaded_bytes(0), 3);
    assert_eq!(s.increase_uploaded_bytes(4096), 4099);
    assert_eq!(s.increase_downloaded_bytes(7), 7);
    assert_eq!(s.increase_downloaded_bytes(1), 8);
    assert_eq!((s.uploaded_bytes_count(), s.downloaded_bytes_count()), (4099, 8));
    assert_eq!((s.total_count(), s.active_count()), (0, 0));
}

#[test]
fn a_snapshot_copies_the_counters() {
    let mut s = ListenerStats::new("edge", 0);
    s.increase_conn_count();
    s.increase_conn_count();
    s.decrease_conn_count();
    s.increase_uploaded_bytes(10);
    s.increase_downloaded_bytes(20);
    let snap = StatsSerde::from(&s);
    assert_eq!(snap.name, "edge");
    assert_eq!((snap.total, snap.active), (2, 1));
    assert_eq!((snap.uploaded_bytes, snap.downloaded_bytes), (10, 20));
}

#[test]
fn zero_max_idle_means_no_limit() {
    let t = IdleTracker::new(0);
    assert_eq!(t.max_idle(), u64::MAX);
    assert!(!t.is_expired());
    assert!(!IdleTracker::expired_after(10_000_000_000, t.max_idle()));
    assert!(!IdleTracker::expired_after(u64::MAX as u128 * 1_000_000, t.max_idle()));
}

#[test]
fn expiry_compares_nanoseconds_with_milliseconds() {
    assert!(!IdleTracker::expired_after(0, 1000));
    assert!(!IdleTracker::expired_after(1_000_000_000, 1000));
    assert!(IdleTracker::expired_after(1_000_000_001, 1000));
    assert!(IdleTracker::expired_after(1_500_000_000, 1000));
    assert!(!IdleTracker::expired_after(999_999, 1));
    assert!(IdleTracker::expired_after(1_000_001, 1));
}

#[test]
fn a_fresh_tracker_is_not_expired() {
    let t = IdleTracker::new(60_000);
    assert_eq!(t.max_idle(), 60_000);
    assert!(!t.is_expired());
    assert!(t.idled_for() < 60_000_000_000);
}

#[test]
fn mark_returns_the_moment_before() {
    let mut t = IdleTracker::new(1000);
    let first = t.mark();
    let second = t.mark();
    assert!(second >= first);
    assert_eq!(t.max_idle(), 1000);
}

#[test]
fn a_tracker_expires_after_its_limit() {
    let t = IdleTracker::new(1);
    while t.idled_for() < 5_000_000 {}
    assert!(t.is_expired());
    assert!(t.idled_for() >= 5_000_000);
}

#[test]
fn pipe_error_keeps_its_message() {
    assert_eq!(PipeError::wrap("boom".to_string()).message(), "boom");
    assert_eq!(PipeError::wrap_box("in a box".to_string()).message(), "in a box");
    PipeError::test(5u8);
}

#[test]
fn a_controller_spawns_live_tasks() {
    let mut c = Controller::new();
    assert_eq!((c.next_serial(), c.spawned()), (0, 0));
    let a = c.spawn();
    let b = c.spawn();
    assert_eq!(a, TaskHandle { serial: 0 });
    assert_eq!(b, TaskHandle { serial: 1 });
    assert!(c.is_live(a) && c.is_live(b));
    assert!(!c.is_live(TaskHandle { serial: 2 }));
    assert_eq!((c.next_serial(), c.spawned()), (2, 2));
}

#[test]
fn cancel_aborts_every_task_and_the_controller_is_reusable() {
    let mut c = Controller::new();
    let a = c.spawn();
    assert_eq!(c.cancel(), 1);
    assert_eq!((c.next_serial(), c.spawned()), (1, 0));
    assert!(!c.is_live(a));
    let b = c.spawn();
    assert_eq!(b, TaskHandle { serial: 1 });
    assert!(c.is_live(b));
    assert!(!c.is_live(a));
    assert_eq!(c.cancel(), 2);
    assert_eq!(c.cancel(), 2);
    assert_eq!(c.spawned(), 0);
    assert!(!c.is_live(b));
    let d = c.spawn();
    assert_eq!(d, TaskHandle { serial: 2 });
    assert!(c.is_live(d));
    assert!(!c.is_live(a) && !c.is_live(b));
}

#[test]
fn cancelling_needs_no_room_in_the_counter() {
    let mut c = Controller::new();
    for _ in 0..1000 {
        c.cancel();
    }
    assert_eq!((c.next_serial(), c.spawned()), (0, 0));
    let a = c.spawn();
    assert!(c.is_live(a));
}

fn peer(last: u32, port: u16) -> PeerAddr {
    PeerAddr { ip: PeerIp::V4(0x7f00_0000 + last), port }
}

#[test]
fn the_active_tracker_maps_ids_to_peers() {
    let mut t = ActiveConnections::new();
    assert_eq!(t.len(), 0);
    t.put(1, peer(1, 1000));
    t.put(2, peer(2, 2000));
    t.put(1, peer(3, 3000));
    assert_eq!(t.len(), 2);
    let mut list = t.get_active_list();
    list.sort_by_key(|(id, _)| *id);
    assert_eq!(list, vec![(1, peer(3, 3000)), (2, peer(2, 2000))]);
    t.remove(1);
    t.remove(7);
    assert_eq!(t.get_active_list(), vec![(2, peer(2, 2000))]);
    t.reset();
    assert_eq!(t.len(), 0);
    assert!(t.get_active_list().is_empty());
}

#[test]
fn the_active_tracker_holds_v6_peers() {
    let mut t = ActiveConnections::new();
    let p = PeerAddr { ip: PeerIp::V6(1), port: 443 };
    t.put(u64::MAX, p);
    assert_eq!(t.get_active_list(), vec![(u64::MAX, p)]);
}

#[test]
fn global_stats_count_connections() {
    let mut g = GlobalStats::new();
    assert_eq!((g.conn_count(), g.active_conn_count()), (0, 0));
    let a = ConnStats::new(&mut g);
    let b = ConnStats::new(&mut g);
    assert_eq!((a.id(), b.id()), (1, 2));
    assert_eq!(a.id_str(), "conn 1");
    assert_eq!(b.id_str(), "conn 2");
    assert_eq!((g.conn_count(), g.active_conn_count()), (2, 2));
    a.close(&mut g);
    assert_eq!((g.conn_count(), g.active_conn_count()), (2, 1));
    let c = ConnStats::new(&mut g);
    assert_eq!(c.id(), 3);
    assert_eq!((g.conn_count(), g.active_conn_count()), (3, 2));
    b.close(&mut g);
    c.close(&mut g);
    assert_eq!((g.conn_count(), g.active_conn_count()), (3, 0));
}

#[test]
fn connection_bytes_count_in_both_places() {
    let mut g = GlobalStats::new();
    let mut a = ConnStats::new(&mut g);
    let mut b = ConnStats::new(&mut g);
    assert_eq!(a.add_uploaded_bytes(&mut g, 5), 5);
    assert_eq!(a.add_uploaded_bytes(&mut g, 6), 11);
    assert_eq!(b.add_uploaded_bytes(&mut g, 100), 100);
    assert_eq!(a.add_downloaded_bytes(&mut g, 7), 7);
    assert_eq!(b.add_downloaded_bytes(&mut g, 0), 0);
    assert_eq!((a.uploaded_bytes(), a.downloaded_bytes()), (11, 7));
    assert_eq!((b.uploaded_bytes(), b.downloaded_bytes()), (100, 0));
    assert_eq!((g.total_uploaded_bytes(), g.total_downloaded_bytes()), (111, 7));
    assert!(a.elapsed() < 60_000_000_000);
}

#[test]
fn a_listener_context_counts_like_its_stats() {
    let mut c = ListenerContext::new("ctx", 250);
    assert!(!c.cancel_requested());
    assert_eq!(c.increase_conn_count(), 1);
    assert_eq!(c.increase_conn_count(), 2);
    assert_eq!(c.decrease_conn_count(), 1);
    assert_eq!(c.increase_uploaded_bytes(5), 5);
    assert_eq!(c.increase_downloaded_bytes(6), 6);
    assert_eq!((c.total_count(), c.active_count()), (2, 1));
    assert_eq!((c.uploaded_bytes_count(), c.downloaded_bytes_count()), (5, 6));
    let s = Stats::from(&c);
    assert_eq!(s.name(), "ctx");
    assert_eq!(s.numbers(), (2, 1, 6, 5));
    assert_eq!(s, s.clone());
}

#[test]
fn ending_a_listener_waits_then_aborts() {
    let mut c = ListenerContext::new("ctx", 0);
    c.increase_conn_count();
    assert_eq!(c.cancel(false, false), CancelStep::AwaitConnections { delay_ms: 500 });
    assert!(c.cancel_requested());
    assert_eq!(c.cancel(true, false), CancelStep::AwaitConnections { delay_ms: 500 });
    c.decrease_conn_count();
    assert_eq!(c.cancel(true, false), CancelStep::Finished);
    assert_eq!(c.cancel(false, false), CancelStep::Abort);
    assert_eq!(c.cancel(false, true), CancelStep::AwaitEnd { delay_ms: 100 });
    assert_eq!(c.cancel(true, true), CancelStep::Ended);
}

#[test]
fn mark_at_notes_the_moment_given() {
    let first = std::time::Instant::now();
    let second = first + std::time::Duration::from_secs(5);
    let mut t = IdleTracker::new(1000);
    t.mark_at(first);
    assert_eq!(t.mark_at(second), first);
    assert_eq!(t.mark_at(first), second);
    assert_eq!(t.mark(), first);
    assert_eq!(t.max_idle(), 1000);
}

#[test]
fn activity_restarts_the_idle_time() {
    let mut t = IdleTracker::new(1);
    while t.idled_for() < 3_000_000 {}
    assert!(t.is_expired());
    t.mark();
    assert!(t.idled_for() < 3_000_000);
    let long_ago = std::time::Instant::now() - std::time::Duration::from_millis(50);
    t.mark_at(long_ago);
    assert!(t.idled_for() >= 50_000_000);
    assert!(t.is_expired());
}

#[test]
fn a_tracker_without_limit_never_expires() {
    let mut t = IdleTracker::new(0);
    let long_ago = std::time::Instant::now() - std::time::Duration::from_secs(10);
    t.mark_at(long_ago);
    assert!(t.idled_for() >= 10_000_000_000);
    assert!(!t.is_expired());
    let mut max = IdleTracker::new(u64::MAX);
    max.mark_at(long_ago);
    assert!(!max.is_expired());
    let mut one_second = IdleTracker::new(1000);
    one_second.mark_at(long_ago);
    assert!(one_second.is_expired());
}

#[test]
fn a_clock_reading_is_within_a_duration() {
    let t = IdleTracker::new(5);
    assert!(t.idled_for() <= port_forwarder::idletracker::MAX_DURATION_NANOS);
    assert_eq!(
        port_forwarder::idletracker::MAX_DURATION_NANOS,
        std::time::Duration::MAX.as_nanos()
    );
}

#[test]
fn a_tracker_starts_at_the_moment_given() {
    let start = std::time::Instant::now() - std::time::Duration::from_secs(2);
    let mut t = IdleTracker::new_at(1000, start);
    assert_eq!(t.max_idle(), 1000);
    assert!(t.idled_for() >= 2_000_000_000);
    assert!(t.is_expired());
    assert_eq!(t.mark(), start);
    assert_eq!(IdleTracker::new_at(0, start).max_idle(), u64::MAX);
    assert!(!IdleTracker::new_at(0, start).is_expired());
}

#[test]
fn a_connection_counts_its_time_from_its_start() {
    let mut g = GlobalStats::new();
    let start = std::time::Instant::now() - std::time::Duration::from_secs(1);
    let c = ConnStats::new_at(&mut g, start);
    assert_eq!(c.id(), 1);
    assert!(c.elapsed() >= 1_000_000_000);
    assert!(c.elapsed() <= port_forwarder::idletracker::MAX_DURATION_NANOS);
    assert_eq!((g.conn_count(), g.active_conn_count()), (1, 1));
}
