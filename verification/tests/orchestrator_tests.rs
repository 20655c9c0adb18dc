use net_scanner::address::Address;
use net_scanner::orchestrator::ActiveScans;
use net_scanner::report::{Notice, NoticeKind};

#[test]
fn scans_set_out_while_there_is_room() {
    let mut scans = ActiveScans::new(3);
    assert_eq!(scans.active(), 0);
    assert_eq!(scans.limit(), 3);
    assert!(scans.has_room());
    assert!(scans.try_enter());
    assert!(scans.try_enter());
    assert!(scans.try_enter());
    assert_eq!(scans.active(), 3);
    assert!(!scans.has_room());
    assert!(!scans.try_enter());
    assert_eq!(scans.active(), 3);
    scans.release();
    assert_eq!(scans.active(), 2);
    assert!(scans.try_enter());
    assert!(!scans.try_enter());
}

#[test]
fn the_count_never_falls_below_none() {
    let mut scans = ActiveScans::new(2);
    scans.release();
    assert_eq!(scans.active(), 0);
    assert!(scans.try_enter());
    scans.release();
    scans.release();
    scans.release();
    assert_eq!(scans.active(), 0);
    assert!(scans.unit_finished(None).is_none());
    assert_eq!(scans.active(), 0);
}

#[test]
fn no_room_at_all() {
    let mut scans = ActiveScans::new(0);
    assert!(!scans.has_room());
    assert!(!scans.try_enter());
    assert!(scans.spawn_pass().is_empty());
    assert_eq!(scans.active(), 0);
}

#[test]
fn the_count_stays_within_its_limit() {
    let mut scans = ActiveScans::new(5);
    let mut step: u32 = 0;
    while step < 1000 {
        if step % 3 == 2 {
            scans.release();
        } else {
            scans.try_enter();
        }
        if step % 7 == 0 {
            scans.unit_finished(Some("fault".to_string()));
        }
        assert!(scans.active() <= 5);
        step += 1;
    }
}

#[test]
fn a_pass_fills_every_free_place() {
    let mut scans = ActiveScans::new(50);
    assert!(scans.try_enter());
    let targets = scans.spawn_pass();
    assert_eq!(targets.len(), 49);
    assert_eq!(scans.active(), 50);
    for target in &targets {
        assert!(target.first >= 1 && target.first <= 223);
        assert!(target.fourth >= 1 && target.fourth <= 254);
        assert!(target.first != 10 && target.first != 127);
        assert!(!(target.first == 192 && target.second == 168));
        assert!(!(target.first == 172 && target.second >= 16 && target.second <= 31));
    }
    assert!(scans.spawn_pass().is_empty());
    scans.release();
    scans.release();
    assert_eq!(scans.spawn_pass().len(), 2);
    assert_eq!(scans.active(), 50);
}

#[test]
fn a_scan_that_ran_to_its_end_gives_its_place_back() {
    let mut scans = ActiveScans::new(1);
    assert!(scans.try_enter());
    assert!(scans.unit_finished(None).is_none());
    assert_eq!(scans.active(), 0);
    assert!(scans.try_enter());
}

#[test]
fn a_scan_that_ended_by_a_fault_is_reported() {
    let mut scans = ActiveScans::new(2);
    assert!(scans.try_enter());
    let notice = scans.unit_finished(Some("task 7 panicked".to_string())).expect("a notice");
    assert_eq!(notice.kind, NoticeKind::TaskFailed);
    assert_eq!(notice.text, "Task failed: task 7 panicked");
    assert_eq!(scans.active(), 1);
    assert!(scans.try_enter());
    assert!(!scans.try_enter());
}

#[test]
fn notices_read_as_lines() {
    let cases = [
        (NoticeKind::Scanning, "Scanning single port: 1.2.3.4:80"),
        (NoticeKind::ConnectError, "[error] Connect error to 1.2.3.4:80: why"),
        (NoticeKind::ConnectTimeout, "[error] Connect timeout to 1.2.3.4:80"),
        (NoticeKind::PayloadMissing, "[critical] Payload for port 80 not found"),
        (NoticeKind::IoError, "[error] IO error on 1.2.3.4:80: why"),
        (NoticeKind::IoTimeout, "[error] IO timeout on 1.2.3.4:80"),
        (NoticeKind::Found, "[80] 1.2.3.4:80"),
        (NoticeKind::WriteError, "Write error: why"),
        (NoticeKind::FlushError, "Flush error: why"),
        (NoticeKind::TaskFailed, "Task failed: why"),
    ];
    for (kind, text) in cases {
        let notice = Notice::new(kind, "1.2.3.4:80", 80, "why");
        assert_eq!(notice.kind, kind);
        assert_eq!(notice.text, text);
        assert_eq!(kind.goes_to_error_stream(), kind != NoticeKind::Scanning && kind != NoticeKind::Found);
    }
}

#[test]
fn targets_read_as_address_and_port() {
    assert_eq!(net_scanner::report::target_string("198.51.100.7", 80), "198.51.100.7:80");
    assert_eq!(net_scanner::report::target_string("1.1.1.1", 0), "1.1.1.1:0");
    assert_eq!(net_scanner::report::target_string("1.1.1.1", 65535), "1.1.1.1:65535");
}

#[test]
fn a_draw_is_counted_in_while_there_is_room() {
    let target = Address { first: 8, second: 8, third: 4, fourth: 4 };
    let other = Address { first: 1, second: 1, third: 1, fourth: 1 };
    let mut scans = ActiveScans::new(2);
    assert_eq!(scans.take_draw(Some(target)), Some(target));
    assert_eq!(scans.active(), 1);
    assert_eq!(scans.take_draw(None), None);
    assert_eq!(scans.active(), 1);
    assert_eq!(scans.take_draw(Some(other)), Some(other));
    assert_eq!(scans.active(), 2);
    assert_eq!(scans.take_draw(Some(target)), None);
    assert_eq!(scans.active(), 2);
    scans.release();
    assert_eq!(scans.take_draw(Some(target)), Some(target));
    assert_eq!(scans.active(), 2);
}

#[test]
fn a_draw_without_room_is_dropped() {
    let mut scans = ActiveScans::new(0);
    assert_eq!(scans.take_draw(Some(Address { first: 8, second: 8, third: 8, fourth: 8 })), None);
    assert_eq!(scans.take_draw(None), None);
    assert_eq!(scans.active(), 0);
}
