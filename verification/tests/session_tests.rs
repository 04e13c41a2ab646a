use rzctl::codec::{control_block_to_bytes, mouse_move};
use rzctl::session::{device_path, Session, IOCTL_MOUSE};

/// The host-side shape of one public operation: consult the session, "send"
/// with a forced transport verdict, let the session decide on recovery, and
/// perform at most that one recovery. Returns what the operation reports and
/// how many reinitialisations the session demanded.
fn send_with_forced_verdict(
    s: &mut Session,
    transport_ok: bool,
    recovery_succeeds: bool,
) -> (bool, u32) {
    if !s.should_send() {
        return (false, 0);
    }
    let ok = transport_ok; // the device-control request would run here
    let mut inits = 0u32;
    if s.on_send_result(ok) {
        // exactly one recovery attempt, its result discarded
        s.begin_init();
        s.complete_init(recovery_succeeds);
        inits += 1;
    }
    (ok, inits)
}

#[test]
fn fresh_session_refuses_to_send() {
    let mut s = Session::new();
    assert!(!s.should_send());
    let (ok, inits) = send_with_forced_verdict(&mut s, true, true);
    assert!(!ok);
    assert_eq!(inits, 0);
}

#[test]
fn init_reports_the_open_outcome() {
    let mut s = Session::new();
    let need_close = s.begin_init();
    assert!(!need_close);
    assert!(!s.complete_init(false));
    assert!(!s.should_send());

    let need_close = s.begin_init();
    assert!(!need_close);
    assert!(s.complete_init(true));
    assert!(s.should_send());

    // a second init over an open session must first close the held handle
    let need_close = s.begin_init();
    assert!(need_close);
    assert!(s.complete_init(true));
}

#[test]
fn transport_failure_triggers_exactly_one_recovery_and_still_fails() {
    let mut s = Session::new();
    s.begin_init();
    assert!(s.complete_init(true));

    // the handle is stale: the transport rejects the request
    let (ok, inits) = send_with_forced_verdict(&mut s, false, true);
    assert!(!ok); // the failed call is still reported as failed
    assert_eq!(inits, 1); // and exactly one reinitialisation ran

    // the next call profits from the recovered handle
    let (ok, inits) = send_with_forced_verdict(&mut s, true, true);
    assert!(ok);
    assert_eq!(inits, 0);
}

#[test]
fn failed_recovery_leaves_later_sends_refused() {
    let mut s = Session::new();
    s.begin_init();
    assert!(s.complete_init(true));

    let (ok, inits) = send_with_forced_verdict(&mut s, false, false);
    assert!(!ok);
    assert_eq!(inits, 1);

    // recovery failed, so the session is unopened and sends are no-ops
    assert!(!s.should_send());
    let (ok, inits) = send_with_forced_verdict(&mut s, true, true);
    assert!(!ok);
    assert_eq!(inits, 0);
}

#[test]
fn successful_send_demands_no_recovery() {
    let mut s = Session::new();
    s.begin_init();
    assert!(s.complete_init(true));
    let (ok, inits) = send_with_forced_verdict(&mut s, true, true);
    assert!(ok);
    assert_eq!(inits, 0);
    assert!(s.should_send());
}

#[test]
fn device_path_prefixes_the_resolved_link() {
    assert_eq!(device_path("RZCONTROL42"), "\\\\?\\RZCONTROL42");
    assert_eq!(device_path(""), "\\\\?\\");
}

#[test]
fn control_code_and_payload_size_match_the_driver_contract() {
    assert_eq!(IOCTL_MOUSE, 0x88883020);
    let bytes = control_block_to_bytes(&mouse_move(10, 10, false));
    assert_eq!(bytes.len(), 32);
}
