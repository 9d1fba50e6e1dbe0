use board_toggler::action::Action;
use board_toggler::error::{CleanupWarning, Direction, ErrorKind};
use board_toggler::payload::{build_payload, TEMPLATE};
use board_toggler::session::{
    Event, Session, Step, Verdict, ENDPOINT_IN, ENDPOINT_OUT, INTERFACE, PRODUCT_ID, RESPONSE_LEN,
    TIMEOUT_MS, VENDOR_ID,
};

fn words(list: &[&str]) -> Vec<String> {
    list.iter().map(|w| w.to_string()).collect()
}

/// Feeds the events to a session for the arguments and records every step it
/// asks for, the first one included.
fn run(arguments: &[&str], events: &[Event]) -> (Vec<Step>, Vec<Verdict>, Session) {
    let mut session = Session::begin(&words(arguments));
    let mut steps = vec![session.pending()];
    let mut verdicts = Vec::new();
    for event in events {
        verdicts.push(session.advance(*event));
        steps.push(session.pending());
    }
    (steps, verdicts, session)
}

fn open_device() -> Step {
    Step::OpenDevice { vendor_id: 0x1366, product_id: 0x1068 }
}

fn query() -> Step {
    Step::QueryKernelDriver { interface: 5 }
}

fn detach() -> Step {
    Step::DetachKernelDriver { interface: 5 }
}

fn claim() -> Step {
    Step::ClaimInterface { interface: 5 }
}

fn write(action: Action) -> Step {
    Step::WriteInterrupt { endpoint: 0x04, payload: build_payload(action), timeout_ms: 1000 }
}

fn read() -> Step {
    Step::ReadBulk { endpoint: 0x86, length: 64, timeout_ms: 1000 }
}

fn release() -> Step {
    Step::ReleaseInterface { interface: 5 }
}

fn attach() -> Step {
    Step::AttachKernelDriver { interface: 5 }
}

fn exit(code: i32) -> Step {
    Step::Exit { code }
}

const OK: Event = Event::Succeeded;
const FAIL: Event = Event::Failed;
const ACTIVE: Event = Event::DriverActive;

#[test]
fn the_device_parameters_are_fixed() {
    assert_eq!(VENDOR_ID, 0x1366);
    assert_eq!(PRODUCT_ID, 0x1068);
    assert_eq!(INTERFACE, 5);
    assert_eq!(ENDPOINT_OUT, 0x04);
    assert_eq!(ENDPOINT_IN, 0x80 | 0x06);
    assert_eq!(TIMEOUT_MS, 1000);
    assert_eq!(RESPONSE_LEN, 64);
}

#[test]
fn on_with_device_present_runs_to_exit_zero() {
    let (steps, verdicts, session) = run(&["on"], &[OK, OK, OK, OK, OK, OK, OK, OK]);
    assert_eq!(
        steps,
        vec![
            Step::OpenContext,
            open_device(),
            query(),
            claim(),
            write(Action::On),
            read(),
            release(),
            attach(),
            exit(0),
        ]
    );
    match steps[4] {
        Step::WriteInterrupt { payload, .. } => {
            assert_eq!(payload[11], 0xF5);
            assert_eq!(payload, TEMPLATE);
            assert_eq!(payload.len(), 64);
        }
        other => panic!("expected the write, got {:?}", other),
    }
    assert!(verdicts.iter().all(|v| *v == Verdict::Proceed));
    assert_eq!(session, Session::Finished(None));
}

#[test]
fn off_with_device_present_runs_to_exit_zero() {
    let (steps, verdicts, session) = run(&["off"], &[OK, OK, OK, OK, OK, OK, OK, OK]);
    assert_eq!(
        steps,
        vec![
            Step::OpenContext,
            open_device(),
            query(),
            claim(),
            write(Action::Off),
            read(),
            release(),
            attach(),
            exit(0),
        ]
    );
    match steps[4] {
        Step::WriteInterrupt { endpoint, payload, timeout_ms } => {
            assert_eq!(endpoint, 0x04);
            assert_eq!(timeout_ms, 1000);
            assert_eq!(payload[11], 0xF4);
            assert_eq!(payload[13], 0xF4);
            assert_eq!(payload[12], 0x14);
        }
        other => panic!("expected the write, got {:?}", other),
    }
    assert!(verdicts.iter().all(|v| *v == Verdict::Proceed));
    assert_eq!(session, Session::Finished(None));
}

#[test]
fn toggle_is_refused_without_any_usb_call() {
    let (steps, verdicts, session) = run(&["toggle"], &[OK, FAIL, ACTIVE, OK]);
    assert_eq!(steps, vec![exit(1); 5]);
    assert!(verdicts.iter().all(|v| *v == Verdict::Proceed));
    assert_eq!(session, Session::Finished(Some(ErrorKind::Usage)));
}

#[test]
fn wrong_argument_counts_are_refused_without_any_usb_call() {
    for arguments in [&[][..], &["on", "off"][..], &["on", "on"][..]] {
        let (steps, _, session) = run(arguments, &[OK, OK]);
        assert_eq!(steps, vec![exit(1); 3], "arguments {:?}", arguments);
        assert_eq!(session, Session::Finished(Some(ErrorKind::Usage)));
    }
}

#[test]
fn a_missing_device_ends_the_run_before_any_transfer() {
    let (steps, verdicts, session) = run(&["on"], &[OK, FAIL, OK, OK]);
    assert_eq!(steps, vec![Step::OpenContext, open_device(), exit(1), exit(1), exit(1)]);
    assert_eq!(verdicts[1], Verdict::Fatal(ErrorKind::DeviceNotFound));
    assert_eq!(session, Session::Finished(Some(ErrorKind::DeviceNotFound)));
    let transfers = steps
        .iter()
        .filter(|s| matches!(s, Step::WriteInterrupt { .. } | Step::ReadBulk { .. }))
        .count();
    assert_eq!(transfers, 0);
}

#[test]
fn a_failed_context_ends_the_run_at_once() {
    let (steps, verdicts, session) = run(&["off"], &[FAIL, OK]);
    assert_eq!(steps, vec![Step::OpenContext, exit(1), exit(1)]);
    assert_eq!(verdicts, vec![Verdict::Fatal(ErrorKind::ContextInit), Verdict::Proceed]);
    assert_eq!(session, Session::Finished(Some(ErrorKind::ContextInit)));
}

#[test]
fn a_bound_kernel_driver_is_detached_before_the_claim() {
    let (steps, verdicts, session) = run(&["on"], &[OK, OK, ACTIVE, OK, OK, OK, OK, OK, OK]);
    assert_eq!(
        steps,
        vec![
            Step::OpenContext,
            open_device(),
            query(),
            detach(),
            claim(),
            write(Action::On),
            read(),
            release(),
            attach(),
            exit(0),
        ]
    );
    assert!(verdicts.iter().all(|v| *v == Verdict::Proceed));
    assert_eq!(session, Session::Finished(None));
}

#[test]
fn a_failed_driver_query_is_passed_over() {
    let (steps, verdicts, _) = run(&["on"], &[OK, OK, FAIL, OK]);
    assert_eq!(
        steps,
        vec![Step::OpenContext, open_device(), query(), claim(), write(Action::On)]
    );
    assert_eq!(verdicts[2], Verdict::Proceed);
}

#[test]
fn a_failed_detach_is_fatal_and_skips_the_cleanup() {
    let (steps, verdicts, session) = run(&["on"], &[OK, OK, ACTIVE, FAIL, OK]);
    assert_eq!(
        steps,
        vec![Step::OpenContext, open_device(), query(), detach(), exit(1), exit(1)]
    );
    assert_eq!(verdicts[3], Verdict::Fatal(ErrorKind::DriverDetach));
    assert_eq!(session, Session::Finished(Some(ErrorKind::DriverDetach)));
}

#[test]
fn a_failed_claim_is_fatal_and_skips_the_cleanup() {
    let (steps, verdicts, session) = run(&["off"], &[OK, OK, OK, FAIL, OK]);
    assert_eq!(
        steps,
        vec![Step::OpenContext, open_device(), query(), claim(), exit(1), exit(1)]
    );
    assert_eq!(verdicts[3], Verdict::Fatal(ErrorKind::InterfaceClaim));
    assert_eq!(session, Session::Finished(Some(ErrorKind::InterfaceClaim)));
    assert!(!steps.contains(&release()));
    assert!(!steps.contains(&attach()));
}

#[test]
fn a_failed_write_is_followed_by_the_cleanup() {
    let (steps, verdicts, session) = run(&["on"], &[OK, OK, OK, OK, FAIL, OK, OK, OK]);
    assert_eq!(
        steps,
        vec![
            Step::OpenContext,
            open_device(),
            query(),
            claim(),
            write(Action::On),
            release(),
            attach(),
            exit(1),
            exit(1),
        ]
    );
    assert_eq!(verdicts[4], Verdict::Fatal(ErrorKind::Transfer(Direction::Write)));
    assert_eq!(session, Session::Finished(Some(ErrorKind::Transfer(Direction::Write))));
    assert!(!steps.contains(&read()));
}

#[test]
fn a_failed_read_is_followed_by_the_cleanup() {
    let (steps, verdicts, session) = run(&["off"], &[OK, OK, OK, OK, OK, FAIL, OK, OK]);
    assert_eq!(
        steps,
        vec![
            Step::OpenContext,
            open_device(),
            query(),
            claim(),
            write(Action::Off),
            read(),
            release(),
            attach(),
            exit(1),
        ]
    );
    assert_eq!(verdicts[5], Verdict::Fatal(ErrorKind::Transfer(Direction::Read)));
    assert_eq!(session, Session::Finished(Some(ErrorKind::Transfer(Direction::Read))));
}

#[test]
fn cleanup_failures_are_warnings_and_keep_the_status() {
    let (steps, verdicts, session) = run(&["on"], &[OK, OK, OK, OK, OK, OK, FAIL, FAIL]);
    assert_eq!(steps[6..], [release(), attach(), exit(0)]);
    assert_eq!(verdicts[6], Verdict::Warning(CleanupWarning::Release));
    assert_eq!(verdicts[7], Verdict::Warning(CleanupWarning::Reattach));
    assert_eq!(session, Session::Finished(None));

    let (steps, verdicts, session) = run(&["on"], &[OK, OK, OK, OK, FAIL, FAIL, FAIL]);
    assert_eq!(steps[5..], [release(), attach(), exit(1)]);
    assert_eq!(verdicts[5], Verdict::Warning(CleanupWarning::Release));
    assert_eq!(verdicts[6], Verdict::Warning(CleanupWarning::Reattach));
    assert_eq!(session, Session::Finished(Some(ErrorKind::Transfer(Direction::Write))));
}

#[test]
fn a_failed_release_does_not_stop_the_reattachment() {
    let mut session = Session::Releasing(None);
    assert_eq!(session.advance(FAIL), Verdict::Warning(CleanupWarning::Release));
    assert_eq!(session, Session::Reattaching(None));
    assert_eq!(session.pending(), attach());
}

#[test]
fn driver_active_counts_as_success_outside_the_query() {
    let (steps, verdicts, session) =
        run(&["on"], &[ACTIVE, ACTIVE, OK, ACTIVE, ACTIVE, ACTIVE, ACTIVE, ACTIVE]);
    assert_eq!(steps[8], exit(0));
    assert_eq!(steps[3], claim());
    assert!(verdicts.iter().all(|v| *v == Verdict::Proceed));
    assert_eq!(session, Session::Finished(None));
}

#[test]
fn a_finished_session_stays_finished() {
    for result in [None, Some(ErrorKind::Usage), Some(ErrorKind::Transfer(Direction::Read))] {
        for event in [OK, FAIL, ACTIVE] {
            let mut session = Session::Finished(result);
            assert_eq!(session.advance(event), Verdict::Proceed);
            assert_eq!(session, Session::Finished(result));
        }
    }
    assert_eq!(Session::Finished(None).pending(), exit(0));
    assert_eq!(Session::Finished(Some(ErrorKind::DriverDetach)).pending(), exit(1));
}

/// Every sequence of nine events over the three kinds, as the digits of a
/// number in base three.
fn events_of(mut code: u32) -> Vec<Event> {
    let mut events = Vec::new();
    for _ in 0..9 {
        events.push([OK, FAIL, ACTIVE][(code % 3) as usize]);
        code /= 3;
    }
    events
}

#[test]
fn every_run_is_over_after_nine_events() {
    for code in 0..19683u32 {
        let (steps, _, session) = run(&["off"], &events_of(code));
        assert!(matches!(session, Session::Finished(_)), "events {}", code);
        assert!(matches!(steps[9], Step::Exit { .. }), "events {}", code);
    }
}

#[test]
fn no_run_writes_twice_and_every_write_carries_the_requested_report() {
    for code in 0..19683u32 {
        for (word, action) in [("on", Action::On), ("off", Action::Off)] {
            let (steps, _, _) = run(&[word], &events_of(code));
            let writes: Vec<&Step> =
                steps.iter().filter(|s| matches!(s, Step::WriteInterrupt { .. })).collect();
            assert!(writes.len() <= 1, "events {}", code);
            for step in writes {
                assert_eq!(*step, write(action), "events {}", code);
            }
        }
    }
}

#[test]
fn every_run_that_claimed_the_interface_gives_it_back_before_it_exits() {
    for code in 0..19683u32 {
        let events = events_of(code);
        let (steps, verdicts, _) = run(&["on"], &events);
        let first_exit = steps.iter().position(|s| matches!(s, Step::Exit { .. })).unwrap();
        let claimed = steps.iter().any(|s| matches!(s, Step::WriteInterrupt { .. }));
        if claimed {
            assert_eq!(steps[first_exit - 2], release(), "events {}", code);
            assert_eq!(steps[first_exit - 1], attach(), "events {}", code);
        } else {
            assert!(!steps.contains(&release()), "events {}", code);
            assert!(!steps.contains(&attach()), "events {}", code);
            assert!(!steps.contains(&read()), "events {}", code);
        }
        let fatal = verdicts.iter().any(|v| matches!(v, Verdict::Fatal(_)));
        assert_eq!(steps[first_exit], exit(if fatal { 1 } else { 0 }), "events {}", code);
    }
}
