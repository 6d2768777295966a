use futures::FutureExt;
use geoip_shutdown::accept::{accept_step, AcceptAction};
use geoip_shutdown::cancel::{race_with_cancel, Raced, Token};
use geoip_shutdown::drain::{DrainController, DrainStep, Stage, DEFAULT_DRAIN_DEADLINE_MS};
use geoip_shutdown::handler::{completion_for, Completion, ConnectionHandler, Phase, ReadOutcome};
use geoip_shutdown::idle::{IdleWatchdog, RequestCounter};
use geoip_shutdown::timeout::{race_with_timer, Timed};

#[test]
fn signal_completes_only_after_firing() {
    let (token, mut trigger) = Token::new();
    assert!(!trigger.has_fired());
    assert!(token.signal().now_or_never().is_none());
    assert!(trigger.fire());
    assert!(trigger.has_fired());
    assert!(matches!(token.signal().now_or_never(), Some(Ok(()))));
}

#[test]
fn repeated_firing_sends_once() {
    let (token, mut trigger) = Token::new();
    let mut sends = 0;
    for _ in 0..5 {
        if trigger.fire() {
            sends += 1;
        }
    }
    assert_eq!(sends, 1);
    assert!(matches!(token.signal().now_or_never(), Some(Ok(()))));
}

#[test]
fn every_observer_sees_the_signal() {
    let (token, mut trigger) = Token::new();
    let early: Vec<Token> = (0..3).map(|_| token.clone()).collect();
    for t in &early {
        assert!(t.signal().now_or_never().is_none());
    }
    trigger.fire();
    for t in &early {
        assert!(matches!(t.signal().now_or_never(), Some(Ok(()))));
    }
    let late = token.clone();
    assert!(matches!(late.signal().now_or_never(), Some(Ok(()))));
}

#[test]
fn cancellation_wins_a_tie() {
    assert!(matches!(race_with_cancel(true, Some(7)), Raced::Cancelled));
    assert!(matches!(race_with_cancel(true, None::<i32>), Raced::Cancelled));
    assert!(matches!(race_with_cancel(false, Some(7)), Raced::Done(7)));
    assert!(matches!(race_with_cancel(false, None::<i32>), Raced::Pending));
}

#[test]
fn operation_wins_a_tie_with_its_timer() {
    assert!(matches!(race_with_timer(Some(3), true), Timed::Done(3)));
    assert!(matches!(race_with_timer(None::<i32>, true), Timed::Expired));
    assert!(matches!(race_with_timer(None::<i32>, false), Timed::Pending));
}

#[test]
fn counter_counts_each_request() {
    let mut c = RequestCounter::new();
    assert_eq!(c.served(), 0);
    c.record();
    c.record();
    c.record();
    assert_eq!(c.served(), 3);
}

#[test]
fn watchdog_fires_after_a_quiet_period() {
    let mut w = IdleWatchdog::new();
    assert!(!w.on_period(2));
    assert!(!w.on_period(5));
    assert!(!w.has_fired());
    assert!(w.on_period(5));
    assert!(w.has_fired());
    // It fires once only.
    assert!(!w.on_period(5));
}

#[test]
fn watchdog_latency_is_between_one_and_two_periods() {
    // Period 5; requests at times 1, 4 and 7; samples at 5, 10, 15.
    let arrivals = [1u64, 4, 7];
    let period = 5u64;
    let mut w = IdleWatchdog::new();
    let mut fired_at = None;
    for k in 1..10u64 {
        let now = k * period;
        let count = arrivals.iter().filter(|a| **a <= now).count() as u64;
        if w.on_period(count) {
            fired_at = Some(now);
            break;
        }
    }
    assert_eq!(fired_at, Some(15));
    let gap = 15 - 7;
    assert!(gap >= period && gap < 2 * period);
}

#[test]
fn idle_server_with_no_connections_shuts_down() {
    // Idle timeout 5 s and no connection ever: the first sample, at 5 s, fires.
    let counter = RequestCounter::new();
    let (token, mut trigger) = Token::new();
    let mut ctl = DrainController::new(DEFAULT_DRAIN_DEADLINE_MS);
    let mut w = IdleWatchdog::new();
    assert!(w.on_period(counter.served()));
    assert_eq!(counter.served(), 0);
    ctl.on_stop_request(&mut trigger);
    assert_eq!(ctl.stage(), Stage::ShuttingDown);
    assert!(matches!(token.signal().now_or_never(), Some(Ok(()))));
    assert!(matches!(accept_step::<u8, ()>(None), AcceptAction::Stop));
    ctl.on_accept_ended(false, &mut trigger);
    assert_eq!(ctl.on_drain_progress(0, 0), DrainStep::Clean);
    assert!(ctl.exit_success());
}

#[test]
fn completion_codes() {
    assert_eq!(completion_for::<()>(Some(Ok(()))), Completion::Complete(0));
    assert_eq!(completion_for(Some(Err("no address"))), Completion::Complete(1));
    assert_eq!(completion_for::<()>(None), Completion::Overloaded);
}

#[test]
fn handler_finishes_request_despite_shutdown() {
    let mut counter = RequestCounter::new();
    let mut h = ConnectionHandler::new();
    assert!(h.on_read(Some(ReadOutcome::Request), &mut counter));
    assert_eq!(h.phase(), Phase::Processing);
    assert_eq!(counter.served(), 1);
    // Shutdown fires here; the request still completes.
    assert_eq!(h.on_processed::<()>(None), Completion::Overloaded);
    assert_eq!(h.phase(), Phase::Reading);
    // The next read loses against the signal even with a request ready.
    let next = match race_with_cancel(true, Some(ReadOutcome::Request)) {
        Raced::Done(r) => Some(r),
        _ => None,
    };
    assert!(!h.on_read(next, &mut counter));
    assert_eq!(h.phase(), Phase::Closed);
    assert_eq!(counter.served(), 1);
}

#[test]
fn handler_closes_on_end_or_failure() {
    let mut counter = RequestCounter::new();
    let mut h = ConnectionHandler::new();
    assert!(!h.on_read(Some(ReadOutcome::Ended), &mut counter));
    assert_eq!(h.phase(), Phase::Closed);
    let mut h = ConnectionHandler::new();
    assert!(!h.on_read(Some(ReadOutcome::Failed), &mut counter));
    assert_eq!(h.phase(), Phase::Closed);
    assert_eq!(counter.served(), 0);
}

#[test]
fn accept_loop_actions() {
    assert!(matches!(accept_step::<u8, &str>(Some(Ok(4))), AcceptAction::Spawn(4)));
    assert!(matches!(accept_step::<u8, &str>(Some(Err("reset"))), AcceptAction::Fail("reset")));
    assert!(matches!(accept_step::<u8, &str>(None), AcceptAction::Stop));
    let raced = match race_with_cancel(true, Some(Ok::<u8, &str>(4))) {
        Raced::Done(r) => Some(r),
        _ => None,
    };
    assert!(matches!(accept_step(raced), AcceptAction::Stop));
}

#[test]
fn three_connections_then_interrupt() {
    let mut counter = RequestCounter::new();
    let (token, mut trigger) = Token::new();
    let mut ctl = DrainController::new(DEFAULT_DRAIN_DEADLINE_MS);
    let mut handlers = Vec::new();
    for conn in 0..3u8 {
        assert!(matches!(accept_step::<u8, ()>(Some(Ok(conn))), AcceptAction::Spawn(_)));
        let mut h = ConnectionHandler::new();
        assert!(h.on_read(Some(ReadOutcome::Request), &mut counter));
        assert_eq!(h.on_processed::<()>(Some(Ok(()))), Completion::Complete(0));
        assert!(!h.on_read(Some(ReadOutcome::Ended), &mut counter));
        handlers.push(h);
    }
    assert_eq!(counter.served(), 3);
    ctl.on_stop_request(&mut trigger);
    assert!(matches!(token.signal().now_or_never(), Some(Ok(()))));
    // A connection ready together with the signal is not accepted.
    let raced = match race_with_cancel(true, Some(Ok::<u8, ()>(9))) {
        Raced::Done(r) => Some(r),
        _ => None,
    };
    assert!(matches!(accept_step(raced), AcceptAction::Stop));
    ctl.on_accept_ended(false, &mut trigger);
    assert_eq!(ctl.stage(), Stage::Draining);
    let remaining = handlers.iter().filter(|h| h.phase() != Phase::Closed).count();
    assert_eq!(ctl.on_drain_progress(10, remaining), DrainStep::Clean);
    assert_eq!(ctl.stage(), Stage::Terminated);
    assert!(ctl.exit_success());
}

#[test]
fn stuck_handler_is_abandoned_at_the_deadline() {
    let (_token, mut trigger) = Token::new();
    let mut ctl = DrainController::new(20_000);
    ctl.on_stop_request(&mut trigger);
    ctl.on_accept_ended(false, &mut trigger);
    assert_eq!(ctl.on_drain_progress(5_000, 1), DrainStep::Wait);
    assert_eq!(ctl.on_drain_progress(19_999, 1), DrainStep::Wait);
    assert_eq!(ctl.stage(), Stage::Draining);
    assert_eq!(ctl.on_drain_progress(20_000, 1), DrainStep::Forced);
    assert_eq!(ctl.stage(), Stage::Terminated);
    assert!(ctl.exit_success());
}

#[test]
fn listener_failure_fails_the_exit() {
    let (token, mut trigger) = Token::new();
    let mut ctl = DrainController::new(DEFAULT_DRAIN_DEADLINE_MS);
    assert!(matches!(accept_step::<u8, &str>(Some(Err("broken"))), AcceptAction::Fail(_)));
    ctl.on_accept_ended(true, &mut trigger);
    assert!(trigger.has_fired());
    assert!(matches!(token.signal().now_or_never(), Some(Ok(()))));
    assert_eq!(ctl.on_drain_progress(0, 0), DrainStep::Clean);
    assert!(!ctl.exit_success());
}

#[test]
fn drain_progress_ignored_before_draining() {
    let mut ctl = DrainController::new(100);
    assert_eq!(ctl.on_drain_progress(500, 0), DrainStep::Wait);
    assert_eq!(ctl.stage(), Stage::Running);
    assert_eq!(ctl.deadline_ms(), 100);
}
