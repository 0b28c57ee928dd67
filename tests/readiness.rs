use app_wrapper::readiness::{
    is_ready, reply_from_response, splash_hold_ms, Action, Event, HealthReply, Phase, Poller,
    MAX_ATTEMPTS, MIN_SPLASH_MS, READY_DEADLINE_MS, RETRY_INTERVAL_MS,
};

const NOT_READY: HealthReply = HealthReply::Reported { ready: false };
const READY: HealthReply = HealthReply::Reported { ready: true };

fn reply(r: HealthReply, elapsed_ms: u64) -> Event {
    Event::Reply { reply: r, elapsed_ms }
}

#[test]
fn only_a_true_flag_is_ready() {
    assert!(is_ready(&READY));
    assert!(!is_ready(&NOT_READY));
    assert!(!is_ready(&HealthReply::Unreachable));
    assert!(!is_ready(&HealthReply::Malformed));
    assert!(!is_ready(&HealthReply::Rejected { status: 500 }));
}

#[test]
fn responses_are_classified() {
    assert_eq!(reply_from_response(200, Some(true)), READY);
    assert_eq!(reply_from_response(204, Some(false)), NOT_READY);
    assert_eq!(reply_from_response(200, None), HealthReply::Malformed);
    assert_eq!(reply_from_response(503, Some(true)), HealthReply::Rejected { status: 503 });
    assert_eq!(reply_from_response(199, Some(true)), HealthReply::Rejected { status: 199 });
    assert_eq!(reply_from_response(300, Some(true)), HealthReply::Rejected { status: 300 });
    assert_eq!(reply_from_response(299, Some(true)), READY);
}

#[test]
fn splash_hold_makes_up_two_seconds() {
    assert_eq!(MIN_SPLASH_MS, 2000);
    assert_eq!(splash_hold_ms(0), 2000);
    assert_eq!(splash_hold_ms(350), 1650);
    assert_eq!(splash_hold_ms(1999), 1);
    assert_eq!(splash_hold_ms(2000), 0);
    assert_eq!(splash_hold_ms(45_000), 0);
    assert_eq!(splash_hold_ms(u64::MAX), 0);
}

#[test]
fn immediate_readiness_keeps_splash_for_minimum() {
    let mut p = Poller::new();
    assert_eq!(p.step(Event::Start), Action::SendRequest);
    assert_eq!(p.step(reply(READY, 40)), Action::Wait { ms: 1960 });
    assert_eq!(p.phase, Phase::HoldingSplash);
    assert_eq!(p.step(Event::Waited), Action::OpenMainWindow);
    assert_eq!(p.step(Event::MainWindow { opened: true }), Action::CloseSplashAndFocusMain);
    assert_eq!(p.phase, Phase::Running);
    assert_eq!(p.requests, 1);
}

#[test]
fn late_readiness_opens_main_at_once() {
    let mut p = Poller::new();
    p.step(Event::Start);
    for _ in 0..5 {
        assert_eq!(p.step(reply(HealthReply::Unreachable, 100)), Action::Wait { ms: RETRY_INTERVAL_MS });
        assert_eq!(p.step(Event::Waited), Action::SendRequest);
    }
    assert_eq!(p.step(reply(READY, 2600)), Action::OpenMainWindow);
    assert_eq!(p.phase, Phase::OpeningMain);
    assert_eq!(p.requests, 6);
}

#[test]
fn never_ready_gives_up_after_budget() {
    let mut p = Poller::new();
    let mut sent = 0u32;
    let mut waited_ms = 0u64;
    let mut action = p.step(Event::Start);
    loop {
        match action {
            Action::SendRequest => {
                sent += 1;
                action = p.step(reply(NOT_READY, waited_ms));
            }
            Action::Wait { ms } => {
                assert_eq!(ms, 500);
                waited_ms += ms;
                action = p.step(Event::Waited);
            }
            Action::GiveUp => break,
            other => panic!("unexpected action {:?}", other),
        }
    }
    assert_eq!(sent, MAX_ATTEMPTS);
    assert_eq!(sent, 60);
    assert!(waited_ms < 30_000);
    assert_eq!(p.phase, Phase::TimedOut);
    assert_eq!(p.step(reply(READY, 0)), Action::Ignore);
    assert_eq!(p.step(Event::MainWindow { opened: true }), Action::Ignore);
    assert_eq!(p.phase, Phase::TimedOut);
}

#[test]
fn malformed_and_rejected_replies_are_retried() {
    let mut p = Poller::new();
    p.step(Event::Start);
    assert_eq!(p.step(reply(HealthReply::Malformed, 10)), Action::Wait { ms: 500 });
    assert_eq!(p.phase, Phase::Retrying);
    p.step(Event::Waited);
    assert_eq!(p.step(reply(HealthReply::Rejected { status: 500 }, 520)), Action::Wait { ms: 500 });
    p.step(Event::Waited);
    assert_eq!(p.step(reply(NOT_READY, 1030)), Action::Wait { ms: 500 });
    assert_eq!(p.requests, 3);
    assert_eq!(p.pauses, 3);
}

#[test]
fn main_window_failure_closes_splash_and_is_reported() {
    let mut p = Poller::new();
    p.step(Event::Start);
    assert_eq!(p.step(reply(READY, 3000)), Action::OpenMainWindow);
    assert_eq!(p.step(Event::MainWindow { opened: false }), Action::CloseSplashAndReportFailure);
    assert_eq!(p.phase, Phase::MainFailed);
    assert_eq!(p.step(Event::Waited), Action::Ignore);
}

#[test]
fn events_out_of_turn_are_ignored() {
    let mut p = Poller::new();
    assert_eq!(p.step(Event::Waited), Action::Ignore);
    assert_eq!(p.step(reply(READY, 0)), Action::Ignore);
    assert_eq!(p.phase, Phase::Idle);
    p.step(Event::Start);
    assert_eq!(p.step(Event::Start), Action::Ignore);
    assert_eq!(p.requests, 1);
}

#[test]
fn slow_replies_give_up_at_deadline() {
    assert_eq!(READY_DEADLINE_MS, 30_000);
    let mut p = Poller::new();
    p.step(Event::Start);
    assert_eq!(p.step(reply(NOT_READY, 1_000_000)), Action::GiveUp);
    assert_eq!(p.phase, Phase::TimedOut);
    assert_eq!(p.requests, 1);
    assert_eq!(p.step(Event::Waited), Action::Ignore);
}

#[test]
fn no_retry_pause_ends_past_deadline() {
    let mut p = Poller::new();
    p.step(Event::Start);
    assert_eq!(p.step(reply(HealthReply::Unreachable, 29_499)), Action::Wait { ms: 500 });
    assert_eq!(p.step(Event::Waited), Action::SendRequest);
    assert_eq!(p.step(reply(HealthReply::Unreachable, 29_500)), Action::GiveUp);
    assert_eq!(p.requests, 2);
}

#[test]
fn deadline_does_not_stop_a_ready_reply() {
    let mut p = Poller::new();
    p.step(Event::Start);
    assert_eq!(p.step(reply(READY, 45_000)), Action::OpenMainWindow);
}
