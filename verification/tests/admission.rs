use signal_relay::admission::{AdmissionController, LiveCounter, Rejection};
use signal_relay::limits::{MAX_CONNS_PER_IP, MAX_GLOBAL_CONNECTIONS};

const HOME: u128 = 1;
const AWAY: u128 = 0xffff_c0a8_0001;

#[test]
fn ceilings_have_their_values() {
    assert_eq!(MAX_CONNS_PER_IP, 10);
    assert_eq!(MAX_GLOBAL_CONNECTIONS, 1000);
}

#[test]
fn request_is_admitted_and_counted() {
    let mut table = AdmissionController::new();
    assert_eq!(table.held_by(HOME), 0);
    let ticket = table.try_admit(HOME, None, None, 0).unwrap();
    assert_eq!(ticket.ip(), HOME);
    assert_eq!(table.held_by(HOME), 1);
    assert_eq!(table.held_by(AWAY), 0);
}

#[test]
fn mismatched_origin_is_forbidden() {
    let mut table = AdmissionController::new();
    let outcome = table.try_admit(HOME, Some("https://evil.example"), Some("https://moli.example"), 0);
    assert_eq!(outcome.unwrap_err(), Rejection::Forbidden);
    assert_eq!(table.held_by(HOME), 0);
}

#[test]
fn matching_origin_is_admitted() {
    let mut table = AdmissionController::new();
    let outcome = table.try_admit(HOME, Some("https://moli.example"), Some("https://moli.example"), 0);
    assert!(outcome.is_ok());
    assert_eq!(table.held_by(HOME), 1);
}

#[test]
fn absent_origin_is_admitted_when_one_is_required() {
    let mut table = AdmissionController::new();
    assert!(table.try_admit(HOME, None, Some("https://moli.example"), 0).is_ok());
}

#[test]
fn any_origin_is_admitted_when_none_is_required() {
    let mut table = AdmissionController::new();
    assert!(table.try_admit(HOME, Some("https://evil.example"), None, 0).is_ok());
}

#[test]
fn full_server_is_unavailable() {
    let mut table = AdmissionController::new();
    let outcome = table.try_admit(HOME, None, None, 1000);
    assert_eq!(outcome.unwrap_err(), Rejection::ServiceUnavailable);
    assert_eq!(table.held_by(HOME), 0);
    assert!(table.try_admit(HOME, None, None, 999).is_ok());
}

#[test]
fn origin_is_checked_before_the_global_ceiling() {
    let mut table = AdmissionController::new();
    let outcome = table.try_admit(HOME, Some("a"), Some("b"), 5000);
    assert_eq!(outcome.unwrap_err(), Rejection::Forbidden);
}

#[test]
fn global_ceiling_is_checked_before_the_address() {
    let mut table = AdmissionController::new();
    let mut tickets = Vec::new();
    for _ in 0..10 {
        tickets.push(table.try_admit(HOME, None, None, 0).unwrap());
    }
    let outcome = table.try_admit(HOME, None, None, 1000);
    assert_eq!(outcome.unwrap_err(), Rejection::ServiceUnavailable);
}

#[test]
fn ip_cap() {
    let mut table = AdmissionController::new();
    let mut tickets = Vec::new();
    for n in 0..10 {
        let ticket = table.try_admit(HOME, None, None, n).unwrap();
        tickets.push(ticket);
        assert_eq!(table.held_by(HOME), n + 1);
    }
    let eleventh = table.try_admit(HOME, None, None, 10);
    let rejection = eleventh.unwrap_err();
    assert_eq!(rejection, Rejection::TooManyRequests);
    assert_eq!(rejection.status(), 429);
    assert_eq!(table.held_by(HOME), 10);
    assert!(table.try_admit(AWAY, None, None, 10).is_ok());

    table.release(tickets.pop().unwrap());
    assert_eq!(table.held_by(HOME), 9);
    assert!(table.try_admit(HOME, None, None, 9).is_ok());
    assert_eq!(table.held_by(HOME), 10);
}

#[test]
fn release_gives_the_count_back() {
    let mut table = AdmissionController::new();
    let first = table.try_admit(HOME, None, None, 0).unwrap();
    let second = table.try_admit(HOME, None, None, 1).unwrap();
    assert_eq!(table.held_by(HOME), 2);
    table.release(second);
    assert_eq!(table.held_by(HOME), 1);
    table.release(first);
    assert_eq!(table.held_by(HOME), 0);
    let again = table.try_admit(HOME, None, None, 0).unwrap();
    assert_eq!(table.held_by(HOME), 1);
    table.release(again);
    assert_eq!(table.held_by(HOME), 0);
}

#[test]
fn rejections_answer_with_their_status_and_reason() {
    assert_eq!(Rejection::Forbidden.status(), 403);
    assert_eq!(Rejection::Forbidden.reason(), "Forbidden Origin");
    assert_eq!(Rejection::TooManyRequests.status(), 429);
    assert_eq!(Rejection::TooManyRequests.reason(), "Rate Limit Exceeded");
    assert_eq!(Rejection::ServiceUnavailable.status(), 503);
    assert_eq!(Rejection::ServiceUnavailable.reason(), "Server Busy");
    assert_eq!(Rejection::InternalServerError.status(), 500);
    assert_eq!(Rejection::InternalServerError.reason(), "Lock Poisoned");
}

#[test]
fn live_counter_counts_up_and_down() {
    let mut live = LiveCounter::new();
    assert_eq!(live.count(), 0);
    live.enter();
    live.enter();
    assert_eq!(live.count(), 2);
    live.leave();
    assert_eq!(live.count(), 1);
    live.leave();
    assert_eq!(live.count(), 0);
}

#[test]
fn live_counter_wraps_below_zero() {
    let mut live = LiveCounter::new();
    live.leave();
    assert_eq!(live.count(), usize::MAX);
    live.enter();
    assert_eq!(live.count(), 0);
}

#[test]
fn thousand_sessions_fill_the_server() {
    let mut table = AdmissionController::new();
    let mut live = LiveCounter::new();
    let mut admitted = 0;
    for n in 0..1100u128 {
        if table.try_admit(n, None, None, live.count()).is_ok() {
            live.enter();
            admitted += 1;
        }
    }
    assert_eq!(admitted, 1000);
    assert_eq!(live.count(), 1000);
}
