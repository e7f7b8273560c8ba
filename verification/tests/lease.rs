use checkpoint::leader_election::{
    lease_expired, release, renew, seconds_of, start, step, step_now, Action, Event, Failure,
    Lease, LeaseSpec, State, LEASE_DURATION_SECONDS,
};

const SECOND: i64 = 1_000_000;

fn lease(holder: &str, acquire: Option<i64>, renew: Option<i64>, duration: Option<i32>) -> LeaseSpec {
    LeaseSpec {
        holder_identity: Some(holder.to_string()),
        acquire_time: acquire,
        renew_time: renew,
        lease_duration_seconds: duration,
        lease_transitions: Some(3),
    }
}

#[test]
fn lease_expires_after_renewal_plus_duration() {
    let l = lease("a", Some(0), Some(100 * SECOND), Some(5));
    assert!(!lease_expired(&l, 100 * SECOND));
    assert!(!lease_expired(&l, 105 * SECOND));
    assert!(lease_expired(&l, 105 * SECOND + 1));
}

#[test]
fn lease_without_renewal_expires_after_acquiring_plus_duration() {
    let l = lease("a", Some(50 * SECOND), None, Some(5));
    assert!(!lease_expired(&l, 55 * SECOND));
    assert!(lease_expired(&l, 55 * SECOND + 1));
}

#[test]
fn lease_without_times_has_expired() {
    let l = lease("a", None, None, Some(5));
    assert!(lease_expired(&l, i64::MIN));
    assert!(lease_expired(&l, 0));
}

#[test]
fn lease_expiry_does_not_overflow() {
    let l = lease("a", None, Some(i64::MAX), Some(i32::MAX));
    assert!(!lease_expired(&l, i64::MAX));
    let l = lease("a", None, Some(i64::MIN), Some(i32::MIN));
    assert!(lease_expired(&l, i64::MIN));
}

#[test]
fn first_the_lease_is_read() {
    assert_eq!(start(), (State::Probing, Action::Read));
    let (l, a) = Lease::acquire_or_create("me");
    assert_eq!(l.state, State::Probing);
    assert_eq!(l.identity, "me");
    assert_eq!(a, Action::Read);
}

#[test]
fn an_absent_lease_is_created() {
    let (s, a) = step(State::Probing, Event::Observed(None), "me", 42);
    assert_eq!(s, State::Creating);
    assert_eq!(
        a,
        Action::Create(LeaseSpec {
            holder_identity: Some("me".to_string()),
            acquire_time: Some(42),
            renew_time: None,
            lease_duration_seconds: Some(5),
            lease_transitions: Some(1),
        })
    );
    assert_eq!(LEASE_DURATION_SECONDS, 5);
}

#[test]
fn a_lost_race_to_create_leads_back_to_reading() {
    assert_eq!(step(State::Creating, Event::Conflict, "me", 0), (State::Probing, Action::Read));
}

#[test]
fn a_live_lease_is_waited_for() {
    let l = lease("other", Some(0), Some(100 * SECOND), Some(7));
    let (s, a) = step(State::Probing, Event::Observed(Some(l)), "me", 101 * SECOND);
    assert_eq!(s, State::Waiting);
    assert_eq!(a, Action::Sleep(7));
    assert_eq!(step(State::Waiting, Event::Slept, "me", 0), (State::Probing, Action::Read));
}

#[test]
fn an_expired_lease_is_taken_over() {
    let l = lease("other", Some(0), Some(100 * SECOND), Some(5));
    let now = 105 * SECOND + 1;
    let (s, a) = step(State::Probing, Event::Observed(Some(l)), "me", now);
    assert_eq!(s, State::Acquiring);
    assert_eq!(
        a,
        Action::Acquire(LeaseSpec {
            holder_identity: Some("me".to_string()),
            acquire_time: Some(now),
            renew_time: None,
            lease_duration_seconds: Some(5),
            lease_transitions: Some(4),
        })
    );
}

#[test]
fn a_lease_without_count_has_changed_hands_once_after_takeover() {
    let mut l = lease("other", None, None, Some(5));
    l.lease_transitions = None;
    let (_, a) = step(State::Probing, Event::Observed(Some(l)), "me", 9);
    match a {
        Action::Acquire(l) => assert_eq!(l.lease_transitions, Some(1)),
        other => panic!("unexpected {:?}", other),
    }
}

#[test]
fn a_lease_is_not_taken_over_at_the_moment_of_expiry() {
    let l = lease("other", Some(0), Some(100 * SECOND), Some(5));
    let (s, _) = step(State::Probing, Event::Observed(Some(l)), "me", 105 * SECOND);
    assert_eq!(s, State::Waiting);
}

#[test]
fn failures_stop_the_process() {
    let l = lease("other", Some(0), None, None);
    assert_eq!(
        step(State::Probing, Event::Observed(Some(l)), "me", 0),
        (State::Stopped, Action::Fail(Failure::MissingDuration))
    );
    let mut l = lease("other", None, None, Some(5));
    l.lease_transitions = Some(i32::MAX);
    assert_eq!(
        step(State::Probing, Event::Observed(Some(l)), "me", 0),
        (State::Stopped, Action::Fail(Failure::TransitionsOverflow))
    );
    assert_eq!(
        step(State::Creating, Event::Written(lease("me", Some(0), None, Some(0))), "me", 0),
        (State::Stopped, Action::Fail(Failure::NoPeriod))
    );
    assert_eq!(
        step(State::Acquiring, Event::Written(lease("me", Some(0), None, Some(-1))), "me", 0),
        (State::Stopped, Action::Fail(Failure::NoPeriod))
    );
    assert_eq!(
        step(State::Creating, Event::Written(lease("me", Some(0), None, Some(i32::MIN))), "me", 0),
        (State::Stopped, Action::Fail(Failure::NoPeriod))
    );
    assert_eq!(
        step(State::Acquiring, Event::Written(lease("me", Some(0), None, None)), "me", 0),
        (State::Stopped, Action::Fail(Failure::MissingDuration))
    );
    assert_eq!(
        step(State::Holding(5), Event::Slept, "me", 0),
        (State::Stopped, Action::Fail(Failure::UnexpectedEvent))
    );
    assert_eq!(
        step(State::Stopped, Event::Tick, "me", 0),
        (State::Stopped, Action::Fail(Failure::UnexpectedEvent))
    );
    assert_eq!(
        step(State::Probing, Event::Tick, "me", 0),
        (State::Stopped, Action::Fail(Failure::UnexpectedEvent))
    );
    assert_eq!(
        step(State::Waiting, Event::Conflict, "me", 0),
        (State::Stopped, Action::Fail(Failure::UnexpectedEvent))
    );
    assert_eq!(
        step(State::Releasing, Event::Shutdown, "me", 0),
        (State::Stopped, Action::Fail(Failure::UnexpectedEvent))
    );
}

#[test]
fn the_holder_renews_at_every_tick_and_releases_on_shutdown() {
    let written = lease("me", Some(0), None, Some(5));
    let (s, a) = step(State::Acquiring, Event::Written(written), "me", 0);
    assert_eq!((s, a), (State::Holding(5), Action::Await));
    assert_eq!(step(State::Holding(5), Event::Tick, "me", 77), (State::Holding(5), Action::Renew(77)));
    assert_eq!(step(State::Holding(5), Event::Shutdown, "me", 78), (State::Releasing, Action::Release));
    assert_eq!(step(State::Releasing, Event::Released, "me", 79), (State::Stopped, Action::Stop));
}

#[test]
fn the_lease_handle_follows_the_steps() {
    let (mut l, _) = Lease::acquire_or_create("me");
    let a = l.handle(Event::Observed(None), 10);
    assert!(matches!(a, Action::Create(_)));
    assert_eq!(l.state, State::Creating);
    let a = l.handle(Event::Written(lease("me", Some(10), None, Some(5))), 11);
    assert_eq!(a, Action::Await);
    assert_eq!(l.state, State::Holding(5));
    assert_eq!(l.join(), Action::Release);
    assert_eq!(l.state, State::Releasing);
    assert_eq!(l.handle(Event::Released, 12), Action::Stop);
    assert_eq!(l.state, State::Stopped);
}

#[test]
fn negative_durations_are_read_as_no_time() {
    assert_eq!(seconds_of(0), 0);
    assert_eq!(seconds_of(5), 5);
    assert_eq!(seconds_of(i32::MAX), i32::MAX as u64);
    assert_eq!(seconds_of(-1), 0);
    assert_eq!(seconds_of(i32::MIN), 0);
    let ahead = lease("other", None, Some(100 * SECOND), Some(-3));
    assert_eq!(
        step(State::Probing, Event::Observed(Some(ahead)), "me", 90 * SECOND),
        (State::Waiting, Action::Sleep(0))
    );
}

#[test]
fn step_now_uses_the_present_time() {
    let before = 1_600_000_000i64 * SECOND;
    let (s, a) = step_now(State::Probing, Event::Observed(None), "me");
    assert_eq!(s, State::Creating);
    match a {
        Action::Create(l) => {
            assert!(l.acquire_time.unwrap() > before);
            assert_eq!(l.holder_identity, Some("me".to_string()));
        }
        other => panic!("unexpected {:?}", other),
    }
    let old = lease("other", Some(0), Some(before), Some(5));
    let (s, _) = step_now(State::Probing, Event::Observed(Some(old)), "me");
    assert_eq!(s, State::Acquiring);
}

#[test]
fn a_renewal_that_shows_another_holder_ends_the_hold() {
    let ours = lease("me", Some(0), Some(5), Some(5));
    assert_eq!(step(State::Holding(5), Event::Renewed(ours), "me", 6), (State::Holding(5), Action::Await));
    let theirs = lease("other", Some(0), Some(5), Some(5));
    assert_eq!(
        step(State::Holding(5), Event::Renewed(theirs), "me", 6),
        (State::Stopped, Action::Fail(Failure::LeaseLost))
    );
    let mut nobody = lease("x", Some(0), Some(5), Some(5));
    nobody.holder_identity = None;
    assert_eq!(
        step(State::Holding(5), Event::Renewed(nobody), "me", 6),
        (State::Stopped, Action::Fail(Failure::LeaseLost))
    );
    assert_eq!(
        step(State::Probing, Event::Renewed(lease("me", None, None, Some(5))), "me", 6),
        (State::Stopped, Action::Fail(Failure::UnexpectedEvent))
    );
}

#[test]
fn renewing_and_releasing_a_lease() {
    let l = lease("me", Some(1), Some(2), Some(5));
    let r = renew(&l, 9);
    assert_eq!(r, lease("me", Some(1), Some(9), Some(5)));
    assert!(!lease_expired(&r, 9 + 5 * SECOND));
    let f = release(&l);
    assert_eq!(f.holder_identity, None);
    assert_eq!(f.acquire_time, None);
    assert_eq!(f.renew_time, None);
    assert_eq!(f.lease_duration_seconds, Some(5));
    assert_eq!(f.lease_transitions, Some(3));
    assert!(lease_expired(&f, 0));
}
