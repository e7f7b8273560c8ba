//! Leader election over a lease object: at most one process holds the
//! lease, and another takes it over only once it has expired.
//!
//! The process that wants the lease reads and writes the lease object and
//! sleeps; this module decides. [`start`] gives the first thing to do, and
//! [`step`] takes what came of it and gives the next.

use vstd::prelude::*;
use vstd::string::*;

verus! {

/// Seconds for which a lease is its holder's after it was acquired or renewed.
pub const LEASE_DURATION_SECONDS: u64 = 5;

/// Microseconds in a second.
pub const MICROS_PER_SECOND: i64 = 1_000_000;

/// What a lease object holds. Times are microseconds since the Unix epoch.
#[derive(Debug, PartialEq, Eq)]
pub struct LeaseSpec {
    /// Who holds the lease.
    pub holder_identity: Option<String>,
    /// When the holder acquired it.
    pub acquire_time: Option<i64>,
    /// When the holder last renewed it.
    pub renew_time: Option<i64>,
    /// For how long after that the lease is the holder's.
    pub lease_duration_seconds: Option<i32>,
    /// How often the lease has changed hands.
    pub lease_transitions: Option<i32>,
}

/// The view of [`LeaseSpec`]: strings as sequences of characters, lists as sequences.
pub struct LeaseSpecView {
    pub holder_identity: Option<Seq<char>>,
    pub acquire_time: Option<i64>,
    pub renew_time: Option<i64>,
    pub lease_duration_seconds: Option<i32>,
    pub lease_transitions: Option<i32>,
}

impl DeepView for LeaseSpec {
    type V = LeaseSpecView;

    open spec fn deep_view(&self) -> LeaseSpecView {
        LeaseSpecView {
            holder_identity: self.holder_identity.deep_view(),
            acquire_time: self.acquire_time,
            renew_time: self.renew_time,
            lease_duration_seconds: self.lease_duration_seconds,
            lease_transitions: self.lease_transitions,
        }
    }
}

impl View for LeaseSpec {
    type V = LeaseSpecView;

    open spec fn view(&self) -> LeaseSpecView {
        self.deep_view()
    }
}

impl Clone for LeaseSpec {
    fn clone(&self) -> (r: Self)
        ensures
            r@ == self@,
    {
        LeaseSpec {
            holder_identity: self.holder_identity.clone(),
            acquire_time: self.acquire_time,
            renew_time: self.renew_time,
            lease_duration_seconds: self.lease_duration_seconds,
            lease_transitions: self.lease_transitions,
        }
    }
}

/// When a lease runs out, in microseconds since the Unix epoch: its
/// duration after it was last renewed or, where it never was, after it was
/// acquired. A lease that was neither has no such time.
pub open spec fn expiry(l: LeaseSpecView) -> Option<int> {
    let duration = l.lease_duration_seconds.unwrap() * MICROS_PER_SECOND;
    match l.renew_time {
        Some(t) => Some(t + duration),
        None => match l.acquire_time {
            Some(t) => Some(t + duration),
            None => None,
        },
    }
}

/// Whether a lease has expired at the time `now`: it has when `now` is past
/// its expiry, and when it was neither renewed nor acquired.
pub open spec fn expired(l: LeaseSpecView, now: int) -> bool {
    match expiry(l) {
        Some(t) => now > t,
        None => true,
    }
}

/// Whether a lease has expired at the time `now`, in microseconds since the
/// Unix epoch.
pub fn lease_expired(lease: &LeaseSpec, now: i64) -> (r: bool)
    requires
        lease.lease_duration_seconds is Some,
    ensures
        r == expired(lease@, now as int),
{
    let duration: i128 = (lease.lease_duration_seconds.unwrap() as i128) * (MICROS_PER_SECOND as i128);
    match lease.renew_time {
        Some(t) => (now as i128) > (t as i128) + duration,
        None => match lease.acquire_time {
            Some(t) => (now as i128) > (t as i128) + duration,
            None => true,
        },
    }
}

/// Whether the process `identity` holds the lease at the time `now`: the
/// lease names it as holder and has not expired.
pub open spec fn holds(l: LeaseSpecView, identity: Seq<char>, now: int) -> bool {
    l.holder_identity == Some(identity) && l.lease_duration_seconds is Some && !expired(l, now)
}

/// The lease that a process makes where there is none.
pub open spec fn created(identity: Seq<char>, now: i64) -> LeaseSpecView {
    LeaseSpecView {
        holder_identity: Some(identity),
        acquire_time: Some(now),
        renew_time: None,
        lease_duration_seconds: Some(5),
        lease_transitions: Some(1),
    }
}

/// How often a lease has changed hands; not at all where it does not say.
pub open spec fn transitions(l: LeaseSpecView) -> int {
    match l.lease_transitions {
        Some(n) => n as int,
        None => 0,
    }
}

/// The lease as a process takes it over.
pub open spec fn taken_over(l: LeaseSpecView, identity: Seq<char>, now: i64) -> LeaseSpecView {
    LeaseSpecView {
        holder_identity: Some(identity),
        acquire_time: Some(now),
        renew_time: None,
        lease_duration_seconds: Some(5),
        lease_transitions: Some((transitions(l) + 1) as i32),
    }
}

/// Seconds for which a process waits or holds on a duration of a lease:
/// the duration itself, and none at all for one that is negative.
pub open spec fn whole_seconds(d: i32) -> int {
    if d > 0 {
        d as int
    } else {
        0
    }
}

/// Seconds for which a process waits or holds on a duration of a lease.
pub fn seconds_of(d: i32) -> (r: u64)
    ensures
        r == whole_seconds(d),
{
    if d > 0 {
        d as u64
    } else {
        0
    }
}

/// Seconds to wait before a lease that has not expired is looked at again:
/// its duration, none where that is negative, and five where the lease
/// names none.
pub open spec fn wait_seconds(l: LeaseSpecView) -> int {
    match l.lease_duration_seconds {
        Some(d) => whole_seconds(d),
        None => LEASE_DURATION_SECONDS as int,
    }
}

/// The lease as its holder renews it at the time `now`.
pub open spec fn renewed(l: LeaseSpecView, now: i64) -> LeaseSpecView {
    LeaseSpecView { renew_time: Some(now), ..l }
}

/// The lease as its holder gives it up: without holder and times.
pub open spec fn released(l: LeaseSpecView) -> LeaseSpecView {
    LeaseSpecView { holder_identity: None, acquire_time: None, renew_time: None, ..l }
}

/// The lease as its holder renews it at the time `now`.
pub fn renew(lease: &LeaseSpec, now: i64) -> (r: LeaseSpec)
    ensures
        r@ == renewed(lease@, now),
{
    LeaseSpec {
        holder_identity: lease.holder_identity.clone(),
        acquire_time: lease.acquire_time,
        renew_time: Some(now),
        lease_duration_seconds: lease.lease_duration_seconds,
        lease_transitions: lease.lease_transitions,
    }
}

/// The lease as its holder gives it up.
pub fn release(lease: &LeaseSpec) -> (r: LeaseSpec)
    ensures
        r@ == released(lease@),
{
    LeaseSpec {
        holder_identity: None,
        acquire_time: None,
        renew_time: None,
        lease_duration_seconds: lease.lease_duration_seconds,
        lease_transitions: lease.lease_transitions,
    }
}

/// Where a process stands in acquiring, holding and giving up the lease.
#[derive(Clone, Copy, Debug, PartialEq, Eq, Structural)]
pub enum State {
    /// It reads the lease.
    Probing,
    /// It creates the lease, which was absent.
    Creating,
    /// It takes over the lease, which had expired.
    Acquiring,
    /// It waits for another holder's lease to run out.
    Waiting,
    /// It holds the lease and renews it every so many seconds.
    Holding(u64),
    /// It gives the lease up.
    Releasing,
    /// It has given the lease up, or failed.
    Stopped,
}

/// Why a process gives up on the lease.
#[derive(Clone, Copy, Debug, PartialEq, Eq, Structural)]
pub enum Failure {
    /// The lease object names no duration.
    MissingDuration,
    /// The lease cannot change hands once more: the count is at its limit.
    TransitionsOverflow,
    /// The lease's duration is not positive, so there is no period in which
    /// to renew it.
    NoPeriod,
    /// Another process holds the lease that this one meant to renew.
    LeaseLost,
    /// What happened cannot happen in the state that the process is in.
    UnexpectedEvent,
}

/// What came of the last thing that the process did.
#[derive(Debug, PartialEq, Eq)]
pub enum Event {
    /// The lease was read: it is absent, or holds this.
    Observed(Option<LeaseSpec>),
    /// The lease could not be created, because another process had.
    Conflict,
    /// The lease was created or taken over; the cluster now holds this.
    Written(LeaseSpec),
    /// The wait is over.
    Slept,
    /// It is time to renew.
    Tick,
    /// The lease was renewed; the cluster now holds this.
    Renewed(LeaseSpec),
    /// The process is told to shut down.
    Shutdown,
    /// The lease was given up.
    Released,
}

/// The view of [`Event`].
pub enum EventView {
    Observed(Option<LeaseSpecView>),
    Conflict,
    Written(LeaseSpecView),
    Slept,
    Tick,
    Renewed(LeaseSpecView),
    Shutdown,
    Released,
}

impl DeepView for Event {
    type V = EventView;

    open spec fn deep_view(&self) -> EventView {
        match self {
            Event::Observed(l) => EventView::Observed(l.deep_view()),
            Event::Conflict => EventView::Conflict,
            Event::Written(l) => EventView::Written(l@),
            Event::Slept => EventView::Slept,
            Event::Tick => EventView::Tick,
            Event::Renewed(l) => EventView::Renewed(l@),
            Event::Shutdown => EventView::Shutdown,
            Event::Released => EventView::Released,
        }
    }
}

impl View for Event {
    type V = EventView;

    open spec fn view(&self) -> EventView {
        self.deep_view()
    }
}

/// What the process is to do next.
#[derive(Debug, PartialEq, Eq)]
pub enum Action {
    /// Read the lease.
    Read,
    /// Create the lease with this content.
    Create(LeaseSpec),
    /// Write this over the lease, whoever manages its fields.
    Acquire(LeaseSpec),
    /// Wait for so many seconds.
    Sleep(u64),
    /// Wait for the next time to renew, or to be told to shut down.
    Await,
    /// Set the lease's time of renewal to this and report what the lease
    /// then holds; where that cannot be had, wait as for `Await`.
    Renew(i64),
    /// Clear the lease's holder and its times of acquiring and renewal.
    Release,
    /// Nothing more: the lease is given up.
    Stop,
    /// Nothing more: the process cannot go on.
    Fail(Failure),
}

/// The view of [`Action`].
pub enum ActionView {
    Read,
    Create(LeaseSpecView),
    Acquire(LeaseSpecView),
    Sleep(u64),
    Await,
    Renew(i64),
    Release,
    Stop,
    Fail(Failure),
}

impl DeepView for Action {
    type V = ActionView;

    open spec fn deep_view(&self) -> ActionView {
        match self {
            Action::Read => ActionView::Read,
            Action::Create(l) => ActionView::Create(l@),
            Action::Acquire(l) => ActionView::Acquire(l@),
            Action::Sleep(s) => ActionView::Sleep(*s),
            Action::Await => ActionView::Await,
            Action::Renew(t) => ActionView::Renew(*t),
            Action::Release => ActionView::Release,
            Action::Stop => ActionView::Stop,
            Action::Fail(f) => ActionView::Fail(*f),
        }
    }
}

impl View for Action {
    type V = ActionView;

    open spec fn view(&self) -> ActionView {
        self.deep_view()
    }
}

/// What follows when the lease has been read.
pub open spec fn after_observed(l: Option<LeaseSpecView>, identity: Seq<char>, now: i64) -> (
    State,
    ActionView,
) {
    match l {
        None => (State::Creating, ActionView::Create(created(identity, now))),
        Some(l) => if l.lease_duration_seconds is None {
            (State::Stopped, ActionView::Fail(Failure::MissingDuration))
        } else if !expired(l, now as int) {
            (State::Waiting, ActionView::Sleep(wait_seconds(l) as u64))
        } else if transitions(l) == i32::MAX {
            (State::Stopped, ActionView::Fail(Failure::TransitionsOverflow))
        } else {
            (State::Acquiring, ActionView::Acquire(taken_over(l, identity, now)))
        },
    }
}

/// What follows when the lease has been created or taken over.
pub open spec fn after_written(l: LeaseSpecView) -> (State, ActionView) {
    match l.lease_duration_seconds {
        None => (State::Stopped, ActionView::Fail(Failure::MissingDuration)),
        Some(d) => if d <= 0 {
            (State::Stopped, ActionView::Fail(Failure::NoPeriod))
        } else {
            (State::Holding(d as u64), ActionView::Await)
        },
    }
}

/// The next state of the process `identity` and what it is to do, when in
/// the state `state` the event `event` comes at the time `now`.
pub open spec fn next(state: State, event: EventView, identity: Seq<char>, now: i64) -> (
    State,
    ActionView,
) {
    match (state, event) {
        (State::Probing, EventView::Observed(l)) => after_observed(l, identity, now),
        (State::Creating, EventView::Conflict) => (State::Probing, ActionView::Read),
        (State::Creating, EventView::Written(l)) => after_written(l),
        (State::Acquiring, EventView::Written(l)) => after_written(l),
        (State::Waiting, EventView::Slept) => (State::Probing, ActionView::Read),
        (State::Holding(p), EventView::Tick) => (State::Holding(p), ActionView::Renew(now)),
        (State::Holding(p), EventView::Renewed(l)) => if l.holder_identity == Some(identity) {
            (State::Holding(p), ActionView::Await)
        } else {
            (State::Stopped, ActionView::Fail(Failure::LeaseLost))
        },
        (State::Holding(p), EventView::Shutdown) => (State::Releasing, ActionView::Release),
        (State::Releasing, EventView::Released) => (State::Stopped, ActionView::Stop),
        _ => (State::Stopped, ActionView::Fail(Failure::UnexpectedEvent)),
    }
}

/// Where a process begins: it reads the lease.
pub fn start() -> (r: (State, Action))
    ensures
        r.0 == State::Probing,
        r.1@ == ActionView::Read,
{
    (State::Probing, Action::Read)
}

/// What follows when the lease has been read.
fn on_observed(lease: Option<LeaseSpec>, identity: &str, now: i64) -> (r: (State, Action))
    ensures
        (r.0, r.1@) == after_observed(lease.deep_view(), identity@, now),
{
    match lease {
        None => (
            State::Creating,
            Action::Create(
                LeaseSpec {
                    holder_identity: Some(String::from_str(identity)),
                    acquire_time: Some(now),
                    renew_time: None,
                    lease_duration_seconds: Some(5),
                    lease_transitions: Some(1),
                },
            ),
        ),
        Some(l) => {
            if l.lease_duration_seconds.is_none() {
                return (State::Stopped, Action::Fail(Failure::MissingDuration));
            }
            if !lease_expired(&l, now) {
                let wait = seconds_of(l.lease_duration_seconds.unwrap());
                return (State::Waiting, Action::Sleep(wait));
            }
            let so_far: i32 = match l.lease_transitions {
                Some(n) => n,
                None => 0,
            };
            if so_far == i32::MAX {
                return (State::Stopped, Action::Fail(Failure::TransitionsOverflow));
            }
            (
                State::Acquiring,
                Action::Acquire(
                    LeaseSpec {
                        holder_identity: Some(String::from_str(identity)),
                        acquire_time: Some(now),
                        renew_time: None,
                        lease_duration_seconds: Some(5),
                        lease_transitions: Some(so_far + 1),
                    },
                ),
            )
        },
    }
}

/// What follows when the lease has been created or taken over.
fn on_written(lease: &LeaseSpec) -> (r: (State, Action))
    ensures
        (r.0, r.1@) == after_written(lease@),
{
    match lease.lease_duration_seconds {
        None => (State::Stopped, Action::Fail(Failure::MissingDuration)),
        Some(d) => if d <= 0 {
            (State::Stopped, Action::Fail(Failure::NoPeriod))
        } else {
            (State::Holding(seconds_of(d)), Action::Await)
        },
    }
}

/// The next state of the process `identity` and what it is to do, when in
/// the state `state` the event `event` comes at the time `now`, in
/// microseconds since the Unix epoch.
///
/// A process reads the lease. Where there is none it creates one, and reads
/// again where another process was faster. Where there is one that has not
/// expired, it waits for the lease's duration and reads again. Where there
/// is one that has expired, it takes it over. Holding the lease, it renews
/// it at every tick of the lease's duration, gives up where a renewal shows
/// another holder, and gives the lease up when told to shut down.
pub fn step(state: State, event: Event, identity: &str, now: i64) -> (r: (State, Action))
    ensures
        (r.0, r.1@) == next(state, event@, identity@, now),
{
    match state {
        State::Probing => match event {
            Event::Observed(l) => on_observed(l, identity, now),
            _ => (State::Stopped, Action::Fail(Failure::UnexpectedEvent)),
        },
        State::Creating => match event {
            Event::Conflict => (State::Probing, Action::Read),
            Event::Written(l) => on_written(&l),
            _ => (State::Stopped, Action::Fail(Failure::UnexpectedEvent)),
        },
        State::Acquiring => match event {
            Event::Written(l) => on_written(&l),
            _ => (State::Stopped, Action::Fail(Failure::UnexpectedEvent)),
        },
        State::Waiting => match event {
            Event::Slept => (State::Probing, Action::Read),
            _ => (State::Stopped, Action::Fail(Failure::UnexpectedEvent)),
        },
        State::Holding(p) => match event {
            Event::Tick => (State::Holding(p), Action::Renew(now)),
            Event::Renewed(l) => {
                let ours = match &l.holder_identity {
                    Some(holder) => crate::text::string_eq(holder.as_str(), identity),
                    None => false,
                };
                if ours {
                    (State::Holding(p), Action::Await)
                } else {
                    (State::Stopped, Action::Fail(Failure::LeaseLost))
                }
            },
            Event::Shutdown => (State::Releasing, Action::Release),
            _ => (State::Stopped, Action::Fail(Failure::UnexpectedEvent)),
        },
        State::Releasing => match event {
            Event::Released => (State::Stopped, Action::Stop),
            _ => (State::Stopped, Action::Fail(Failure::UnexpectedEvent)),
        },
        State::Stopped => (State::Stopped, Action::Fail(Failure::UnexpectedEvent)),
    }
}

/// `chrono::Local::now`, taken to UTC and read as microseconds since the
/// Unix epoch. Nothing is claimed of the time that comes back.
#[verifier::external_body]
fn now() -> i64 {
    chrono::Local::now().with_timezone(&chrono::Utc).timestamp_micros()
}

/// [`step`] at the present time.
pub fn step_now(state: State, event: Event, identity: &str) -> (r: (State, Action))
    ensures
        exists|at: i64| (r.0, r.1@) == #[trigger] next(state, event@, identity@, at),
{
    let at = now();
    step(state, event, identity, at)
}

/// At any time at most one process holds a lease.
pub proof fn lemma_one_holder(l: LeaseSpecView, a: Seq<char>, b: Seq<char>, now: int)
    requires
        holds(l, a, now),
        holds(l, b, now),
    ensures
        a == b,
{
}

/// A process writes itself in as holder only where there was no lease or
/// the lease had expired: where a lease was last renewed, only after the
/// time of renewal and the duration have passed. It comes to hold the lease
/// only by having written it, and renews and releases only what it holds.
pub proof fn lemma_handoff_after_expiry(
    state: State,
    event: EventView,
    identity: Seq<char>,
    now: i64,
)
    ensures
        next(state, event, identity, now).1 is Acquire ==> {
            &&& state == State::Probing
            &&& event matches EventView::Observed(Some(l))
            &&& expired(l, now as int)
            &&& (l.renew_time matches Some(t) ==> t + l.lease_duration_seconds.unwrap()
                * MICROS_PER_SECOND < now)
            &&& forall|other: Seq<char>| !holds(l, other, now as int)
            &&& next(state, event, identity, now).1->Acquire_0 == taken_over(l, identity, now)
        },
        next(state, event, identity, now).1 is Create ==> {
            &&& state == State::Probing
            &&& event == EventView::Observed(None)
            &&& next(state, event, identity, now).1->Create_0 == created(identity, now)
        },
        next(state, event, identity, now).0 is Holding ==> {
            ||| state is Holding
            ||| (state == State::Creating || state == State::Acquiring) && event is Written
        },
        next(state, event, identity, now).1 is Renew ==> state is Holding && event is Tick
            && next(state, event, identity, now).1->Renew_0 == now,
        next(state, event, identity, now).1 is Release ==> state is Holding && event is Shutdown,
        next(state, event, identity, now).1 is Stop ==> state == State::Releasing,
{
}

/// The lease that a process has taken over or created is its own: it holds
/// it from the time of writing until the duration has passed, and the lease
/// has changed hands once more.
pub proof fn lemma_taken_over_is_held(l: LeaseSpecView, identity: Seq<char>, now: i64, at: int)
    requires
        now <= at <= now + 5 * MICROS_PER_SECOND,
    ensures
        holds(created(identity, now), identity, at),
        holds(taken_over(l, identity, now), identity, at),
        transitions(l) < i32::MAX ==> transitions(taken_over(l, identity, now)) == transitions(l)
            + 1,
{
}

/// A process's hold on the lease: who the process is and where it stands.
#[derive(Debug, PartialEq, Eq)]
pub struct Lease {
    /// Where the process stands.
    pub state: State,
    /// The identity under which the process holds the lease.
    pub identity: String,
}

impl Lease {
    /// Begins to acquire the lease for the process `identity`: the lease is
    /// to be read first.
    pub fn acquire_or_create(identity: &str) -> (r: (Lease, Action))
        ensures
            r.0.state == State::Probing,
            r.0.identity@ == identity@,
            r.1@ == ActionView::Read,
    {
        (Lease { state: State::Probing, identity: String::from_str(identity) }, Action::Read)
    }

    /// Takes in what came of the last thing that the process did, at the
    /// time `now`, and gives what it is to do next, as [`step`] does.
    pub fn handle(&mut self, event: Event, now: i64) -> (action: Action)
        ensures
            (final(self).state, action@) == next(old(self).state, event@, old(self).identity@, now),
            final(self).identity@ == old(self).identity@,
    {
        let (state, action) = step(self.state, event, self.identity.as_str(), now);
        self.state = state;
        action
    }

    /// Gives the lease up: a process that holds it is to clear the holder
    /// and the times of the lease object.
    pub fn join(&mut self) -> (action: Action)
        ensures
            (final(self).state, action@) == next(
                old(self).state,
                EventView::Shutdown,
                old(self).identity@,
                0,
            ),
            old(self).state is Holding ==> final(self).state == State::Releasing && action@
                == ActionView::Release,
            final(self).identity@ == old(self).identity@,
    {
        self.handle(Event::Shutdown, 0)
    }
}

/// A lease that its holder renews stays the holder's from the time of
/// renewal until the duration has passed.
pub proof fn lemma_renewed_is_held(l: LeaseSpecView, identity: Seq<char>, now: i64, at: int)
    requires
        l.holder_identity == Some(identity),
        l.lease_duration_seconds is Some,
        at <= now + l.lease_duration_seconds.unwrap() * MICROS_PER_SECOND,
    ensures
        holds(renewed(l, now), identity, at),
{
}

/// A lease that its holder has given up is nobody's, and is free to be
/// taken over at once.
pub proof fn lemma_released_is_free(l: LeaseSpecView, identity: Seq<char>, now: int)
    ensures
        !holds(released(l), identity, now),
        expired(released(l), now),
{
}

} // verus!
