//! Supervising a tunnel: watch `cloudflared`, give everything back when it
//! ends, and set the tunnel up again under the same name where that is wanted.
//!
//! A [`Session`] is where the supervision stands. The program around it watches
//! the process, sleeps, and runs the setups and the calls; it hands each
//! outcome to [`Session::step`] as a [`Signal`] and sends the events that come
//! back.

use vstd::prelude::*;

use crate::client::{ApiRequest, Call, CloudflareApi, Reply};
use crate::event::{Event, ShutdownReason};
use crate::plan::Plan;
use crate::release;
use crate::release::{ReleaseStep, SessionState};

verus! {

/// Maximum number of consecutive bootstrap failures before the session is
/// given up. Retrying without end would only burn API quota.
pub const MAX_RESTART_ATTEMPTS: u32 = 5;

/// Delay before a restart, in milliseconds. Kept short: the number of attempts
/// is bounded.
pub const RESTART_BACKOFF: u64 = 500;

/// How often the process is looked at, in milliseconds.
pub const POLL_INTERVAL: u64 = 250;

/// What a look at the process shows.
#[derive(Debug, PartialEq, Eq)]
pub enum ChildPoll {
    /// It runs.
    Running,
    /// It has exited.
    Exited,
    /// It cannot be looked at.
    Failed(String),
}

/// Whether a session ends now, and why: the user's wish comes first, then the
/// end of the process. There is no time limit.
pub open spec fn over(shutdown: bool, child: ChildPoll) -> Option<ShutdownReason> {
    if shutdown {
        Some(ShutdownReason::UserRequested)
    } else {
        match child {
            ChildPoll::Running => None,
            ChildPoll::Exited => Some(ShutdownReason::ChildExited),
            ChildPoll::Failed(message) => Some(ShutdownReason::Error(message)),
        }
    }
}

/// Whether a session ends now, and why.
pub fn run_until_exit(shutdown: bool, child: ChildPoll) -> (r: Option<ShutdownReason>)
    ensures
        r == over(shutdown, child),
{
    if shutdown {
        return Some(ShutdownReason::UserRequested);
    }
    match child {
        ChildPoll::Running => None,
        ChildPoll::Exited => Some(ShutdownReason::ChildExited),
        ChildPoll::Failed(message) => Some(ShutdownReason::Error(message)),
    }
}

/// What a session is doing.
#[derive(Debug, PartialEq, Eq)]
pub enum Phase {
    /// Watching `cloudflared`.
    Watching,
    /// `cloudflared` is no longer wanted or gone; giving everything back.
    Releasing {
        /// Why the session ended.
        reason: ShutdownReason,
        /// Where the release stands.
        step: ReleaseStep,
    },
    /// Waiting before a restart.
    Pausing,
    /// Setting the tunnel up again.
    Rebuilding,
    /// It is over.
    Finished,
}

/// What a session is told.
#[derive(Debug, PartialEq, Eq)]
pub enum Signal {
    /// The watch is over.
    Ended(ShutdownReason),
    /// The reply to the latest request.
    Answered(Reply),
    /// The pause is over.
    Woke {
        /// Whether the user has asked for the end meanwhile.
        shutdown: bool,
    },
    /// The tunnel is up again, or why it is not.
    Rebuilt(Result<String, String>),
}

/// A supervised session.
#[derive(Debug, PartialEq, Eq)]
pub struct Session {
    /// Whether to respawn `cloudflared` after a crash.
    pub auto_restart: bool,
    /// What the session holds at Cloudflare.
    pub state: SessionState,
    /// Number of the current attempt; the initial run is number 1.
    pub attempt: u32,
    /// Bootstrap failures since the tunnel last ran.
    pub failures: u32,
    /// Text of the last of them.
    pub last_error: Option<String>,
    /// What is being done.
    pub phase: Phase,
}

impl Session {
    /// The invariant. What is held at Cloudflare has been given back, or is
    /// being given back, except while `cloudflared` is being watched.
    pub open spec fn well_formed(self) -> bool {
        &&& self.failures <= MAX_RESTART_ATTEMPTS
        &&& self.failures > 0 ==> self.last_error is Some && self.state.cleaned
        &&& self.failures == MAX_RESTART_ATTEMPTS ==> !(self.phase is Pausing)
            && !(self.phase is Rebuilding)
        &&& !(self.phase is Watching) ==> self.state.cleaned
        &&& self.phase matches Phase::Releasing { step, .. } ==> !(step is Released)
    }

    /// The call to make now.
    pub open spec fn call(self) -> Option<Call> {
        match self.phase {
            Phase::Releasing { step, .. } => step.call(self.state),
            _ => None,
        }
    }

    /// This is what the session is waiting for.
    pub open spec fn awaits(self, signal: Signal) -> bool {
        match self.phase {
            Phase::Watching => signal is Ended,
            Phase::Releasing { step, .. } => signal matches Signal::Answered(reply)
                && step.awaits(self.state, reply),
            Phase::Pausing => signal is Woke,
            Phase::Rebuilding => signal is Rebuilt,
            Phase::Finished => false,
        }
    }

    /// A session that ended for this reason is not restarted.
    pub open spec fn is_final(self, reason: ShutdownReason) -> bool {
        reason is UserRequested || !self.auto_restart
    }

    /// The session once everything has been given back.
    pub open spec fn released(self, reason: ShutdownReason) -> Session {
        if self.is_final(reason) || self.failures >= MAX_RESTART_ATTEMPTS {
            Session { phase: Phase::Finished, ..self }
        } else {
            Session { phase: Phase::Pausing, attempt: (self.attempt + 1) as u32, ..self }
        }
    }

    /// What is announced once everything has been given back.
    pub open spec fn release_told(self, reason: ShutdownReason) -> Seq<Event> {
        if self.is_final(reason) {
            seq![Event::Cleaned]
        } else if self.failures >= MAX_RESTART_ATTEMPTS {
            seq![
                Event::RestartGivingUp {
                    attempts: self.failures,
                    last_error: self.last_error->0,
                },
                Event::Cleaned,
            ]
        } else {
            seq![Event::Restarting { reason, attempt: (self.attempt + 1) as u32 }]
        }
    }

    /// The session after a signal.
    pub open spec fn next(self, signal: Signal) -> Session {
        match (self.phase, signal) {
            (Phase::Watching, Signal::Ended(reason)) => if self.state.cleaned {
                self.released(reason)
            } else {
                Session {
                    state: SessionState { cleaned: true, ..self.state },
                    phase: Phase::Releasing { reason, step: ReleaseStep::FindRecord },
                    ..self
                }
            },
            (Phase::Releasing { reason, step }, Signal::Answered(reply)) => match step.next(
                self.state,
                reply,
            ) {
                ReleaseStep::Released => self.released(reason),
                step => Session { phase: Phase::Releasing { reason, step }, ..self },
            },
            (Phase::Pausing, Signal::Woke { shutdown }) => Session {
                phase: if shutdown {
                    Phase::Finished
                } else {
                    Phase::Rebuilding
                },
                ..self
            },
            (Phase::Rebuilding, Signal::Rebuilt(Ok(tunnel_id))) => Session {
                state: SessionState { tunnel_id, cleaned: false, ..self.state },
                failures: 0,
                last_error: None,
                phase: Phase::Watching,
                ..self
            },
            (Phase::Rebuilding, Signal::Rebuilt(Err(message))) => Session {
                failures: (self.failures + 1) as u32,
                last_error: Some(message),
                phase: Phase::Watching,
                ..self
            },
            _ => self,
        }
    }

    /// What a signal makes the session announce.
    pub open spec fn told(self, signal: Signal) -> Seq<Event> {
        match (self.phase, signal) {
            (Phase::Watching, Signal::Ended(reason)) => if self.state.cleaned {
                seq![Event::ShuttingDown { reason }] + self.release_told(reason)
            } else {
                seq![Event::ShuttingDown { reason }]
            },
            (Phase::Releasing { reason, step }, Signal::Answered(reply)) => if step.next(
                self.state,
                reply,
            ) is Released {
                self.release_told(reason)
            } else {
                seq![]
            },
            (Phase::Pausing, Signal::Woke { shutdown: true }) => seq![Event::Cleaned],
            (Phase::Rebuilding, Signal::Rebuilt(Ok(_))) => seq![
                Event::Restarted { attempt: self.attempt },
            ],
            _ => seq![],
        }
    }

    /// Starts to supervise a tunnel that has just been set up.
    pub fn start(plan: &Plan, tunnel_id: String) -> (r: Session)
        ensures
            r.well_formed(),
            r == (Session {
                auto_restart: plan.auto_restart,
                state: SessionState {
                    account_id: plan.account_id,
                    zone_id: plan.zone_id,
                    full_name: plan.full_name,
                    tunnel_id,
                    cleaned: false,
                },
                attempt: 1,
                failures: 0,
                last_error: None,
                phase: Phase::Watching,
            }),
    {
        Session {
            auto_restart: plan.auto_restart,
            state: SessionState {
                account_id: plan.account_id.clone(),
                zone_id: plan.zone_id.clone(),
                full_name: plan.full_name.clone(),
                tunnel_id,
                cleaned: false,
            },
            attempt: 1,
            failures: 0,
            last_error: None,
            phase: Phase::Watching,
        }
    }

    /// The request to send now, when the session is giving something back.
    pub fn request(&self, api: &CloudflareApi) -> (r: Option<ApiRequest>)
        ensures
            match self.call() {
                Some(call) => r is Some && r->0.makes(*api, call),
                None => r is None,
            },
    {
        match &self.phase {
            Phase::Releasing { step, .. } => step.request(&self.state, api),
            _ => None,
        }
    }

    /// Everything has been given back: restart, give up, or end.
    fn after_release(&mut self, reason: ShutdownReason, told: &mut Vec<Event>)
        requires
            old(self).well_formed(),
            old(self).state.cleaned,
            old(self).attempt < u32::MAX,
        ensures
            *final(self) == old(self).released(reason),
            final(told)@ == old(told)@ + old(self).release_told(reason),
    {
        let wanted = match reason {
            ShutdownReason::UserRequested => false,
            _ => self.auto_restart,
        };
        if !wanted {
            told.push(Event::Cleaned);
            self.phase = Phase::Finished;
        } else if self.failures >= MAX_RESTART_ATTEMPTS {
            let last_error = match &self.last_error {
                Some(message) => message.clone(),
                None => String::new(),
            };
            told.push(Event::RestartGivingUp { attempts: self.failures, last_error });
            told.push(Event::Cleaned);
            self.phase = Phase::Finished;
        } else {
            self.attempt = self.attempt + 1;
            told.push(Event::Restarting { reason, attempt: self.attempt });
            self.phase = Phase::Pausing;
        }
        assert(told@ =~= old(told)@ + old(self).release_told(reason));
    }

    /// Takes a signal, and returns the events to send.
    pub fn step(&mut self, signal: Signal) -> (r: Vec<Event>)
        requires
            old(self).well_formed(),
            old(self).awaits(signal),
            old(self).attempt < u32::MAX,
        ensures
            final(self).well_formed(),
            *final(self) == old(self).next(signal),
            r@ == old(self).told(signal),
    {
        let mut told: Vec<Event> = Vec::new();
        let mut phase = Phase::Finished;
        std::mem::swap(&mut self.phase, &mut phase);
        match (phase, signal) {
            (Phase::Watching, Signal::Ended(reason)) => {
                told.push(Event::ShuttingDown { reason: reason.clone() });
                self.phase = Phase::Watching;
                match self.state.cleanup() {
                    ReleaseStep::Released => {
                        self.after_release(reason, &mut told);
                    },
                    step => {
                        self.phase = Phase::Releasing { reason, step };
                    },
                }
            },
            (Phase::Releasing { reason, step }, Signal::Answered(reply)) => match step.advance(
                &self.state,
                reply,
            ) {
                ReleaseStep::Released => {
                    self.after_release(reason, &mut told);
                },
                step => {
                    self.phase = Phase::Releasing { reason, step };
                },
            },
            (Phase::Pausing, Signal::Woke { shutdown }) => {
                if shutdown {
                    told.push(Event::Cleaned);
                } else {
                    self.phase = Phase::Rebuilding;
                }
            },
            (Phase::Rebuilding, Signal::Rebuilt(Ok(tunnel_id))) => {
                self.state.tunnel_id = tunnel_id;
                self.state.cleaned = false;
                self.failures = 0;
                self.last_error = None;
                self.phase = Phase::Watching;
                told.push(Event::Restarted { attempt: self.attempt });
            },
            (Phase::Rebuilding, Signal::Rebuilt(Err(message))) => {
                self.failures = self.failures + 1;
                self.last_error = Some(message);
                self.phase = Phase::Watching;
            },
            (phase, _) => {
                self.phase = phase;
            },
        }
        assert(told@ =~= old(self).told(signal));
        told
    }
}

impl Session {
    /// The session after the given signals.
    pub open spec fn after(self, signals: Seq<Signal>) -> Session
        decreases signals.len(),
    {
        if signals.len() == 0 {
            self
        } else {
            self.after(signals.drop_last()).next(signals.last())
        }
    }

    /// Each of the signals is what the session was waiting for.
    pub open spec fn follows(self, signals: Seq<Signal>) -> bool
        decreases signals.len(),
    {
        signals.len() == 0 || {
            &&& self.follows(signals.drop_last())
            &&& self.after(signals.drop_last()).awaits(signals.last())
            &&& self.after(signals.drop_last()).attempt < u32::MAX
        }
    }

    /// All that the given signals make the session announce.
    pub open spec fn story(self, signals: Seq<Signal>) -> Seq<Event>
        decreases signals.len(),
    {
        if signals.len() == 0 {
            seq![]
        } else {
            self.story(signals.drop_last()) + self.after(signals.drop_last()).told(signals.last())
        }
    }
}

/// Whatever happens to a session, its invariant holds, and so does its name:
/// the host name, the zone and the account never change.
pub proof fn the_host_name_is_stable(session: Session, signals: Seq<Signal>)
    requires
        session.well_formed(),
        session.follows(signals),
    ensures
        session.after(signals).well_formed(),
        session.after(signals).state.full_name == session.state.full_name,
        session.after(signals).state.zone_id == session.state.zone_id,
        session.after(signals).state.account_id == session.state.account_id,
        session.after(signals).auto_restart == session.auto_restart,
    decreases signals.len(),
{
    if signals.len() > 0 {
        the_host_name_is_stable(session, signals.drop_last());
    }
}

/// An end that the user asked for, or any end without auto-restart, is final:
/// the session only gives things back and finishes. It announces no restart.
pub proof fn a_final_end_is_final(session: Session, reason: ShutdownReason, signals: Seq<Signal>)
    requires
        session.well_formed(),
        session.phase is Watching,
        session.is_final(reason),
        session.follows(signals),
        signals.len() > 0,
        signals[0] == Signal::Ended(reason),
    ensures
        ({
            let after = session.after(signals);
            ||| after.phase is Finished
            ||| after.phase is Releasing && after.phase->reason == reason
        }),
        forall|i: int|
            0 <= i < session.story(signals).len() ==> {
                let event = #[trigger] session.story(signals)[i];
                event is ShuttingDown || event is Cleaned
            },
    decreases signals.len(),
{
    let before = signals.drop_last();
    the_host_name_is_stable(session, before);
    if before.len() > 0 {
        a_final_end_is_final(session, reason, before);
    } else {
        assert(session.story(before) =~= seq![]);
    }
    let told = session.after(before).told(signals.last());
    assert forall|i: int| 0 <= i < told.len() implies #[trigger] told[i] is ShuttingDown
        || told[i] is Cleaned by {}
    assert forall|i: int| 0 <= i < session.story(signals).len() implies {
        let event = #[trigger] session.story(signals)[i];
        event is ShuttingDown || event is Cleaned
    } by {
        let n = session.story(before).len();
        if i >= n {
            assert(session.story(signals)[i] == told[i - n]);
        } else {
            assert(session.story(signals)[i] == session.story(before)[i]);
        }
    }
}

/// The end of a session is told once and last: a session has finished exactly
/// if `Cleaned` was announced, nothing is announced after it, and by then
/// everything has been given back.
pub proof fn cleaned_comes_last(session: Session, signals: Seq<Signal>)
    requires
        session.well_formed(),
        !(session.phase is Finished),
        session.follows(signals),
    ensures
        ({
            let story = session.story(signals);
            let finished = session.after(signals).phase is Finished;
            &&& finished ==> story.len() > 0 && story.last() is Cleaned
                && session.after(signals).state.cleaned
            &&& forall|i: int|
                0 <= i < story.len() && #[trigger] story[i] is Cleaned ==> finished && i
                    == story.len() - 1
        }),
    decreases signals.len(),
{
    if signals.len() > 0 {
        cleaned_comes_last(session, signals.drop_last());
        the_host_name_is_stable(session, signals.drop_last());
    }
}

/// The bootstrap failures since the tunnel last ran.
pub open spec fn failures_in(signals: Seq<Signal>) -> nat
    decreases signals.len(),
{
    if signals.len() == 0 {
        0
    } else {
        match signals.last() {
            Signal::Rebuilt(Ok(_)) => 0,
            Signal::Rebuilt(Err(_)) => failures_in(signals.drop_last()) + 1,
            _ => failures_in(signals.drop_last()),
        }
    }
}

/// A session counts its consecutive bootstrap failures; a tunnel that runs
/// again clears the count. It gives up after exactly [`MAX_RESTART_ATTEMPTS`]
/// of them, no sooner, and says so.
pub proof fn gives_up_after_consecutive_failures(session: Session, signals: Seq<Signal>)
    requires
        session.well_formed(),
        session.failures == 0,
        session.follows(signals),
    ensures
        session.after(signals).failures == failures_in(signals),
        failures_in(signals) <= MAX_RESTART_ATTEMPTS,
        forall|i: int|
            0 <= i < session.story(signals).len() ==> match #[trigger] session.story(signals)[i] {
                Event::RestartGivingUp { attempts, .. } => attempts == MAX_RESTART_ATTEMPTS
                    && failures_in(signals) == MAX_RESTART_ATTEMPTS,
                _ => true,
            },
    decreases signals.len(),
{
    if signals.len() > 0 {
        let before = signals.drop_last();
        gives_up_after_consecutive_failures(session, before);
        the_host_name_is_stable(session, before);
        giving_up_is_the_end(session, before);
    }
}

proof fn giving_up_is_the_end(session: Session, signals: Seq<Signal>)
    requires
        session.well_formed(),
        session.follows(signals),
    ensures
        forall|i: int|
            0 <= i < session.story(signals).len() && #[trigger] session.story(
                signals,
            )[i] is RestartGivingUp ==> session.after(signals).phase is Finished,
    decreases signals.len(),
{
    if signals.len() > 0 {
        giving_up_is_the_end(session, signals.drop_last());
    }
}

/// With the retry budget spent, the next end of the watch is the last: the
/// session gives up, naming the last failure, and finishes.
pub proof fn a_spent_budget_is_final(session: Session, reason: ShutdownReason)
    requires
        session.well_formed(),
        session.phase is Watching,
        session.failures == MAX_RESTART_ATTEMPTS,
        !session.is_final(reason),
    ensures
        session.next(Signal::Ended(reason)).phase is Finished,
        session.told(Signal::Ended(reason)) == seq![
            Event::ShuttingDown { reason },
            Event::RestartGivingUp {
                attempts: MAX_RESTART_ATTEMPTS,
                last_error: session.last_error->0,
            },
            Event::Cleaned,
        ],
{
}

/// How many restarts have been announced.
pub open spec fn restarts_in(story: Seq<Event>) -> nat
    decreases story.len(),
{
    if story.len() == 0 {
        0
    } else {
        restarts_in(story.drop_last()) + if story.last() is Restarting {
            1nat
        } else {
            0nat
        }
    }
}

proof fn restarts_add_up(a: Seq<Event>, b: Seq<Event>)
    ensures
        restarts_in(a + b) == restarts_in(a) + restarts_in(b),
    decreases b.len(),
{
    if b.len() == 0 {
        assert(a + b =~= a);
    } else {
        restarts_add_up(a, b.drop_last());
        assert((a + b).drop_last() =~= a + b.drop_last());
        assert((a + b).last() == b.last());
    }
}

proof fn at_most_one_restart_at_a_time(session: Session, signal: Signal)
    requires
        session.well_formed(),
        session.awaits(signal),
        session.attempt < u32::MAX,
    ensures
        session.next(signal).attempt == session.attempt + restarts_in(session.told(signal)),
        forall|i: int|
            0 <= i < session.told(signal).len() ==> match #[trigger] session.told(signal)[i] {
                Event::Restarting { attempt, .. } => attempt == session.next(signal).attempt,
                Event::Restarted { attempt } => attempt == session.attempt,
                _ => true,
            },
{
    reveal_with_fuel(restarts_in, 4);
    let told = session.told(signal);
    assert(told.len() <= 3);
    if told.len() == 1 {
        assert(told.drop_last() =~= seq![]);
    } else if told.len() == 2 {
        assert(told.drop_last() =~= seq![told[0]]);
        assert(told.drop_last().drop_last() =~= seq![]);
    } else if told.len() == 3 {
        assert(told.drop_last() =~= seq![told[0], told[1]]);
        assert(told.drop_last().drop_last() =~= seq![told[0]]);
        assert(told.drop_last().drop_last().drop_last() =~= seq![]);
    }
}

/// Restarts are numbered without gaps. The initial run is attempt 1, so the
/// first restart is announced as attempt 2; the number is that of the latest
/// announced restart.
pub proof fn restarts_are_numbered(session: Session, signals: Seq<Signal>)
    requires
        session.well_formed(),
        session.attempt == 1,
        session.follows(signals),
    ensures
        session.after(signals).attempt == 1 + restarts_in(session.story(signals)),
    decreases signals.len(),
{
    if signals.len() > 0 {
        let before = signals.drop_last();
        restarts_are_numbered(session, before);
        the_host_name_is_stable(session, before);
        at_most_one_restart_at_a_time(session.after(before), signals.last());
        restarts_add_up(session.story(before), session.after(before).told(signals.last()));
    }
}

/// A restart is announced under its own number, and so is its success.
pub proof fn restarts_keep_their_number(session: Session, signal: Signal, i: int)
    requires
        session.well_formed(),
        session.awaits(signal),
        session.attempt < u32::MAX,
        0 <= i < session.told(signal).len(),
    ensures
        session.told(signal)[i] matches Event::Restarting { attempt, .. } ==> attempt
            == session.attempt + 1 && session.next(signal).attempt == attempt,
        session.told(signal)[i] matches Event::Restarted { attempt } ==> attempt
            == session.attempt,
{
}

/// The signals of an end followed by the given replies.
pub open spec fn ending(reason: ShutdownReason, replies: Seq<Reply>) -> Seq<Signal> {
    seq![Signal::Ended(reason)] + replies.map_values(|reply: Reply| Signal::Answered(reply))
}

/// A session that held a tunnel gives it back when it ends, whatever the
/// reason: it makes the calls of one whole release of the live tunnel, and only
/// then decides whether to restart, to give up or to finish.
pub proof fn everything_is_given_back(
    session: Session,
    reason: ShutdownReason,
    replies: Seq<Reply>,
)
    requires
        session.well_formed(),
        session.phase is Watching,
        !session.state.cleaned,
        session.attempt < u32::MAX,
        release::release_follows(session.state, replies),
    ensures
        session.follows(ending(reason, replies)),
        ({
            let state = SessionState { cleaned: true, ..session.state };
            let step = release::release_after(session.state, replies);
            let after = session.after(ending(reason, replies));
            if step is Released {
                after == (Session { state, phase: after.phase, ..session }).released(reason)
            } else {
                &&& after == (Session {
                    state,
                    phase: Phase::Releasing { reason, step },
                    ..session
                })
                &&& after.call() == step.call(session.state)
            }
        }),
    decreases replies.len(),
{
    let signals = ending(reason, replies);
    if replies.len() == 0 {
        assert(signals =~= seq![Signal::Ended(reason)]);
        assert(signals.drop_last() =~= seq![]);
        assert(session.follows(signals.drop_last()));
        assert(session.after(signals.drop_last()) == session);
    } else {
        let before = replies.drop_last();
        everything_is_given_back(session, reason, before);
        assert(signals.drop_last() =~= ending(reason, before));
        assert(signals.last() == Signal::Answered(replies.last()));
        let step = release::release_after(session.state, before);
        let middle = session.after(signals.drop_last());
        assert(!(step is Released));
        assert(step.awaits(middle.state, replies.last()));
        assert(middle.awaits(signals.last()));
        assert(step.next(middle.state, replies.last()) == step.next(session.state, replies.last()));
    }
}

/// With auto-restart, an end that the user did not ask for is never the last
/// word while fewer than five setups in a row have failed: once the release is
/// over, whether it took calls or not, a restart is announced under the next
/// number, and the pause before it begins.
pub proof fn a_crash_is_followed_by_a_restart(
    session: Session,
    signal: Signal,
    reason: ShutdownReason,
)
    requires
        session.well_formed(),
        session.awaits(signal),
        session.attempt < u32::MAX,
        session.auto_restart,
        session.failures < 5,
        reason != ShutdownReason::UserRequested,
        match session.phase {
            Phase::Watching => signal == Signal::Ended(reason) && session.state.cleaned,
            Phase::Releasing { reason: r, step } => r == reason && step is DeleteTunnel,
            _ => false,
        },
    ensures
        session.next(signal) == (Session {
            phase: Phase::Pausing,
            attempt: (session.attempt + 1) as u32,
            ..session
        }),
        session.told(signal).last() == (Event::Restarting {
            reason,
            attempt: (session.attempt + 1) as u32,
        }),
        session.told(signal).len() == if session.phase is Watching {
            2int
        } else {
            1int
        },
{
}

/// A pause is followed by a new setup unless the user has asked for the end
/// meanwhile; nothing else changes.
pub proof fn a_pause_is_followed_by_a_setup(session: Session, shutdown: bool)
    requires
        session.phase is Pausing,
    ensures
        ({
            let next = session.next(Signal::Woke { shutdown });
            &&& next == (Session { phase: next.phase, ..session })
            &&& !shutdown ==> next.phase is Rebuilding && session.told(
                Signal::Woke { shutdown },
            ).len() == 0
            &&& shutdown ==> next.phase is Finished && session.told(Signal::Woke { shutdown })
                =~= seq![Event::Cleaned]
        }),
{
}

/// An end that comes while a tunnel is held starts its release, whatever the
/// reason and however often the session has been restarted: the end is
/// announced, the look-up of the host name is called for, and nothing but the
/// mark of the release changes.
pub proof fn an_end_starts_the_release(session: Session, reason: ShutdownReason)
    requires
        session.phase is Watching,
        !session.state.cleaned,
    ensures
        ({
            let next = session.next(Signal::Ended(reason));
            &&& next == (Session {
                state: SessionState { cleaned: true, ..session.state },
                phase: next.phase,
                ..session
            })
            &&& next.phase matches Phase::Releasing { reason: r, .. } && r == reason
            &&& next.call() == Some(
                Call::FindRecord { zone: session.state.zone_id@, name: session.state.full_name@ },
            )
            &&& session.told(Signal::Ended(reason)) =~= seq![Event::ShuttingDown { reason }]
        }),
{
}

/// An end is announced before anything else, also when there is nothing left to
/// give back; a setup that failed leaves nothing behind, so that no call is made
/// for it.
pub proof fn an_end_after_a_failed_setup_makes_no_call(session: Session, reason: ShutdownReason)
    requires
        session.phase is Watching,
        session.state.cleaned,
    ensures
        session.told(Signal::Ended(reason)).len() >= 2,
        session.told(Signal::Ended(reason))[0] == (Event::ShuttingDown { reason }),
        session.next(Signal::Ended(reason)).call() is None,
        session.next(Signal::Ended(reason)).state == session.state,
{
}

/// While a release is under way nothing is announced, and nothing but its place
/// changes: the reason stays, and so does the tunnel that it is about.
pub proof fn a_release_is_quiet(session: Session, reply: Reply)
    requires
        session.well_formed(),
        session.phase is Releasing,
        session.awaits(Signal::Answered(reply)),
        !(session.phase->step is DeleteTunnel),
    ensures
        ({
            let next = session.next(Signal::Answered(reply));
            &&& next == (Session { phase: next.phase, ..session })
            &&& next.phase matches Phase::Releasing { reason, .. } && reason
                == session.phase->reason
            &&& session.told(Signal::Answered(reply)).len() == 0
        }),
{
}

/// A setup that succeeds gives the session a tunnel to hold: exactly that one,
/// not yet given back, at every restart alike. Its success is announced under
/// the number of the attempt, and the failures before it are forgotten.
pub proof fn a_rebuilt_tunnel_is_held(session: Session, tunnel_id: String)
    requires
        session.phase is Rebuilding,
    ensures
        session.next(Signal::Rebuilt(Ok(tunnel_id))) == (Session {
            auto_restart: session.auto_restart,
            state: SessionState {
                account_id: session.state.account_id,
                zone_id: session.state.zone_id,
                full_name: session.state.full_name,
                tunnel_id,
                cleaned: false,
            },
            attempt: session.attempt,
            failures: 0,
            last_error: None,
            phase: Phase::Watching,
        }),
        session.told(Signal::Rebuilt(Ok(tunnel_id))) =~= seq![
            Event::Restarted { attempt: session.attempt },
        ],
{
}

/// A setup that fails adds one to the failures in a row, keeps its reason, and
/// leaves everything else as it was; it is not announced.
pub proof fn a_failed_setup_is_counted(session: Session, message: String)
    requires
        session.well_formed(),
        session.phase is Rebuilding,
    ensures
        ({
            let next = session.next(Signal::Rebuilt(Err(message)));
            &&& next.failures == session.failures + 1
            &&& next.last_error == Some(message)
            &&& next.phase is Watching
            &&& next == (Session {
                failures: next.failures,
                last_error: next.last_error,
                phase: next.phase,
                ..session
            })
            &&& session.told(Signal::Rebuilt(Err(message))).len() == 0
        }),
{
}

/// At every phase there is one kind of signal to wait for, and any signal of
/// that kind will do; only a session that has finished waits for nothing.
pub proof fn sessions_wait_for_one_kind_of_signal(session: Session, signal: Signal)
    ensures
        session.phase is Watching ==> (session.awaits(signal) <==> signal is Ended),
        session.phase is Pausing ==> (session.awaits(signal) <==> signal is Woke),
        session.phase is Rebuilding ==> (session.awaits(signal) <==> signal is Rebuilt),
        session.phase is Finished ==> !session.awaits(signal),
        session.phase matches Phase::Releasing { step, .. } ==> (session.awaits(signal) <==> (
        signal matches Signal::Answered(reply) && session.call() is Some
            && session.call()->0.answer() == reply.answer())),
{
}

/// The tunnel that a session is about changes only with a setup that succeeds,
/// and only such a setup makes it something to be given back.
pub proof fn only_a_setup_changes_the_tunnel(session: Session, signal: Signal)
    requires
        !(signal matches Signal::Rebuilt(Ok(_))),
    ensures
        session.next(signal).state.tunnel_id == session.state.tunnel_id,
        session.state.cleaned ==> session.next(signal).state.cleaned,
        session.next(signal).state.cleaned && !session.state.cleaned ==> signal is Ended,
{
}

impl Session {
    /// The calls that the given signals answer.
    pub open spec fn made(self, signals: Seq<Signal>) -> Seq<Call>
        decreases signals.len(),
    {
        if signals.len() == 0 {
            seq![]
        } else if signals.last() is Answered {
            self.made(signals.drop_last()).push(self.after(signals.drop_last()).call()->0)
        } else {
            self.made(signals.drop_last())
        }
    }
}

proof fn a_release_makes_its_calls(session: Session, reason: ShutdownReason, replies: Seq<Reply>)
    requires
        session.well_formed(),
        session.phase is Watching,
        !session.state.cleaned,
        session.attempt < u32::MAX,
        release::release_follows(session.state, replies),
    ensures
        session.made(ending(reason, replies)) == release::release_calls(session.state, replies),
    decreases replies.len(),
{
    let signals = ending(reason, replies);
    everything_is_given_back(session, reason, replies);
    if replies.len() == 0 {
        assert(signals =~= seq![Signal::Ended(reason)]);
        assert(signals.drop_last() =~= seq![]);
        assert(session.made(signals.drop_last()) =~= seq![]);
    } else {
        let before = replies.drop_last();
        a_release_makes_its_calls(session, reason, before);
        everything_is_given_back(session, reason, before);
        assert(signals.drop_last() =~= ending(reason, before));
        assert(signals.last() == Signal::Answered(replies.last()));
    }
}

/// A session that holds a tunnel makes, at the end, just the calls that give
/// this tunnel back: the look-up of its host name first, the end of its
/// connections and then of the tunnel itself last, and in between the deletion
/// of a record if the look-up found one. Then everything has been given back.
pub proof fn a_held_tunnel_is_given_back_at_the_end(
    session: Session,
    reason: ShutdownReason,
    replies: Seq<Reply>,
)
    requires
        session.well_formed(),
        session.phase is Watching,
        !session.state.cleaned,
        session.attempt < u32::MAX,
        release::release_follows(session.state, replies),
        release::release_after(session.state, replies) is Released,
    ensures
        session.follows(ending(reason, replies)),
        session.after(ending(reason, replies)).state == (SessionState {
            cleaned: true,
            ..session.state
        }),
        ({
            let calls = session.made(ending(reason, replies));
            let account = session.state.account_id@;
            let tunnel = session.state.tunnel_id@;
            let n = calls.len() as int;
            &&& n == 3 || n == 4
            &&& calls[0] == (Call::FindRecord {
                zone: session.state.zone_id@,
                name: session.state.full_name@,
            })
            &&& calls[n - 2] == (Call::CleanupConnections { account, tunnel })
            &&& calls[n - 1] == (Call::DeleteTunnel { account, tunnel })
        }),
{
    everything_is_given_back(session, reason, replies);
    a_release_makes_its_calls(session, reason, replies);
    release::releases_are_about_one_tunnel(session.state, replies);
}

/// However often a session has been restarted, the tunnel of the latest restart
/// is what the next end gives back: it is its connections that are closed, and
/// it is the tunnel that is deleted.
pub proof fn a_rebuilt_tunnel_is_given_back(
    session: Session,
    tunnel_id: String,
    reason: ShutdownReason,
    replies: Seq<Reply>,
)
    requires
        session.well_formed(),
        session.phase is Rebuilding,
        session.attempt < u32::MAX,
        release::release_follows(session.next(Signal::Rebuilt(Ok(tunnel_id))).state, replies),
        release::release_after(
            session.next(Signal::Rebuilt(Ok(tunnel_id))).state,
            replies,
        ) is Released,
    ensures
        ({
            let up = session.next(Signal::Rebuilt(Ok(tunnel_id)));
            let calls = up.made(ending(reason, replies));
            let account = session.state.account_id@;
            let n = calls.len() as int;
            &&& n == 3 || n == 4
            &&& calls[0] == (Call::FindRecord {
                zone: session.state.zone_id@,
                name: session.state.full_name@,
            })
            &&& calls[n - 2] == (Call::CleanupConnections { account, tunnel: tunnel_id@ })
            &&& calls[n - 1] == (Call::DeleteTunnel { account, tunnel: tunnel_id@ })
        }),
{
    a_held_tunnel_is_given_back_at_the_end(
        session.next(Signal::Rebuilt(Ok(tunnel_id))),
        reason,
        replies,
    );
}

proof fn releases_have_their_reason_from_an_end(session: Session, signals: Seq<Signal>)
    requires
        session.phase is Watching,
        session.follows(signals),
    ensures
        session.after(signals).phase matches Phase::Releasing { reason, .. }
            ==> signals.contains(Signal::Ended(reason)),
    decreases signals.len(),
{
    if signals.len() > 0 {
        let before = signals.drop_last();
        releases_have_their_reason_from_an_end(session, before);
        assert(signals.last() == signals[signals.len() - 1]);
        if let Phase::Releasing { reason, .. } = session.after(before).phase {
            let i = before.index_of(Signal::Ended(reason));
            assert(signals[i] == Signal::Ended(reason));
        }
    }
}

/// With auto-restart, a session that was up is over only because the user asked
/// for it, at an end or during a pause, or because it gave up and said so.
pub proof fn sessions_do_not_end_by_themselves(session: Session, signals: Seq<Signal>)
    requires
        session.well_formed(),
        session.phase is Watching,
        session.auto_restart,
        session.follows(signals),
        session.after(signals).phase is Finished,
    ensures
        ({
            ||| signals.contains(Signal::Ended(ShutdownReason::UserRequested))
            ||| signals.contains(Signal::Woke { shutdown: true })
            ||| exists|i: int|
                0 <= i < session.story(signals).len() && #[trigger] session.story(
                    signals,
                )[i] is RestartGivingUp
        }),
    decreases signals.len(),
{
    let before = signals.drop_last();
    let middle = session.after(before);
    let told = middle.told(signals.last());
    let n = session.story(before).len() as int;
    the_host_name_is_stable(session, before);
    releases_have_their_reason_from_an_end(session, before);
    assert(signals.last() == signals[signals.len() - 1]);
    assert(session.story(signals) == session.story(before) + told);
    match (middle.phase, signals.last()) {
        (Phase::Releasing { reason, .. }, _) => {
            let i = before.index_of(Signal::Ended(reason));
            assert(signals[i] == Signal::Ended(reason));
            if reason != ShutdownReason::UserRequested {
                assert(session.story(signals)[n] == told[0]);
                assert(session.story(signals)[n] is RestartGivingUp);
            }
        },
        (Phase::Watching, Signal::Ended(reason)) => {
            if reason != ShutdownReason::UserRequested {
                assert(session.story(signals)[n + 1] == told[1]);
                assert(session.story(signals)[n + 1] is RestartGivingUp);
            }
        },
        _ => {},
    }
}

/// Without auto-restart, or once the user has asked for the end, the release is
/// followed by the end, which is announced as such and nothing else.
pub proof fn an_end_that_is_wanted_is_the_end(
    session: Session,
    signal: Signal,
    reason: ShutdownReason,
)
    requires
        session.well_formed(),
        session.awaits(signal),
        !session.auto_restart || reason == ShutdownReason::UserRequested,
        match session.phase {
            Phase::Watching => signal == Signal::Ended(reason) && session.state.cleaned,
            Phase::Releasing { reason: r, step } => r == reason && step is DeleteTunnel,
            _ => false,
        },
    ensures
        session.next(signal) == (Session { phase: Phase::Finished, ..session }),
        session.told(signal).last() == Event::Cleaned,
        session.told(signal).len() == if session.phase is Watching {
            2int
        } else {
            1int
        },
{
}

/// The user's wish ends the watch at once, whatever the process does; a process
/// that runs on is watched on, and one that is gone or cannot be looked at ends
/// the watch, with what was seen as the reason.
pub proof fn the_watch_ends_with_what_was_seen(shutdown: bool, child: ChildPoll)
    ensures
        shutdown ==> over(shutdown, child) == Some(ShutdownReason::UserRequested),
        !shutdown ==> (over(shutdown, child) is None <==> child is Running),
        !shutdown && child is Exited ==> over(shutdown, child) == Some(ShutdownReason::ChildExited),
        !shutdown ==> (child matches ChildPoll::Failed(message) ==> over(shutdown, child) == Some(
            ShutdownReason::Error(message),
        )),
{
}

/// The step that completes a release of a session that was not stopped, and that
/// is to be restarted, begins the pause before a restart, at every attempt alike,
/// as long as fewer than five setups in a row have failed.
pub proof fn a_release_is_followed_by_a_restart(
    session: &mut Session,
    reply: Reply,
    told: Vec<Event>,
)
    requires
        old(session).well_formed(),
        old(session).awaits(Signal::Answered(reply)),
        old(session).auto_restart,
        old(session).failures < 5,
        old(session).attempt < u32::MAX,
        old(session).phase matches Phase::Releasing { reason, step } && reason
            != ShutdownReason::UserRequested && step is DeleteTunnel,
        call_ensures(Session::step, (session, Signal::Answered(reply)), told),
    ensures
        final(session).phase is Pausing,
        final(session).attempt == old(session).attempt + 1,
        final(session).failures == old(session).failures,
        told@ == seq![
            Event::Restarting {
                reason: old(session).phase->reason,
                attempt: final(session).attempt,
            },
        ],
{
}

/// A session goes on after a crash whether its release took calls or not: with
/// nothing left to give back, the pause begins at once.
pub proof fn a_crash_without_a_tunnel_is_followed_by_a_restart(
    session: &mut Session,
    reason: ShutdownReason,
    told: Vec<Event>,
)
    requires
        old(session).well_formed(),
        old(session).phase is Watching,
        old(session).state.cleaned,
        old(session).auto_restart,
        old(session).failures < 5,
        old(session).attempt < u32::MAX,
        reason != ShutdownReason::UserRequested,
        call_ensures(Session::step, (session, Signal::Ended(reason)), told),
    ensures
        final(session).phase is Pausing,
        final(session).attempt == old(session).attempt + 1,
        told@ == seq![
            Event::ShuttingDown { reason },
            Event::Restarting { reason, attempt: final(session).attempt },
        ],
{
}

/// The step after which a session is over says why: the user has asked for the
/// end, it is not to be restarted, or five setups in a row have failed. Then
/// nothing is held any more.
pub proof fn sessions_end_for_a_reason(session: &mut Session, signal: Signal, told: Vec<Event>)
    requires
        old(session).well_formed(),
        old(session).awaits(signal),
        old(session).attempt < u32::MAX,
        call_ensures(Session::step, (session, signal), told),
        final(session).phase is Finished,
    ensures
        !old(session).auto_restart || old(session).failures >= 5 || signal == (Signal::Woke {
            shutdown: true,
        }) || signal == Signal::Ended(ShutdownReason::UserRequested) || (
        old(session).phase matches Phase::Releasing { reason, .. } && reason
            == ShutdownReason::UserRequested),
        final(session).state.cleaned,
        told@.len() > 0,
        told@.last() is Cleaned,
{
}

/// The step that takes over a tunnel that was set up again holds it: whatever the
/// number of the attempt, it counts as not given back, and the end of the session
/// will find it. The other fields stay as they are.
pub proof fn every_rebuilt_tunnel_is_held(
    session: &mut Session,
    tunnel_id: String,
    told: Vec<Event>,
)
    requires
        old(session).well_formed(),
        old(session).phase is Rebuilding,
        call_ensures(Session::step, (session, Signal::Rebuilt(Ok(tunnel_id))), told),
    ensures
        !final(session).state.cleaned,
        final(session).state.tunnel_id == tunnel_id,
        final(session).state.account_id == old(session).state.account_id,
        final(session).state.zone_id == old(session).state.zone_id,
        final(session).state.full_name == old(session).state.full_name,
        final(session).attempt == old(session).attempt,
        final(session).auto_restart == old(session).auto_restart,
        final(session).failures == 0,
        final(session).phase is Watching,
        told@ == seq![Event::Restarted { attempt: old(session).attempt }],
{
}

/// The end that follows a setup, the first one or any other, is the end of a
/// tunnel that is held: the two steps together call for its release.
pub proof fn an_end_after_a_setup_starts_the_release(
    session: &mut Session,
    tunnel_id: String,
    reason: ShutdownReason,
    later: &mut Session,
    told: Vec<Event>,
    ended: Vec<Event>,
)
    requires
        old(session).well_formed(),
        old(session).phase is Rebuilding,
        old(session).attempt < u32::MAX,
        call_ensures(Session::step, (session, Signal::Rebuilt(Ok(tunnel_id))), told),
        *old(later) == *final(session),
        call_ensures(Session::step, (later, Signal::Ended(reason)), ended),
    ensures
        final(later).phase is Releasing,
        final(later).state.tunnel_id == tunnel_id,
        final(later).call() == Some(
            Call::FindRecord {
                zone: old(session).state.zone_id@,
                name: old(session).state.full_name@,
            },
        ),
        ended@ == seq![Event::ShuttingDown { reason }],
{
}

/// A session starts with its first attempt and without failures; it watches the
/// tunnel that was set up, and holds it, under the names of its plan.
pub proof fn sessions_start_with_a_tunnel(plan: Plan, tunnel_id: String, r: Session)
    requires
        call_ensures(Session::start, (&plan, tunnel_id), r),
    ensures
        r.phase is Watching,
        r.attempt == 1,
        r.failures == 0,
        r.last_error is None,
        r.auto_restart == plan.auto_restart,
        !r.state.cleaned,
        r.state.tunnel_id == tunnel_id,
        r.state.full_name == plan.full_name,
        r.state.account_id == plan.account_id,
        r.state.zone_id == plan.zone_id,
{
}

/// The watch over a process ends exactly if its end was asked for or it no longer
/// runs; the wish of the user comes first.
pub proof fn the_watch_ends_for_a_reason(
    shutdown: bool,
    child: ChildPoll,
    r: Option<ShutdownReason>,
)
    requires
        call_ensures(run_until_exit, (shutdown, child), r),
    ensures
        r is None <==> !shutdown && child is Running,
        r == Some(ShutdownReason::UserRequested) <==> shutdown,
        !shutdown && child is Exited ==> r == Some(ShutdownReason::ChildExited),
        !shutdown ==> (child matches ChildPoll::Failed(message) ==> r == Some(
            ShutdownReason::Error(message),
        )),
        r != Some(ShutdownReason::Timeout),
{
}

/// The numbers that the supervision goes by: five failures in a row are the
/// limit, half a second passes before a restart, and the process is looked at
/// four times a second.
pub proof fn the_supervision_has_its_limits()
    ensures
        MAX_RESTART_ATTEMPTS == 5,
        RESTART_BACKOFF == 500,
        POLL_INTERVAL == 250,
{
}

/// A session sends the requests of its release, and at no other time any.
pub proof fn sessions_send_the_requests_of_a_release(
    session: Session,
    api: CloudflareApi,
    r: Option<ApiRequest>,
)
    requires
        session.well_formed(),
        call_ensures(Session::request, (&session, &api), r),
    ensures
        r is Some <==> session.phase is Releasing,
        session.phase matches Phase::Releasing { step, .. } ==> r->0.makes(
            api,
            step.call(session.state)->0,
        ),
{
}

} // verus!
