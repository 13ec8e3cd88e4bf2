//! A running tunnel as a whole: the handle that its owner holds, and the session
//! that supervises it.
//!
//! The two meet in the wish to stop. The owner asks for it through the handle;
//! from then on the session only gives back what it holds, and finishes.

use vstd::prelude::*;

use crate::client::Reply;
use crate::error::Error;
use crate::event::{Event, ShutdownReason};
use crate::handle::TunnelHandle;
use crate::plan::Plan;
use crate::release;
use crate::release::ReleaseStep;
use crate::session;
use crate::session::{run_until_exit, ChildPoll, Phase, Session, Signal};

verus! {

/// A running tunnel.
#[derive(Debug, PartialEq, Eq)]
pub struct LiveTunnel {
    /// What the owner sees.
    pub handle: TunnelHandle,
    /// What supervises it.
    pub session: Session,
}

impl LiveTunnel {
    /// Handle and session are about the same host name.
    pub open spec fn well_formed(self) -> bool {
        &&& self.handle.well_formed()
        &&& self.session.well_formed()
        &&& self.handle.full_name == self.session.state.full_name
    }

    /// The tunnel once its owner has asked for its end.
    pub open spec fn stopping(self) -> LiveTunnel {
        LiveTunnel {
            handle: TunnelHandle { stopped: true, ..self.handle },
            session: self.session,
        }
    }

    /// What the session makes of a signal: on waking up it looks for the wish
    /// to stop.
    pub open spec fn heard(self, signal: Signal) -> Signal {
        match signal {
            Signal::Woke { .. } => Signal::Woke { shutdown: self.handle.stopped },
            other => other,
        }
    }

    /// What the session makes of several signals.
    pub open spec fn all_heard(self, signals: Seq<Signal>) -> Seq<Signal> {
        signals.map_values(|signal: Signal| self.heard(signal))
    }

    /// Starts to supervise a tunnel that has just been set up.
    pub fn start(plan: &Plan, tunnel_id: String) -> (r: LiveTunnel)
        ensures
            r.well_formed(),
            !r.handle.stopped,
            r.handle.subdomain == plan.subdomain,
            r.handle.full_name == plan.full_name,
            r.session == (Session {
                auto_restart: plan.auto_restart,
                state: release::SessionState {
                    account_id: plan.account_id,
                    zone_id: plan.zone_id,
                    full_name: plan.full_name,
                    tunnel_id,
                    cleaned: false,
                },
                attempt: 1,
                failures: 0,
                last_error: None,
                phase: Phase::Watching,
            }),
    {
        LiveTunnel {
            handle: TunnelHandle::new(plan.full_name.clone(), plan.subdomain.clone()),
            session: Session::start(plan, tunnel_id),
        }
    }

    /// Asks for the end of the tunnel. The first call is granted; any further
    /// one is told that the tunnel is already shut down.
    pub fn stop(&mut self) -> (r: Result<(), Error>)
        ensures
            *final(self) == old(self).stopping(),
            r == if old(self).handle.stopped {
                Err::<(), Error>(Error::AlreadyShutDown)
            } else {
                Ok::<(), Error>(())
            },
    {
        self.handle.stop()
    }

    /// Whether the watch over the process ends now, and why.
    pub fn look(&self, child: ChildPoll) -> (r: Option<ShutdownReason>)
        ensures
            r == session::over(self.handle.stopped, child),
    {
        run_until_exit(self.handle.stopped, child)
    }

    /// Hands the session a signal, and returns the events to send.
    pub fn step(&mut self, signal: Signal) -> (r: Vec<Event>)
        requires
            old(self).well_formed(),
            old(self).session.awaits(signal),
            old(self).session.attempt < u32::MAX,
        ensures
            final(self).well_formed(),
            final(self).handle == old(self).handle,
            final(self).session == old(self).session.next(old(self).heard(signal)),
            r@ == old(self).session.told(old(self).heard(signal)),
    {
        let heard = match signal {
            Signal::Woke { .. } => Signal::Woke { shutdown: self.handle.stopped },
            other => other,
        };
        self.session.step(heard)
    }

    /// Starts the release of what is still held, once the supervision is over,
    /// however it came to an end.
    pub fn give_back(&mut self) -> (r: ReleaseStep)
        ensures
            final(self).handle == old(self).handle,
            final(self).session == (Session {
                state: release::SessionState { cleaned: true, ..old(self).session.state },
                ..old(self).session
            }),
            r == if old(self).session.state.cleaned {
                ReleaseStep::Released
            } else {
                ReleaseStep::FindRecord
            },
    {
        self.session.state.cleanup()
    }
}

/// At most so many signals are left to a session whose end has been asked for.
pub open spec fn signals_left(session: Session) -> nat {
    match session.phase {
        Phase::Finished => 0,
        Phase::Pausing => 1,
        Phase::Releasing { step, .. } => match step {
            ReleaseStep::FindRecord => 5,
            ReleaseStep::DeleteRecord { .. } => 4,
            ReleaseStep::CleanConnections => 3,
            _ => 2,
        },
        Phase::Watching => 6,
        Phase::Rebuilding => 7,
    }
}

/// A tunnel that has been stopped comes to its end, wherever it was at the time:
/// after at most seven signals its session has finished, and then everything
/// that it held has been given back.
pub proof fn a_stopped_tunnel_comes_to_its_end(tunnel: LiveTunnel, signals: Seq<Signal>)
    requires
        tunnel.well_formed(),
        tunnel.handle.stopped,
        tunnel.session.follows(tunnel.all_heard(signals)),
    ensures
        ({
            let after = tunnel.session.after(tunnel.all_heard(signals));
            &&& signals.len() + signals_left(after) <= signals_left(tunnel.session)
            &&& signals_left(tunnel.session) <= 7
            &&& signals_left(after) == 0 <==> after.phase is Finished
            &&& after.phase is Finished ==> after.state.cleaned
        }),
    decreases signals.len(),
{
    let heard = tunnel.all_heard(signals);
    session::the_host_name_is_stable(tunnel.session, heard);
    if signals.len() > 0 {
        let before = signals.drop_last();
        assert(heard.drop_last() =~= tunnel.all_heard(before));
        assert(heard.last() == tunnel.heard(signals.last()));
        a_stopped_tunnel_comes_to_its_end(tunnel, before);
        session::the_host_name_is_stable(tunnel.session, tunnel.all_heard(before));
    }
}

/// A stop that is granted to a tunnel that is up is followed by the release of
/// all that it holds. The watch ends with the owner's wish, whatever the
/// process does; from there the session asks for the end of the DNS record, of
/// the connections and of the tunnel, whatever comes back, and finishes.
pub proof fn a_granted_stop_is_followed_by_the_release(
    tunnel: LiveTunnel,
    child: ChildPoll,
    replies: Seq<Reply>,
)
    requires
        tunnel.well_formed(),
        !tunnel.handle.stopped,
        tunnel.session.phase is Watching,
        !tunnel.session.state.cleaned,
        tunnel.session.attempt < u32::MAX,
        release::release_follows(tunnel.session.state, replies),
        release::release_after(tunnel.session.state, replies) is Released,
    ensures
        session::over(tunnel.stopping().handle.stopped, child) == Some(
            ShutdownReason::UserRequested,
        ),
        ({
            let state = tunnel.session.state;
            let stopped = tunnel.stopping();
            let signals = session::ending(ShutdownReason::UserRequested, replies);
            let heard = stopped.all_heard(signals);
            &&& stopped.session.follows(heard)
            &&& release::release_calls(state, replies) == release::whole_release(
                state,
                release::released_record(state, replies),
            )
            &&& stopped.session.after(heard).phase is Finished
            &&& stopped.session.after(heard).state.cleaned
        }),
{
    let state = tunnel.session.state;
    let stopped = tunnel.stopping();
    let signals = session::ending(ShutdownReason::UserRequested, replies);
    assert(stopped.all_heard(signals) =~= signals);
    release::releases_are_complete(state, replies);
    session::everything_is_given_back(
        stopped.session,
        ShutdownReason::UserRequested,
        replies,
    );
}

/// What a supervision that was cut short leaves behind is given back
/// afterwards: unless nothing is held, one whole release follows.
pub proof fn nothing_is_left_behind(tunnel: LiveTunnel, replies: Seq<Reply>)
    requires
        !tunnel.session.state.cleaned,
        release::release_follows(tunnel.session.state, replies),
        release::release_after(tunnel.session.state, replies) is Released,
    ensures
        release::release_calls(tunnel.session.state, replies) == release::whole_release(
            tunnel.session.state,
            release::released_record(tunnel.session.state, replies),
        ),
{
    release::releases_are_complete(tunnel.session.state, replies);
}

/// A tunnel that is started has a handle to be reached by, under the names of its
/// plan, and a session that holds what was set up.
pub proof fn live_tunnels_start_whole(plan: Plan, tunnel_id: String, r: LiveTunnel)
    requires
        call_ensures(LiveTunnel::start, (&plan, tunnel_id), r),
    ensures
        !r.handle.stopped,
        r.handle.url@ == "https://"@ + plan.full_name@,
        r.handle.full_name == plan.full_name,
        r.handle.subdomain == plan.subdomain,
        r.session.auto_restart == plan.auto_restart,
        r.session.phase is Watching,
        r.session.attempt == 1,
        r.session.failures == 0,
        !r.session.state.cleaned,
        r.session.state.tunnel_id == tunnel_id,
        r.session.state.full_name == plan.full_name,
        r.session.state.account_id == plan.account_id,
        r.session.state.zone_id == plan.zone_id,
{
}

/// Of two stops in a row the second is refused, and the first only if there was
/// one before it. A stop leaves the session to itself.
pub proof fn only_the_first_stop_is_granted(
    tunnel: &mut LiveTunnel,
    later: &mut LiveTunnel,
    first: Result<(), Error>,
    second: Result<(), Error>,
)
    requires
        call_ensures(LiveTunnel::stop, (tunnel,), first),
        *old(later) == *final(tunnel),
        call_ensures(LiveTunnel::stop, (later,), second),
    ensures
        first is Ok <==> !old(tunnel).handle.stopped,
        second == Err::<(), Error>(Error::AlreadyShutDown),
        final(tunnel).handle.stopped,
        final(tunnel).session == old(tunnel).session,
        final(tunnel).handle.url == old(tunnel).handle.url,
        final(tunnel).handle.full_name == old(tunnel).handle.full_name,
        final(tunnel).handle.subdomain == old(tunnel).handle.subdomain,
        *final(later) == *final(tunnel),
{
}

/// A tunnel that was stopped during the pause before a restart is not set up
/// again, whatever the signal says; one that was not is.
pub proof fn a_stopped_tunnel_is_not_restarted(
    tunnel: &mut LiveTunnel,
    shutdown: bool,
    told: Vec<Event>,
)
    requires
        old(tunnel).well_formed(),
        old(tunnel).session.phase is Pausing,
        call_ensures(LiveTunnel::step, (tunnel, Signal::Woke { shutdown }), told),
    ensures
        old(tunnel).handle.stopped ==> final(tunnel).session.phase is Finished,
        !old(tunnel).handle.stopped ==> final(tunnel).session.phase is Rebuilding,
        final(tunnel).handle == old(tunnel).handle,
{
}

/// Once a tunnel has been stopped, the next look ends the watch with the wish of
/// its owner.
pub proof fn a_stop_is_seen(
    tunnel: &mut LiveTunnel,
    granted: Result<(), Error>,
    child: ChildPoll,
    r: Option<ShutdownReason>,
)
    requires
        call_ensures(LiveTunnel::stop, (tunnel,), granted),
        call_ensures(LiveTunnel::look, (final(tunnel), child), r),
    ensures
        r == Some(ShutdownReason::UserRequested),
{
}

/// What is still held is given back once: a release is started exactly if nothing
/// has been released yet, and a second one finds nothing to do.
pub proof fn what_is_held_is_given_back_once(
    tunnel: &mut LiveTunnel,
    later: &mut LiveTunnel,
    first: ReleaseStep,
    second: ReleaseStep,
)
    requires
        call_ensures(LiveTunnel::give_back, (tunnel,), first),
        *old(later) == *final(tunnel),
        call_ensures(LiveTunnel::give_back, (later,), second),
    ensures
        first is FindRecord <==> !old(tunnel).session.state.cleaned,
        first is Released <==> old(tunnel).session.state.cleaned,
        second is Released,
        final(tunnel).session.state.cleaned,
        final(tunnel).session.state.tunnel_id == old(tunnel).session.state.tunnel_id,
        final(tunnel).session.state.full_name == old(tunnel).session.state.full_name,
        final(tunnel).handle == old(tunnel).handle,
{
}

/// A signal other than that of waking up reaches the session as it is.
pub proof fn signals_reach_the_session(tunnel: &mut LiveTunnel, signal: Signal, told: Vec<Event>)
    requires
        old(tunnel).well_formed(),
        old(tunnel).session.awaits(signal),
        old(tunnel).session.attempt < u32::MAX,
        !(signal is Woke),
        call_ensures(LiveTunnel::step, (tunnel, signal), told),
    ensures
        final(tunnel).session == old(tunnel).session.next(signal),
        told@ == old(tunnel).session.told(signal),
        final(tunnel).handle == old(tunnel).handle,
{
}

} // verus!
