//! Giving back what a session holds at Cloudflare: its DNS record, its
//! connections, its tunnel.
//!
//! Nothing here has to succeed: each call is made whatever came back for the
//! one before.

use vstd::prelude::*;

use crate::client;
use crate::client::{ApiRequest, Call, CloudflareApi, Reply};
use crate::conflicts;
use crate::conflicts::record_in;

verus! {

/// What a running session holds at Cloudflare. The tunnel changes with every
/// respawn, so that a release is always about the one that is live.
#[derive(Debug, PartialEq, Eq)]
pub struct SessionState {
    /// Cloudflare account.
    pub account_id: String,
    /// Cloudflare zone.
    pub zone_id: String,
    /// Public host name.
    pub full_name: String,
    /// The tunnel.
    pub tunnel_id: String,
    /// Whether all of it has been given back.
    pub cleaned: bool,
}

impl Clone for SessionState {
    fn clone(&self) -> (r: Self)
        ensures
            r == *self,
    {
        SessionState {
            account_id: self.account_id.clone(),
            zone_id: self.zone_id.clone(),
            full_name: self.full_name.clone(),
            tunnel_id: self.tunnel_id.clone(),
            cleaned: self.cleaned,
        }
    }
}

/// Where a release stands.
#[derive(Debug, PartialEq, Eq)]
pub enum ReleaseStep {
    /// Looking for the DNS record.
    FindRecord,
    /// Deleting the DNS record.
    DeleteRecord {
        /// The record.
        record_id: String,
    },
    /// Closing the tunnel's connections.
    CleanConnections,
    /// Deleting the tunnel.
    DeleteTunnel,
    /// There is nothing left to do.
    Released,
}

impl SessionState {
    /// Starts the release. Idempotent: a second release has nothing to do.
    pub fn cleanup(&mut self) -> (r: ReleaseStep)
        ensures
            *final(self) == (SessionState { cleaned: true, ..*old(self) }),
            r == if old(self).cleaned {
                ReleaseStep::Released
            } else {
                ReleaseStep::FindRecord
            },
    {
        if self.cleaned {
            return ReleaseStep::Released;
        }
        self.cleaned = true;
        ReleaseStep::FindRecord
    }
}

impl ReleaseStep {
    /// The call to make at this step.
    pub open spec fn call(self, state: SessionState) -> Option<Call> {
        let account = state.account_id@;
        let zone = state.zone_id@;
        let tunnel = state.tunnel_id@;
        match self {
            ReleaseStep::FindRecord => Some(Call::FindRecord { zone, name: state.full_name@ }),
            ReleaseStep::DeleteRecord { record_id } => Some(
                Call::DeleteRecord { zone, record: record_id@ },
            ),
            ReleaseStep::CleanConnections => Some(Call::CleanupConnections { account, tunnel }),
            ReleaseStep::DeleteTunnel => Some(Call::DeleteTunnel { account, tunnel }),
            ReleaseStep::Released => None,
        }
    }

    /// This reply answers the call made at this step.
    pub open spec fn awaits(self, state: SessionState, reply: Reply) -> bool {
        self.call(state) is Some && self.call(state)->0.answer() == reply.answer()
    }

    /// The step that a reply leads to.
    pub open spec fn next(self, state: SessionState, reply: Reply) -> ReleaseStep {
        match self {
            ReleaseStep::FindRecord => match conflicts::found_record(reply, state.full_name@) {
                Some(record) => ReleaseStep::DeleteRecord { record_id: record.id },
                None => ReleaseStep::CleanConnections,
            },
            ReleaseStep::DeleteRecord { .. } => ReleaseStep::CleanConnections,
            ReleaseStep::CleanConnections => ReleaseStep::DeleteTunnel,
            _ => ReleaseStep::Released,
        }
    }

    /// The request to send next; `None` once everything has been given back.
    pub fn request(&self, state: &SessionState, api: &CloudflareApi) -> (r: Option<ApiRequest>)
        ensures
            match self.call(*state) {
                Some(call) => r is Some && r->0.makes(*api, call),
                None => r is None,
            },
    {
        let account = state.account_id.as_str();
        let zone = state.zone_id.as_str();
        let tunnel = state.tunnel_id.as_str();
        match self {
            ReleaseStep::FindRecord => Some(api.find_dns_record(zone, state.full_name.as_str())),
            ReleaseStep::DeleteRecord { record_id } => Some(
                api.delete_dns_record(zone, record_id.as_str()),
            ),
            ReleaseStep::CleanConnections => Some(api.cleanup_connections(account, tunnel)),
            ReleaseStep::DeleteTunnel => Some(api.delete_tunnel(account, tunnel)),
            ReleaseStep::Released => None,
        }
    }

    /// Takes the reply to the latest request.
    pub fn advance(self, state: &SessionState, reply: Reply) -> (r: ReleaseStep)
        requires
            self.awaits(*state, reply),
        ensures
            r == self.next(*state, reply),
    {
        match self {
            ReleaseStep::FindRecord => match record_in(&reply, state.full_name.as_str()) {
                Some(record) => ReleaseStep::DeleteRecord { record_id: record.id },
                None => ReleaseStep::CleanConnections,
            },
            ReleaseStep::DeleteRecord { .. } => ReleaseStep::CleanConnections,
            ReleaseStep::CleanConnections => ReleaseStep::DeleteTunnel,
            _ => ReleaseStep::Released,
        }
    }
}

/// The step that a release has reached after the given replies.
pub open spec fn release_after(state: SessionState, replies: Seq<Reply>) -> ReleaseStep
    decreases replies.len(),
{
    if replies.len() == 0 {
        ReleaseStep::FindRecord
    } else {
        release_after(state, replies.drop_last()).next(state, replies.last())
    }
}

/// Each of the replies answers the call that was made for it.
pub open spec fn release_follows(state: SessionState, replies: Seq<Reply>) -> bool
    decreases replies.len(),
{
    replies.len() == 0 || {
        &&& release_follows(state, replies.drop_last())
        &&& release_after(state, replies.drop_last()).awaits(state, replies.last())
    }
}

/// The calls that the given replies answer.
pub open spec fn release_calls(state: SessionState, replies: Seq<Reply>) -> Seq<Call>
    decreases replies.len(),
{
    if replies.len() == 0 {
        seq![]
    } else {
        release_calls(state, replies.drop_last()).push(
            release_after(state, replies.drop_last()).call(state)->0,
        )
    }
}

/// The calls of a whole release, given the record that was found.
pub open spec fn whole_release(state: SessionState, found: Option<Seq<char>>) -> Seq<Call> {
    let account = state.account_id@;
    let zone = state.zone_id@;
    let tunnel = state.tunnel_id@;
    let look = seq![Call::FindRecord { zone, name: state.full_name@ }];
    let forget = match found {
        Some(record) => look.push(Call::DeleteRecord { zone, record }),
        None => look,
    };
    forget.push(Call::CleanupConnections { account, tunnel }).push(
        Call::DeleteTunnel { account, tunnel },
    )
}

/// The record that the first reply of a release names.
pub open spec fn released_record(state: SessionState, replies: Seq<Reply>) -> Option<Seq<char>> {
    match conflicts::found_record(replies[0], state.full_name@) {
        Some(record) => Some(record.id@),
        None => None,
    }
}

spec fn release_stage(step: ReleaseStep, found: Option<Seq<char>>) -> int {
    let skipped: int = if found is None {
        1
    } else {
        0
    };
    match step {
        ReleaseStep::FindRecord => 0,
        ReleaseStep::DeleteRecord { .. } => 1,
        ReleaseStep::CleanConnections => 2 - skipped,
        ReleaseStep::DeleteTunnel => 3 - skipped,
        ReleaseStep::Released => 4 - skipped,
    }
}

proof fn releases_take_one_way(state: SessionState, replies: Seq<Reply>)
    requires
        release_follows(state, replies),
        replies.len() > 0,
    ensures
        ({
            let found = released_record(state, replies);
            let step = release_after(state, replies);
            &&& replies.len() == release_stage(step, found)
            &&& release_calls(state, replies) == whole_release(state, found).take(
                replies.len() as int,
            )
            &&& step matches ReleaseStep::DeleteRecord { record_id } ==> found == Some(record_id@)
            &&& !(step is FindRecord)
        }),
    decreases replies.len(),
{
    let found = released_record(state, replies);
    let whole = whole_release(state, found);
    let before = replies.drop_last();
    let made = release_after(state, before).call(state)->0;
    if before.len() > 0 {
        releases_take_one_way(state, before);
    } else {
        assert(release_calls(state, before) =~= seq![]);
    }
    assert(whole[before.len() as int] == made);
    assert(release_calls(state, replies) =~= whole.take(replies.len() as int));
}

/// A release that has come to its end has asked for the end of everything, in
/// order: the DNS record if there is one, the connections, the tunnel. What
/// came back for these calls does not matter.
pub proof fn releases_are_complete(state: SessionState, replies: Seq<Reply>)
    requires
        release_follows(state, replies),
        release_after(state, replies) is Released,
    ensures
        release_calls(state, replies) == whole_release(state, released_record(state, replies)),
        release_calls(state, replies).last() == (Call::DeleteTunnel {
            account: state.account_id@,
            tunnel: state.tunnel_id@,
        }),
{
    releases_take_one_way(state, replies);
    let whole = whole_release(state, released_record(state, replies));
    assert(whole.take(replies.len() as int) =~= whole);
}

/// A release always comes to its end, after three calls or four.
pub proof fn releases_end(state: SessionState, replies: Seq<Reply>)
    requires
        release_follows(state, replies),
    ensures
        replies.len() <= 4,
        release_after(state, replies) is Released ==> replies.len() >= 3,
{
    if replies.len() > 0 {
        releases_take_one_way(state, replies);
    }
}

/// A release is about the one tunnel of the state, from the first call to the
/// last: it looks its host name up, deletes the record that goes by exactly that
/// name if there is one, closes the connections of the tunnel, and deletes the
/// tunnel. It makes no other call.
pub proof fn releases_are_about_one_tunnel(state: SessionState, replies: Seq<Reply>)
    requires
        release_follows(state, replies),
        release_after(state, replies) is Released,
    ensures
        ({
            let calls = release_calls(state, replies);
            let account = state.account_id@;
            let zone = state.zone_id@;
            let tunnel = state.tunnel_id@;
            let n = calls.len() as int;
            &&& n == 3 || n == 4
            &&& calls[0] == (Call::FindRecord { zone, name: state.full_name@ })
            &&& calls[n - 2] == (Call::CleanupConnections { account, tunnel })
            &&& calls[n - 1] == (Call::DeleteTunnel { account, tunnel })
            &&& n == 4 <==> (replies[0] matches Reply::Records(Ok(records)) && exists|i: int|
                0 <= i < records@.len() && (#[trigger] records@[i]).name@ == state.full_name@)
            &&& n == 4 ==> (replies[0] matches Reply::Records(Ok(records)) && exists|i: int|
                0 <= i < records@.len() && (#[trigger] records@[i]).name@ == state.full_name@
                    && calls[1] == (Call::DeleteRecord { zone, record: records@[i].id@ }))
        }),
{
    releases_take_one_way(state, replies);
    let found = released_record(state, replies);
    let whole = whole_release(state, found);
    assert(whole.take(replies.len() as int) =~= whole);
    if let Reply::Records(Ok(records)) = replies[0] {
        client::the_first_record_of_the_name_is_picked(records@, state.full_name@);
    }
}

/// Whatever came back, a release goes forward: each reply leads to a later step,
/// and only the deletion of the tunnel is followed by the end.
pub proof fn releases_go_forward(step: ReleaseStep, state: SessionState, reply: Reply)
    requires
        step.awaits(state, reply),
    ensures
        ({
            let next = step.next(state, reply);
            &&& next is Released <==> step is DeleteTunnel
            &&& next is DeleteTunnel <==> step is CleanConnections
            &&& next is DeleteRecord ==> step is FindRecord
            &&& next is CleanConnections ==> step is FindRecord || step is DeleteRecord
            &&& !(next is FindRecord)
        }),
        step is FindRecord <==> step.call(state)->0 is FindRecord,
        step is DeleteTunnel <==> step.call(state)->0 is DeleteTunnel,
{
}

/// A release is started once: the first time there is something to do exactly if
/// nothing has been given back yet, and never again after that.
pub proof fn releases_are_started_once(
    state: &mut SessionState,
    later: &mut SessionState,
    first: ReleaseStep,
    second: ReleaseStep,
)
    requires
        call_ensures(SessionState::cleanup, (state,), first),
        *old(later) == *final(state),
        call_ensures(SessionState::cleanup, (later,), second),
    ensures
        first is FindRecord <==> !old(state).cleaned,
        first is Released <==> old(state).cleaned,
        second is Released,
        final(state).cleaned,
        final(state).tunnel_id == old(state).tunnel_id,
        final(state).full_name == old(state).full_name,
        final(state).account_id == old(state).account_id,
        final(state).zone_id == old(state).zone_id,
{
}

/// The record of the host name is deleted before the connections are closed, and
/// these before the tunnel is deleted; whatever is refused, the release goes on.
pub proof fn releases_go_on_whatever_is_refused(
    step: ReleaseStep,
    state: SessionState,
    reply: Reply,
    r: ReleaseStep,
)
    requires
        step.awaits(state, reply),
        call_ensures(ReleaseStep::advance, (step, &state, reply), r),
    ensures
        step is FindRecord ==> (r is DeleteRecord || r is CleanConnections),
        step is FindRecord && reply.refusal() is Some ==> r is CleanConnections,
        step is FindRecord ==> (r is DeleteRecord <==> (reply matches Reply::Records(Ok(records))
            && exists|i: int|
            0 <= i < records@.len() && (#[trigger] records@[i]).name@ == state.full_name@)),
        step is DeleteRecord ==> r is CleanConnections,
        step is CleanConnections ==> r is DeleteTunnel,
        step is DeleteTunnel ==> r is Released,
{
    if let Reply::Records(Ok(records)) = reply {
        client::the_first_record_of_the_name_is_picked(records@, state.full_name@);
    }
}

/// Each step of a release sends its own request: the record, the connections and
/// the tunnel that go are those of the session.
pub proof fn releases_send_their_requests(
    step: ReleaseStep,
    state: SessionState,
    api: CloudflareApi,
    r: Option<ApiRequest>,
)
    requires
        call_ensures(ReleaseStep::request, (&step, &state, &api), r),
    ensures
        ({
            let url = r->0.url@;
            let tunnel = api.base@ + ("/accounts/"@ + state.account_id@ + "/tunnels"@) + "/"@
                + state.tunnel_id@;
            let records = api.base@ + ("/zones/"@ + state.zone_id@ + "/dns_records"@);
            &&& r is None <==> step is Released
            &&& r is Some ==> r->0.token@ == api.token@
            &&& r is Some ==> (r->0.method == client::Method::Get <==> step is FindRecord)
            &&& r is Some ==> (r->0.method == client::Method::Delete <==> !(step is FindRecord))
            &&& step is FindRecord ==> url =~= records + "?name="@ + state.full_name@
            &&& step matches ReleaseStep::DeleteRecord { record_id } ==> url =~= records + "/"@
                + record_id@
            &&& step is CleanConnections ==> url =~= tunnel + "/connections"@
            &&& step is DeleteTunnel ==> url =~= tunnel
        }),
{
}

} // verus!
