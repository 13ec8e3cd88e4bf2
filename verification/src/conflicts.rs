//! Clearing the way for a new tunnel: a stale tunnel of the same name and an
//! orphaned DNS record are removed, a live one is left alone.
//!
//! The work alternates calls of the API with decisions. A [`ConflictStep`] is
//! where it stands: [`ConflictStep::request`] is the call to make next,
//! [`ConflictStep::advance`] the decision that its reply leads to.

use vstd::prelude::*;
use vstd::string::*;

use crate::client;
use crate::client::{
    pick_record, ApiRequest, Call, CloudflareApi, DnsRecord, Reply, Tunnel,
};
use crate::error::Error;
use crate::plan::Plan;
use crate::text;
use crate::ui;
use crate::ui::{Line, Style};

verus! {

/// Where the removal of conflicts stands.
#[derive(Debug, PartialEq, Eq)]
pub enum ConflictStep {
    /// Looking for a tunnel of the same name.
    FindTunnel,
    /// A stale tunnel was found; looking for its DNS record.
    FindStaleRecord {
        /// The stale tunnel.
        tunnel_id: String,
    },
    /// Removing the stale tunnel's DNS record.
    DeleteStaleRecord {
        /// The stale tunnel.
        tunnel_id: String,
        /// Its record.
        record_id: String,
    },
    /// Closing the stale tunnel's connections.
    CleanConnections {
        /// The stale tunnel.
        tunnel_id: String,
    },
    /// Removing the stale tunnel.
    DeleteTunnel {
        /// The stale tunnel.
        tunnel_id: String,
    },
    /// Looking for an orphaned DNS record.
    FindOrphan,
    /// Removing the orphaned DNS record.
    DeleteOrphan {
        /// The record.
        record_id: String,
    },
    /// The way is clear.
    Clear,
    /// A live tunnel has the name.
    InUse,
    /// Something that had to be removed could not be.
    Failed(Error),
}

/// The record with the given name that a reply holds, when it holds one.
pub open spec fn found_record(reply: Reply, full_name: Seq<char>) -> Option<DnsRecord> {
    match reply {
        Reply::Records(Ok(records)) => client::record_named(records@, full_name),
        _ => None,
    }
}

/// The record with exactly the given name that a reply holds.
pub fn record_in(reply: &Reply, full_name: &str) -> (r: Option<DnsRecord>)
    ensures
        r == found_record(*reply, full_name@),
{
    match reply {
        Reply::Records(Ok(records)) => pick_record(records, full_name),
        _ => None,
    }
}

impl ConflictStep {
    /// The call to make at this step.
    pub open spec fn call(self, plan: Plan) -> Option<Call> {
        let account = plan.account_id@;
        let zone = plan.zone_id@;
        match self {
            ConflictStep::FindTunnel => Some(Call::FindTunnel { account, name: plan.subdomain@ }),
            ConflictStep::FindStaleRecord { .. } => Some(
                Call::FindRecord { zone, name: plan.full_name@ },
            ),
            ConflictStep::DeleteStaleRecord { record_id, .. } => Some(
                Call::DeleteRecord { zone, record: record_id@ },
            ),
            ConflictStep::CleanConnections { tunnel_id } => Some(
                Call::CleanupConnections { account, tunnel: tunnel_id@ },
            ),
            ConflictStep::DeleteTunnel { tunnel_id } => Some(
                Call::DeleteTunnel { account, tunnel: tunnel_id@ },
            ),
            ConflictStep::FindOrphan => Some(Call::FindRecord { zone, name: plan.full_name@ }),
            ConflictStep::DeleteOrphan { record_id } => Some(
                Call::DeleteRecord { zone, record: record_id@ },
            ),
            _ => None,
        }
    }

    /// This reply answers the call made at this step.
    pub open spec fn awaits(self, plan: Plan, reply: Reply) -> bool {
        self.call(plan) is Some && self.call(plan)->0.answer() == reply.answer()
    }

    /// The step that a reply leads to. A failed look-up counts as having found
    /// nothing; of the removals only those of the tunnel and of the orphaned
    /// record have to succeed.
    pub open spec fn next(self, plan: Plan, reply: Reply) -> ConflictStep {
        match self {
            ConflictStep::FindTunnel => match reply {
                Reply::Tunnels(Ok(tunnels)) => if tunnels@.len() == 0 {
                    ConflictStep::FindOrphan
                } else if tunnels@[0].status@ == "healthy"@ {
                    ConflictStep::InUse
                } else {
                    ConflictStep::FindStaleRecord { tunnel_id: tunnels@[0].id }
                },
                _ => ConflictStep::FindOrphan,
            },
            ConflictStep::FindStaleRecord { tunnel_id } => match found_record(
                reply,
                plan.full_name@,
            ) {
                Some(record) => ConflictStep::DeleteStaleRecord { tunnel_id, record_id: record.id },
                None => ConflictStep::CleanConnections { tunnel_id },
            },
            ConflictStep::DeleteStaleRecord { tunnel_id, .. } => ConflictStep::CleanConnections {
                tunnel_id,
            },
            ConflictStep::CleanConnections { tunnel_id } => ConflictStep::DeleteTunnel {
                tunnel_id,
            },
            ConflictStep::DeleteTunnel { .. } => match reply.refusal() {
                Some(error) => ConflictStep::Failed(error),
                None => ConflictStep::FindOrphan,
            },
            ConflictStep::FindOrphan => match found_record(reply, plan.full_name@) {
                Some(record) => ConflictStep::DeleteOrphan { record_id: record.id },
                None => ConflictStep::Clear,
            },
            ConflictStep::DeleteOrphan { .. } => match reply.refusal() {
                Some(error) => ConflictStep::Failed(error),
                None => ConflictStep::Clear,
            },
            done => done,
        }
    }

    /// How many calls can still follow, at most.
    pub open spec fn calls_left(self) -> nat {
        match self {
            ConflictStep::FindTunnel => 7,
            ConflictStep::FindStaleRecord { .. } => 6,
            ConflictStep::DeleteStaleRecord { .. } => 5,
            ConflictStep::CleanConnections { .. } => 4,
            ConflictStep::DeleteTunnel { .. } => 3,
            ConflictStep::FindOrphan => 2,
            ConflictStep::DeleteOrphan { .. } => 1,
            _ => 0,
        }
    }

    /// The step reached after the given replies.
    pub open spec fn after(self, plan: Plan, replies: Seq<Reply>) -> ConflictStep
        decreases replies.len(),
    {
        if replies.len() == 0 {
            self
        } else {
            self.after(plan, replies.drop_last()).next(plan, replies.last())
        }
    }

    /// Each of the replies answers the call that was made for it.
    pub open spec fn follows(self, plan: Plan, replies: Seq<Reply>) -> bool
        decreases replies.len(),
    {
        replies.len() == 0 || {
            &&& self.follows(plan, replies.drop_last())
            &&& self.after(plan, replies.drop_last()).awaits(plan, replies.last())
        }
    }

    /// The calls that the given replies answer.
    pub open spec fn calls(self, plan: Plan, replies: Seq<Reply>) -> Seq<Call>
        decreases replies.len(),
    {
        if replies.len() == 0 {
            Seq::empty()
        } else {
            self.calls(plan, replies.drop_last()).push(
                self.after(plan, replies.drop_last()).call(plan)->0,
            )
        }
    }

    /// The request to send next; `None` when there is nothing left to ask.
    pub fn request(&self, plan: &Plan, api: &CloudflareApi) -> (r: Option<ApiRequest>)
        ensures
            match self.call(*plan) {
                Some(call) => r is Some && r->0.makes(*api, call),
                None => r is None,
            },
    {
        let account = plan.account_id.as_str();
        let zone = plan.zone_id.as_str();
        match self {
            ConflictStep::FindTunnel => Some(
                api.find_tunnel_by_name(account, plan.subdomain.as_str()),
            ),
            ConflictStep::FindStaleRecord { .. } => Some(
                api.find_dns_record(zone, plan.full_name.as_str()),
            ),
            ConflictStep::DeleteStaleRecord { record_id, .. } => Some(
                api.delete_dns_record(zone, record_id.as_str()),
            ),
            ConflictStep::CleanConnections { tunnel_id } => Some(
                api.cleanup_connections(account, tunnel_id.as_str()),
            ),
            ConflictStep::DeleteTunnel { tunnel_id } => Some(
                api.delete_tunnel(account, tunnel_id.as_str()),
            ),
            ConflictStep::FindOrphan => Some(api.find_dns_record(zone, plan.full_name.as_str())),
            ConflictStep::DeleteOrphan { record_id } => Some(
                api.delete_dns_record(zone, record_id.as_str()),
            ),
            _ => None,
        }
    }

    /// Takes the reply to the latest request.
    pub fn advance(self, plan: &Plan, reply: Reply) -> (r: ConflictStep)
        requires
            self.awaits(*plan, reply),
        ensures
            r == self.next(*plan, reply),
    {
        match self {
            ConflictStep::FindTunnel => match reply {
                Reply::Tunnels(Ok(tunnels)) => {
                    if tunnels.len() == 0 {
                        ConflictStep::FindOrphan
                    } else if text::same(tunnels[0].status.as_str(), "healthy") {
                        ConflictStep::InUse
                    } else {
                        ConflictStep::FindStaleRecord { tunnel_id: tunnels[0].id.clone() }
                    }
                },
                _ => ConflictStep::FindOrphan,
            },
            ConflictStep::FindStaleRecord { tunnel_id } => match record_in(
                &reply,
                plan.full_name.as_str(),
            ) {
                Some(record) => ConflictStep::DeleteStaleRecord { tunnel_id, record_id: record.id },
                None => ConflictStep::CleanConnections { tunnel_id },
            },
            ConflictStep::DeleteStaleRecord { tunnel_id, .. } => ConflictStep::CleanConnections {
                tunnel_id,
            },
            ConflictStep::CleanConnections { tunnel_id } => ConflictStep::DeleteTunnel {
                tunnel_id,
            },
            ConflictStep::DeleteTunnel { .. } => match reply.failure() {
                Some(error) => ConflictStep::Failed(error),
                None => ConflictStep::FindOrphan,
            },
            ConflictStep::FindOrphan => match record_in(&reply, plan.full_name.as_str()) {
                Some(record) => ConflictStep::DeleteOrphan { record_id: record.id },
                None => ConflictStep::Clear,
            },
            ConflictStep::DeleteOrphan { .. } => match reply.failure() {
                Some(error) => ConflictStep::Failed(error),
                None => ConflictStep::Clear,
            },
            done => done,
        }
    }
}

/// What the user is told when a reply shows a conflict.
pub open spec fn conflict_notice(step: ConflictStep, plan: Plan, reply: Reply) -> Option<
    Seq<char>,
> {
    match (step, reply) {
        (ConflictStep::FindTunnel, Reply::Tunnels(Ok(tunnels))) => if tunnels@.len() > 0
            && tunnels@[0].status@ != "healthy"@ {
            Some(
                "Reclaiming stale tunnel \""@ + plan.subdomain@ + "\" ("@ + tunnels@[0].status@
                    + ")"@,
            )
        } else {
            None
        },
        (ConflictStep::FindTunnel, Reply::Tunnels(Err(error))) => Some(
            "(could not check for existing tunnels: "@ + error.described() + ")"@,
        ),
        (ConflictStep::FindOrphan, reply) => if found_record(reply, plan.full_name@) is Some {
            Some("Removing orphaned DNS record for "@ + plan.full_name@)
        } else {
            None
        },
        _ => None,
    }
}

impl ConflictStep {
    /// What to tell the user about a reply, before it is acted on.
    pub fn notice(&self, plan: &Plan, reply: &Reply) -> (r: Option<Line>)
        ensures
            match conflict_notice(*self, *plan, *reply) {
                Some(text) => r is Some && r->0.is(ui::indented(Style::Yellow, text)),
                None => r is None,
            },
    {
        match (self, reply) {
            (ConflictStep::FindTunnel, Reply::Tunnels(Ok(tunnels))) => {
                if tunnels.len() == 0 || text::same(tunnels[0].status.as_str(), "healthy") {
                    return None;
                }
                let mut message = "Reclaiming stale tunnel \"".to_owned();
                message.append(plan.subdomain.as_str());
                message.append("\" (");
                message.append(tunnels[0].status.as_str());
                message.append(")");
                Some(ui::indent(Style::Yellow, message.as_str()))
            },
            (ConflictStep::FindTunnel, Reply::Tunnels(Err(error))) => {
                let mut message = "(could not check for existing tunnels: ".to_owned();
                message.append(error.message().as_str());
                message.append(")");
                Some(ui::indent(Style::Yellow, message.as_str()))
            },
            (ConflictStep::FindOrphan, reply) => {
                if record_in(reply, plan.full_name.as_str()).is_none() {
                    return None;
                }
                let mut message = "Removing orphaned DNS record for ".to_owned();
                message.append(plan.full_name.as_str());
                Some(ui::indent(Style::Yellow, message.as_str()))
            },
            _ => None,
        }
    }
}

/// Resolves subdomain conflicts before anything is created. Stale tunnels and
/// orphaned DNS records are removed, call by call.
pub fn resolve_conflicts() -> (r: ConflictStep)
    ensures
        r == ConflictStep::FindTunnel,
{
    ConflictStep::FindTunnel
}

/// The removal of conflicts comes to an end: at most seven calls are made.
pub proof fn conflicts_end(plan: Plan, replies: Seq<Reply>)
    requires
        ConflictStep::FindTunnel.follows(plan, replies),
    ensures
        ConflictStep::FindTunnel.after(plan, replies).calls_left() + replies.len() <= 7,
    decreases replies.len(),
{
    if replies.len() > 0 {
        conflicts_end(plan, replies.drop_last());
    }
}

/// A reply to the first call that names a live tunnel.
pub open spec fn names_live_tunnel(reply: Reply) -> bool {
    reply matches Reply::Tunnels(Ok(tunnels)) && tunnels@.len() > 0 && tunnels@[0].status@
        == "healthy"@
}

/// A reply to the first call that names the given stale tunnel.
pub open spec fn names_stale_tunnel(reply: Reply, tunnel: Seq<char>) -> bool {
    reply matches Reply::Tunnels(Ok(tunnels)) && tunnels@.len() > 0 && tunnels@[0].status@
        != "healthy"@ && tunnels@[0].id@ == tunnel
}

/// The name is refused exactly if a live tunnel has it, and then nothing but
/// the look-up has been asked of Cloudflare: a live tunnel is left alone.
pub proof fn live_tunnels_are_left_alone(plan: Plan, replies: Seq<Reply>)
    requires
        ConflictStep::FindTunnel.follows(plan, replies),
    ensures
        ConflictStep::FindTunnel.after(plan, replies) is InUse <==> replies.len() == 1
            && names_live_tunnel(replies[0]),
        ConflictStep::FindTunnel.after(plan, replies) is InUse ==> ConflictStep::FindTunnel.calls(
            plan,
            replies,
        ) == seq![Call::FindTunnel { account: plan.account_id@, name: plan.subdomain@ }],
    decreases replies.len(),
{
    let start = ConflictStep::FindTunnel;
    if replies.len() > 0 {
        let before = replies.drop_last();
        live_tunnels_are_left_alone(plan, before);
        if before.len() == 0 {
            assert(start.after(plan, before) == start);
            assert(start.calls(plan, before) == Seq::<Call>::empty());
        } else {
            only_the_first_step_looks_for_tunnels(plan, before);
        }
    }
}

proof fn only_the_first_step_looks_for_tunnels(plan: Plan, replies: Seq<Reply>)
    requires
        ConflictStep::FindTunnel.follows(plan, replies),
        replies.len() > 0,
    ensures
        !(ConflictStep::FindTunnel.after(plan, replies) is FindTunnel),
    decreases replies.len(),
{
    if replies.len() > 1 {
        only_the_first_step_looks_for_tunnels(plan, replies.drop_last());
    }
}

/// Where a stale tunnel stands on its way out.
spec fn on_its_way_out(step: ConflictStep, tunnel: Seq<char>) -> bool {
    match step {
        ConflictStep::FindStaleRecord { tunnel_id } => tunnel_id@ == tunnel,
        ConflictStep::DeleteStaleRecord { tunnel_id, .. } => tunnel_id@ == tunnel,
        ConflictStep::CleanConnections { tunnel_id } => tunnel_id@ == tunnel,
        ConflictStep::DeleteTunnel { tunnel_id } => tunnel_id@ == tunnel,
        _ => false,
    }
}

proof fn stale_tunnels_go(plan: Plan, replies: Seq<Reply>, tunnel: Seq<char>)
    requires
        ConflictStep::FindTunnel.follows(plan, replies),
        replies.len() > 0,
        names_stale_tunnel(replies[0], tunnel),
    ensures
        on_its_way_out(ConflictStep::FindTunnel.after(plan, replies), tunnel)
            || ConflictStep::FindTunnel.calls(plan, replies).contains(
            Call::DeleteTunnel { account: plan.account_id@, tunnel },
        ),
    decreases replies.len(),
{
    let start = ConflictStep::FindTunnel;
    let before = replies.drop_last();
    if before.len() == 0 {
        assert(start.after(plan, before) == start);
    } else {
        stale_tunnels_go(plan, before, tunnel);
        let gone = Call::DeleteTunnel { account: plan.account_id@, tunnel };
        let calls = start.calls(plan, before);
        let made = start.after(plan, before).call(plan)->0;
        assert(start.calls(plan, replies) == calls.push(made));
        if calls.contains(gone) {
            let i = calls.index_of(gone);
            assert(calls.push(made)[i] == gone);
        } else if start.after(plan, before) is DeleteTunnel {
            assert(calls.push(made).last() == gone);
        }
    }
}

/// Once the way is clear, the stale tunnel that had the name has been deleted.
pub proof fn stale_tunnels_are_removed(plan: Plan, replies: Seq<Reply>, tunnel: Seq<char>)
    requires
        ConflictStep::FindTunnel.follows(plan, replies),
        ConflictStep::FindTunnel.after(plan, replies) is Clear,
        names_stale_tunnel(replies[0], tunnel),
    ensures
        ConflictStep::FindTunnel.calls(plan, replies).contains(
            Call::DeleteTunnel { account: plan.account_id@, tunnel },
        ),
{
    stale_tunnels_go(plan, replies, tunnel);
}

/// Once the way is clear, no DNS record is left in it: either the last look-up
/// found none with the full name, or the one it found has been deleted.
pub proof fn clear_means_no_orphan(plan: Plan, replies: Seq<Reply>)
    requires
        ConflictStep::FindTunnel.follows(plan, replies),
        ConflictStep::FindTunnel.after(plan, replies) is Clear,
    ensures
        replies.len() > 0,
        replies.last() is Records ==> found_record(replies.last(), plan.full_name@) is None,
        !(replies.last() is Records) ==> {
            let found = found_record(replies[replies.len() - 2], plan.full_name@);
            &&& replies.len() > 1
            &&& found is Some
            &&& ConflictStep::FindTunnel.calls(plan, replies).last() == (Call::DeleteRecord {
                zone: plan.zone_id@,
                record: found->0.id@,
            })
            &&& replies.last().granted()
        },
{
    let start = ConflictStep::FindTunnel;
    let before = replies.drop_last();
    let step = start.after(plan, before);
    if step is DeleteOrphan {
        assert(before.len() > 0);
        assert(before.last() == replies[replies.len() - 2]);
    } else {
        assert(step is FindOrphan);
    }
}

/// Only a tunnel that Cloudflare calls healthy keeps its name; one in any other
/// state is taken out of the way. Where there is none, or no answer, only the
/// host name is looked at.
pub proof fn only_healthy_tunnels_keep_their_name(
    plan: Plan,
    tunnels: Vec<Tunnel>,
    error: Error,
)
    ensures
        ({
            let next = ConflictStep::FindTunnel.next(plan, Reply::Tunnels(Ok(tunnels)));
            &&& tunnels@.len() == 0 ==> next is FindOrphan
            &&& tunnels@.len() > 0 ==> (next is InUse <==> tunnels@[0].status@ == "healthy"@)
            &&& tunnels@.len() > 0 && tunnels@[0].status@ != "healthy"@ ==> next == (
            ConflictStep::FindStaleRecord { tunnel_id: tunnels@[0].id })
        }),
        ConflictStep::FindTunnel.next(plan, Reply::Tunnels(Err(error))) is FindOrphan,
        ConflictStep::FindTunnel.call(plan) == Some(
            Call::FindTunnel { account: plan.account_id@, name: plan.subdomain@ },
        ),
{
}

/// A stale tunnel goes the whole way: its host name is looked up, a record by
/// exactly that name is deleted, its connections are closed, and it is deleted
/// itself. All of these calls are about this one tunnel, and none is left out
/// because of what came back for another.
pub proof fn a_stale_tunnel_goes_the_whole_way(
    plan: Plan,
    tunnel_id: String,
    record_id: String,
    records: Vec<DnsRecord>,
    reply: Reply,
)
    ensures
        ({
            let looking = ConflictStep::FindStaleRecord { tunnel_id };
            let forgetting = ConflictStep::DeleteStaleRecord { tunnel_id, record_id };
            let closing = ConflictStep::CleanConnections { tunnel_id };
            let deleting = ConflictStep::DeleteTunnel { tunnel_id };
            let account = plan.account_id@;
            let zone = plan.zone_id@;
            &&& looking.call(plan) == Some(Call::FindRecord { zone, name: plan.full_name@ })
            &&& (exists|i: int|
                0 <= i < records@.len() && (#[trigger] records@[i]).name@ == plan.full_name@) ==> (
            looking.next(plan, Reply::Records(Ok(records))) matches ConflictStep::DeleteStaleRecord {
                tunnel_id: t,
                record_id: r,
            } && t == tunnel_id && exists|i: int|
                0 <= i < records@.len() && (#[trigger] records@[i]).name@ == plan.full_name@
                    && records@[i].id == r)
            &&& (forall|i: int|
                0 <= i < records@.len() ==> (#[trigger] records@[i]).name@ != plan.full_name@)
                ==> looking.next(plan, Reply::Records(Ok(records))) == closing
            &&& reply.refusal() is Some ==> looking.next(plan, reply) == closing
            &&& forgetting.call(plan) == Some(Call::DeleteRecord { zone, record: record_id@ })
            &&& forgetting.next(plan, reply) == closing
            &&& closing.call(plan) == Some(
                Call::CleanupConnections { account, tunnel: tunnel_id@ },
            )
            &&& closing.next(plan, reply) == deleting
            &&& deleting.call(plan) == Some(Call::DeleteTunnel { account, tunnel: tunnel_id@ })
            &&& reply.refusal() is None ==> deleting.next(plan, reply) is FindOrphan
            &&& reply.refusal() matches Some(error) ==> deleting.next(plan, reply)
                == ConflictStep::Failed(error)
        }),
{
    client::the_first_record_of_the_name_is_picked(records@, plan.full_name@);
}

/// A record by exactly the host name is deleted before anything is created; one
/// that cannot be deleted stands in the way. Where there is none, or no answer,
/// the way is clear.
pub proof fn an_orphan_goes(
    plan: Plan,
    record_id: String,
    records: Vec<DnsRecord>,
    reply: Reply,
)
    ensures
        ({
            let looking = ConflictStep::FindOrphan;
            let deleting = ConflictStep::DeleteOrphan { record_id };
            let zone = plan.zone_id@;
            &&& looking.call(plan) == Some(Call::FindRecord { zone, name: plan.full_name@ })
            &&& (exists|i: int|
                0 <= i < records@.len() && (#[trigger] records@[i]).name@ == plan.full_name@) ==> (
            looking.next(plan, Reply::Records(Ok(records))) matches ConflictStep::DeleteOrphan {
                record_id: r,
            } && exists|i: int|
                0 <= i < records@.len() && (#[trigger] records@[i]).name@ == plan.full_name@
                    && records@[i].id == r)
            &&& (forall|i: int|
                0 <= i < records@.len() ==> (#[trigger] records@[i]).name@ != plan.full_name@)
                ==> looking.next(plan, Reply::Records(Ok(records))) is Clear
            &&& reply.refusal() is Some ==> looking.next(plan, reply) is Clear
            &&& deleting.call(plan) == Some(Call::DeleteRecord { zone, record: record_id@ })
            &&& reply.refusal() is None ==> deleting.next(plan, reply) is Clear
            &&& reply.refusal() matches Some(error) ==> deleting.next(plan, reply)
                == ConflictStep::Failed(error)
        }),
{
    client::the_first_record_of_the_name_is_picked(records@, plan.full_name@);
}

/// The user is told of every stale tunnel and every orphaned record that is about
/// to go, with its name, and of a look-up that failed; otherwise of nothing.
pub proof fn what_goes_is_told(plan: Plan, tunnels: Vec<Tunnel>, records: Vec<DnsRecord>)
    ensures
        conflict_notice(ConflictStep::FindTunnel, plan, Reply::Tunnels(Ok(tunnels))) is Some
            <==> ConflictStep::FindTunnel.next(
            plan,
            Reply::Tunnels(Ok(tunnels)),
        ) is FindStaleRecord,
        conflict_notice(ConflictStep::FindTunnel, plan, Reply::Tunnels(Ok(tunnels))) matches Some(
            text,
        ) ==> text == "Reclaiming stale tunnel \""@ + plan.subdomain@ + "\" ("@
            + tunnels@[0].status@ + ")"@,
        conflict_notice(ConflictStep::FindOrphan, plan, Reply::Records(Ok(records))) is Some
            <==> ConflictStep::FindOrphan.next(
            plan,
            Reply::Records(Ok(records)),
        ) is DeleteOrphan,
        conflict_notice(ConflictStep::FindOrphan, plan, Reply::Records(Ok(records))) matches Some(
            text,
        ) ==> text == "Removing orphaned DNS record for "@ + plan.full_name@,
{
}

/// A tunnel of the name that is healthy keeps it; any other is reclaimed; and when
/// there is none, or the question fails, a record of the host name is looked for.
pub proof fn the_first_tunnel_of_the_name_decides(plan: Plan, reply: Reply, r: ConflictStep)
    requires
        ConflictStep::FindTunnel.awaits(plan, reply),
        call_ensures(ConflictStep::advance, (ConflictStep::FindTunnel, &plan, reply), r),
    ensures
        reply matches Reply::Tunnels(Ok(tunnels)) ==> {
            &&& tunnels@.len() == 0 ==> r is FindOrphan
            &&& tunnels@.len() > 0 && tunnels@[0].status@ == "healthy"@ ==> r is InUse
            &&& tunnels@.len() > 0 && tunnels@[0].status@ != "healthy"@ ==> r
                == (ConflictStep::FindStaleRecord { tunnel_id: tunnels@[0].id })
        },
        reply.refusal() is Some ==> r is FindOrphan,
{
}

/// What stands in the way and cannot be removed is the end; anything else that
/// fails is not.
pub proof fn only_removals_have_to_succeed(
    step: ConflictStep,
    plan: Plan,
    reply: Reply,
    r: ConflictStep,
)
    requires
        step.awaits(plan, reply),
        call_ensures(ConflictStep::advance, (step, &plan, reply), r),
    ensures
        r is Failed <==> reply.refusal() is Some && (step is DeleteTunnel || step is DeleteOrphan),
        r matches ConflictStep::Failed(error) ==> reply.refusal() == Some(error),
        step is DeleteTunnel && reply.refusal() is None ==> r is FindOrphan,
        step is DeleteOrphan && reply.refusal() is None ==> r is Clear,
        step matches ConflictStep::CleanConnections { tunnel_id } ==> r
            == (ConflictStep::DeleteTunnel { tunnel_id }),
        step matches ConflictStep::DeleteStaleRecord { tunnel_id, .. } ==> r
            == (ConflictStep::CleanConnections { tunnel_id }),
{
}

/// The removal of conflicts begins with the question for a tunnel of the name.
pub proof fn conflicts_are_looked_for_first(plan: Plan, r: ConflictStep)
    requires
        call_ensures(resolve_conflicts, (), r),
    ensures
        r.call(plan) == Some(
            Call::FindTunnel { account: plan.account_id@, name: plan.subdomain@ },
        ),
{
}

/// Each step sends its own request: what is deleted is the record or the tunnel at
/// hand, and nothing is sent once the way is clear, the name is in use, or a
/// removal has failed.
pub proof fn conflicts_send_their_requests(
    step: ConflictStep,
    plan: Plan,
    api: CloudflareApi,
    r: Option<ApiRequest>,
)
    requires
        call_ensures(ConflictStep::request, (&step, &plan, &api), r),
    ensures
        ({
            let url = r->0.url@;
            let tunnels = api.base@ + ("/accounts/"@ + plan.account_id@ + "/tunnels"@);
            let records = api.base@ + ("/zones/"@ + plan.zone_id@ + "/dns_records"@);
            &&& r is None <==> step is Clear || step is InUse || step is Failed
            &&& r is Some ==> r->0.token@ == api.token@
            &&& r is Some ==> (r->0.method == client::Method::Delete <==> step is DeleteStaleRecord || step
                is CleanConnections || step is DeleteTunnel || step is DeleteOrphan)
            &&& step is FindTunnel ==> url =~= tunnels + "?name="@ + plan.subdomain@
                + "&is_deleted=false"@
            &&& step is FindStaleRecord || step is FindOrphan ==> url =~= records + "?name="@
                + plan.full_name@
            &&& step matches ConflictStep::DeleteStaleRecord { record_id, .. } ==> url =~= records
                + "/"@ + record_id@
            &&& step matches ConflictStep::DeleteOrphan { record_id } ==> url =~= records + "/"@
                + record_id@
            &&& step matches ConflictStep::DeleteTunnel { tunnel_id } ==> url =~= tunnels + "/"@
                + tunnel_id@
            &&& step matches ConflictStep::CleanConnections { tunnel_id } ==> url =~= tunnels + "/"@
                + tunnel_id@ + "/connections"@
        }),
{
}

} // verus!
