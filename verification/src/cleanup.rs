//! One-shot cleanup of dead tunnels and orphaned DNS records.
//!
//! Removes tunnels that are down, inactive or degraded, their DNS records, and
//! CNAME records that point at tunnels which no longer exist. A [`Sweep`] is
//! where the work stands: [`Sweep::request`] is the call to make next,
//! [`Sweep::advance`] takes its reply.

use vstd::prelude::*;
use vstd::string::*;

use crate::client;
use crate::client::{ApiRequest, Call, CloudflareApi, DnsRecord, Reply, Tunnel};
use crate::conflicts;
use crate::conflicts::record_in;
use crate::error::Error;
use crate::plan;
use crate::plan::full_name_of;
use crate::text;
use crate::ui;
use crate::ui::{Line, Style};

verus! {

/// The statuses of a dead tunnel, in the order in which they are swept.
#[derive(Debug, Clone, Copy, PartialEq, Eq, Structural)]
pub enum DeadStatus {
    /// `down`
    Down,
    /// `inactive`
    Inactive,
    /// `degraded`
    Degraded,
}

impl DeadStatus {
    /// The name that Cloudflare has for the status.
    pub open spec fn name(self) -> Seq<char> {
        match self {
            DeadStatus::Down => "down"@,
            DeadStatus::Inactive => "inactive"@,
            DeadStatus::Degraded => "degraded"@,
        }
    }

    /// The name that Cloudflare has for the status.
    pub fn as_str(self) -> (r: &'static str)
        ensures
            r@ == self.name(),
    {
        match self {
            DeadStatus::Down => "down",
            DeadStatus::Inactive => "inactive",
            DeadStatus::Degraded => "degraded",
        }
    }
}

/// Where a sweep stands.
#[derive(Debug, PartialEq, Eq)]
pub enum SweepStep {
    /// Listing the tunnels of one status.
    ListTunnels {
        /// The status.
        status: DeadStatus,
    },
    /// Looking for the DNS record of a dead tunnel.
    FindRecord {
        /// The status being swept.
        status: DeadStatus,
        /// The tunnels of that status.
        tunnels: Vec<Tunnel>,
        /// The tunnel at hand.
        at: usize,
    },
    /// Deleting that record.
    DeleteRecord {
        /// The status being swept.
        status: DeadStatus,
        /// The tunnels of that status.
        tunnels: Vec<Tunnel>,
        /// The tunnel at hand.
        at: usize,
        /// Its record.
        record_id: String,
    },
    /// Closing the dead tunnel's connections.
    CleanConnections {
        /// The status being swept.
        status: DeadStatus,
        /// The tunnels of that status.
        tunnels: Vec<Tunnel>,
        /// The tunnel at hand.
        at: usize,
    },
    /// Deleting the dead tunnel.
    DeleteTunnel {
        /// The status being swept.
        status: DeadStatus,
        /// The tunnels of that status.
        tunnels: Vec<Tunnel>,
        /// The tunnel at hand.
        at: usize,
    },
    /// Listing the CNAME records.
    ListRecords,
    /// Asking whether the tunnel that a record points at exists.
    CheckTunnel {
        /// The records.
        records: Vec<DnsRecord>,
        /// The record at hand; it points at a tunnel.
        at: usize,
    },
    /// Deleting an orphaned record.
    DeleteOrphan {
        /// The records.
        records: Vec<DnsRecord>,
        /// The record at hand; it points at a tunnel.
        at: usize,
    },
    /// Everything has been swept.
    Done,
    /// A call that had to succeed did not.
    Failed(Error),
}

/// A cleanup under way.
#[derive(Debug, PartialEq, Eq)]
pub struct Sweep {
    /// Cloudflare account.
    pub account_id: String,
    /// Cloudflare zone.
    pub zone_id: String,
    /// Base domain.
    pub domain: String,
    /// Whether an orphaned record that cannot be deleted ends the sweep.
    pub strict: bool,
    /// Number of resources removed so far. A record whose deletion failed is
    /// still there, and is not counted.
    pub removed: usize,
    /// Where the sweep stands.
    pub step: SweepStep,
}

/// This record points at a tunnel.
pub open spec fn points_at_tunnel(record: DnsRecord) -> bool {
    ".cfargotunnel.com"@.is_suffix_of(record.content@)
}

/// The tunnel that a record points at.
pub open spec fn target_of(record: DnsRecord) -> Seq<char> {
    record.content@.take(record.content@.len() - ".cfargotunnel.com"@.len())
}

/// The first record from `at` on that points at a tunnel; the length of the
/// list when there is none.
pub open spec fn next_target(records: Seq<DnsRecord>, at: nat) -> nat
    decreases records.len() - at,
{
    if at >= records.len() {
        records.len()
    } else if points_at_tunnel(records[at as int]) {
        at
    } else {
        next_target(records, at + 1)
    }
}

fn find_target(records: &Vec<DnsRecord>, from: usize) -> (r: usize)
    requires
        from <= records@.len(),
    ensures
        r == next_target(records@, from as nat),
        r <= records@.len(),
        r < records@.len() ==> points_at_tunnel(records@[r as int]),
{
    let mut at: usize = from;
    while at < records.len()
        invariant
            at <= records@.len(),
            next_target(records@, from as nat) == next_target(records@, at as nat),
        decreases records@.len() - at,
    {
        if text::ends_with(records[at].content.as_str(), ".cfargotunnel.com") {
            return at;
        }
        at = at + 1;
    }
    at
}

/// What follows the sweep of a status.
pub open spec fn after_status(status: DeadStatus) -> SweepStep {
    match status {
        DeadStatus::Down => SweepStep::ListTunnels { status: DeadStatus::Inactive },
        DeadStatus::Inactive => SweepStep::ListTunnels { status: DeadStatus::Degraded },
        DeadStatus::Degraded => SweepStep::ListRecords,
    }
}

/// The next of the dead tunnels, or what follows them.
pub open spec fn tunnel_step(status: DeadStatus, tunnels: Vec<Tunnel>, at: nat) -> SweepStep {
    if at < tunnels@.len() {
        SweepStep::FindRecord { status, tunnels, at: at as usize }
    } else {
        after_status(status)
    }
}

/// The next of the records that point at a tunnel, or the end.
pub open spec fn record_step(records: Vec<DnsRecord>, at: nat) -> SweepStep {
    let next = next_target(records@, at);
    if next < records@.len() {
        SweepStep::CheckTunnel { records, at: next as usize }
    } else {
        SweepStep::Done
    }
}

fn status_done(status: DeadStatus) -> (r: SweepStep)
    ensures
        r == after_status(status),
{
    match status {
        DeadStatus::Down => SweepStep::ListTunnels { status: DeadStatus::Inactive },
        DeadStatus::Inactive => SweepStep::ListTunnels { status: DeadStatus::Degraded },
        DeadStatus::Degraded => SweepStep::ListRecords,
    }
}

fn go_to_tunnel(status: DeadStatus, tunnels: Vec<Tunnel>, at: usize) -> (r: SweepStep)
    ensures
        r == tunnel_step(status, tunnels, at as nat),
{
    if at < tunnels.len() {
        SweepStep::FindRecord { status, tunnels, at }
    } else {
        status_done(status)
    }
}

fn next_tunnel(status: DeadStatus, tunnels: Vec<Tunnel>, at: usize) -> (r: SweepStep)
    requires
        at < tunnels@.len(),
    ensures
        r == tunnel_step(status, tunnels, at as nat + 1),
{
    let n: usize = tunnels.len();
    go_to_tunnel(status, tunnels, at + 1)
}

fn go_to_record(records: Vec<DnsRecord>, at: usize) -> (r: SweepStep)
    requires
        at <= records@.len(),
    ensures
        r == record_step(records, at as nat),
{
    let next: usize = find_target(&records, at);
    if next < records.len() {
        SweepStep::CheckTunnel { records, at: next }
    } else {
        SweepStep::Done
    }
}

fn next_record(records: Vec<DnsRecord>, at: usize) -> (r: SweepStep)
    requires
        at < records@.len(),
    ensures
        r == record_step(records, at as nat + 1),
{
    let n: usize = records.len();
    go_to_record(records, at + 1)
}

impl Sweep {
    /// The tunnel or the record at hand is in the list.
    pub open spec fn well_formed(self) -> bool {
        match self.step {
            SweepStep::FindRecord { tunnels, at, .. } => at < tunnels@.len(),
            SweepStep::DeleteRecord { tunnels, at, .. } => at < tunnels@.len(),
            SweepStep::CleanConnections { tunnels, at, .. } => at < tunnels@.len(),
            SweepStep::DeleteTunnel { tunnels, at, .. } => at < tunnels@.len(),
            SweepStep::CheckTunnel { records, at } => at < records@.len() && points_at_tunnel(
                records@[at as int],
            ),
            SweepStep::DeleteOrphan { records, at } => at < records@.len() && points_at_tunnel(
                records@[at as int],
            ),
            _ => true,
        }
    }

    /// The call to make now.
    pub open spec fn call(self) -> Option<Call> {
        let account = self.account_id@;
        let zone = self.zone_id@;
        match self.step {
            SweepStep::ListTunnels { status } => Some(
                Call::ListTunnels { account, status: status.name() },
            ),
            SweepStep::FindRecord { tunnels, at, .. } => Some(
                Call::FindRecord {
                    zone,
                    name: plan::host_name(tunnels@[at as int].name@, self.domain@),
                },
            ),
            SweepStep::DeleteRecord { record_id, .. } => Some(
                Call::DeleteRecord { zone, record: record_id@ },
            ),
            SweepStep::CleanConnections { tunnels, at, .. } => Some(
                Call::CleanupConnections { account, tunnel: tunnels@[at as int].id@ },
            ),
            SweepStep::DeleteTunnel { tunnels, at, .. } => Some(
                Call::DeleteTunnel { account, tunnel: tunnels@[at as int].id@ },
            ),
            SweepStep::ListRecords => Some(Call::ListRecords { zone, kind: "CNAME"@ }),
            SweepStep::CheckTunnel { records, at } => Some(
                Call::GetTunnel { account, tunnel: target_of(records@[at as int]) },
            ),
            SweepStep::DeleteOrphan { records, at } => Some(
                Call::DeleteRecord { zone, record: records@[at as int].id@ },
            ),
            _ => None,
        }
    }

    /// This reply answers the call made now.
    pub open spec fn awaits(self, reply: Reply) -> bool {
        self.call() is Some && self.call()->0.answer() == reply.answer()
    }

    /// The call made now removes something.
    pub open spec fn removes(self) -> bool {
        self.step is DeleteRecord || self.step is DeleteTunnel || self.step is DeleteOrphan
    }

    /// Where a reply leads. A status that cannot be listed is skipped, a failed
    /// look-up counts as having found no record, and whether a tunnel's DNS
    /// record is deleted makes no difference to what follows.
    pub open spec fn next_step(self, reply: Reply) -> SweepStep {
        match self.step {
            SweepStep::ListTunnels { status } => match reply {
                Reply::Tunnels(Ok(tunnels)) => tunnel_step(status, tunnels, 0),
                _ => after_status(status),
            },
            SweepStep::FindRecord { status, tunnels, at } => match conflicts::found_record(
                reply,
                plan::host_name(tunnels@[at as int].name@, self.domain@),
            ) {
                Some(record) => SweepStep::DeleteRecord {
                    status,
                    tunnels,
                    at,
                    record_id: record.id,
                },
                None => SweepStep::CleanConnections { status, tunnels, at },
            },
            SweepStep::DeleteRecord { status, tunnels, at, .. } => SweepStep::CleanConnections {
                status,
                tunnels,
                at,
            },
            SweepStep::CleanConnections { status, tunnels, at } => SweepStep::DeleteTunnel {
                status,
                tunnels,
                at,
            },
            SweepStep::DeleteTunnel { status, tunnels, at } => match reply.refusal() {
                Some(error) => SweepStep::Failed(error),
                None => tunnel_step(status, tunnels, at as nat + 1),
            },
            SweepStep::ListRecords => match reply {
                Reply::Records(Ok(records)) => record_step(records, 0),
                other => SweepStep::Failed(other.refusal()->0),
            },
            SweepStep::CheckTunnel { records, at } => if reply.granted() {
                record_step(records, at as nat + 1)
            } else {
                SweepStep::DeleteOrphan { records, at }
            },
            SweepStep::DeleteOrphan { records, at } => match reply.refusal() {
                Some(error) => if self.strict {
                    SweepStep::Failed(error)
                } else {
                    record_step(records, at as nat + 1)
                },
                None => record_step(records, at as nat + 1),
            },
            done => done,
        }
    }

    /// The sweep after a reply.
    pub open spec fn next(self, reply: Reply) -> Sweep {
        Sweep {
            removed: if self.removes() && reply.granted() {
                (self.removed + 1) as usize
            } else {
                self.removed
            },
            step: self.next_step(reply),
            ..self
        }
    }

    /// The request to send now; `None` once the sweep is over.
    pub fn request(&self, api: &CloudflareApi) -> (r: Option<ApiRequest>)
        requires
            self.well_formed(),
        ensures
            match self.call() {
                Some(call) => r is Some && r->0.makes(*api, call),
                None => r is None,
            },
    {
        let account = self.account_id.as_str();
        let zone = self.zone_id.as_str();
        match &self.step {
            SweepStep::ListTunnels { status } => Some(api.list_tunnels(account, status.as_str())),
            SweepStep::FindRecord { tunnels, at, .. } => {
                let name = full_name_of(tunnels[*at].name.as_str(), self.domain.as_str());
                Some(api.find_dns_record(zone, name.as_str()))
            },
            SweepStep::DeleteRecord { record_id, .. } => Some(
                api.delete_dns_record(zone, record_id.as_str()),
            ),
            SweepStep::CleanConnections { tunnels, at, .. } => Some(
                api.cleanup_connections(account, tunnels[*at].id.as_str()),
            ),
            SweepStep::DeleteTunnel { tunnels, at, .. } => Some(
                api.delete_tunnel(account, tunnels[*at].id.as_str()),
            ),
            SweepStep::ListRecords => Some(api.list_dns_records(zone, "CNAME")),
            SweepStep::CheckTunnel { records, at } => {
                match text::strip_suffix(records[*at].content.as_str(), ".cfargotunnel.com") {
                    Some(tunnel) => {
                        assert(tunnel@ =~= target_of(records@[*at as int]));
                        Some(api.tunnel_exists(account, tunnel.as_str()))
                    },
                    None => None,
                }
            },
            SweepStep::DeleteOrphan { records, at } => Some(
                api.delete_dns_record(zone, records[*at].id.as_str()),
            ),
            _ => None,
        }
    }

    /// Takes the reply to the latest request.
    pub fn advance(self, reply: Reply) -> (r: Sweep)
        requires
            self.well_formed(),
            self.awaits(reply),
            self.removed < usize::MAX,
        ensures
            r.well_formed(),
            r == self.next(reply),
    {
        let mut removed: usize = self.removed;
        let step = match self.step {
            SweepStep::ListTunnels { status } => match reply {
                Reply::Tunnels(Ok(tunnels)) => go_to_tunnel(status, tunnels, 0),
                _ => status_done(status),
            },
            SweepStep::FindRecord { status, tunnels, at } => {
                let name = full_name_of(tunnels[at].name.as_str(), self.domain.as_str());
                match record_in(&reply, name.as_str()) {
                    Some(record) => SweepStep::DeleteRecord {
                        status,
                        tunnels,
                        at,
                        record_id: record.id,
                    },
                    None => SweepStep::CleanConnections { status, tunnels, at },
                }
            },
            SweepStep::DeleteRecord { status, tunnels, at, .. } => {
                if reply.failure().is_none() {
                    removed = removed + 1;
                }
                SweepStep::CleanConnections { status, tunnels, at }
            },
            SweepStep::CleanConnections { status, tunnels, at } => SweepStep::DeleteTunnel {
                status,
                tunnels,
                at,
            },
            SweepStep::DeleteTunnel { status, tunnels, at } => match reply.failure() {
                Some(error) => SweepStep::Failed(error),
                None => {
                    removed = removed + 1;
                    next_tunnel(status, tunnels, at)
                },
            },
            SweepStep::ListRecords => match reply {
                Reply::Records(Ok(records)) => go_to_record(records, 0),
                Reply::Records(Err(error)) => SweepStep::Failed(error),
                _ => SweepStep::ListRecords,
            },
            SweepStep::CheckTunnel { records, at } => match reply.failure() {
                None => next_record(records, at),
                Some(_) => SweepStep::DeleteOrphan { records, at },
            },
            SweepStep::DeleteOrphan { records, at } => match reply.failure() {
                Some(error) => {
                    if self.strict {
                        SweepStep::Failed(error)
                    } else {
                        next_record(records, at)
                    }
                },
                None => {
                    removed = removed + 1;
                    next_record(records, at)
                },
            },
            done => done,
        };
        proof {
            next_step_is_well_formed(self, reply);
        }
        Sweep {
            account_id: self.account_id,
            zone_id: self.zone_id,
            domain: self.domain,
            strict: self.strict,
            removed,
            step,
        }
    }
}

proof fn next_target_points(records: Seq<DnsRecord>, at: nat)
    ensures
        next_target(records, at) < records.len() ==> points_at_tunnel(
            records[next_target(records, at) as int],
        ),
    decreases records.len() - at,
{
    if at < records.len() {
        next_target_points(records, at + 1);
    }
}

proof fn next_step_is_well_formed(sweep: Sweep, reply: Reply)
    requires
        sweep.well_formed(),
        sweep.awaits(reply),
    ensures
        sweep.next(reply).well_formed(),
{
    match sweep.step {
        SweepStep::ListRecords => match reply {
            Reply::Records(Ok(records)) => {
                assert(records.len() == records@.len());
                next_target_points(records@, 0);
            },
            _ => {},
        },
        SweepStep::CheckTunnel { records, at } => {
            assert(records.len() == records@.len());
            next_target_points(records@, at as nat + 1);
        },
        SweepStep::DeleteOrphan { records, at } => {
            assert(records.len() == records@.len());
            next_target_points(records@, at as nat + 1);
        },
        _ => {},
    }
}

/// What the user is told on arriving at a step of a sweep.
pub open spec fn sweep_notice(step: SweepStep) -> Option<Seq<char>> {
    match step {
        SweepStep::FindRecord { status, tunnels, at } => Some(
            "  Removing dead tunnel \""@ + tunnels@[at as int].name@ + "\" ("@ + status.name()
                + ")..."@,
        ),
        SweepStep::DeleteOrphan { records, at } => Some(
            "  Removing orphaned DNS record "@ + records@[at as int].name@ + "..."@,
        ),
        _ => None,
    }
}

impl Sweep {
    /// What to tell the user on arriving at this step.
    pub fn notice(&self) -> (r: Option<Line>)
        requires
            self.well_formed(),
        ensures
            match sweep_notice(self.step) {
                Some(text) => r is Some && r->0.is(ui::one(Style::Plain, text)),
                None => r is None,
            },
    {
        match &self.step {
            SweepStep::FindRecord { status, tunnels, at } => {
                let mut message = "  Removing dead tunnel \"".to_owned();
                message.append(tunnels[*at].name.as_str());
                message.append("\" (");
                message.append(status.as_str());
                message.append(")...");
                Some(ui::line_of_one(false, Style::Plain, message.as_str()))
            },
            SweepStep::DeleteOrphan { records, at } => {
                let mut message = "  Removing orphaned DNS record ".to_owned();
                message.append(records[*at].name.as_str());
                message.append("...");
                Some(ui::line_of_one(false, Style::Plain, message.as_str()))
            },
            _ => None,
        }
    }
}

/// What to tell the user when the tunnels of a status cannot be listed.
pub fn skip_notice(error: &Error) -> (r: Line)
    ensures
        r.is(
            seq![
                (Style::Plain, "  "@),
                (Style::Yellow, "Skipping status scan:"@),
                (Style::Plain, " "@ + error.described()),
            ],
        ),
{
    let mut reason = " ".to_owned();
    reason.append(error.message().as_str());
    ui::line_of_three(
        Style::Plain,
        "  ",
        Style::Yellow,
        "Skipping status scan:",
        Style::Plain,
        reason.as_str(),
    )
}

/// Starts a cleanup. With `strict`, an orphaned record that cannot be deleted
/// ends the sweep with its error; otherwise the sweep goes on without it.
pub fn cleanup(account_id: &str, zone_id: &str, domain: &str, strict: bool) -> (r: Sweep)
    ensures
        r.well_formed(),
        r.account_id@ == account_id@,
        r.zone_id@ == zone_id@,
        r.domain@ == domain@,
        r.strict == strict,
        r.removed == 0,
        r.step == (SweepStep::ListTunnels { status: DeadStatus::Down }),
{
    Sweep {
        account_id: account_id.to_owned(),
        zone_id: zone_id.to_owned(),
        domain: domain.to_owned(),
        strict,
        removed: 0,
        step: SweepStep::ListTunnels { status: DeadStatus::Down },
    }
}

impl Sweep {
    /// The sweep after the given replies.
    pub open spec fn after(self, replies: Seq<Reply>) -> Sweep
        decreases replies.len(),
    {
        if replies.len() == 0 {
            self
        } else {
            self.after(replies.drop_last()).next(replies.last())
        }
    }

    /// Each of the replies answers the call that was made for it.
    pub open spec fn follows(self, replies: Seq<Reply>) -> bool
        decreases replies.len(),
    {
        replies.len() == 0 || {
            &&& self.follows(replies.drop_last())
            &&& self.after(replies.drop_last()).awaits(replies.last())
            &&& self.after(replies.drop_last()).removed < usize::MAX
        }
    }

    /// The calls that the given replies answer.
    pub open spec fn calls(self, replies: Seq<Reply>) -> Seq<Call>
        decreases replies.len(),
    {
        if replies.len() == 0 {
            seq![]
        } else {
            self.calls(replies.drop_last()).push(self.after(replies.drop_last()).call()->0)
        }
    }

    /// How many of the given replies grant a removal.
    pub open spec fn removals(self, replies: Seq<Reply>) -> nat
        decreases replies.len(),
    {
        if replies.len() == 0 {
            0
        } else {
            let before = self.after(replies.drop_last());
            self.removals(replies.drop_last()) + if before.removes() && replies.last().granted() {
                1nat
            } else {
                0nat
            }
        }
    }
}

/// What a cleanup reports as removed is what Cloudflare has granted it to
/// remove, no more and no less.
pub proof fn removals_are_counted(sweep: Sweep, replies: Seq<Reply>)
    requires
        sweep.follows(replies),
    ensures
        sweep.after(replies).removed == sweep.removed + sweep.removals(replies),
    decreases replies.len(),
{
    if replies.len() > 0 {
        removals_are_counted(sweep, replies.drop_last());
    }
}

/// Nothing but the place in the sweep and the count changes, and the place
/// always makes sense.
pub proof fn sweeps_stay_well_formed(sweep: Sweep, replies: Seq<Reply>)
    requires
        sweep.well_formed(),
        sweep.follows(replies),
    ensures
        sweep.after(replies).well_formed(),
        sweep.after(replies).account_id == sweep.account_id,
        sweep.after(replies).zone_id == sweep.zone_id,
        sweep.after(replies).domain == sweep.domain,
        sweep.after(replies).strict == sweep.strict,
    decreases replies.len(),
{
    if replies.len() > 0 {
        sweeps_stay_well_formed(sweep, replies.drop_last());
        next_step_is_well_formed(sweep.after(replies.drop_last()), replies.last());
    }
}

/// The sweep is at the given list of tunnels, and has not yet passed `i`.
spec fn is_before_tunnel(step: SweepStep, list: Vec<Tunnel>, i: int) -> bool {
    match step {
        SweepStep::FindRecord { tunnels, at, .. } => tunnels == list && at <= i,
        SweepStep::DeleteRecord { tunnels, at, .. } => tunnels == list && at <= i,
        SweepStep::CleanConnections { tunnels, at, .. } => tunnels == list && at <= i,
        SweepStep::DeleteTunnel { tunnels, at, .. } => tunnels == list && at <= i,
        _ => false,
    }
}

proof fn pushed_calls_stay(calls: Seq<Call>, made: Call, call: Call)
    requires
        calls.contains(call),
    ensures
        calls.push(made).contains(call),
{
    let i = calls.index_of(call);
    assert(calls.push(made)[i] == call);
}

proof fn listed_tunnels_go(sweep: Sweep, replies: Seq<Reply>, k: int, list: Vec<Tunnel>, i: int)
    requires
        sweep.well_formed(),
        sweep.follows(replies),
        0 <= k < replies.len(),
        sweep.after(replies.take(k)).step is ListTunnels,
        replies[k] == Reply::Tunnels(Ok(list)),
        0 <= i < list@.len(),
    ensures
        ({
            let step = sweep.after(replies).step;
            ||| step is Failed
            ||| is_before_tunnel(step, list, i)
            ||| sweep.calls(replies).contains(
                Call::DeleteTunnel { account: sweep.account_id@, tunnel: list@[i].id@ },
            )
        }),
    decreases replies.len(),
{
    let before = replies.drop_last();
    assert(list.len() == list@.len());
    sweeps_stay_well_formed(sweep, before);
    if k == before.len() {
        assert(replies.take(k) =~= before);
    } else {
        assert(before.take(k) =~= replies.take(k));
        listed_tunnels_go(sweep, before, k, list, i);
        let gone = Call::DeleteTunnel { account: sweep.account_id@, tunnel: list@[i].id@ };
        let made = sweep.after(before).call()->0;
        if sweep.calls(before).contains(gone) {
            pushed_calls_stay(sweep.calls(before), made, gone);
        } else if made == gone {
            assert(sweep.calls(replies).last() == gone);
        }
    }
}

/// A cleanup that is done has deleted every dead tunnel that it was told of.
pub proof fn dead_tunnels_are_deleted(
    sweep: Sweep,
    replies: Seq<Reply>,
    k: int,
    tunnels: Vec<Tunnel>,
    i: int,
)
    requires
        sweep.well_formed(),
        sweep.follows(replies),
        sweep.after(replies).step is Done,
        0 <= k < replies.len(),
        sweep.after(replies.take(k)).step is ListTunnels,
        replies[k] == Reply::Tunnels(Ok(tunnels)),
        0 <= i < tunnels@.len(),
    ensures
        sweep.calls(replies).contains(
            Call::DeleteTunnel { account: sweep.account_id@, tunnel: tunnels@[i].id@ },
        ),
{
    listed_tunnels_go(sweep, replies, k, tunnels, i);
}

/// The sweep is at the given list of records, and has not yet passed `i`.
spec fn is_before_record(step: SweepStep, list: Vec<DnsRecord>, i: int) -> bool {
    match step {
        SweepStep::CheckTunnel { records, at } => records == list && at <= i,
        _ => false,
    }
}

proof fn next_target_is_not_past(records: Seq<DnsRecord>, at: nat, i: int)
    requires
        at <= i < records.len(),
        points_at_tunnel(records[i]),
    ensures
        at <= next_target(records, at) <= i,
    decreases records.len() - at,
{
    if !points_at_tunnel(records[at as int]) {
        next_target_is_not_past(records, at + 1, i);
    }
}

proof fn listed_records_are_checked(
    sweep: Sweep,
    replies: Seq<Reply>,
    k: int,
    list: Vec<DnsRecord>,
    i: int,
)
    requires
        sweep.well_formed(),
        sweep.follows(replies),
        0 <= k < replies.len(),
        sweep.after(replies.take(k)).step is ListRecords,
        replies[k] == Reply::Records(Ok(list)),
        0 <= i < list@.len(),
        points_at_tunnel(list@[i]),
    ensures
        ({
            let step = sweep.after(replies).step;
            ||| step is Failed
            ||| is_before_record(step, list, i)
            ||| step matches SweepStep::DeleteOrphan { records, at } && records == list && at < i
            ||| sweep.calls(replies).contains(
                Call::GetTunnel { account: sweep.account_id@, tunnel: target_of(list@[i]) },
            )
        }),
    decreases replies.len(),
{
    let before = replies.drop_last();
    assert(list.len() == list@.len());
    sweeps_stay_well_formed(sweep, before);
    if k == before.len() {
        assert(replies.take(k) =~= before);
        next_target_is_not_past(list@, 0, i);
    } else {
        assert(before.take(k) =~= replies.take(k));
        listed_records_are_checked(sweep, before, k, list, i);
        let asked = Call::GetTunnel { account: sweep.account_id@, tunnel: target_of(list@[i]) };
        let made = sweep.after(before).call()->0;
        if sweep.calls(before).contains(asked) {
            pushed_calls_stay(sweep.calls(before), made, asked);
        } else if made == asked {
            assert(sweep.calls(replies).last() == asked);
        } else {
            match sweep.after(before).step {
                SweepStep::CheckTunnel { records, at } => {
                    assert(at < i);
                    next_target_is_not_past(list@, at as nat + 1, i);
                },
                SweepStep::DeleteOrphan { records, at } => {
                    next_target_is_not_past(list@, at as nat + 1, i);
                },
                _ => {},
            }
        }
    }
}

/// A cleanup that is done has asked, for every CNAME record that points at a
/// tunnel, whether that tunnel still exists.
pub proof fn records_are_checked(
    sweep: Sweep,
    replies: Seq<Reply>,
    k: int,
    records: Vec<DnsRecord>,
    i: int,
)
    requires
        sweep.well_formed(),
        sweep.follows(replies),
        sweep.after(replies).step is Done,
        0 <= k < replies.len(),
        sweep.after(replies.take(k)).step is ListRecords,
        replies[k] == Reply::Records(Ok(records)),
        0 <= i < records@.len(),
        points_at_tunnel(records@[i]),
    ensures
        sweep.calls(replies).contains(
            Call::GetTunnel { account: sweep.account_id@, tunnel: target_of(records@[i]) },
        ),
{
    listed_records_are_checked(sweep, replies, k, records, i);
}

/// A record that points at a tunnel is deleted exactly if Cloudflare has just
/// said that it knows no such tunnel; one whose tunnel exists is passed by.
pub proof fn only_orphans_are_deleted(
    sweep: Sweep,
    reply: Reply,
    records: Vec<DnsRecord>,
    at: usize,
)
    requires
        sweep.well_formed(),
        sweep.step == (SweepStep::CheckTunnel { records, at }),
        sweep.awaits(reply),
    ensures
        sweep.call() == Some(
            Call::GetTunnel { account: sweep.account_id@, tunnel: target_of(records@[at as int]) },
        ),
        sweep.next(reply).step is DeleteOrphan <==> !reply.granted(),
        !reply.granted() ==> sweep.next(reply).call() == Some(
            Call::DeleteRecord { zone: sweep.zone_id@, record: records@[at as int].id@ },
        ),
{
}

/// How many of the lists a sweep has asked for when it is at this step.
spec fn lists_asked_for(step: SweepStep) -> int {
    let sweeping = |status: DeadStatus|
        match status {
            DeadStatus::Down => 1int,
            DeadStatus::Inactive => 2int,
            DeadStatus::Degraded => 3int,
        };
    match step {
        SweepStep::ListTunnels { status } => sweeping(status) - 1,
        SweepStep::FindRecord { status, .. } => sweeping(status),
        SweepStep::DeleteRecord { status, .. } => sweeping(status),
        SweepStep::CleanConnections { status, .. } => sweeping(status),
        SweepStep::DeleteTunnel { status, .. } => sweeping(status),
        SweepStep::ListRecords => 3,
        SweepStep::Failed(_) => 0,
        _ => 4,
    }
}

proof fn lists_are_asked_for_in_order(sweep: Sweep, replies: Seq<Reply>)
    requires
        sweep.well_formed(),
        sweep.step == (SweepStep::ListTunnels { status: DeadStatus::Down }),
        sweep.follows(replies),
    ensures
        ({
            let calls = sweep.calls(replies);
            let account = sweep.account_id@;
            let asked = lists_asked_for(sweep.after(replies).step);
            &&& asked >= 1 ==> calls.contains(Call::ListTunnels { account, status: "down"@ })
            &&& asked >= 2 ==> calls.contains(Call::ListTunnels { account, status: "inactive"@ })
            &&& asked >= 3 ==> calls.contains(Call::ListTunnels { account, status: "degraded"@ })
            &&& asked >= 4 ==> calls.contains(
                Call::ListRecords { zone: sweep.zone_id@, kind: "CNAME"@ },
            )
        }),
    decreases replies.len(),
{
    if replies.len() > 0 {
        let before = replies.drop_last();
        lists_are_asked_for_in_order(sweep, before);
        sweeps_stay_well_formed(sweep, before);
        let account = sweep.account_id@;
        let calls = sweep.calls(before);
        let made = sweep.after(before).call()->0;
        let down = Call::ListTunnels { account, status: "down"@ };
        let inactive = Call::ListTunnels { account, status: "inactive"@ };
        let degraded = Call::ListTunnels { account, status: "degraded"@ };
        let records = Call::ListRecords { zone: sweep.zone_id@, kind: "CNAME"@ };
        assert(calls.push(made).last() == made);
        assert(calls.push(made).contains(made));
        if calls.contains(down) {
            pushed_calls_stay(calls, made, down);
        }
        if calls.contains(inactive) {
            pushed_calls_stay(calls, made, inactive);
        }
        if calls.contains(degraded) {
            pushed_calls_stay(calls, made, degraded);
        }
        if calls.contains(records) {
            pushed_calls_stay(calls, made, records);
        }
    }
}

/// A cleanup that is done has asked for the tunnels that are down, for those
/// that are inactive and for those that are degraded, and for the CNAME records,
/// whatever came back for each of them.
pub proof fn all_that_is_dead_is_asked_for(sweep: Sweep, replies: Seq<Reply>)
    requires
        sweep.well_formed(),
        sweep.step == (SweepStep::ListTunnels { status: DeadStatus::Down }),
        sweep.follows(replies),
        sweep.after(replies).step is Done,
    ensures
        ({
            let calls = sweep.calls(replies);
            let account = sweep.account_id@;
            &&& calls.contains(Call::ListTunnels { account, status: "down"@ })
            &&& calls.contains(Call::ListTunnels { account, status: "inactive"@ })
            &&& calls.contains(Call::ListTunnels { account, status: "degraded"@ })
            &&& calls.contains(Call::ListRecords { zone: sweep.zone_id@, kind: "CNAME"@ })
        }),
{
    lists_are_asked_for_in_order(sweep, replies);
}

/// The status after which nothing more is listed is that of the degraded: down,
/// inactive and degraded tunnels are listed one after the other, and each list
/// that is empty, that has been worked off or that is refused leads to the next.
pub proof fn one_status_follows_the_other(
    sweep: Sweep,
    status: DeadStatus,
    tunnels: Vec<Tunnel>,
    at: usize,
    error: Error,
    reply: Reply,
)
    requires
        tunnels@.len() == 0 || at == tunnels@.len() - 1,
        reply.refusal() is None,
    ensures
        ({
            let listing = Sweep { step: SweepStep::ListTunnels { status }, ..sweep };
            let deleting = Sweep { step: SweepStep::DeleteTunnel { status, tunnels, at }, ..sweep };
            let next = match status {
                DeadStatus::Down => SweepStep::ListTunnels { status: DeadStatus::Inactive },
                DeadStatus::Inactive => SweepStep::ListTunnels { status: DeadStatus::Degraded },
                DeadStatus::Degraded => SweepStep::ListRecords,
            };
            &&& listing.next(Reply::Tunnels(Err(error))).step == next
            &&& tunnels@.len() == 0 ==> listing.next(Reply::Tunnels(Ok(tunnels))).step == next
            &&& tunnels@.len() > 0 ==> deleting.next(reply).step == next
            &&& tunnels@.len() > 0 ==> listing.next(Reply::Tunnels(Ok(tunnels))).step == (
            SweepStep::FindRecord { status, tunnels, at: 0 })
        }),
{
}

/// A dead tunnel goes the whole way: the record of its name under the domain is
/// looked up, one by exactly that name is deleted, the connections are closed,
/// the tunnel is deleted, and then it is the turn of the one after it. Only a
/// tunnel that cannot be deleted ends the sweep, with the reason.
pub proof fn a_dead_tunnel_goes_the_whole_way(
    sweep: Sweep,
    status: DeadStatus,
    tunnels: Vec<Tunnel>,
    at: usize,
    record_id: String,
    records: Vec<DnsRecord>,
    reply: Reply,
)
    requires
        at < tunnels@.len(),
    ensures
        ({
            let looking = Sweep { step: SweepStep::FindRecord { status, tunnels, at }, ..sweep };
            let forgetting = Sweep {
                step: SweepStep::DeleteRecord { status, tunnels, at, record_id },
                ..sweep
            };
            let closing = Sweep {
                step: SweepStep::CleanConnections { status, tunnels, at },
                ..sweep
            };
            let deleting = Sweep { step: SweepStep::DeleteTunnel { status, tunnels, at }, ..sweep };
            let name = tunnels@[at as int].name@ + "."@ + sweep.domain@;
            let tunnel = tunnels@[at as int].id@;
            let account = sweep.account_id@;
            let zone = sweep.zone_id@;
            &&& looking.call() == Some(Call::FindRecord { zone, name })
            &&& (exists|i: int| 0 <= i < records@.len() && (#[trigger] records@[i]).name@ == name)
                ==> (looking.next(Reply::Records(Ok(records))).step matches SweepStep::DeleteRecord {
                status: s,
                tunnels: t,
                at: a,
                record_id: r,
            } && s == status && t == tunnels && a == at && exists|i: int|
                0 <= i < records@.len() && (#[trigger] records@[i]).name@ == name && records@[i].id
                    == r)
            &&& (forall|i: int| 0 <= i < records@.len() ==> (#[trigger] records@[i]).name@ != name)
                ==> looking.next(Reply::Records(Ok(records))).step == closing.step
            &&& reply.refusal() is Some ==> looking.next(reply).step == closing.step
            &&& forgetting.call() == Some(Call::DeleteRecord { zone, record: record_id@ })
            &&& forgetting.next(reply).step == closing.step
            &&& closing.call() == Some(Call::CleanupConnections { account, tunnel })
            &&& closing.next(reply).step == deleting.step
            &&& deleting.call() == Some(Call::DeleteTunnel { account, tunnel })
            &&& reply.refusal() is None && at + 1 < tunnels@.len() ==> deleting.next(reply).step
                == (SweepStep::FindRecord { status, tunnels, at: (at + 1) as usize })
            &&& reply.refusal() matches Some(error) ==> deleting.next(reply).step
                == SweepStep::Failed(error)
        }),
{
    assert(tunnels.len() == tunnels@.len());
    let name = tunnels@[at as int].name@ + "."@ + sweep.domain@;
    client::the_first_record_of_the_name_is_picked(records@, name);
}

/// The call at `k` asks for the tunnels of one of the dead statuses, and these
/// are the tunnels that came back.
pub open spec fn lists_dead(
    calls: Seq<Call>,
    replies: Seq<Reply>,
    k: int,
    tunnels: Vec<Tunnel>,
) -> bool {
    &&& 0 <= k < calls.len()
    &&& k < replies.len()
    &&& calls[k] matches Call::ListTunnels { status, .. } && (status == "down"@ || status
        == "inactive"@ || status == "degraded"@)
    &&& replies[k] == Reply::Tunnels(Ok(tunnels))
}

/// This tunnel is in one of the lists of dead tunnels that came back.
pub open spec fn is_known_dead(calls: Seq<Call>, replies: Seq<Reply>, tunnel: Seq<char>) -> bool {
    exists|k: int, tunnels: Vec<Tunnel>, i: int|
        #![trigger lists_dead(calls, replies, k, tunnels), tunnels@[i]]
        lists_dead(calls, replies, k, tunnels) && 0 <= i < tunnels@.len() && tunnels@[i].id@
            == tunnel
}

/// The list that a sweep is working off.
spec fn list_at_hand(step: SweepStep) -> Option<Vec<Tunnel>> {
    match step {
        SweepStep::FindRecord { tunnels, .. } => Some(tunnels),
        SweepStep::DeleteRecord { tunnels, .. } => Some(tunnels),
        SweepStep::CleanConnections { tunnels, .. } => Some(tunnels),
        SweepStep::DeleteTunnel { tunnels, .. } => Some(tunnels),
        _ => None,
    }
}

proof fn known_dead_stay_known(
    calls: Seq<Call>,
    replies: Seq<Reply>,
    made: Call,
    reply: Reply,
    tunnel: Seq<char>,
)
    requires
        calls.len() == replies.len(),
        is_known_dead(calls, replies, tunnel),
    ensures
        is_known_dead(calls.push(made), replies.push(reply), tunnel),
{
    let (k, tunnels, i) = choose|k: int, tunnels: Vec<Tunnel>, i: int|
        #![trigger lists_dead(calls, replies, k, tunnels), tunnels@[i]]
        lists_dead(calls, replies, k, tunnels) && 0 <= i < tunnels@.len() && tunnels@[i].id@
            == tunnel;
    assert(lists_dead(calls.push(made), replies.push(reply), k, tunnels));
    assert(tunnels@[i].id@ == tunnel);
}

proof fn sweeps_work_off_what_came_back(sweep: Sweep, replies: Seq<Reply>)
    requires
        sweep.well_formed(),
        sweep.step is ListTunnels,
        sweep.follows(replies),
    ensures
        sweep.calls(replies).len() == replies.len(),
        list_at_hand(sweep.after(replies).step) matches Some(tunnels) ==> exists|k: int|
            #[trigger] lists_dead(sweep.calls(replies), replies, k, tunnels),
        forall|m: int, account: Seq<char>, tunnel: Seq<char>|
            0 <= m < replies.len() && #[trigger] sweep.calls(replies)[m] == (
            #[trigger] call_to_delete(account, tunnel)) ==> is_known_dead(
                sweep.calls(replies),
                replies,
                tunnel,
            ) && account == sweep.account_id@,
    decreases replies.len(),
{
    if replies.len() > 0 {
        let before = replies.drop_last();
        let reply = replies.last();
        sweeps_work_off_what_came_back(sweep, before);
        sweeps_stay_well_formed(sweep, before);
        let middle = sweep.after(before);
        let calls = sweep.calls(before);
        let made = middle.call()->0;
        let all = sweep.calls(replies);
        assert(before.push(reply) =~= replies);
        assert(all == calls.push(made));
        if let SweepStep::ListTunnels { status } = middle.step {
            if let Reply::Tunnels(Ok(tunnels)) = reply {
                assert(lists_dead(all, replies, before.len() as int, tunnels));
            }
        }
        if let Some(tunnels) = list_at_hand(middle.step) {
            let k = choose|k: int| #[trigger] lists_dead(calls, before, k, tunnels);
            assert(lists_dead(all, replies, k, tunnels));
        }
        if let Some(tunnels) = list_at_hand(sweep.after(replies).step) {
            if middle.step is ListTunnels {
                assert(reply == Reply::Tunnels(Ok(tunnels)));
                assert(lists_dead(all, replies, before.len() as int, tunnels));
            } else {
                assert(list_at_hand(middle.step) == Some(tunnels));
            }
        }
        assert forall|m: int, account: Seq<char>, tunnel: Seq<char>|
            0 <= m < replies.len() && #[trigger] all[m] == (#[trigger] call_to_delete(
                account,
                tunnel,
            )) implies is_known_dead(all, replies, tunnel) && account == sweep.account_id@ by {
            if m < before.len() {
                assert(calls[m] == call_to_delete(account, tunnel));
                known_dead_stay_known(calls, before, made, reply, tunnel);
            } else {
                assert(made == call_to_delete(account, tunnel));
                let tunnels = list_at_hand(middle.step)->0;
                let at = middle.step->DeleteTunnel_at as int;
                let k = choose|k: int| #[trigger] lists_dead(calls, before, k, tunnels);
                assert(lists_dead(all, replies, k, tunnels));
                assert(tunnels@[at].id@ == tunnel);
            }
        }
    }
}

/// The call that ends a tunnel.
pub open spec fn call_to_delete(account: Seq<char>, tunnel: Seq<char>) -> Call {
    Call::DeleteTunnel { account, tunnel }
}

/// A cleanup deletes no tunnel but those that Cloudflare has listed to it as
/// down, inactive or degraded, and none of another account.
pub proof fn only_dead_tunnels_are_deleted(
    sweep: Sweep,
    replies: Seq<Reply>,
    m: int,
    account: Seq<char>,
    tunnel: Seq<char>,
)
    requires
        sweep.well_formed(),
        sweep.step is ListTunnels,
        sweep.follows(replies),
        0 <= m < replies.len(),
        sweep.calls(replies)[m] == (Call::DeleteTunnel { account, tunnel }),
    ensures
        account == sweep.account_id@,
        exists|k: int, tunnels: Vec<Tunnel>, i: int|
            #![trigger lists_dead(sweep.calls(replies), replies, k, tunnels), tunnels@[i]]
            lists_dead(sweep.calls(replies), replies, k, tunnels) && 0 <= i < tunnels@.len()
                && tunnels@[i].id@ == tunnel,
{
    sweeps_work_off_what_came_back(sweep, replies);
    assert(sweep.calls(replies)[m] == call_to_delete(account, tunnel));
}

/// How many of these calls were granted and took something away.
pub open spec fn taken_away(calls: Seq<Call>, replies: Seq<Reply>) -> nat
    decreases replies.len(),
{
    if replies.len() == 0 || calls.len() == 0 {
        0
    } else {
        let gone = replies.last().refusal() is None && (calls.last() is DeleteTunnel
            || calls.last() is DeleteRecord);
        taken_away(calls.drop_last(), replies.drop_last()) + if gone {
            1nat
        } else {
            0nat
        }
    }
}

/// What a cleanup reports as removed is the number of its calls that deleted a
/// tunnel or a record and that Cloudflare granted.
pub proof fn the_report_counts_granted_deletions(sweep: Sweep, replies: Seq<Reply>)
    requires
        sweep.follows(replies),
    ensures
        sweep.after(replies).removed == sweep.removed + taken_away(sweep.calls(replies), replies),
    decreases replies.len(),
{
    if replies.len() > 0 {
        let before = replies.drop_last();
        the_report_counts_granted_deletions(sweep, before);
        assert(sweep.calls(replies).drop_last() =~= sweep.calls(before));
    }
}

/// The sweep has not yet looked the record of the tunnel at `i` up.
spec fn is_before_lookup(step: SweepStep, list: Vec<Tunnel>, i: int) -> bool {
    match step {
        SweepStep::FindRecord { tunnels, at, .. } => tunnels == list && at <= i,
        SweepStep::DeleteRecord { tunnels, at, .. } => tunnels == list && at < i,
        SweepStep::CleanConnections { tunnels, at, .. } => tunnels == list && at < i,
        SweepStep::DeleteTunnel { tunnels, at, .. } => tunnels == list && at < i,
        _ => false,
    }
}

/// The sweep has not yet closed the connections of the tunnel at `i`.
spec fn is_before_closing(step: SweepStep, list: Vec<Tunnel>, i: int) -> bool {
    match step {
        SweepStep::FindRecord { tunnels, at, .. } => tunnels == list && at <= i,
        SweepStep::DeleteRecord { tunnels, at, .. } => tunnels == list && at <= i,
        SweepStep::CleanConnections { tunnels, at, .. } => tunnels == list && at <= i,
        SweepStep::DeleteTunnel { tunnels, at, .. } => tunnels == list && at < i,
        _ => false,
    }
}

proof fn listed_tunnels_are_prepared(
    sweep: Sweep,
    replies: Seq<Reply>,
    k: int,
    list: Vec<Tunnel>,
    i: int,
)
    requires
        sweep.well_formed(),
        sweep.follows(replies),
        0 <= k < replies.len(),
        sweep.after(replies.take(k)).step is ListTunnels,
        replies[k] == Reply::Tunnels(Ok(list)),
        0 <= i < list@.len(),
    ensures
        ({
            let step = sweep.after(replies).step;
            ||| step is Failed
            ||| is_before_lookup(step, list, i)
            ||| sweep.calls(replies).contains(
                Call::FindRecord {
                    zone: sweep.zone_id@,
                    name: list@[i].name@ + "."@ + sweep.domain@,
                },
            )
        }),
        ({
            let step = sweep.after(replies).step;
            ||| step is Failed
            ||| is_before_closing(step, list, i)
            ||| sweep.calls(replies).contains(
                Call::CleanupConnections { account: sweep.account_id@, tunnel: list@[i].id@ },
            )
        }),
    decreases replies.len(),
{
    let before = replies.drop_last();
    assert(list.len() == list@.len());
    sweeps_stay_well_formed(sweep, before);
    if k == before.len() {
        assert(replies.take(k) =~= before);
    } else {
        assert(before.take(k) =~= replies.take(k));
        listed_tunnels_are_prepared(sweep, before, k, list, i);
        let lookup = Call::FindRecord {
            zone: sweep.zone_id@,
            name: list@[i].name@ + "."@ + sweep.domain@,
        };
        let closing = Call::CleanupConnections {
            account: sweep.account_id@,
            tunnel: list@[i].id@,
        };
        let calls = sweep.calls(before);
        let made = sweep.after(before).call()->0;
        assert(calls.push(made).last() == made);
        assert(calls.push(made).contains(made));
        if calls.contains(lookup) {
            pushed_calls_stay(calls, made, lookup);
        }
        if calls.contains(closing) {
            pushed_calls_stay(calls, made, closing);
        }
    }
}

/// A cleanup that is done has, for every dead tunnel that it was told of, looked
/// its record up under its name and the domain, and closed its connections.
pub proof fn dead_tunnels_are_prepared(
    sweep: Sweep,
    replies: Seq<Reply>,
    k: int,
    tunnels: Vec<Tunnel>,
    i: int,
)
    requires
        sweep.well_formed(),
        sweep.follows(replies),
        sweep.after(replies).step is Done,
        0 <= k < replies.len(),
        sweep.after(replies.take(k)).step is ListTunnels,
        replies[k] == Reply::Tunnels(Ok(tunnels)),
        0 <= i < tunnels@.len(),
    ensures
        sweep.calls(replies).contains(
            (Call::FindRecord {
                zone: sweep.zone_id@,
                name: tunnels@[i].name@ + "."@ + sweep.domain@,
            }),
        ),
        sweep.calls(replies).contains(
            (Call::CleanupConnections { account: sweep.account_id@, tunnel: tunnels@[i].id@ }),
        ),
{
    listed_tunnels_are_prepared(sweep, replies, k, tunnels, i);
}

/// A record points at a tunnel exactly if its content ends with
/// `.cfargotunnel.com`, and the tunnel is what stands before that.
pub proof fn records_name_their_tunnel(record: DnsRecord, tunnel: Seq<char>)
    ensures
        record.content@ == tunnel + ".cfargotunnel.com"@ ==> points_at_tunnel(record) && target_of(
            record,
        ) == tunnel,
        points_at_tunnel(record) ==> record.content@ == target_of(record) + ".cfargotunnel.com"@,
{
    let suffix = ".cfargotunnel.com"@;
    if record.content@ == tunnel + suffix {
        let n = tunnel.len() as int;
        assert(record.content@.subrange(n, record.content@.len() as int) =~= suffix);
        assert(target_of(record) =~= tunnel);
    }
    if points_at_tunnel(record) {
        assert(record.content@ =~= target_of(record) + suffix);
    }
}

/// The next record that is looked at is the next one that points at a tunnel:
/// those in between do not, and there is an end exactly if there is none left.
pub proof fn no_record_is_passed_over(records: Seq<DnsRecord>, at: nat)
    requires
        at <= records.len(),
    ensures
        at <= next_target(records, at) <= records.len(),
        forall|i: int|
            at <= i < next_target(records, at) ==> !".cfargotunnel.com"@.is_suffix_of(
                (#[trigger] records[i]).content@,
            ),
        next_target(records, at) < records.len() ==> ".cfargotunnel.com"@.is_suffix_of(
            records[next_target(records, at) as int].content@,
        ),
    decreases records.len() - at,
{
    if at < records.len() && !points_at_tunnel(records[at as int]) {
        no_record_is_passed_over(records, at + 1);
    }
}

/// A record whose tunnel is gone is deleted, by its own id; whether that is
/// granted or not, the sweep goes on with the next one, unless it is strict. One
/// whose tunnel is there is left, and the sweep goes on likewise.
pub proof fn orphans_are_dealt_with_one_by_one(
    sweep: Sweep,
    records: Vec<DnsRecord>,
    at: usize,
    next: usize,
    reply: Reply,
)
    requires
        at < next < records@.len(),
        ".cfargotunnel.com"@.is_suffix_of(records@[next as int].content@),
        forall|i: int|
            at < i < next ==> !".cfargotunnel.com"@.is_suffix_of((#[trigger] records@[i]).content@),
    ensures
        ({
            let checking = Sweep { step: SweepStep::CheckTunnel { records, at }, ..sweep };
            let deleting = Sweep { step: SweepStep::DeleteOrphan { records, at }, ..sweep };
            let on = SweepStep::CheckTunnel { records, at: next };
            &&& reply.refusal() is None ==> checking.next(reply).step == on
            &&& reply.refusal() is Some ==> checking.next(reply).step == deleting.step
            &&& deleting.call() == Some(
                Call::DeleteRecord { zone: sweep.zone_id@, record: records@[at as int].id@ },
            )
            &&& reply.refusal() is None || !sweep.strict ==> deleting.next(reply).step == on
            &&& sweep.strict ==> (reply.refusal() matches Some(error) ==> deleting.next(reply).step
                == SweepStep::Failed(error))
        }),
{
    assert(records.len() == records@.len());
    no_record_is_passed_over(records@, at as nat + 1);
    next_target_is_not_past(records@, at as nat + 1, next as int);
    let found = next_target(records@, at as nat + 1) as int;
    if found < next {
        assert(!".cfargotunnel.com"@.is_suffix_of(records@[found].content@));
    }
}

/// The user is told of every tunnel and of every record before it goes, by its
/// name.
pub proof fn removals_are_told(
    status: DeadStatus,
    tunnels: Vec<Tunnel>,
    records: Vec<DnsRecord>,
    at: usize,
)
    ensures
        ({
            let looking = SweepStep::FindRecord { status, tunnels, at };
            let deleting = SweepStep::DeleteOrphan { records, at };
            &&& sweep_notice(looking) == Some(
                "  Removing dead tunnel \""@ + tunnels@[at as int].name@ + "\" ("@ + status.name()
                    + ")..."@,
            )
            &&& sweep_notice(deleting) == Some(
                "  Removing orphaned DNS record "@ + records@[at as int].name@ + "..."@,
            )
        }),
        status == DeadStatus::Down ==> status.name() == "down"@,
        status == DeadStatus::Inactive ==> status.name() == "inactive"@,
        status == DeadStatus::Degraded ==> status.name() == "degraded"@,
{
}

/// A sweep that has come to the end of the tunnels of one status goes on to those
/// of the next: after those that are down come those that are inactive, after
/// these the degraded ones, and only after them the records. It makes no
/// difference whether the list was empty, could not be had, or has been worked
/// off.
pub proof fn a_sweep_goes_through_every_status(sweep: Sweep, reply: Reply, r: Sweep)
    requires
        sweep.well_formed(),
        sweep.awaits(reply),
        call_ensures(Sweep::advance, (sweep, reply), r),
        match sweep.step {
            SweepStep::ListTunnels { .. } => match reply {
                Reply::Tunnels(Ok(tunnels)) => tunnels@.len() == 0,
                _ => true,
            },
            SweepStep::DeleteTunnel { tunnels, at, .. } => at == tunnels@.len() - 1
                && reply.refusal() is None,
            _ => false,
        },
    ensures
        ({
            let status = match sweep.step {
                SweepStep::ListTunnels { status } => status,
                SweepStep::DeleteTunnel { status, .. } => status,
                _ => DeadStatus::Down,
            };
            let account = sweep.account_id@;
            &&& status == DeadStatus::Down ==> r.call() == Some(
                Call::ListTunnels { account, status: "inactive"@ },
            )
            &&& status == DeadStatus::Inactive ==> r.call() == Some(
                Call::ListTunnels { account, status: "degraded"@ },
            )
            &&& status == DeadStatus::Degraded ==> r.call() == Some(
                Call::ListRecords { zone: sweep.zone_id@, kind: "CNAME"@ },
            )
        }),
{
}

/// Every tunnel of a list gets its turn: the first once the list is there, each
/// other one once the tunnel before it has been deleted.
pub proof fn every_dead_tunnel_gets_its_turn(sweep: Sweep, reply: Reply, r: Sweep)
    requires
        sweep.well_formed(),
        sweep.awaits(reply),
        call_ensures(Sweep::advance, (sweep, reply), r),
    ensures
        ({
            let zone = sweep.zone_id@;
            let domain = sweep.domain@;
            &&& sweep.step is ListTunnels && reply is Tunnels ==> (reply->Tunnels_0 matches Ok(
                tunnels,
            ) ==> (tunnels@.len() > 0 ==> r.call() == Some(
                Call::FindRecord { zone, name: tunnels@[0].name@ + "."@ + domain },
            )))
            &&& sweep.step matches SweepStep::DeleteTunnel { tunnels, at, .. } ==> (at + 1
                < tunnels@.len() && reply.refusal() is None ==> r.call() == Some(
                Call::FindRecord { zone, name: tunnels@[at + 1].name@ + "."@ + domain },
            ))
        }),
{
    if let SweepStep::DeleteTunnel { tunnels, .. } = sweep.step {
        assert(tunnels.len() == tunnels@.len());
    }
}

/// The count goes up by one with each deletion that is granted, and with nothing
/// else. Account, zone, domain and strictness stay.
pub proof fn granted_deletions_are_counted(sweep: Sweep, reply: Reply, r: Sweep)
    requires
        sweep.well_formed(),
        sweep.awaits(reply),
        sweep.removed < usize::MAX,
        call_ensures(Sweep::advance, (sweep, reply), r),
    ensures
        ({
            let deletes = sweep.call() is Some && (sweep.call()->0 is DeleteTunnel
                || sweep.call()->0 is DeleteRecord);
            r.removed == sweep.removed + (if deletes && reply.refusal() is None {
                1int
            } else {
                0int
            })
        }),
        r.account_id == sweep.account_id,
        r.zone_id == sweep.zone_id,
        r.domain == sweep.domain,
        r.strict == sweep.strict,
{
}

/// A cleanup begins with the tunnels that are down, in the account, the zone and
/// the domain that were given, and has removed nothing yet.
pub proof fn a_cleanup_begins_at_the_beginning(
    account: &str,
    zone: &str,
    domain: &str,
    strict: bool,
    r: Sweep,
)
    requires
        call_ensures(cleanup, (account, zone, domain, strict), r),
    ensures
        r.call() == Some(Call::ListTunnels { account: account@, status: "down"@ }),
        r.account_id@ == account@,
        r.zone_id@ == zone@,
        r.domain@ == domain@,
        r.strict == strict,
        r.removed == 0,
{
}

/// The sweep tells what it is about to remove when it comes to it: a dead tunnel
/// by name and status, an orphaned record by name. A status that cannot be listed
/// is told with the reason.
pub proof fn sweeps_tell_what_they_remove(sweep: Sweep, r: Option<Line>, error: Error, skip: Line)
    requires
        sweep.well_formed(),
        call_ensures(Sweep::notice, (&sweep,), r),
        call_ensures(skip_notice, (&error,), skip),
    ensures
        r is Some <==> sweep.step is FindRecord || sweep.step is DeleteOrphan,
        sweep.step matches SweepStep::FindRecord { status, tunnels, at } ==> r->0.says()[0].1
            == "  Removing dead tunnel \""@ + tunnels@[at as int].name@ + "\" ("@ + (
        match status {
            DeadStatus::Down => "down"@,
            DeadStatus::Inactive => "inactive"@,
            DeadStatus::Degraded => "degraded"@,
        }) + ")..."@,
        sweep.step matches SweepStep::DeleteOrphan { records, at } ==> r->0.says()[0].1
            == "  Removing orphaned DNS record "@ + records@[at as int].name@ + "..."@,
        skip.says().last() == (Style::Plain, " "@ + error.described()),
{
}

/// A sweep sends the request of its step: what it deletes is the record or the
/// tunnel at hand, and nothing is sent once it is over.
pub proof fn sweeps_send_their_requests(sweep: Sweep, api: CloudflareApi, r: Option<ApiRequest>)
    requires
        sweep.well_formed(),
        call_ensures(Sweep::request, (&sweep, &api), r),
    ensures
        ({
            let url = r->0.url@;
            let tunnels = api.base@ + ("/accounts/"@ + sweep.account_id@ + "/tunnels"@);
            let records = api.base@ + ("/zones/"@ + sweep.zone_id@ + "/dns_records"@);
            &&& r is None <==> sweep.step is Done || sweep.step is Failed
            &&& r is Some ==> r->0.token@ == api.token@
            &&& r is Some ==> (r->0.method == client::Method::Delete <==> sweep.step is DeleteRecord
                || sweep.step is CleanConnections || sweep.step is DeleteTunnel || sweep.step
                is DeleteOrphan)
            &&& sweep.step matches SweepStep::ListTunnels { status } ==> url =~= tunnels
                + "?is_deleted=false&status="@ + (match status {
                DeadStatus::Down => "down"@,
                DeadStatus::Inactive => "inactive"@,
                DeadStatus::Degraded => "degraded"@,
            })
            &&& sweep.step matches SweepStep::DeleteRecord { record_id, .. } ==> url =~= records
                + "/"@ + record_id@
            &&& sweep.step matches SweepStep::CleanConnections { tunnels: list, at, .. } ==> url
                =~= tunnels + "/"@ + list@[at as int].id@ + "/connections"@
            &&& sweep.step matches SweepStep::DeleteTunnel { tunnels: list, at, .. } ==> url
                =~= tunnels + "/"@ + list@[at as int].id@
            &&& sweep.step is ListRecords ==> url =~= records + "?type="@ + "CNAME"@
                + "&per_page=100"@
            &&& sweep.step matches SweepStep::CheckTunnel { records: list, at } ==> url + (
            ".cfargotunnel.com"@) =~= tunnels + "/"@ + list@[at as int].content@
            &&& sweep.step matches SweepStep::DeleteOrphan { records: list, at } ==> url =~= records
                + "/"@ + list@[at as int].id@
        }),
{
    if let SweepStep::CheckTunnel { records: list, at } = sweep.step {
        let content = list@[at as int].content@;
        assert(target_of(list@[at as int]) + ".cfargotunnel.com"@ =~= content);
    }
}

} // verus!
