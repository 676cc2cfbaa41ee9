//! The daemon's client: what a fire does, and which connection it does it on.
//!
//! A fire never fails towards its caller. Without a host it only says what it would have sent.
//! With one it connects or reuses a connection, and what comes back of that decides only whether
//! the connection is kept.

use vstd::prelude::*;
use vstd::string::*;

use crate::config::ConnectionStrategy;
use crate::text::contains;
use crate::time::Duration;
use crate::trigger::{Sensation, TriggerRequest};

verus! {

/// The state of the client: where the daemon is, and the connection to it that is kept.
///
/// `C` is a connection; the client keeps one and hands it out, no more.
#[derive(Debug)]
pub struct TriggerClient<C> {
    host: Option<String>,
    strategy: ConnectionStrategy,
    timeout: Duration,
    channel: Option<C>,
}

/// A [`TriggerClient`] with its host as a character sequence.
pub struct ClientView<C> {
    pub host: Option<Seq<char>>,
    pub strategy: ConnectionStrategy,
    pub timeout: Duration,
    pub channel: Option<C>,
}

/// What to do for a fire.
#[derive(Debug, Clone)]
pub enum FirePlan {
    /// There is no host: say what would have been sent.
    DryRun { sensation: String, backend_id: String, trace_id: String },
    /// Send on the connection that is kept.
    Reuse,
    /// Connect to `uri`, within `timeout`, and send on that connection in what is then left of it.
    /// Where the connection is to be kept, other fires wait for it.
    Connect { uri: String, timeout: Duration, keep: bool },
}

/// A [`FirePlan`] with its strings as character sequences.
pub enum PlanView {
    DryRun { sensation: Seq<char>, backend_id: Seq<char>, trace_id: Seq<char> },
    Reuse,
    Connect { uri: Seq<char>, timeout: Duration, keep: bool },
}

/// How a fire ended.
#[derive(Debug, Clone, Copy, PartialEq, Eq, Structural)]
pub enum FireOutcome {
    /// No connection was made.
    ConnectFailed,
    /// The daemon answered.
    Answered,
    /// The daemon, or the transport, returned an error.
    Rejected,
    /// No answer came in time.
    TimedOut,
}

impl<C> View for TriggerClient<C> {
    type V = ClientView<C>;

    closed spec fn view(&self) -> ClientView<C> {
        ClientView {
            host: match self.host {
                Some(h) => Some(h@),
                None => None,
            },
            strategy: self.strategy,
            timeout: self.timeout,
            channel: self.channel,
        }
    }
}

impl View for FirePlan {
    type V = PlanView;

    open spec fn view(&self) -> PlanView {
        match *self {
            FirePlan::DryRun { sensation, backend_id, trace_id } => PlanView::DryRun {
                sensation: sensation@,
                backend_id: backend_id@,
                trace_id: trace_id@,
            },
            FirePlan::Reuse => PlanView::Reuse,
            FirePlan::Connect { uri, timeout, keep } => PlanView::Connect {
                uri: uri@,
                timeout,
                keep,
            },
        }
    }
}

/// The address to connect to: `host` itself where it names a scheme, else plain HTTP.
pub open spec fn uri_of(host: Seq<char>) -> Seq<char> {
    if crate::text::occurs_in("://"@, host) {
        host
    } else {
        "http://"@ + host
    }
}

/// What a request plays, for the log.
pub open spec fn sensation_label(sensation: Option<Seq<char>>) -> Seq<char> {
    match sensation {
        Some(name) => name,
        None => "<inline>"@,
    }
}

impl<C> ClientView<C> {
    /// What holds between fires: a client that connects for each trigger keeps no connection.
    pub open spec fn wf(self) -> bool {
        self.strategy == ConnectionStrategy::PerTrigger ==> self.channel is None
    }

    /// What to do for a fire of `req`.
    pub open spec fn plan(self, req: crate::trigger::RequestView) -> PlanView {
        match self.host {
            None => PlanView::DryRun {
                sensation: sensation_label(req.sensation),
                backend_id: req.backend_id,
                trace_id: req.client_trace_id,
            },
            Some(host) => if self.strategy == ConnectionStrategy::Persistent && self.channel is Some {
                PlanView::Reuse
            } else {
                PlanView::Connect {
                    uri: uri_of(host),
                    timeout: self.timeout,
                    keep: self.strategy == ConnectionStrategy::Persistent,
                }
            },
        }
    }

    /// What is left for the call where connecting has taken `spent`: there is one limit for both.
    pub open spec fn left_after(self, spent: Duration) -> Duration {
        if spent.nanos < self.timeout.nanos {
            Duration { nanos: (self.timeout.nanos - spent.nanos) as u128 }
        } else {
            Duration { nanos: 0 }
        }
    }

    /// The client once a connection has been made.
    pub open spec fn connected(self, channel: C) -> ClientView<C> {
        match self.strategy {
            ConnectionStrategy::Persistent => ClientView { channel: Some(channel), ..self },
            ConnectionStrategy::PerTrigger => self,
        }
    }

    /// The client once a fire has ended.
    pub open spec fn finished(self, outcome: FireOutcome) -> ClientView<C> {
        match (self.strategy, outcome) {
            (
                ConnectionStrategy::Persistent,
                FireOutcome::Rejected | FireOutcome::TimedOut,
            ) => ClientView { channel: None, ..self },
            _ => self,
        }
    }
}

/// The address to connect to for `host`.
pub fn endpoint_uri(host: &str) -> (r: String)
    ensures
        r@ == uri_of(host@),
{
    if contains(host, "://") {
        host.to_owned()
    } else {
        let mut r = "http://".to_owned();
        r.append(host);
        r
    }
}

/// What `req` plays, for the log.
pub fn sensation_name(req: &TriggerRequest) -> (r: String)
    ensures
        r@ == sensation_label(req@.sensation),
{
    match &req.sensation {
        Some(Sensation::SensationName(name)) => name.clone(),
        None => "<inline>".to_owned(),
    }
}

impl<C> TriggerClient<C> {
    /// A client that keeps no connection yet. Without a host it never makes one.
    pub fn new(host: Option<String>, strategy: ConnectionStrategy, timeout: Duration) -> (r:
        TriggerClient<C>)
        ensures
            r@.host == (match host {
                Some(h) => Some(h@),
                None => None,
            }),
            r@.strategy == strategy,
            r@.timeout == timeout,
            r@.channel is None,
            r@.wf(),
    {
        TriggerClient { host, strategy, timeout, channel: None }
    }

    /// Whether the client never sends anything.
    pub fn is_dry_run(&self) -> (r: bool)
        ensures
            r == (self@.host is None),
    {
        self.host.is_none()
    }

    /// The limit on a fire: on connecting and the call together.
    pub fn timeout(&self) -> (r: Duration)
        ensures
            r == self@.timeout,
    {
        self.timeout
    }

    /// What is left for the call where connecting has taken `spent`, nothing where that was the
    /// whole limit or more. On a connection that was there already nothing was spent.
    pub fn call_timeout(&self, spent: Duration) -> (r: Duration)
        ensures
            r == self@.left_after(spent),
    {
        if spent.nanos < self.timeout.nanos {
            Duration { nanos: self.timeout.nanos - spent.nanos }
        } else {
            Duration { nanos: 0 }
        }
    }

    /// The connection that is kept, if any.
    pub fn channel(&self) -> (r: Option<&C>)
        ensures
            match r {
                Some(c) => self@.channel == Some(*c),
                None => self@.channel is None,
            },
    {
        match &self.channel {
            Some(c) => Some(c),
            None => None,
        }
    }

    /// What to do for a fire of `req`.
    pub fn fire(&self, req: &TriggerRequest) -> (r: FirePlan)
        ensures
            r@ == self@.plan(req@),
    {
        let host = match &self.host {
            Some(h) => h,
            None => {
                return FirePlan::DryRun {
                    sensation: sensation_name(req),
                    backend_id: req.backend_id.clone(),
                    trace_id: req.client_trace_id.clone(),
                };
            },
        };
        let keep = match self.strategy {
            ConnectionStrategy::PerTrigger => false,
            ConnectionStrategy::Persistent => {
                if self.channel.is_some() {
                    return FirePlan::Reuse;
                }
                true
            },
        };
        FirePlan::Connect { uri: endpoint_uri(host.as_str()), timeout: self.timeout, keep }
    }

    /// Take note of a connection that was made for a fire.
    pub fn connected(&mut self, channel: C)
        ensures
            final(self)@ == old(self)@.connected(channel),
    {
        match self.strategy {
            ConnectionStrategy::PerTrigger => {},
            ConnectionStrategy::Persistent => {
                self.channel = Some(channel);
            },
        }
    }

    /// Take note of how a fire ended: after an error or a timeout the connection is not used
    /// again.
    pub fn finished(&mut self, outcome: FireOutcome)
        ensures
            final(self)@ == old(self)@.finished(outcome),
    {
        match outcome {
            FireOutcome::ConnectFailed | FireOutcome::Answered => {},
            FireOutcome::Rejected | FireOutcome::TimedOut => match self.strategy {
                ConnectionStrategy::PerTrigger => {},
                ConnectionStrategy::Persistent => {
                    self.channel = None;
                },
            },
        }
    }
}

/// A fire has one limit: connecting within it and the call in what is left take no longer
/// together, and a call on a connection that was there already has all of it.
pub proof fn law_one_limit_per_trigger<C>(c: ClientView<C>, spent: Duration, call: Duration)
    requires
        call.nanos <= c.left_after(spent).nanos,
    ensures
        spent.nanos <= c.timeout.nanos ==> spent.nanos + call.nanos <= c.timeout.nanos,
        spent.nanos <= c.timeout.nanos ==> spent.nanos + c.left_after(spent).nanos
            == c.timeout.nanos,
        spent.nanos >= c.timeout.nanos ==> call.nanos == 0,
        spent.nanos == 0 ==> c.left_after(spent) == c.timeout,
{
}

/// Without a host nothing is ever sent, whatever happened before.
pub proof fn law_dry_run_never_connects<C>(c: ClientView<C>, req: crate::trigger::RequestView)
    requires
        c.host is None,
    ensures
        c.plan(req) is DryRun,
        forall|channel: C| (#[trigger] c.connected(channel)).host is None,
        forall|outcome: FireOutcome| (#[trigger] c.finished(outcome)).host is None,
{
}

/// A client that connects for each trigger keeps no connection, and connects every time.
pub proof fn law_per_trigger_always_connects<C>(c: ClientView<C>, req: crate::trigger::RequestView)
    requires
        c.wf(),
        c.strategy == ConnectionStrategy::PerTrigger,
        c.host is Some,
    ensures
        c.plan(req) is Connect,
        forall|channel: C| #[trigger] c.connected(channel) == c,
        forall|outcome: FireOutcome| #[trigger] c.finished(outcome) == c,
{
}

/// Every step keeps what holds between fires.
pub proof fn law_client_stays_well_formed<C>(c: ClientView<C>, channel: C, outcome: FireOutcome)
    requires
        c.wf(),
    ensures
        c.connected(channel).wf(),
        c.finished(outcome).wf(),
{
}

/// A persistent client goes on using the connection that it made, until a fire on it fails; then
/// the next fire connects from scratch.
pub proof fn law_persistent_keeps_until_failure<C>(
    c: ClientView<C>,
    channel: C,
    outcome: FireOutcome,
    next: crate::trigger::RequestView,
)
    requires
        c.strategy == ConnectionStrategy::Persistent,
        c.host is Some,
    ensures
        outcome == FireOutcome::Answered ==> {
            &&& c.connected(channel).finished(outcome).channel == Some(channel)
            &&& c.connected(channel).finished(outcome).plan(next) is Reuse
        },
        outcome == FireOutcome::Rejected || outcome == FireOutcome::TimedOut
            ==> c.connected(channel).finished(outcome).plan(next) is Connect,
        c.finished(FireOutcome::ConnectFailed) == c,
{
}

/// A fire goes to the host that was given, under plain HTTP unless the host names a scheme.
pub proof fn law_a_host_is_its_own_address(host: Seq<char>)
    ensures
        (exists|front: Seq<char>, back: Seq<char>| host == #[trigger] (front + "://"@ + back))
            ==> uri_of(host) == host,
        !(exists|front: Seq<char>, back: Seq<char>| host == #[trigger] (front + "://"@ + back))
            ==> uri_of(host) == "http://"@ + host,
{
    crate::text::law_occurs_between("://"@, host);
}

/// With a host a fire is sent: on the connection that is kept, exactly where a persistent client
/// has one, else on a new one to that host, within the limit, which is kept exactly by a persistent
/// client.
pub proof fn law_a_fire_is_sent<C>(
    c: ClientView<C>,
    host: Seq<char>,
    req: crate::trigger::RequestView,
)
    requires
        c.host == Some(host),
    ensures
        c.plan(req) is Reuse <==> c.strategy == ConnectionStrategy::Persistent && c.channel is Some,
        !(c.plan(req) is Reuse) ==> c.plan(req) == (PlanView::Connect {
            uri: uri_of(host),
            timeout: c.timeout,
            keep: c.strategy == ConnectionStrategy::Persistent,
        }),
{
}

/// Without a host a fire is said and nothing more: what it would have played, where, and its trace
/// id.
pub proof fn law_a_dry_run_says_the_request<C>(c: ClientView<C>, req: crate::trigger::RequestView)
    requires
        c.host is None,
    ensures
        c.plan(req) matches PlanView::DryRun { sensation, backend_id, trace_id } && {
            &&& backend_id == req.backend_id
            &&& trace_id == req.client_trace_id
            &&& req.sensation matches Some(name) ==> sensation == name
            &&& req.sensation is None ==> sensation == "<inline>"@
        },
{
}

/// Nothing that happens changes where a client sends, how and within which time; only the
/// connection comes and goes. It goes exactly with an error or a timeout of a persistent client,
/// and it comes only to a persistent one.
pub proof fn law_only_the_connection_changes<C>(
    c: ClientView<C>,
    channel: C,
    outcome: FireOutcome,
)
    ensures
        c.connected(channel).host == c.host,
        c.connected(channel).strategy == c.strategy,
        c.connected(channel).timeout == c.timeout,
        c.finished(outcome).host == c.host,
        c.finished(outcome).strategy == c.strategy,
        c.finished(outcome).timeout == c.timeout,
        c.strategy == ConnectionStrategy::Persistent ==> c.connected(channel).channel == Some(
            channel,
        ),
        c.strategy == ConnectionStrategy::PerTrigger ==> c.connected(channel).channel == c.channel
            && c.finished(outcome).channel == c.channel,
        outcome == FireOutcome::Answered || outcome == FireOutcome::ConnectFailed ==> c.finished(
            outcome,
        ).channel == c.channel,
        c.strategy == ConnectionStrategy::Persistent && (outcome == FireOutcome::Rejected || outcome
            == FireOutcome::TimedOut) ==> c.finished(outcome).channel is None,
{
}

/// What is known of a plan is what it says, field by field.
pub proof fn law_a_plan_is_seen_whole(plan: FirePlan)
    ensures
        plan matches FirePlan::DryRun { sensation, backend_id, trace_id } ==> plan@
            == (PlanView::DryRun {
            sensation: sensation@,
            backend_id: backend_id@,
            trace_id: trace_id@,
        }),
        plan is Reuse <==> plan@ is Reuse,
        plan matches FirePlan::Connect { uri, timeout, keep } ==> plan@ == (PlanView::Connect {
            uri: uri@,
            timeout,
            keep,
        }),
{
}

} // verus!
