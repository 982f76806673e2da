use crate::command::{RedisCommand, RedisCommandKind, RedisCommandView};
use crate::error::{RedisError, RedisErrorKind, RedisErrorView};
use crate::reply::{Reply, ReplyView};
use vstd::prelude::*;

verus! {

/// The operation that the scan of one seed waits for.
#[derive(Clone, Copy, Debug, PartialEq, Eq, Structural)]
pub enum SeedPhase {
    /// The host's address is being resolved.
    Resolving,
    /// An authenticated connection to the node is being set up.
    Connecting,
    /// The topology request is out and its reply is awaited.
    Querying,
    /// The topology text is being parsed.
    Parsing,
}

/// What the operation that the scan waited for gave. `C` is the routing
/// cache that the parser builds.
pub enum SeedEvent<C> {
    /// The operation failed.
    Failed,
    /// The host has an address.
    Resolved,
    /// The connection is set up.
    Connected,
    /// The node answered the topology request.
    Replied(Reply),
    /// The parser built a routing cache from the text.
    Parsed(C),
}

/// An event in contracts.
pub enum SeedEventView<C> {
    Failed,
    Resolved,
    Connected,
    Replied(ReplyView),
    Parsed(C),
}

impl<C> View for SeedEvent<C> {
    type V = SeedEventView<C>;

    open spec fn view(&self) -> SeedEventView<C> {
        match self {
            SeedEvent::Failed => SeedEventView::Failed,
            SeedEvent::Resolved => SeedEventView::Resolved,
            SeedEvent::Connected => SeedEventView::Connected,
            SeedEvent::Replied(reply) => SeedEventView::Replied(reply@),
            SeedEvent::Parsed(cache) => SeedEventView::Parsed(*cache),
        }
    }
}

/// An operation that the scan asks for.
#[derive(Debug)]
pub enum SeedAction {
    /// Resolve the host and port to an address.
    Resolve { host: String, port: u16 },
    /// Set up an authenticated connection to the address: an encrypted one
    /// whose certificate carries the given name, or a plain one.
    Connect { domain: Option<String> },
    /// Send the request and read one reply.
    Query(RedisCommand),
    /// Parse the topology text into a routing cache.
    Parse(String),
}

/// An action in contracts.
pub enum SeedActionView {
    Resolve { host: Seq<char>, port: u16 },
    Connect { domain: Option<Seq<char>> },
    Query(RedisCommandView),
    Parse(Seq<char>),
}

impl View for SeedAction {
    type V = SeedActionView;

    open spec fn view(&self) -> SeedActionView {
        match self {
            SeedAction::Resolve { host, port } => SeedActionView::Resolve { host: host@, port: *port },
            SeedAction::Connect { domain: Some(domain) } => SeedActionView::Connect {
                domain: Some(domain@),
            },
            SeedAction::Connect { domain: None } => SeedActionView::Connect { domain: None },
            SeedAction::Query(request) => SeedActionView::Query(request@),
            SeedAction::Parse(text) => SeedActionView::Parse(text@),
        }
    }
}

/// How the scan of one seed goes on.
pub enum SeedStep<C> {
    /// Perform the action and come back in the given phase.
    Continue(SeedPhase, SeedAction),
    /// The seed gave a routing cache.
    Found(C),
    /// The seed is given up.
    Abandon,
}

/// A step of one seed in contracts.
pub enum SeedStepView<C> {
    Continue(SeedPhase, SeedActionView),
    Found(C),
    Abandon,
}

impl<C> View for SeedStep<C> {
    type V = SeedStepView<C>;

    open spec fn view(&self) -> SeedStepView<C> {
        match self {
            SeedStep::Continue(phase, action) => SeedStepView::Continue(*phase, action@),
            SeedStep::Found(cache) => SeedStepView::Found(*cache),
            SeedStep::Abandon => SeedStepView::Abandon,
        }
    }
}

/// The request for the cluster's topology.
pub open spec fn topology_request() -> RedisCommandView {
    RedisCommandView { kind: RedisCommandKind::ClusterNodes, args: seq![], attempted: 0 }
}

/// The topology text in a reply: the text of a reply that is no error and
/// carries one.
pub open spec fn topology_text_of(reply: ReplyView) -> Option<Seq<char>> {
    if reply.is_error() {
        None
    } else {
        reply.text()
    }
}

/// The step of one seed that follows an event.
///
/// Each operation that succeeds leads to the next: resolve, connect, query,
/// parse. A reply leads to the parser only if it is no error and carries
/// text. A failure, or an event that does not answer the pending operation,
/// gives the seed up.
pub open spec fn seed_after<C>(
    host: Seq<char>,
    uses_tls: bool,
    phase: SeedPhase,
    event: SeedEventView<C>,
) -> SeedStepView<C> {
    match (phase, event) {
        (SeedPhase::Resolving, SeedEventView::Resolved) => SeedStepView::Continue(
            SeedPhase::Connecting,
            SeedActionView::Connect { domain: if uses_tls { Some(host) } else { None } },
        ),
        (SeedPhase::Connecting, SeedEventView::Connected) => SeedStepView::Continue(
            SeedPhase::Querying,
            SeedActionView::Query(topology_request()),
        ),
        (SeedPhase::Querying, SeedEventView::Replied(reply)) => match topology_text_of(reply) {
            Some(text) => SeedStepView::Continue(SeedPhase::Parsing, SeedActionView::Parse(text)),
            None => SeedStepView::Abandon,
        },
        (SeedPhase::Parsing, SeedEventView::Parsed(cache)) => SeedStepView::Found(cache),
        _ => SeedStepView::Abandon,
    }
}

/// The topology text in a reply, if the reply is no error and carries text.
pub fn topology_text(reply: &Reply) -> (text: Option<String>)
    ensures
        text is Some <==> topology_text_of(reply@) is Some,
        text is Some ==> text->0@ == topology_text_of(reply@)->0,
{
    if reply.is_error() {
        return None;
    }
    reply.to_string()
}

/// Takes what the pending operation on one seed gave and says how the scan
/// of that seed goes on.
pub fn read_cluster_state<C>(host: &str, uses_tls: bool, phase: SeedPhase, event: SeedEvent<C>) -> (step:
    SeedStep<C>)
    ensures
        step@ == seed_after(host@, uses_tls, phase, event@),
{
    match event {
        SeedEvent::Resolved => match phase {
            SeedPhase::Resolving => {
                let domain = if uses_tls {
                    Some(String::from_str(host))
                } else {
                    None
                };
                SeedStep::Continue(SeedPhase::Connecting, SeedAction::Connect { domain })
            },
            _ => SeedStep::Abandon,
        },
        SeedEvent::Connected => match phase {
            SeedPhase::Connecting => {
                let request = RedisCommand::new(RedisCommandKind::ClusterNodes, Vec::new());
                assert(request@.args =~= seq![]);
                SeedStep::Continue(SeedPhase::Querying, SeedAction::Query(request))
            },
            _ => SeedStep::Abandon,
        },
        SeedEvent::Replied(reply) => match phase {
            SeedPhase::Querying => match topology_text(&reply) {
                Some(text) => SeedStep::Continue(SeedPhase::Parsing, SeedAction::Parse(text)),
                None => SeedStep::Abandon,
            },
            _ => SeedStep::Abandon,
        },
        SeedEvent::Parsed(cache) => match phase {
            SeedPhase::Parsing => SeedStep::Found(cache),
            _ => SeedStep::Abandon,
        },
        SeedEvent::Failed => SeedStep::Abandon,
    }
}

/// A scan of the seeds of a cluster, one seed at a time and in the
/// configured order, between two operations.
pub struct Discovery {
    seeds: Vec<(String, u16)>,
    uses_tls: bool,
    index: usize,
    phase: SeedPhase,
}

/// A scan in contracts: the seeds as host and port, whether the nodes are
/// reached over encrypted transports, the position of the seed that is being
/// tried, and the operation that is awaited on it.
pub struct DiscoveryView {
    pub seeds: Seq<(Seq<char>, u16)>,
    pub uses_tls: bool,
    pub index: nat,
    pub phase: SeedPhase,
}

impl DiscoveryView {
    /// The seed that is being tried is one of the seeds.
    pub open spec fn wf(self) -> bool {
        self.index < self.seeds.len()
    }
}

/// The seeds as host and port.
pub open spec fn seeds_view(seeds: Seq<(String, u16)>) -> Seq<(Seq<char>, u16)> {
    Seq::new(seeds.len(), |i: int| (seeds[i].0@, seeds[i].1))
}

impl View for Discovery {
    type V = DiscoveryView;

    closed spec fn view(&self) -> DiscoveryView {
        DiscoveryView {
            seeds: seeds_view(self.seeds@),
            uses_tls: self.uses_tls,
            index: self.index as nat,
            phase: self.phase,
        }
    }
}

/// How the scan goes on.
pub enum DiscoveryStep<C> {
    /// Perform the action and come back with what it gave.
    Continue(Discovery, SeedAction),
    /// A seed gave a routing cache: the scan is over.
    Found(C),
    /// No seed is left: the scan failed.
    Failed(RedisError),
}

/// A step of the scan in contracts.
pub enum DiscoveryStepView<C> {
    Continue(DiscoveryView, SeedActionView),
    Found(C),
    Failed(RedisErrorView),
}

impl<C> View for DiscoveryStep<C> {
    type V = DiscoveryStepView<C>;

    open spec fn view(&self) -> DiscoveryStepView<C> {
        match self {
            DiscoveryStep::Continue(scan, action) => DiscoveryStepView::Continue(scan@, action@),
            DiscoveryStep::Found(cache) => DiscoveryStepView::Found(*cache),
            DiscoveryStep::Failed(e) => DiscoveryStepView::Failed(e@),
        }
    }
}

/// The error of a scan in which no seed gave a routing cache.
pub open spec fn cluster_unreachable() -> RedisErrorView {
    RedisErrorView {
        kind: RedisErrorKind::Unknown,
        details: "Could not read cluster state from any known node in the cluster."@,
    }
}

/// The action that starts the scan of the seed at `index`.
pub open spec fn resolve_seed(seeds: Seq<(Seq<char>, u16)>, index: int) -> SeedActionView {
    SeedActionView::Resolve { host: seeds[index].0, port: seeds[index].1 }
}

/// The step that gives the current seed up: the scan moves to the seed that
/// follows, and fails when there is none.
pub open spec fn next_seed<C>(scan: DiscoveryView) -> DiscoveryStepView<C> {
    if scan.index + 1 < scan.seeds.len() {
        DiscoveryStepView::Continue(
            DiscoveryView { index: scan.index + 1, phase: SeedPhase::Resolving, ..scan },
            resolve_seed(scan.seeds, scan.index as int + 1),
        )
    } else {
        DiscoveryStepView::Failed(cluster_unreachable())
    }
}

/// The step of the scan that follows an event: that of the current seed, as
/// long as the seed is not given up.
pub open spec fn discovery_after<C>(scan: DiscoveryView, event: SeedEventView<C>) -> DiscoveryStepView<C> {
    match seed_after(scan.seeds[scan.index as int].0, scan.uses_tls, scan.phase, event) {
        SeedStepView::Continue(phase, action) => DiscoveryStepView::Continue(
            DiscoveryView { phase, ..scan },
            action,
        ),
        SeedStepView::Found(cache) => DiscoveryStepView::Found(cache),
        SeedStepView::Abandon => next_seed(scan),
    }
}

fn unreachable_error() -> (e: RedisError)
    ensures
        e@ == cluster_unreachable(),
{
    RedisError::new(
        RedisErrorKind::Unknown,
        String::from_str("Could not read cluster state from any known node in the cluster."),
    )
}

/// Starts a scan of the given seeds. The action that comes back resolves the
/// first seed. Without seeds the scan has failed before it starts.
pub fn read_cluster_nodes(seeds: Vec<(String, u16)>, uses_tls: bool) -> (res: Result<
    (Discovery, SeedAction),
    RedisError,
>)
    ensures
        seeds.len() == 0 ==> res is Err && res->Err_0@ == cluster_unreachable(),
        seeds.len() > 0 ==> res is Ok && res->Ok_0.0@ == (DiscoveryView {
            seeds: seeds_view(seeds@),
            uses_tls,
            index: 0,
            phase: SeedPhase::Resolving,
        }) && res->Ok_0.1@ == resolve_seed(seeds_view(seeds@), 0),
{
    if seeds.len() == 0 {
        return Err(unreachable_error());
    }
    let action = SeedAction::Resolve { host: seeds[0].0.clone(), port: seeds[0].1 };
    Ok((Discovery { seeds, uses_tls, index: 0, phase: SeedPhase::Resolving }, action))
}

impl Discovery {
    #[verifier::type_invariant]
    spec fn inv(self) -> bool {
        self.index < self.seeds.len()
    }

    /// The host of the seed that is being tried.
    pub fn host(&self) -> (host: &str)
        ensures
            self@.wf(),
            host@ == self@.seeds[self@.index as int].0,
    {
        proof {
            use_type_invariant(self);
        }
        self.seeds[self.index].0.as_str()
    }

    /// The port of the seed that is being tried.
    pub fn port(&self) -> (port: u16)
        ensures
            self@.wf(),
            port == self@.seeds[self@.index as int].1,
    {
        proof {
            use_type_invariant(self);
        }
        self.seeds[self.index].1
    }

    /// Takes what the pending operation gave and says how the scan goes on.
    pub fn advance<C>(self, event: SeedEvent<C>) -> (step: DiscoveryStep<C>)
        ensures
            self@.wf(),
            step@ == discovery_after(self@, event@),
    {
        proof {
            use_type_invariant(&self);
        }
        let seed_step = read_cluster_state(
            self.seeds[self.index].0.as_str(),
            self.uses_tls,
            self.phase,
            event,
        );
        match seed_step {
            SeedStep::Continue(phase, action) => {
                let Discovery { seeds, uses_tls, index, phase: _ } = self;
                DiscoveryStep::Continue(Discovery { seeds, uses_tls, index, phase }, action)
            },
            SeedStep::Found(cache) => DiscoveryStep::Found(cache),
            SeedStep::Abandon => {
                let Discovery { seeds, uses_tls, index, phase: _ } = self;
                let next = index + 1;
                if next < seeds.len() {
                    let action = SeedAction::Resolve { host: seeds[next].0.clone(), port: seeds[next].1 };
                    DiscoveryStep::Continue(
                        Discovery { seeds, uses_tls, index: next, phase: SeedPhase::Resolving },
                        action,
                    )
                } else {
                    DiscoveryStep::Failed(unreachable_error())
                }
            },
        }
    }
}

/// How a run of the scan stopped.
pub enum DiscoveryEnd<C> {
    /// A seed gave a routing cache.
    Found(C),
    /// No seed is left.
    Failed(RedisErrorView),
    /// An operation is out and what it gives has not come.
    Waiting,
}

/// A run of the scan: the actions that it asked for, in order, the position
/// of the seed at which it stopped, and how it stopped.
pub struct DiscoveryRun<C> {
    pub actions: Seq<SeedActionView>,
    pub last: nat,
    pub end: DiscoveryEnd<C>,
}

/// The run that follows from a scan on the given events, one for each
/// action.
pub open spec fn run_after<C>(scan: DiscoveryView, events: Seq<SeedEventView<C>>) -> DiscoveryRun<C>
    decreases events.len(),
{
    if events.len() == 0 {
        DiscoveryRun { actions: seq![], last: scan.index, end: DiscoveryEnd::Waiting }
    } else {
        match discovery_after(scan, events[0]) {
            DiscoveryStepView::Continue(next, action) => {
                let rest = run_after(next, events.drop_first());
                DiscoveryRun { actions: seq![action] + rest.actions, last: rest.last, end: rest.end }
            },
            DiscoveryStepView::Found(cache) => DiscoveryRun {
                actions: seq![],
                last: scan.index,
                end: DiscoveryEnd::Found(cache),
            },
            DiscoveryStepView::Failed(e) => DiscoveryRun {
                actions: seq![],
                last: scan.index,
                end: DiscoveryEnd::Failed(e),
            },
        }
    }
}

/// The scan as it starts on the given seeds.
pub open spec fn first_scan(seeds: Seq<(Seq<char>, u16)>, uses_tls: bool) -> DiscoveryView {
    DiscoveryView { seeds, uses_tls, index: 0, phase: SeedPhase::Resolving }
}

/// The whole run of a scan of the given seeds, of which there is at least
/// one, on the given events.
pub open spec fn discovery_run<C>(
    seeds: Seq<(Seq<char>, u16)>,
    uses_tls: bool,
    events: Seq<SeedEventView<C>>,
) -> DiscoveryRun<C> {
    let rest = run_after(first_scan(seeds, uses_tls), events);
    DiscoveryRun { actions: seq![resolve_seed(seeds, 0)] + rest.actions, last: rest.last, end: rest.end }
}

/// The seeds that a sequence of actions tries, one for each `Resolve`, in
/// the order of the actions.
pub open spec fn attempted(actions: Seq<SeedActionView>) -> Seq<(Seq<char>, u16)>
    decreases actions.len(),
{
    if actions.len() == 0 {
        seq![]
    } else {
        let rest = attempted(actions.drop_first());
        match actions[0] {
            SeedActionView::Resolve { host, port } => seq![(host, port)] + rest,
            _ => rest,
        }
    }
}

proof fn lemma_attempted_first(action: SeedActionView, rest: Seq<SeedActionView>)
    ensures
        attempted(seq![action] + rest) == match action {
            SeedActionView::Resolve { host, port } => seq![(host, port)] + attempted(rest),
            _ => attempted(rest),
        },
{
    assert((seq![action] + rest).drop_first() =~= rest);
}

/// In every run the seeds are tried one after the other from the seed that
/// follows the current one up to the seed at which the run stopped: none is
/// skipped, none is tried twice, and none is tried after the run has
/// stopped. A run that failed stopped at the last seed, with the error
/// that says that no node could be reached.
pub proof fn lemma_run_order<C>(scan: DiscoveryView, events: Seq<SeedEventView<C>>)
    requires
        scan.wf(),
    ensures
        scan.index <= run_after(scan, events).last < scan.seeds.len(),
        attempted(run_after(scan, events).actions) == scan.seeds.subrange(
            scan.index as int + 1,
            run_after(scan, events).last as int + 1,
        ),
        run_after(scan, events).end is Failed ==> run_after(scan, events).last + 1
            == scan.seeds.len() && run_after(scan, events).end->Failed_0 == cluster_unreachable(),
    decreases events.len(),
{
    let run = run_after(scan, events);
    if events.len() == 0 {
        assert(attempted(run.actions) =~= scan.seeds.subrange(scan.index as int + 1, run.last as int + 1));
    } else {
        match discovery_after(scan, events[0]) {
            DiscoveryStepView::Continue(next, action) => {
                let rest = run_after(next, events.drop_first());
                lemma_run_order(next, events.drop_first());
                lemma_attempted_first(action, rest.actions);
                assert(attempted(run.actions) =~= scan.seeds.subrange(scan.index as int + 1, run.last as int + 1));
            },
            DiscoveryStepView::Found(_) => {
                assert(attempted(run.actions) =~= scan.seeds.subrange(scan.index as int + 1, run.last as int + 1));
            },
            DiscoveryStepView::Failed(_) => {
                assert(attempted(run.actions) =~= scan.seeds.subrange(scan.index as int + 1, run.last as int + 1));
            },
        }
    }
}

/// A scan tries its seeds in the configured order, each at most once, and
/// no seed after the one at which it stopped.
pub proof fn lemma_seeds_in_order<C>(
    seeds: Seq<(Seq<char>, u16)>,
    uses_tls: bool,
    events: Seq<SeedEventView<C>>,
)
    requires
        seeds.len() > 0,
    ensures
        discovery_run(seeds, uses_tls, events).last < seeds.len(),
        attempted(discovery_run(seeds, uses_tls, events).actions) == seeds.subrange(
            0,
            discovery_run(seeds, uses_tls, events).last as int + 1,
        ),
{
    let scan = first_scan(seeds, uses_tls);
    let rest = run_after(scan, events);
    lemma_run_order(scan, events);
    lemma_attempted_first(resolve_seed(seeds, 0), rest.actions);
    assert(attempted(discovery_run(seeds, uses_tls, events).actions) =~= seeds.subrange(
        0,
        rest.last as int + 1,
    ));
}

/// A scan that failed has tried every seed exactly once, in the configured
/// order, and reports that no node could be reached.
pub proof fn lemma_failed_scan_tried_all<C>(
    seeds: Seq<(Seq<char>, u16)>,
    uses_tls: bool,
    events: Seq<SeedEventView<C>>,
)
    requires
        seeds.len() > 0,
        discovery_run(seeds, uses_tls, events).end is Failed,
    ensures
        attempted(discovery_run(seeds, uses_tls, events).actions) == seeds,
        discovery_run(seeds, uses_tls, events).end->Failed_0 == cluster_unreachable(),
{
    lemma_seeds_in_order(seeds, uses_tls, events);
    lemma_run_order(first_scan(seeds, uses_tls), events);
    assert(seeds.subrange(0, seeds.len() as int) =~= seeds);
}

/// A scan finds only what the parser built: a run in which no text was
/// parsed with success does not end with a routing cache.
pub proof fn lemma_found_was_parsed<C>(scan: DiscoveryView, events: Seq<SeedEventView<C>>)
    requires
        scan.wf(),
        forall|i: int| 0 <= i < events.len() ==> !(#[trigger] events[i] is Parsed),
    ensures
        !(run_after(scan, events).end is Found),
    decreases events.len(),
{
    if events.len() > 0 {
        match discovery_after(scan, events[0]) {
            DiscoveryStepView::Continue(next, _) => {
                let rest = events.drop_first();
                assert forall|i: int| 0 <= i < rest.len() implies !(#[trigger] rest[i] is Parsed) by {
                    assert(rest[i] == events[i + 1]);
                }
                lemma_found_was_parsed(next, rest);
            },
            _ => {},
        }
    }
}

/// A run that ends with a routing cache ends at the event that brought it:
/// every earlier event was answered with one action, that event is the
/// parser's success with the same cache, and no action follows it.
pub proof fn lemma_found_at_parse<C>(scan: DiscoveryView, events: Seq<SeedEventView<C>>)
    requires
        scan.wf(),
        run_after(scan, events).end is Found,
    ensures
        run_after(scan, events).actions.len() < events.len(),
        events[run_after(scan, events).actions.len() as int] == SeedEventView::Parsed(
            run_after(scan, events).end->Found_0,
        ),
    decreases events.len(),
{
    if events.len() > 0 {
        match discovery_after(scan, events[0]) {
            DiscoveryStepView::Continue(next, action) => {
                let rest = events.drop_first();
                lemma_found_at_parse(next, rest);
                let n = run_after(next, rest).actions.len();
                assert(rest[n as int] == events[n as int + 1]);
            },
            _ => {},
        }
    }
}

/// The event that reports what the parser made of a text.
pub open spec fn parse_event<C>(parsed: Option<C>) -> SeedEventView<C> {
    match parsed {
        Some(cache) => SeedEventView::Parsed(cache),
        None => SeedEventView::Failed,
    }
}

/// The scan hands the parser's cache on as it is. Two scans that wait for
/// the parser and are told what it made of the same text end alike,
/// whatever their seeds are: both with the cache that the parser built, or
/// both without one.
pub proof fn lemma_cache_is_the_parsers<C>(
    parse: spec_fn(Seq<char>) -> Option<C>,
    text: Seq<char>,
    first: DiscoveryView,
    second: DiscoveryView,
)
    requires
        first.wf(),
        second.wf(),
        first.phase == SeedPhase::Parsing,
        second.phase == SeedPhase::Parsing,
    ensures
        parse(text) is Some ==> discovery_after(first, parse_event(parse(text)))
            == DiscoveryStepView::Found(parse(text)->0),
        parse(text) is Some ==> discovery_after(second, parse_event(parse(text)))
            == DiscoveryStepView::Found(parse(text)->0),
        parse(text) is None ==> !(discovery_after(first, parse_event(parse(text))) is Found) && !(
        discovery_after(second, parse_event(parse(text))) is Found),
{
}

/// A seed on which every operation fails is given up after one event, and
/// the scan asks to resolve the seed that follows, or fails after the last.
pub proof fn lemma_failure_moves_on<C>(scan: DiscoveryView)
    requires
        scan.wf(),
    ensures
        discovery_after::<C>(scan, SeedEventView::Failed) == next_seed::<C>(scan),
{
}

} // verus!
