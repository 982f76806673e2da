use crate::command::{RedisCommand, RedisCommandView};
use crate::connection::{
    after_response, authenticate, credential_request, first_step, is_ok_reply, naming_request,
    request_response, response_view, step_request, AuthOutcome, AuthOutcomeView, AuthStep,
    Authenticator, Response, ResponseView,
};
use crate::error::{RedisError, RedisErrorKind, RedisErrorView};
use crate::reply::ReplyView;
use crate::text::{optional_text, server_label, server_label_text};
use vstd::prelude::*;

verus! {

/// The connection state that a client shows to its users.
#[derive(Clone, Copy, Debug, PartialEq, Eq, Structural)]
pub enum ClientState {
    Disconnected,
    Connecting,
    Connected,
    Disconnecting,
}

/// Where the setup of a connection stands, with the credential as long as
/// it has not been sent.
pub enum SetupPhase {
    /// The socket is being opened.
    Connecting(Option<Seq<char>>),
    /// The encrypted session is being negotiated over the open socket.
    Handshaking(Option<Seq<char>>),
    /// The request of the given step is out and its reply is awaited.
    Authenticating(AuthStep),
}

enum Phase {
    Connecting { name: String, key: Option<String> },
    Handshaking { name: String, key: Option<String> },
    Authenticating(Authenticator),
}

/// The setup of one connection: the operations that lead from an address to
/// an authenticated transport, one at a time.
pub struct ConnectionSetup {
    server: String,
    domain: Option<String>,
    phase: Phase,
}

/// A setup in contracts: the server's label, the name that the certificate
/// must carry if the transport is encrypted, the client's name, and the
/// phase.
pub struct ConnectionSetupView {
    pub server: Seq<char>,
    pub domain: Option<Seq<char>>,
    pub name: Seq<char>,
    pub phase: SetupPhase,
}

impl View for ConnectionSetup {
    type V = ConnectionSetupView;

    closed spec fn view(&self) -> ConnectionSetupView {
        ConnectionSetupView {
            server: self.server@,
            domain: optional_text(self.domain),
            name: match self.phase {
                Phase::Connecting { name, .. } => name@,
                Phase::Handshaking { name, .. } => name@,
                Phase::Authenticating(auth) => auth.name(),
            },
            phase: match self.phase {
                Phase::Connecting { key, .. } => SetupPhase::Connecting(optional_text(key)),
                Phase::Handshaking { key, .. } => SetupPhase::Handshaking(optional_text(key)),
                Phase::Authenticating(auth) => SetupPhase::Authenticating(auth.step()),
            },
        }
    }
}

/// What the operation that the setup waited for gave.
#[derive(Debug)]
pub enum SetupEvent {
    /// The socket is open, or the encrypted session stands.
    Completed,
    /// The operation failed: the socket, the handshake, or the sending of a
    /// request.
    Failed(RedisError),
    /// The request went out, and this is what the read after it gave.
    Received(Option<Response>),
}

/// An event in contracts.
pub enum SetupEventView {
    Completed,
    Failed(RedisErrorView),
    Received(Option<ResponseView>),
}

impl View for SetupEvent {
    type V = SetupEventView;

    open spec fn view(&self) -> SetupEventView {
        match self {
            SetupEvent::Completed => SetupEventView::Completed,
            SetupEvent::Failed(e) => SetupEventView::Failed(e@),
            SetupEvent::Received(None) => SetupEventView::Received(None),
            SetupEvent::Received(Some(response)) => SetupEventView::Received(
                Some(response_view(*response)),
            ),
        }
    }
}

/// What the setup asks for next.
pub enum SetupStep {
    /// Negotiate the encrypted session for the setup's domain.
    Handshake(ConnectionSetup),
    /// Send the request and read one reply.
    Send(ConnectionSetup, RedisCommand),
    /// The transport is authenticated and named.
    Connected,
    /// The setup failed and the connection is to be given up.
    Failed(RedisError),
}

/// A step in contracts.
pub enum SetupStepView {
    Handshake(ConnectionSetupView),
    Send(ConnectionSetupView, RedisCommandView),
    Connected,
    Failed(RedisErrorView),
}

impl View for SetupStep {
    type V = SetupStepView;

    open spec fn view(&self) -> SetupStepView {
        match self {
            SetupStep::Handshake(setup) => SetupStepView::Handshake(setup@),
            SetupStep::Send(setup, request) => SetupStepView::Send(setup@, request@),
            SetupStep::Connected => SetupStepView::Connected,
            SetupStep::Failed(e) => SetupStepView::Failed(e@),
        }
    }
}

/// The reply that a read stands for: a stream that closed without a reply
/// stands for the null reply.
pub open spec fn settled(read: Option<ResponseView>) -> ResponseView {
    match read {
        Some(response) => response,
        None => Ok(ReplyView::Null),
    }
}

/// The error for an event that does not answer the operation that the setup
/// waited for.
pub open spec fn out_of_turn() -> RedisErrorView {
    RedisErrorView {
        kind: RedisErrorKind::Unknown,
        details: "Unexpected event during connection setup."@,
    }
}

/// The step that starts the authentication on a transport that stands.
pub open spec fn start_authentication(setup: ConnectionSetupView, key: Option<Seq<char>>) -> SetupStepView {
    SetupStepView::Send(
        ConnectionSetupView { phase: SetupPhase::Authenticating(first_step(key)), ..setup },
        step_request(first_step(key), setup.name, key),
    )
}

/// The step that follows an event.
///
/// A failure of the pending operation fails the setup with the same error.
/// Once the socket is open, an encrypted transport negotiates its session
/// and a plain one starts the authentication; once the session stands, the
/// authentication starts. Each reply is handed to the setup protocol, and
/// the connection counts as established only when that protocol is done.
pub open spec fn setup_after(setup: ConnectionSetupView, event: SetupEventView) -> SetupStepView {
    match event {
        SetupEventView::Failed(e) => SetupStepView::Failed(e),
        SetupEventView::Completed => match setup.phase {
            SetupPhase::Connecting(key) => if setup.domain is Some {
                SetupStepView::Handshake(
                    ConnectionSetupView { phase: SetupPhase::Handshaking(key), ..setup },
                )
            } else {
                start_authentication(setup, key)
            },
            SetupPhase::Handshaking(key) => start_authentication(setup, key),
            SetupPhase::Authenticating(_) => SetupStepView::Failed(out_of_turn()),
        },
        SetupEventView::Received(read) => match setup.phase {
            SetupPhase::Authenticating(step) => match after_response(step, setup.name, settled(read)) {
                AuthOutcomeView::Send { step: next, request, .. } => SetupStepView::Send(
                    ConnectionSetupView { phase: SetupPhase::Authenticating(next), ..setup },
                    request,
                ),
                AuthOutcomeView::Ready => SetupStepView::Connected,
                AuthOutcomeView::Failed(e) => SetupStepView::Failed(e),
            },
            _ => SetupStepView::Failed(out_of_turn()),
        },
    }
}

/// Starts the setup of a plain connection to the server at `ip` and `port`,
/// for a client called `name` with the credential `key`, if it has one. The
/// first operation is to open the socket.
pub fn create_authenticated_connection(ip: &str, port: u16, name: &str, key: Option<String>) -> (setup:
    ConnectionSetup)
    ensures
        setup@ == (ConnectionSetupView {
            server: server_label_text(ip@, port),
            domain: None,
            name: name@,
            phase: SetupPhase::Connecting(optional_text(key)),
        }),
{
    ConnectionSetup {
        server: server_label(ip, port),
        domain: None,
        phase: Phase::Connecting { name: String::from_str(name), key },
    }
}

/// Starts the setup of an encrypted connection to the server at `ip` and
/// `port`, whose certificate must carry `domain`, for a client called `name`
/// with the credential `key`, if it has one. The first operation is to open
/// the socket.
pub fn create_authenticated_connection_tls(
    ip: &str,
    port: u16,
    domain: &str,
    name: &str,
    key: Option<String>,
) -> (setup: ConnectionSetup)
    ensures
        setup@ == (ConnectionSetupView {
            server: server_label_text(ip@, port),
            domain: Some(domain@),
            name: name@,
            phase: SetupPhase::Connecting(optional_text(key)),
        }),
{
    ConnectionSetup {
        server: server_label(ip, port),
        domain: Some(String::from_str(domain)),
        phase: Phase::Connecting { name: String::from_str(name), key },
    }
}

fn out_of_turn_error() -> (e: RedisError)
    ensures
        e@ == out_of_turn(),
{
    RedisError::new(
        RedisErrorKind::Unknown,
        String::from_str("Unexpected event during connection setup."),
    )
}

impl ConnectionSetup {
    /// The label of the server in diagnostics.
    pub fn server(&self) -> (label: &str)
        ensures
            label@ == self@.server,
    {
        self.server.as_str()
    }

    /// The name that the server's certificate must carry, if the transport
    /// is encrypted.
    pub fn domain(&self) -> (domain: Option<&str>)
        ensures
            domain is Some <==> self@.domain is Some,
            domain is Some ==> domain->0@ == self@.domain->0,
    {
        match &self.domain {
            Some(domain) => Some(domain.as_str()),
            None => None,
        }
    }

    fn start_authentication(server: String, domain: Option<String>, name: String, key: Option<String>) -> (step:
        SetupStep)
        ensures
            step@ == start_authentication(
                ConnectionSetupView {
                    server: server@,
                    domain: optional_text(domain),
                    name: name@,
                    phase: SetupPhase::Connecting(optional_text(key)),
                },
                optional_text(key),
            ),
    {
        let (auth, request) = authenticate(name.as_str(), key);
        SetupStep::Send(ConnectionSetup { server, domain, phase: Phase::Authenticating(auth) }, request)
    }

    /// Takes what the pending operation gave and says what to do next. The
    /// client's state becomes `Connected` when the setup is complete, and
    /// stays as it is otherwise.
    pub fn advance(self, event: SetupEvent, state: &mut ClientState) -> (step: SetupStep)
        ensures
            step@ == setup_after(self@, event@),
            step is Connected ==> *final(state) == ClientState::Connected,
            !(step is Connected) ==> *final(state) == *old(state),
    {
        let ConnectionSetup { server, domain, phase } = self;
        match event {
            SetupEvent::Failed(e) => SetupStep::Failed(e),
            SetupEvent::Completed => match phase {
                Phase::Connecting { name, key } => {
                    if domain.is_some() {
                        SetupStep::Handshake(
                            ConnectionSetup { server, domain, phase: Phase::Handshaking { name, key } },
                        )
                    } else {
                        Self::start_authentication(server, domain, name, key)
                    }
                },
                Phase::Handshaking { name, key } => Self::start_authentication(server, domain, name, key),
                Phase::Authenticating(_) => SetupStep::Failed(out_of_turn_error()),
            },
            SetupEvent::Received(read) => match phase {
                Phase::Authenticating(auth) => {
                    match auth.on_response(request_response(read)) {
                        AuthOutcome::Send(auth, request) => SetupStep::Send(
                            ConnectionSetup { server, domain, phase: Phase::Authenticating(auth) },
                            request,
                        ),
                        AuthOutcome::Ready => {
                            *state = ClientState::Connected;
                            SetupStep::Connected
                        },
                        AuthOutcome::Failed(e) => SetupStep::Failed(e),
                    }
                },
                _ => SetupStep::Failed(out_of_turn_error()),
            },
        }
    }
}

/// The connection counts as established in one case only: the naming
/// request is out and the read after it gave the simple string "OK". An open
/// socket or a finished handshake never establishes it.
pub proof fn lemma_connected_after_naming(setup: ConnectionSetupView, event: SetupEventView)
    ensures
        setup_after(setup, event) is Connected <==> (setup.phase == SetupPhase::Authenticating(
            AuthStep::Naming,
        ) && event is Received && is_ok_reply(settled(event->Received_0))),
{
}

/// A peer that closes the stream without a reply has, for the setup, sent
/// the null reply: a protocol error in either step.
pub proof fn lemma_closed_stream_is_null(setup: ConnectionSetupView)
    requires
        setup.phase is Authenticating,
    ensures
        setup_after(setup, SetupEventView::Received(None)) == setup_after(
            setup,
            SetupEventView::Received(Some(Ok(ReplyView::Null))),
        ),
        setup_after(setup, SetupEventView::Received(None)) is Failed,
        setup_after(setup, SetupEventView::Received(None))->Failed_0.kind
            == RedisErrorKind::ProtocolError,
{
}

/// A failure of the pending operation fails the setup with the same error,
/// in every phase.
pub proof fn lemma_failure_aborts(setup: ConnectionSetupView, error: RedisErrorView)
    ensures
        setup_after(setup, SetupEventView::Failed(error)) == SetupStepView::Failed(error),
{
}

/// How a run of the setup stopped.
pub enum SetupEnd {
    /// The connection is established.
    Connected,
    /// The setup failed.
    Failed(RedisErrorView),
    /// An operation is out and what it gives has not come.
    Waiting,
}

/// A run of the setup: the requests that it sent, in order, and how it
/// stopped.
pub struct SetupRun {
    pub requests: Seq<RedisCommandView>,
    pub end: SetupEnd,
}

/// The run that follows from a setup on the given events, one for each
/// operation.
pub open spec fn setup_run(setup: ConnectionSetupView, events: Seq<SetupEventView>) -> SetupRun
    decreases events.len(),
{
    if events.len() == 0 {
        SetupRun { requests: seq![], end: SetupEnd::Waiting }
    } else {
        match setup_after(setup, events[0]) {
            SetupStepView::Handshake(next) => setup_run(next, events.drop_first()),
            SetupStepView::Send(next, request) => {
                let rest = setup_run(next, events.drop_first());
                SetupRun { requests: seq![request] + rest.requests, end: rest.end }
            },
            SetupStepView::Connected => SetupRun { requests: seq![], end: SetupEnd::Connected },
            SetupStepView::Failed(e) => SetupRun { requests: seq![], end: SetupEnd::Failed(e) },
        }
    }
}

/// The requests of a complete setup: the credential, if there is one, and
/// then the name.
pub open spec fn setup_requests(name: Seq<char>, key: Option<Seq<char>>) -> Seq<RedisCommandView> {
    match key {
        Some(key) => seq![credential_request(key), naming_request(name)],
        None => seq![naming_request(name)],
    }
}

proof fn lemma_run_from_naming(setup: ConnectionSetupView, events: Seq<SetupEventView>)
    requires
        setup.phase == SetupPhase::Authenticating(AuthStep::Naming),
    ensures
        setup_run(setup, events).requests == Seq::<RedisCommandView>::empty(),
{
    assert(setup_run(setup, events).requests =~= Seq::<RedisCommandView>::empty());
}

proof fn lemma_run_from_authentication(
    setup: ConnectionSetupView,
    key: Option<Seq<char>>,
    events: Seq<SetupEventView>,
)
    requires
        setup.phase == SetupPhase::Authenticating(first_step(key)),
        setup_run(setup, events).end is Connected,
    ensures
        seq![step_request(first_step(key), setup.name, key)] + setup_run(setup, events).requests
            == setup_requests(setup.name, key),
{
    let run = setup_run(setup, events);
    let first = step_request(first_step(key), setup.name, key);
    if key is Some {
        match setup_after(setup, events[0]) {
            SetupStepView::Send(next, request) => {
                lemma_run_from_naming(next, events.drop_first());
                assert(seq![first] + run.requests =~= setup_requests(setup.name, key));
            },
            _ => {},
        }
    } else {
        lemma_run_from_naming(setup, events);
        assert(seq![first] + run.requests =~= setup_requests(setup.name, key));
    }
}

proof fn lemma_run_from_open_transport(
    setup: ConnectionSetupView,
    key: Option<Seq<char>>,
    events: Seq<SetupEventView>,
)
    requires
        events.len() > 0,
        setup_after(setup, events[0]) == start_authentication(setup, key),
        setup_run(setup, events).end is Connected,
    ensures
        setup_run(setup, events).requests == setup_requests(setup.name, key),
{
    let next = ConnectionSetupView { phase: SetupPhase::Authenticating(first_step(key)), ..setup };
    lemma_run_from_authentication(next, key, events.drop_first());
}

/// A setup that ends with an established connection has sent the whole
/// setup protocol before: the credential, if one is configured, and then
/// the name, and nothing else.
pub proof fn lemma_connected_after_requests(
    setup: ConnectionSetupView,
    key: Option<Seq<char>>,
    events: Seq<SetupEventView>,
)
    requires
        setup.phase == SetupPhase::Connecting(key),
        setup_run(setup, events).end is Connected,
    ensures
        setup_run(setup, events).requests == setup_requests(setup.name, key),
{
    match setup_after(setup, events[0]) {
        SetupStepView::Handshake(next) => {
            let rest = events.drop_first();
            match setup_after(next, rest[0]) {
                SetupStepView::Send(_, _) => {
                    lemma_run_from_open_transport(next, key, rest);
                },
                _ => {},
            }
        },
        SetupStepView::Send(_, _) => {
            lemma_run_from_open_transport(setup, key, events);
        },
        _ => {},
    }
}

/// The number of operations that a setup still has to perform before the
/// connection is established: the open socket, the handshake of an
/// encrypted transport, and the exchange for each request.
pub open spec fn operations_left(setup: ConnectionSetupView) -> nat {
    match setup.phase {
        SetupPhase::Connecting(key) => 1 + (if setup.domain is Some {
            1nat
        } else {
            0nat
        }) + setup_requests(setup.name, key).len(),
        SetupPhase::Handshaking(key) => 1 + setup_requests(setup.name, key).len(),
        SetupPhase::Authenticating(AuthStep::Credential) => 2,
        SetupPhase::Authenticating(AuthStep::Naming) => 1,
    }
}

/// A setup ends with an established connection only after an event for each
/// operation that it still had to perform: no operation is skipped.
pub proof fn lemma_connected_needs_every_operation(setup: ConnectionSetupView, events: Seq<SetupEventView>)
    requires
        setup_run(setup, events).end is Connected,
    ensures
        events.len() >= operations_left(setup),
    decreases events.len(),
{
    if events.len() > 0 {
        match setup_after(setup, events[0]) {
            SetupStepView::Handshake(next) => {
                lemma_connected_needs_every_operation(next, events.drop_first());
            },
            SetupStepView::Send(next, _) => {
                lemma_connected_needs_every_operation(next, events.drop_first());
            },
            _ => {},
        }
    }
}

} // verus!
