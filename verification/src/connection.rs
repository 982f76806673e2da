use crate::command::{RedisCommand, RedisCommandKind, RedisCommandView};
use crate::error::{RedisError, RedisErrorKind, RedisErrorView};
use crate::reply::{reply_debug_text, Reply, ReplyView};
use crate::text::optional_text;
use vstd::prelude::*;

verus! {

/// The contents of a simple-string reply that reports success.
pub const OK: &'static str = "OK";

/// What the read that follows a request gave: a reply, or the reason why
/// there is none.
pub type Response = Result<Reply, RedisError>;

/// A response in contracts.
pub type ResponseView = Result<ReplyView, RedisErrorView>;

/// The view of a response.
pub open spec fn response_view(response: Response) -> ResponseView {
    match response {
        Ok(reply) => Ok(reply@),
        Err(e) => Err(e@),
    }
}

/// Settles what one read after a request gave. A reply or a failure comes
/// back as it is. A stream that the peer closed before it sent anything
/// (`None`) counts as a null reply, not as a failure.
pub fn request_response(read: Option<Response>) -> (res: Response)
    ensures
        read is None ==> res == Ok::<Reply, RedisError>(Reply::Null),
        read is Some ==> res == read->0,
{
    match read {
        Some(result) => result,
        None => Ok(Reply::Null),
    }
}

/// The two requests of the setup protocol.
#[derive(Clone, Copy, Debug, PartialEq, Eq, Structural)]
pub enum AuthStep {
    /// The credential was sent and its reply is awaited.
    Credential,
    /// The client's name was sent and its reply is awaited.
    Naming,
}

/// The request that presents the credential.
pub open spec fn credential_request(key: Seq<char>) -> RedisCommandView {
    RedisCommandView { kind: RedisCommandKind::Auth, args: seq![key], attempted: 0 }
}

/// The request that names the connection.
pub open spec fn naming_request(name: Seq<char>) -> RedisCommandView {
    RedisCommandView { kind: RedisCommandKind::ClientSetname, args: seq![name], attempted: 0 }
}

/// The description of a credential reply that is no simple string.
pub open spec fn invalid_auth_text(reply: ReplyView) -> Seq<char> {
    "Invalid auth response "@ + reply_debug_text(reply) + "."@
}

/// The description of a naming reply that is no simple string.
pub open spec fn naming_failed_text(reply: ReplyView) -> Seq<char> {
    "Failed to set client name: "@ + reply_debug_text(reply) + "."@
}

/// The setup protocol of one connection, between two of its steps: a request
/// is on its way and the protocol waits for the reply.
#[derive(Debug)]
pub struct Authenticator {
    name: String,
    step: AuthStep,
}

/// What the setup protocol asks for after a reply.
#[derive(Debug)]
pub enum AuthOutcome {
    /// Send the request and come back with its reply.
    Send(Authenticator, RedisCommand),
    /// Both steps are done: the transport is ready.
    Ready,
    /// The setup failed and the connection is to be given up.
    Failed(RedisError),
}

/// An outcome in contracts.
pub enum AuthOutcomeView {
    Send { name: Seq<char>, step: AuthStep, request: RedisCommandView },
    Ready,
    Failed(RedisErrorView),
}

impl View for AuthOutcome {
    type V = AuthOutcomeView;

    open spec fn view(&self) -> AuthOutcomeView {
        match self {
            AuthOutcome::Send(auth, request) => AuthOutcomeView::Send {
                name: auth.name(),
                step: auth.step(),
                request: request@,
            },
            AuthOutcome::Ready => AuthOutcomeView::Ready,
            AuthOutcome::Failed(e) => AuthOutcomeView::Failed(e@),
        }
    }
}

/// The step in which the protocol starts: the credential step where a
/// credential is configured, the naming step where none is.
pub open spec fn first_step(key: Option<Seq<char>>) -> AuthStep {
    if key is Some {
        AuthStep::Credential
    } else {
        AuthStep::Naming
    }
}

/// The request that a step sends.
pub open spec fn step_request(step: AuthStep, name: Seq<char>, key: Option<Seq<char>>) -> RedisCommandView {
    match step {
        AuthStep::Credential => credential_request(key->0),
        AuthStep::Naming => naming_request(name),
    }
}

/// What follows from the response to the request of `step`.
///
/// A failed exchange fails the setup with the same error. A simple string
/// "OK" moves the credential step on to the naming step and completes the
/// naming step. Any other simple string is the server's refusal: of the
/// credential (an authentication error) or of the name (a protocol error),
/// with the server's text. A reply of any other shape is a protocol error.
pub open spec fn after_response(step: AuthStep, name: Seq<char>, response: ResponseView) -> AuthOutcomeView {
    match response {
        Err(e) => AuthOutcomeView::Failed(e),
        Ok(ReplyView::SimpleString(text)) => if text == "OK"@ {
            match step {
                AuthStep::Credential => AuthOutcomeView::Send {
                    name,
                    step: AuthStep::Naming,
                    request: naming_request(name),
                },
                AuthStep::Naming => AuthOutcomeView::Ready,
            }
        } else {
            AuthOutcomeView::Failed(
                RedisErrorView {
                    kind: match step {
                        AuthStep::Credential => RedisErrorKind::Auth,
                        AuthStep::Naming => RedisErrorKind::ProtocolError,
                    },
                    details: text,
                },
            )
        },
        Ok(reply) => AuthOutcomeView::Failed(
            RedisErrorView {
                kind: RedisErrorKind::ProtocolError,
                details: match step {
                    AuthStep::Credential => invalid_auth_text(reply),
                    AuthStep::Naming => naming_failed_text(reply),
                },
            },
        ),
    }
}

/// Starts the setup protocol for a connection that is to carry `name`, with
/// the credential `key` if one is configured. The request that comes back is
/// the first to send: the credential if there is one, the name if not.
pub fn authenticate(name: &str, key: Option<String>) -> (res: (Authenticator, RedisCommand))
    ensures
        res.0.name() == name@,
        res.0.step() == first_step(optional_text(key)),
        key is Some ==> res.1@ == credential_request(key->0@),
        key is None ==> res.1@ == naming_request(name@),
{
    let name = String::from_str(name);
    match key {
        Some(key) => {
            let request = RedisCommand::with_argument(RedisCommandKind::Auth, key);
            (Authenticator { name, step: AuthStep::Credential }, request)
        },
        None => {
            let request = RedisCommand::with_argument(RedisCommandKind::ClientSetname, name.clone());
            (Authenticator { name, step: AuthStep::Naming }, request)
        },
    }
}

impl Authenticator {
    /// The name that the connection is to carry.
    pub closed spec fn name(&self) -> Seq<char> {
        self.name@
    }

    /// The step whose reply is awaited.
    pub closed spec fn step(&self) -> AuthStep {
        self.step
    }

    /// The step whose reply is awaited.
    pub fn pending(&self) -> (step: AuthStep)
        ensures
            step == self.step(),
    {
        self.step
    }

    /// Takes the response to the pending request and says how the setup
    /// goes on.
    pub fn on_response(self, response: Response) -> (outcome: AuthOutcome)
        ensures
            outcome@ == after_response(self.step(), self.name(), response_view(response)),
    {
        let reply = match response {
            Ok(reply) => reply,
            Err(e) => {
                return AuthOutcome::Failed(e);
            },
        };
        match reply {
            Reply::SimpleString(text) => {
                let ok = String::from_str(OK);
                if text == ok {
                    match self.step {
                        AuthStep::Credential => {
                            let request = RedisCommand::with_argument(
                                RedisCommandKind::ClientSetname,
                                self.name.clone(),
                            );
                            AuthOutcome::Send(
                                Authenticator { name: self.name, step: AuthStep::Naming },
                                request,
                            )
                        },
                        AuthStep::Naming => AuthOutcome::Ready,
                    }
                } else {
                    let kind = match self.step {
                        AuthStep::Credential => RedisErrorKind::Auth,
                        AuthStep::Naming => RedisErrorKind::ProtocolError,
                    };
                    AuthOutcome::Failed(RedisError::new(kind, text))
                }
            },
            other => {
                let mut details = match self.step {
                    AuthStep::Credential => String::from_str("Invalid auth response "),
                    AuthStep::Naming => String::from_str("Failed to set client name: "),
                };
                let shape = other.debug_text();
                details.append(shape.as_str());
                details.append(".");
                AuthOutcome::Failed(RedisError::new(RedisErrorKind::ProtocolError, details))
            },
        }
    }
}

/// How far a run of the setup protocol got.
pub enum AuthEnd {
    /// Both steps are done.
    Ready,
    /// The setup failed.
    Failed(RedisErrorView),
    /// A request is out and its response has not come.
    Waiting,
}

/// A run of the setup protocol: the requests that were sent, in order, and
/// how far the run got.
pub struct AuthRun {
    pub sent: Seq<RedisCommandView>,
    pub end: AuthEnd,
}

/// The run that follows once the request of `step` is out and the given
/// responses come in, one for each request.
pub open spec fn run_after(step: AuthStep, name: Seq<char>, responses: Seq<ResponseView>) -> AuthRun
    decreases responses.len(),
{
    if responses.len() == 0 {
        AuthRun { sent: seq![], end: AuthEnd::Waiting }
    } else {
        match after_response(step, name, responses[0]) {
            AuthOutcomeView::Send { step: next, request, .. } => {
                let rest = run_after(next, name, responses.drop_first());
                AuthRun { sent: seq![request] + rest.sent, end: rest.end }
            },
            AuthOutcomeView::Ready => AuthRun { sent: seq![], end: AuthEnd::Ready },
            AuthOutcomeView::Failed(e) => AuthRun { sent: seq![], end: AuthEnd::Failed(e) },
        }
    }
}

/// The whole run of the setup protocol for the given name and credential on
/// the given responses.
pub open spec fn auth_run(name: Seq<char>, key: Option<Seq<char>>, responses: Seq<ResponseView>) -> AuthRun {
    let rest = run_after(first_step(key), name, responses);
    AuthRun { sent: seq![step_request(first_step(key), name, key)] + rest.sent, end: rest.end }
}

/// Whether a response is the simple string "OK".
pub open spec fn is_ok_reply(response: ResponseView) -> bool {
    response == Ok::<ReplyView, RedisErrorView>(ReplyView::SimpleString("OK"@))
}

/// Without a credential the only request of a run is the naming request.
pub proof fn lemma_run_without_credential(name: Seq<char>, responses: Seq<ResponseView>)
    ensures
        auth_run(name, None, responses).sent == seq![naming_request(name)],
{
    if responses.len() > 0 {
        lemma_naming_is_last(name, responses);
    }
    assert(auth_run(name, None, responses).sent =~= seq![naming_request(name)]);
}

/// With a credential the first request of a run presents it. The naming
/// request follows, once, exactly when the credential step was answered
/// with "OK"; otherwise nothing more is sent.
pub proof fn lemma_run_with_credential(name: Seq<char>, key: Seq<char>, responses: Seq<ResponseView>)
    ensures
        responses.len() > 0 && is_ok_reply(responses[0]) ==> auth_run(name, Some(key), responses).sent
            == seq![credential_request(key), naming_request(name)],
        !(responses.len() > 0 && is_ok_reply(responses[0])) ==> auth_run(
            name,
            Some(key),
            responses,
        ).sent == seq![credential_request(key)],
{
    let run = auth_run(name, Some(key), responses);
    if responses.len() > 0 && is_ok_reply(responses[0]) {
        lemma_naming_is_last(name, responses.drop_first());
        assert(run.sent =~= seq![credential_request(key), naming_request(name)]);
    } else {
        assert(run.sent =~= seq![credential_request(key)]);
    }
}

/// Nothing is sent after the naming request, whatever the responses are.
pub proof fn lemma_naming_is_last(name: Seq<char>, responses: Seq<ResponseView>)
    ensures
        run_after(AuthStep::Naming, name, responses).sent == Seq::<RedisCommandView>::empty(),
{
    assert(run_after(AuthStep::Naming, name, responses).sent =~= Seq::<RedisCommandView>::empty());
}

/// A run ends ready exactly when every request it sent was answered with
/// "OK": one such response without a credential, two with one.
pub proof fn lemma_run_ready(name: Seq<char>, key: Option<Seq<char>>, responses: Seq<ResponseView>)
    ensures
        auth_run(name, key, responses).end is Ready <==> (if key is Some {
            responses.len() >= 2 && is_ok_reply(responses[0]) && is_ok_reply(responses[1])
        } else {
            responses.len() >= 1 && is_ok_reply(responses[0])
        }),
{
    if responses.len() > 0 {
        let rest = responses.drop_first();
        if rest.len() > 0 {
            assert(rest[0] == responses[1]);
        }
        assert(run_after(AuthStep::Naming, name, rest).end is Ready <==> (rest.len() > 0
            && is_ok_reply(rest[0])));
    }
}

/// A simple string other than "OK" in answer to the credential is an
/// authentication error that carries the server's text.
pub proof fn lemma_credential_rejected(name: Seq<char>, text: Seq<char>)
    requires
        text != "OK"@,
    ensures
        after_response(AuthStep::Credential, name, Ok(ReplyView::SimpleString(text)))
            == AuthOutcomeView::Failed(RedisErrorView { kind: RedisErrorKind::Auth, details: text }),
{
}

/// A reply that is no simple string is a protocol error, in either step.
pub proof fn lemma_unexpected_shape(step: AuthStep, name: Seq<char>, reply: ReplyView)
    requires
        !(reply is SimpleString),
    ensures
        after_response(step, name, Ok(reply)) is Failed,
        after_response(step, name, Ok(reply))->Failed_0.kind == RedisErrorKind::ProtocolError,
{
}

/// A failed exchange fails the setup with the error of the exchange.
pub proof fn lemma_exchange_failure(step: AuthStep, name: Seq<char>, error: RedisErrorView)
    ensures
        after_response(step, name, Err(error)) == AuthOutcomeView::Failed(error),
{
}

} // verus!
