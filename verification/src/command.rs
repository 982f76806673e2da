use std::time::Instant;
use vstd::prelude::*;

verus! {

/// A point in time as the standard library's monotonic clock reports it.
#[verifier::external_type_specification]
#[verifier::external_body]
pub struct ExInstant(std::time::Instant);

/// The operation that a command asks the server to perform.
#[derive(Clone, Copy, Debug, PartialEq, Eq, Structural)]
pub enum RedisCommandKind {
    /// Presents the credential.
    Auth,
    /// Names the connection.
    ClientSetname,
    /// Asks for the cluster's topology.
    ClusterNodes,
    /// Closes the connection.
    Quit,
    /// Opens a transaction.
    Multi,
    /// Runs the queued transaction.
    Exec,
    /// Drops the queued transaction.
    Discard,
    /// Any other operation.
    Other,
}

impl RedisCommandKind {
    /// Whether a command of this kind closes a transaction.
    pub open spec fn spec_ends_transaction(self) -> bool {
        self == RedisCommandKind::Exec || self == RedisCommandKind::Discard
    }

    /// Whether a command of this kind closes a transaction.
    #[verifier::when_used_as_spec(spec_ends_transaction)]
    pub fn ends_transaction(self) -> (res: bool)
        ensures
            res == self.spec_ends_transaction(),
    {
        match self {
            RedisCommandKind::Exec => true,
            RedisCommandKind::Discard => true,
            _ => false,
        }
    }
}

/// A request to the server: an operation, its arguments, and the number of
/// times that the client has tried to send it.
#[derive(Debug)]
pub struct RedisCommand {
    pub kind: RedisCommandKind,
    pub args: Vec<String>,
    pub attempted: usize,
}

/// What a command is in contracts.
pub struct RedisCommandView {
    pub kind: RedisCommandKind,
    pub args: Seq<Seq<char>>,
    pub attempted: nat,
}

impl View for RedisCommand {
    type V = RedisCommandView;

    open spec fn view(&self) -> RedisCommandView {
        RedisCommandView {
            kind: self.kind,
            args: Seq::new(self.args@.len(), |i: int| self.args@[i]@),
            attempted: self.attempted as nat,
        }
    }
}

impl RedisCommand {
    /// A command that has not been tried yet.
    pub fn new(kind: RedisCommandKind, args: Vec<String>) -> (command: RedisCommand)
        ensures
            command.kind == kind,
            command.args == args,
            command.attempted == 0,
    {
        RedisCommand { kind, args, attempted: 0 }
    }

    /// A command of the given kind with one argument.
    pub fn with_argument(kind: RedisCommandKind, argument: String) -> (command: RedisCommand)
        ensures
            command@ == (RedisCommandView { kind, args: seq![argument@], attempted: 0 }),
    {
        let mut args: Vec<String> = Vec::new();
        args.push(argument);
        let command = RedisCommand { kind, args, attempted: 0 };
        assert(command@.args =~= seq![argument@]);
        command
    }

    /// Whether the command closes the connection.
    pub open spec fn spec_is_quit(&self) -> bool {
        self.kind == RedisCommandKind::Quit
    }

    /// Whether the command closes the connection.
    #[verifier::when_used_as_spec(spec_is_quit)]
    pub fn is_quit(&self) -> (res: bool)
        ensures
            res == self.spec_is_quit(),
    {
        self.kind == RedisCommandKind::Quit
    }

    /// Counts one more attempt to send the command.
    pub fn incr_attempted(&mut self)
        requires
            old(self).attempted < usize::MAX,
        ensures
            final(self).kind == old(self).kind,
            final(self).args == old(self).args,
            final(self).attempted == old(self).attempted + 1,
    {
        self.attempted = self.attempted + 1;
    }
}

/// A command on its way to the server, with the time at which the client
/// began to transmit it.
#[derive(Debug)]
pub struct SentCommand {
    pub command: RedisCommand,
    pub network_start: Option<Instant>,
}

impl SentCommand {
    /// Wraps a command whose transmission has not begun.
    pub fn new(command: RedisCommand) -> (sent: SentCommand)
        ensures
            sent.command == command,
            sent.network_start is None,
    {
        SentCommand { command, network_start: None }
    }
}

/// Reads the clock with `std::time::Instant::now`. The value depends on the
/// moment of the call, so nothing is stated of it.
#[verifier::external_body]
pub(crate) fn now() -> Instant {
    Instant::now()
}

} // verus!
