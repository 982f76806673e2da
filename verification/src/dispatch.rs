use crate::command::{now, RedisCommandKind, SentCommand};
use crate::counters::{counter_succ, next_count, Counters};
use crate::error::RedisError;
use vstd::prelude::*;

verus! {

/// How a frame goes onto the socket.
#[derive(Clone, Copy, Debug, PartialEq, Eq, Structural)]
pub enum WriteMode {
    /// Written and pushed onto the network at once.
    Flush,
    /// Written into the socket's buffer only.
    Feed,
}

/// The flush rule. A command is flushed when nothing is known to be queued
/// behind it, when it closes the connection, when it ends a transaction, or
/// when a caller holds the lock of its result channel and waits.
pub open spec fn should_flush(should_send: bool, kind: RedisCommandKind, waiter_locked: bool) -> bool {
    should_send || kind == RedisCommandKind::Quit || kind.spec_ends_transaction() || waiter_locked
}

/// The mode that the flush rule gives.
pub open spec fn write_mode(should_send: bool, kind: RedisCommandKind, waiter_locked: bool) -> WriteMode {
    if should_flush(should_send, kind, waiter_locked) {
        WriteMode::Flush
    } else {
        WriteMode::Feed
    }
}

/// The number of fed commands after a frame went out in the given mode: none
/// after a flush, one more after a feed.
pub open spec fn spec_feed_count_after(feed_count: usize, mode: WriteMode) -> usize {
    match mode {
        WriteMode::Flush => 0,
        WriteMode::Feed => counter_succ(feed_count),
    }
}

/// The counters after a frame went out in the given mode.
pub open spec fn counters_after_write(counters: Counters, mode: WriteMode) -> Counters {
    Counters {
        in_flight: counter_succ(counters.in_flight),
        feed_count: spec_feed_count_after(counters.feed_count, mode),
    }
}

/// The number of fed commands after a frame went out in the given mode.
#[verifier::when_used_as_spec(spec_feed_count_after)]
pub fn feed_count_after(feed_count: usize, mode: WriteMode) -> (next: usize)
    ensures
        next == spec_feed_count_after(feed_count, mode),
{
    match mode {
        WriteMode::Flush => 0,
        WriteMode::Feed => next_count(feed_count),
    }
}

/// Prepares one command for the socket. `frame` is the command's wire form
/// or the reason why it has none; `should_send` is the multiplexer's estimate
/// that nothing is queued behind the command; `waiter_locked` says whether a
/// waiter holds the lock of the command's result channel.
///
/// A command without a wire form is left untouched and the reason comes
/// back. Otherwise the attempt is counted, the start of the transmission is
/// stamped, and the frame comes back with the mode in which to write it.
pub fn write_command<F>(
    frame: Result<F, RedisError>,
    command: &mut SentCommand,
    should_send: bool,
    waiter_locked: bool,
) -> (res: Result<(F, WriteMode), RedisError>)
    requires
        old(command).command.attempted < usize::MAX,
    ensures
        frame is Err ==> res is Err && res->Err_0 == frame->Err_0 && *final(command) == *old(
            command,
        ),
        frame is Ok ==> res is Ok && res->Ok_0.0 == frame->Ok_0 && res->Ok_0.1 == write_mode(
            should_send,
            old(command).command.kind,
            waiter_locked,
        ),
        frame is Ok ==> final(command).command.kind == old(command).command.kind,
        frame is Ok ==> final(command).command.args == old(command).command.args,
        frame is Ok ==> final(command).command.attempted == old(command).command.attempted + 1,
        frame is Ok ==> final(command).network_start is Some,
{
    let frame = match frame {
        Ok(frame) => frame,
        Err(e) => {
            return Err(e);
        },
    };
    command.command.incr_attempted();
    command.network_start = Some(now());
    let flush = should_send || command.command.is_quit() || command.command.kind.ends_transaction()
        || waiter_locked;
    if flush {
        Ok((frame, WriteMode::Flush))
    } else {
        Ok((frame, WriteMode::Feed))
    }
}

/// Settles the counters once the socket has answered the write. After a
/// write that failed the counters stay as they were and the failure comes
/// back. After one that succeeded, a flush has emptied the buffer and a feed
/// has added one frame to it, and one more command awaits its reply.
pub fn command_written(counters: &mut Counters, mode: WriteMode, written: Result<(), RedisError>) -> (res:
    Result<(), RedisError>)
    ensures
        written is Ok ==> res is Ok,
        written is Err ==> res is Err && res->Err_0 == written->Err_0,
        written is Err ==> *final(counters) == *old(counters),
        written is Ok ==> *final(counters) == counters_after_write(*old(counters), mode),
{
    match written {
        Ok(()) => {
            counters.feed_count = feed_count_after(counters.feed_count, mode);
            counters.incr_in_flight();
            Ok(())
        },
        Err(e) => Err(e),
    }
}

/// A flush leaves no fed command behind; a feed adds exactly one, and either
/// way exactly one more command is in flight, as long as the counters have
/// not reached the largest machine word.
pub proof fn lemma_write_counts(counters: Counters, mode: WriteMode)
    requires
        counters.in_flight < usize::MAX,
        mode == WriteMode::Feed ==> counters.feed_count < usize::MAX,
    ensures
        counters_after_write(counters, mode).in_flight == counters.in_flight + 1,
        mode == WriteMode::Flush ==> counters_after_write(counters, mode).feed_count == 0,
        mode == WriteMode::Feed ==> counters_after_write(counters, mode).feed_count
            == counters.feed_count + 1,
{
}

/// A command that closes the connection is flushed whatever the multiplexer
/// estimates and whoever waits.
pub proof fn lemma_quit_flushes(should_send: bool, waiter_locked: bool)
    ensures
        write_mode(should_send, RedisCommandKind::Quit, waiter_locked) == WriteMode::Flush,
{
}

/// A command that ends a transaction is flushed whatever the multiplexer
/// estimates and whoever waits.
pub proof fn lemma_transaction_end_flushes(kind: RedisCommandKind, should_send: bool, waiter_locked: bool)
    requires
        kind.spec_ends_transaction(),
    ensures
        write_mode(should_send, kind, waiter_locked) == WriteMode::Flush,
{
}

/// A command is fed exactly when none of the four reasons to flush holds.
pub proof fn lemma_feed_iff_no_reason(kind: RedisCommandKind, should_send: bool, waiter_locked: bool)
    ensures
        write_mode(should_send, kind, waiter_locked) == WriteMode::Feed <==> (!should_send && kind
            != RedisCommandKind::Quit && kind != RedisCommandKind::Exec && kind
            != RedisCommandKind::Discard && !waiter_locked),
{
}

} // verus!
