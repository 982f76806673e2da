use redis_conn::command::{RedisCommand, RedisCommandKind, SentCommand};
use redis_conn::counters::Counters;
use redis_conn::dispatch::{command_written, write_command, WriteMode};
use redis_conn::error::{RedisError, RedisErrorKind};
use redis_conn::transport::{RedisSink, RedisStream};

fn sent(kind: RedisCommandKind) -> SentCommand {
    SentCommand::new(RedisCommand::new(kind, vec!["a".to_string(), "b".to_string()]))
}

fn mode_of(kind: RedisCommandKind, should_send: bool, waiter_locked: bool) -> WriteMode {
    let mut command = sent(kind);
    let frame: Result<u8, RedisError> = Ok(7);
    match write_command(frame, &mut command, should_send, waiter_locked) {
        Ok((7, mode)) => mode,
        other => panic!("expected the frame and a mode, got {:?}", other),
    }
}

#[test]
fn command_with_nothing_queued_behind_is_flushed() {
    assert_eq!(mode_of(RedisCommandKind::Other, true, false), WriteMode::Flush);
}

#[test]
fn command_with_more_queued_behind_is_fed() {
    assert_eq!(mode_of(RedisCommandKind::Other, false, false), WriteMode::Feed);
    assert_eq!(mode_of(RedisCommandKind::Auth, false, false), WriteMode::Feed);
    assert_eq!(mode_of(RedisCommandKind::ClientSetname, false, false), WriteMode::Feed);
    assert_eq!(mode_of(RedisCommandKind::ClusterNodes, false, false), WriteMode::Feed);
    assert_eq!(mode_of(RedisCommandKind::Multi, false, false), WriteMode::Feed);
}

#[test]
fn quit_is_flushed_whatever_is_queued() {
    assert_eq!(mode_of(RedisCommandKind::Quit, false, false), WriteMode::Flush);
    assert_eq!(mode_of(RedisCommandKind::Quit, true, false), WriteMode::Flush);
    assert_eq!(mode_of(RedisCommandKind::Quit, false, true), WriteMode::Flush);
}

#[test]
fn end_of_transaction_is_flushed() {
    assert_eq!(mode_of(RedisCommandKind::Exec, false, false), WriteMode::Flush);
    assert_eq!(mode_of(RedisCommandKind::Discard, false, false), WriteMode::Flush);
}

#[test]
fn command_with_a_locked_waiter_is_flushed() {
    assert_eq!(mode_of(RedisCommandKind::Other, false, true), WriteMode::Flush);
}

#[test]
fn kinds_that_end_a_transaction() {
    assert!(RedisCommandKind::Exec.ends_transaction());
    assert!(RedisCommandKind::Discard.ends_transaction());
    assert!(!RedisCommandKind::Multi.ends_transaction());
    assert!(!RedisCommandKind::Quit.ends_transaction());
    assert!(!RedisCommandKind::Other.ends_transaction());
    assert!(RedisCommand::new(RedisCommandKind::Quit, Vec::new()).is_quit());
    assert!(!RedisCommand::new(RedisCommandKind::Exec, Vec::new()).is_quit());
}

#[test]
fn write_counts_the_attempt_and_stamps_the_start() {
    let mut command = sent(RedisCommandKind::Other);
    assert_eq!(command.command.attempted, 0);
    assert!(command.network_start.is_none());
    let frame: Result<&str, RedisError> = Ok("frame");
    let (frame, _) = write_command(frame, &mut command, false, false).unwrap();
    assert_eq!(frame, "frame");
    assert_eq!(command.command.attempted, 1);
    assert!(command.network_start.is_some());
    assert_eq!(command.command.kind, RedisCommandKind::Other);
    assert_eq!(command.command.args, vec!["a".to_string(), "b".to_string()]);
    let first = command.network_start.unwrap();
    let frame: Result<&str, RedisError> = Ok("frame");
    write_command(frame, &mut command, true, false).unwrap();
    assert_eq!(command.command.attempted, 2);
    assert!(command.network_start.unwrap() >= first);
}

#[test]
fn command_without_a_frame_is_left_untouched() {
    let mut command = sent(RedisCommandKind::Quit);
    let frame: Result<u8, RedisError> =
        Err(RedisError::new(RedisErrorKind::Unknown, "Invalid argument.".to_string()));
    match write_command(frame, &mut command, true, true) {
        Err(e) => {
            assert_eq!(e.kind, RedisErrorKind::Unknown);
            assert_eq!(e.details, "Invalid argument.");
        }
        Ok(_) => panic!("expected the failure"),
    }
    assert_eq!(command.command.attempted, 0);
    assert!(command.network_start.is_none());
}

#[test]
fn flush_resets_the_feed_count() {
    let mut counters = Counters { in_flight: 4, feed_count: 9 };
    assert!(command_written(&mut counters, WriteMode::Flush, Ok(())).is_ok());
    assert_eq!(counters, Counters { in_flight: 5, feed_count: 0 });
}

#[test]
fn feed_adds_one_to_the_feed_count() {
    let mut counters = Counters { in_flight: 4, feed_count: 9 };
    assert!(command_written(&mut counters, WriteMode::Feed, Ok(())).is_ok());
    assert_eq!(counters, Counters { in_flight: 5, feed_count: 10 });
    let mut counters = Counters::new();
    assert!(command_written(&mut counters, WriteMode::Feed, Ok(())).is_ok());
    assert_eq!(counters, Counters { in_flight: 1, feed_count: 1 });
}

#[test]
fn failed_write_leaves_the_counters() {
    let mut counters = Counters { in_flight: 4, feed_count: 9 };
    for mode in [WriteMode::Flush, WriteMode::Feed] {
        let failure = RedisError::new(RedisErrorKind::IO, "broken pipe".to_string());
        match command_written(&mut counters, mode, Err(failure)) {
            Err(e) => {
                assert_eq!(e.kind, RedisErrorKind::IO);
                assert_eq!(e.details, "broken pipe");
            }
            Ok(()) => panic!("expected the failure"),
        }
        assert_eq!(counters, Counters { in_flight: 4, feed_count: 9 });
    }
}

#[test]
fn failed_write_keeps_the_counted_attempt() {
    let mut command = sent(RedisCommandKind::Other);
    let mut counters = Counters::new();
    let frame: Result<u8, RedisError> = Ok(1);
    let (_, mode) = write_command(frame, &mut command, false, false).unwrap();
    let failure = RedisError::new(RedisErrorKind::IO, "broken pipe".to_string());
    assert!(command_written(&mut counters, mode, Err(failure)).is_err());
    assert_eq!(command.command.attempted, 1);
    assert_eq!(counters, Counters::new());
}

#[test]
fn counters_wrap_at_the_largest_word() {
    let mut counters = Counters { in_flight: usize::MAX, feed_count: usize::MAX };
    assert!(command_written(&mut counters, WriteMode::Feed, Ok(())).is_ok());
    assert_eq!(counters, Counters { in_flight: 0, feed_count: 0 });
    let mut counters = Counters { in_flight: usize::MAX - 1, feed_count: usize::MAX - 1 };
    assert!(command_written(&mut counters, WriteMode::Feed, Ok(())).is_ok());
    assert_eq!(counters, Counters { in_flight: usize::MAX, feed_count: usize::MAX });
}

#[test]
fn single_counter_operations() {
    let mut counters = Counters::new();
    counters.incr_in_flight();
    counters.incr_in_flight();
    counters.incr_feed_count();
    assert_eq!(counters, Counters { in_flight: 2, feed_count: 1 });
    counters.reset_feed_count();
    assert_eq!(counters, Counters { in_flight: 2, feed_count: 0 });
}

#[test]
fn attempts_are_counted_one_by_one() {
    let mut command = RedisCommand::new(RedisCommandKind::Other, Vec::new());
    command.incr_attempted();
    command.incr_attempted();
    command.incr_attempted();
    assert_eq!(command.attempted, 3);
}

#[test]
fn halves_know_their_transport() {
    let sink: RedisSink<u8, u16> = RedisSink::Tls(1);
    assert!(sink.is_tls());
    let sink: RedisSink<u8, u16> = RedisSink::Tcp(1);
    assert!(!sink.is_tls());
    let stream: RedisStream<u8, u16> = RedisStream::Tls(1);
    assert!(stream.is_tls());
    let stream: RedisStream<u8, u16> = RedisStream::Tcp(1);
    assert!(!stream.is_tls());
}
