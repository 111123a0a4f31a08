use std::io;
use std::iter::repeat_with;
use std::time::{Duration, SystemTime};

use devproxy::relay::{Relay, RelayEvent, RelayRequest, RelayStep};
use devproxy::throttle::{ThrottleConfig, TICKS_PER_SECOND, TICK_INTERVAL_MILLIS};
use tokio::io::{AsyncRead, AsyncReadExt, AsyncWrite, AsyncWriteExt, BufReader, BufWriter};

fn relay_for(max_bytes_per_sec: usize) -> Relay {
    Relay::new(&ThrottleConfig::new(max_bytes_per_sec).unwrap())
}

/// Performs what a relay asks for, on a real reader and writer, until it is over.
async fn drive<R, W>(relay: &mut Relay, reader: &mut R, writer: &mut W) -> io::Result<()>
where
    R: AsyncRead + Unpin,
    W: AsyncWrite + Unpin,
{
    let mut buffer = vec![0u8; relay.chunk_size()];
    loop {
        let event = match relay.pending().expect("a relay that runs awaits an operation") {
            RelayRequest::Read { max_len } => {
                RelayEvent::ReadDone(reader.read(&mut buffer[..max_len]).await)
            }
            RelayRequest::Write { len } => {
                RelayEvent::WriteDone(writer.write_all(&buffer[..len]).await)
            }
            RelayRequest::Sleep { millis } => {
                tokio::time::sleep(Duration::from_millis(millis)).await;
                RelayEvent::SleepDone
            }
            RelayRequest::Flush => RelayEvent::FlushDone(writer.flush().await),
        };
        match relay.step(event) {
            Some(RelayStep::Continue(_)) => {}
            Some(RelayStep::Finished(result)) => return result,
            None => panic!("the relay did not accept the end of its own request"),
        }
    }
}

/// Feeds a relay reads of the given sizes, completing every write and pause,
/// then the end of the data and a flush. Returns the bytes written, the
/// pauses in milliseconds, and the result.
fn run_script(relay: &mut Relay, reads: &[usize]) -> (usize, u64, Option<Result<(), String>>) {
    let mut written = 0usize;
    let mut slept = 0u64;
    for &n in reads {
        assert!(matches!(relay.pending(), Some(RelayRequest::Read { .. })));
        let step = relay.step::<String>(RelayEvent::ReadDone(Ok(n)));
        assert_eq!(step, Some(RelayStep::Continue(RelayRequest::Write { len: n })));
        let step = relay.step::<String>(RelayEvent::WriteDone(Ok(())));
        written += n;
        match step {
            Some(RelayStep::Continue(RelayRequest::Sleep { millis })) => slept += millis,
            other => panic!("expected a pause after a write, got {:?}", other),
        }
        let chunk_size = relay.chunk_size();
        let step = relay.step::<String>(RelayEvent::SleepDone);
        assert_eq!(step, Some(RelayStep::Continue(RelayRequest::Read { max_len: chunk_size })));
    }
    let step = relay.step::<String>(RelayEvent::ReadDone(Ok(0)));
    assert_eq!(step, Some(RelayStep::Continue(RelayRequest::Flush)));
    match relay.step::<String>(RelayEvent::FlushDone(Ok(()))) {
        Some(RelayStep::Finished(result)) => (written, slept, Some(result)),
        other => panic!("expected the relay to finish, got {:?}", other),
    }
}

#[test]
fn test_throttled_copy() {
    let mut rng = fastrand::Rng::new();

    let bytes: Vec<u8> = repeat_with(|| rng.u8(..)).take(10_000).collect();
    let mut reader = BufReader::new(bytes.as_slice());
    let mut writer = BufWriter::new(Vec::new());
    let mut relay = relay_for(10000);

    let runtime = tokio::runtime::Builder::new_current_thread()
        .enable_time()
        .build()
        .unwrap();

    let start = SystemTime::now();
    let result = runtime.block_on(drive(&mut relay, &mut reader, &mut writer));
    let end = SystemTime::now();

    let duration = end.duration_since(start).unwrap();

    assert!(result.is_ok());
    assert!(duration >= Duration::from_secs(1));
    assert!(relay.is_finished());
    assert_eq!(writer.get_ref(), &bytes);
}

#[test]
fn chunk_size_is_a_tenth_of_the_cap() {
    assert_eq!(ThrottleConfig::new(10000).unwrap().chunk_size(), 1000);
    assert_eq!(ThrottleConfig::new(10_240_000).unwrap().chunk_size(), 1_024_000);
    assert_eq!(ThrottleConfig::new(20).unwrap().chunk_size(), 2);
    assert_eq!(ThrottleConfig::new(29).unwrap().chunk_size(), 2);
    assert_eq!(ThrottleConfig::new(10).unwrap().chunk_size(), 1);
    assert_eq!(ThrottleConfig::new(usize::MAX).unwrap().chunk_size(), usize::MAX / 10);
}

#[test]
fn chunk_size_is_never_under_one_byte() {
    for cap in 1..10 {
        assert_eq!(ThrottleConfig::new(cap).unwrap().chunk_size(), 1);
    }
}

#[test]
fn a_cap_of_zero_is_no_configuration() {
    assert_eq!(ThrottleConfig::new(0), None);
    assert!(ThrottleConfig::new(1).is_some());
}

#[test]
fn configuration_keeps_its_cap_and_tick() {
    let config = ThrottleConfig::new(4096).unwrap();
    assert_eq!(config.max_bytes_per_sec(), 4096);
    assert_eq!(config.tick_interval_millis(), 100);
    assert_eq!(TICK_INTERVAL_MILLIS, 100);
    assert_eq!(TICKS_PER_SECOND, 10);
}

#[test]
fn a_new_relay_awaits_its_first_read() {
    let relay = relay_for(10000);
    assert_eq!(relay.chunk_size(), 1000);
    assert_eq!(relay.pending(), Some(RelayRequest::Read { max_len: 1000 }));
    assert!(!relay.is_finished());
}

#[test]
fn ten_thousand_bytes_take_ten_cycles_and_one_second() {
    let mut relay = relay_for(10000);
    let (written, slept, result) = run_script(&mut relay, &[1000; 10]);
    assert_eq!(written, 10000);
    assert_eq!(slept, 1000);
    assert_eq!(result, Some(Ok(())));
    assert!(relay.is_finished());
}

#[test]
fn partial_chunks_pause_for_a_full_tick() {
    let mut relay = relay_for(10000);
    let (written, slept, result) = run_script(&mut relay, &[1000, 1, 999, 500]);
    assert_eq!(written, 2500);
    assert_eq!(slept, 400);
    assert_eq!(result, Some(Ok(())));
}

#[test]
fn pauses_never_fall_short_of_the_cap() {
    for &cap in &[10usize, 15, 100, 1234, 10000] {
        let chunk = ThrottleConfig::new(cap).unwrap().chunk_size();
        let reads = vec![chunk; 7];
        let mut relay = relay_for(cap);
        let (written, slept, _) = run_script(&mut relay, &reads);
        assert_eq!(written, 7 * chunk);
        assert!(slept as u128 * cap as u128 >= 1000 * written as u128);
    }
}

#[test]
fn an_empty_source_flushes_and_succeeds() {
    let mut relay = relay_for(10000);
    let (written, slept, result) = run_script(&mut relay, &[]);
    assert_eq!(written, 0);
    assert_eq!(slept, 0);
    assert_eq!(result, Some(Ok(())));
    assert!(relay.is_finished());
    assert_eq!(relay.pending(), None);
}

#[test]
fn a_failed_read_ends_the_relay_without_a_pause() {
    let mut relay = relay_for(10000);
    let step = relay.step(RelayEvent::ReadDone(Err("connection reset")));
    assert_eq!(step, Some(RelayStep::Finished(Err("connection reset"))));
    assert!(relay.is_finished());
    assert_eq!(relay.pending(), None);
    assert_eq!(relay.step::<&str>(RelayEvent::SleepDone), None);
    assert_eq!(relay.step::<&str>(RelayEvent::ReadDone(Ok(10))), None);
    assert_eq!(relay.pending(), None);
}

#[test]
fn a_failed_read_after_some_cycles_keeps_its_cause() {
    let mut relay = relay_for(100);
    assert!(relay.step::<u8>(RelayEvent::ReadDone(Ok(10))).is_some());
    assert!(relay.step::<u8>(RelayEvent::WriteDone(Ok(()))).is_some());
    assert!(relay.step::<u8>(RelayEvent::SleepDone).is_some());
    assert_eq!(
        relay.step(RelayEvent::ReadDone(Err(7u8))),
        Some(RelayStep::Finished(Err(7u8)))
    );
    assert!(relay.is_finished());
}

#[test]
fn a_failed_write_ends_the_relay_at_once() {
    let mut relay = relay_for(10000);
    assert_eq!(
        relay.step::<String>(RelayEvent::ReadDone(Ok(300))),
        Some(RelayStep::Continue(RelayRequest::Write { len: 300 }))
    );
    let step = relay.step(RelayEvent::WriteDone(Err("broken pipe".to_string())));
    assert_eq!(step, Some(RelayStep::Finished(Err("broken pipe".to_string()))));
    assert!(relay.is_finished());
    assert_eq!(relay.step::<String>(RelayEvent::SleepDone), None);
}

#[test]
fn a_failed_flush_is_the_relays_failure() {
    let mut relay = relay_for(10000);
    assert_eq!(
        relay.step::<i32>(RelayEvent::ReadDone(Ok(0))),
        Some(RelayStep::Continue(RelayRequest::Flush))
    );
    assert_eq!(
        relay.step(RelayEvent::FlushDone(Err(-3))),
        Some(RelayStep::Finished(Err(-3)))
    );
    assert!(relay.is_finished());
}

#[test]
fn a_read_of_more_than_was_asked_for_is_not_accepted() {
    let mut relay = relay_for(10000);
    assert_eq!(relay.step::<String>(RelayEvent::ReadDone(Ok(1001))), None);
    assert_eq!(relay.pending(), Some(RelayRequest::Read { max_len: 1000 }));
    assert_eq!(
        relay.step::<String>(RelayEvent::ReadDone(Ok(1000))),
        Some(RelayStep::Continue(RelayRequest::Write { len: 1000 }))
    );
}

#[test]
fn an_event_out_of_turn_changes_nothing() {
    let mut relay = relay_for(10000);
    assert_eq!(relay.step::<String>(RelayEvent::WriteDone(Ok(()))), None);
    assert_eq!(relay.step::<String>(RelayEvent::SleepDone), None);
    assert_eq!(relay.step::<String>(RelayEvent::FlushDone(Ok(()))), None);
    assert_eq!(relay.step::<String>(RelayEvent::FlushDone(Err("x".to_string()))), None);
    assert_eq!(relay.pending(), Some(RelayRequest::Read { max_len: 1000 }));

    assert!(relay.step::<String>(RelayEvent::ReadDone(Ok(5))).is_some());
    assert_eq!(relay.step::<String>(RelayEvent::ReadDone(Ok(5))), None);
    assert_eq!(relay.step::<String>(RelayEvent::SleepDone), None);
    assert_eq!(relay.pending(), Some(RelayRequest::Write { len: 5 }));

    assert!(relay.step::<String>(RelayEvent::WriteDone(Ok(()))).is_some());
    assert_eq!(relay.step::<String>(RelayEvent::WriteDone(Ok(()))), None);
    assert_eq!(relay.step::<String>(RelayEvent::ReadDone(Err("late".to_string()))), None);
    assert_eq!(relay.pending(), Some(RelayRequest::Sleep { millis: 100 }));
}

#[test]
fn a_write_completes_before_the_next_read_is_asked_for() {
    let mut relay = relay_for(50);
    assert_eq!(relay.pending(), Some(RelayRequest::Read { max_len: 5 }));
    assert_eq!(
        relay.step::<()>(RelayEvent::ReadDone(Ok(3))),
        Some(RelayStep::Continue(RelayRequest::Write { len: 3 }))
    );
    assert_eq!(
        relay.step::<()>(RelayEvent::WriteDone(Ok(()))),
        Some(RelayStep::Continue(RelayRequest::Sleep { millis: 100 }))
    );
    assert_eq!(
        relay.step::<()>(RelayEvent::SleepDone),
        Some(RelayStep::Continue(RelayRequest::Read { max_len: 5 }))
    );
}
