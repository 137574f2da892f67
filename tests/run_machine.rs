use libp2p_perf::run::{BUFFER_SIZE, GRACE_PERIOD, MEASUREMENT_WINDOW};
use libp2p_perf::{PerfRun, RunAction, RunEvent, RunRole, RunState};

const MS: u64 = 1_000_000;

/// Drives a sender whose stream accepts a whole block every millisecond and
/// returns its result and the number of write steps.
fn drive_sender(step_ns: u64) -> (u64, usize, usize) {
    let mut run = PerfRun::new(RunRole::Sender);
    let mut now: u64 = 5 * MS;
    let mut action = run.step(RunEvent::Polled, now);
    let mut writes = 0usize;
    loop {
        match action {
            RunAction::Write => {
                now += step_ns;
                writes += 1;
                action = run.step(RunEvent::Wrote(BUFFER_SIZE), now);
            }
            RunAction::Flush => action = run.step(RunEvent::Flushed, now),
            RunAction::Close => action = run.step(RunEvent::Closed, now),
            RunAction::Linger(ns) => {
                assert_eq!(ns, GRACE_PERIOD);
                now += ns;
                action = run.step(RunEvent::Lingered, now);
            }
            RunAction::Finish(duration, transferred) => return (duration, transferred, writes),
            RunAction::Read => panic!("a sender never reads"),
        }
    }
}

#[test]
fn sender_stops_after_the_window() {
    let (duration, transferred, writes) = drive_sender(MS);
    assert!(duration >= MEASUREMENT_WINDOW);
    assert!(duration <= MEASUREMENT_WINDOW + 1_000_000_000);
    assert_eq!(duration, 10_000_000_000);
    assert_eq!(writes, 10_000);
    assert_eq!(transferred, 10_000 * BUFFER_SIZE);
}

#[test]
fn sender_duration_is_taken_at_the_cutoff() {
    // Writes of 3 ms each: the cutoff is seen at 10.002 s, and the time spent
    // closing and lingering is not counted.
    let (duration, transferred, writes) = drive_sender(3 * MS);
    assert_eq!(duration, 10_002_000_000);
    assert_eq!(writes, 3334);
    assert_eq!(transferred, 3334 * BUFFER_SIZE);
}

#[test]
fn sender_starts_its_clock_when_first_scheduled() {
    let mut run = PerfRun::new(RunRole::Sender);
    assert_eq!(run.step(RunEvent::Polled, 700), RunAction::Write);
    assert_eq!(run.state, RunState::Running { start: Some(700), transferred: 0 });
    assert_eq!(run.step(RunEvent::Wrote(10), 800), RunAction::Write);
    assert_eq!(run.bytes(), 10);
    assert_eq!(run.step(RunEvent::Polled, 700 + MEASUREMENT_WINDOW - 1), RunAction::Write);
    assert_eq!(run.step(RunEvent::Polled, 700 + MEASUREMENT_WINDOW), RunAction::Flush);
}

#[test]
fn sender_shutdown_goes_flush_close_linger() {
    let mut run = PerfRun::new(RunRole::Sender);
    run.step(RunEvent::Polled, 0);
    run.step(RunEvent::Wrote(5), 1);
    assert_eq!(run.step(RunEvent::Polled, MEASUREMENT_WINDOW + 4), RunAction::Flush);
    // Events that do not answer the current action change nothing.
    assert_eq!(run.step(RunEvent::Closed, MEASUREMENT_WINDOW + 5), RunAction::Flush);
    assert_eq!(run.step(RunEvent::Wrote(7), MEASUREMENT_WINDOW + 5), RunAction::Flush);
    assert_eq!(run.step(RunEvent::Flushed, MEASUREMENT_WINDOW + 6), RunAction::Close);
    assert_eq!(run.step(RunEvent::Polled, MEASUREMENT_WINDOW + 7), RunAction::Close);
    assert_eq!(run.step(RunEvent::Closed, MEASUREMENT_WINDOW + 8), RunAction::Linger(GRACE_PERIOD));
    assert_eq!(
        run.step(RunEvent::Lingered, MEASUREMENT_WINDOW + 9 + GRACE_PERIOD),
        RunAction::Finish(MEASUREMENT_WINDOW + 4, 5)
    );
    // A finished run keeps reporting the same result.
    assert_eq!(run.step(RunEvent::Polled, 3 * MEASUREMENT_WINDOW), RunAction::Finish(MEASUREMENT_WINDOW + 4, 5));
}

#[test]
fn receiver_counts_reads_from_its_first_byte() {
    let mut run = PerfRun::new(RunRole::Receiver);
    assert_eq!(run.step(RunEvent::Polled, 100), RunAction::Read);
    assert_eq!(run.state, RunState::Running { start: None, transferred: 0 });
    assert_eq!(run.step(RunEvent::Read(1000), 2_000), RunAction::Read);
    assert_eq!(run.step(RunEvent::Read(24), 3_000), RunAction::Read);
    // A sender's events leave a receiver alone.
    assert_eq!(run.step(RunEvent::Wrote(99), 3_500), RunAction::Read);
    assert_eq!(run.step(RunEvent::Read(0), 9_000), RunAction::Finish(7_000, 1024));
    assert_eq!(run.step(RunEvent::Read(50), 10_000), RunAction::Finish(7_000, 1024));
    assert_eq!(run.bytes(), 1024);
}

#[test]
fn receiver_of_an_empty_stream_finishes() {
    let mut run = PerfRun::new(RunRole::Receiver);
    assert_eq!(run.step(RunEvent::Polled, 1), RunAction::Read);
    assert_eq!(run.step(RunEvent::Polled, 2), RunAction::Read);
    assert_eq!(run.step(RunEvent::Read(0), 40), RunAction::Finish(0, 0));
    assert_eq!(run.state, RunState::Done { duration: 0, transferred: 0 });
}

#[test]
fn clock_reading_earlier_than_start_counts_as_zero() {
    let mut run = PerfRun::new(RunRole::Receiver);
    run.step(RunEvent::Read(3), 500);
    assert_eq!(run.step(RunEvent::Read(0), 400), RunAction::Finish(0, 3));
}

#[test]
fn receiver_total_matches_sender_total() {
    // The sender's stream accepts partial blocks; the receiver reads the same
    // bytes in other pieces.
    let mut sender = PerfRun::new(RunRole::Sender);
    let mut receiver = PerfRun::new(RunRole::Receiver);
    let mut now: u64 = 0;
    let mut in_flight: usize = 0;
    let mut action = sender.step(RunEvent::Polled, now);
    let sent = loop {
        match action {
            RunAction::Write => {
                now += 2 * MS;
                let accepted = BUFFER_SIZE - (now / MS % 1000) as usize;
                in_flight += accepted;
                action = sender.step(RunEvent::Wrote(accepted), now);
                while in_flight > 0 {
                    let piece = in_flight.min(50_000);
                    in_flight -= piece;
                    assert_eq!(receiver.step(RunEvent::Read(piece), now), RunAction::Read);
                }
            }
            RunAction::Flush => action = sender.step(RunEvent::Flushed, now),
            RunAction::Close => action = sender.step(RunEvent::Closed, now),
            RunAction::Linger(ns) => {
                now += ns;
                action = sender.step(RunEvent::Lingered, now);
            }
            RunAction::Finish(_, transferred) => break transferred,
            RunAction::Read => panic!("a sender never reads"),
        }
    };
    let received = match receiver.step(RunEvent::Read(0), now) {
        RunAction::Finish(_, transferred) => transferred,
        other => panic!("receiver did not finish: {:?}", other),
    };
    assert_eq!(received, sent);
    assert!(sent > 0);
}
