//! One measurement run over one negotiated stream.
//!
//! A run is a state machine. Each call of `step` reports what became of the
//! last action (or that the run was merely scheduled again), together with the
//! current time, and returns the next action to perform on the stream.
//! Times are monotonic clock readings in nanoseconds.
use vstd::prelude::*;

verus! {

/// Size of the block that a sender writes, and of the receiver's discard
/// buffer, in bytes.
pub const BUFFER_SIZE: usize = 128000;

/// How long a sender writes before it shuts its stream down (10 s).
pub const MEASUREMENT_WINDOW: u64 = 10000000000;

/// How long a sender waits after closing its stream before it reports (1 s),
/// so that the peer observes the end of the stream before the connection goes.
pub const GRACE_PERIOD: u64 = 1000000000;

/// Whether a run pushes data into its stream or drains it.
#[derive(Clone, Copy, Debug, PartialEq, Eq, Structural)]
pub enum RunRole {
    Sender,
    Receiver,
}

/// The steps of a sender's shutdown.
#[derive(Clone, Copy, Debug, PartialEq, Eq, Structural)]
pub enum ClosePhase {
    Flushing,
    Closing,
    Lingering,
}

#[derive(Clone, Copy, Debug, PartialEq, Eq, Structural)]
pub enum RunState {
    /// Moving data; `start` is the time of the first transfer, once there was one.
    Running { start: Option<u64>, transferred: usize },
    /// A sender past its window, shutting its stream down.
    ClosingWriter { duration: u64, transferred: usize, phase: ClosePhase },
    /// Finished, with the measured interval and byte count.
    Done { duration: u64, transferred: usize },
}

/// What happened since the last step.
#[derive(Clone, Copy, Debug, PartialEq, Eq, Structural)]
pub enum RunEvent {
    /// The run was scheduled; no operation completed.
    Polled,
    /// The stream accepted this many bytes of the block.
    Wrote(usize),
    /// This many bytes were read; zero is the orderly end of the stream.
    Read(usize),
    /// Buffered output was flushed.
    Flushed,
    /// The write half of the stream was closed.
    Closed,
    /// The grace period has passed.
    Lingered,
}

/// What to do next.
#[derive(Clone, Copy, Debug, PartialEq, Eq, Structural)]
pub enum RunAction {
    /// Offer a block of `BUFFER_SIZE` bytes to the stream.
    Write,
    /// Read into a buffer of `BUFFER_SIZE` bytes.
    Read,
    /// Flush buffered output.
    Flush,
    /// Close the write half of the stream.
    Close,
    /// Wait this many nanoseconds.
    Linger(u64),
    /// The run is over: its duration in nanoseconds and its byte count.
    Finish(u64, usize),
}

/// Time from `start` to `now`, or zero if the clock reads earlier than `start`.
pub open spec fn elapsed(start: u64, now: u64) -> u64 {
    if start <= now {
        (now - start) as u64
    } else {
        0
    }
}

/// The start of an interval: the recorded one, or else `now`.
pub open spec fn started(start: Option<u64>, now: u64) -> u64 {
    match start {
        Some(s) => s,
        None => now,
    }
}

/// Bytes that an event reports as moved.
pub open spec fn event_bytes(event: RunEvent) -> nat {
    match event {
        RunEvent::Wrote(n) => n as nat,
        RunEvent::Read(n) => n as nat,
        _ => 0,
    }
}

/// Whether `event` can follow `action`: the outcome of that action, or a plain
/// scheduling pass.
pub open spec fn answers(action: RunAction, event: RunEvent) -> bool {
    match event {
        RunEvent::Polled => true,
        RunEvent::Wrote(_) => action is Write,
        RunEvent::Read(_) => action is Read,
        RunEvent::Flushed => action is Flush,
        RunEvent::Closed => action is Close,
        RunEvent::Lingered => action is Linger,
    }
}

#[derive(Clone, Copy, Debug, PartialEq, Eq, Structural)]
pub struct PerfRun {
    pub role: RunRole,
    pub state: RunState,
}

impl PerfRun {
    pub open spec fn fresh(role: RunRole) -> PerfRun {
        PerfRun { role, state: RunState::Running { start: None, transferred: 0 } }
    }

    pub open spec fn transferred(self) -> usize {
        match self.state {
            RunState::Running { transferred, .. } => transferred,
            RunState::ClosingWriter { transferred, .. } => transferred,
            RunState::Done { transferred, .. } => transferred,
        }
    }

    /// Only a sender shuts its stream down, and a sender's measured interval
    /// covers the whole window.
    pub open spec fn wf(self) -> bool {
        match self.state {
            RunState::Running { .. } => true,
            RunState::ClosingWriter { duration, .. } => self.role is Sender && duration
                >= MEASUREMENT_WINDOW,
            RunState::Done { duration, .. } => self.role is Sender ==> duration
                >= MEASUREMENT_WINDOW,
        }
    }

    /// The byte counter can take what `event` reports.
    pub open spec fn fits(self, event: RunEvent) -> bool {
        self.transferred() + event_bytes(event) <= usize::MAX
    }

    /// The effect of a completed operation.
    pub open spec fn after(self, event: RunEvent, now: u64) -> PerfRun {
        let role = self.role;
        match self.state {
            RunState::Running { start, transferred } => match event {
                RunEvent::Wrote(n) if role is Sender => PerfRun {
                    role,
                    state: RunState::Running {
                        start: Some(started(start, now)),
                        transferred: (transferred + n) as usize,
                    },
                },
                RunEvent::Read(n) if role is Receiver => if n == 0 {
                    PerfRun {
                        role,
                        state: RunState::Done {
                            duration: elapsed(started(start, now), now),
                            transferred,
                        },
                    }
                } else {
                    PerfRun {
                        role,
                        state: RunState::Running {
                            start: Some(started(start, now)),
                            transferred: (transferred + n) as usize,
                        },
                    }
                },
                _ => self,
            },
            RunState::ClosingWriter { duration, transferred, phase } => match (phase, event) {
                (ClosePhase::Flushing, RunEvent::Flushed) => PerfRun {
                    role,
                    state: RunState::ClosingWriter {
                        duration,
                        transferred,
                        phase: ClosePhase::Closing,
                    },
                },
                (ClosePhase::Closing, RunEvent::Closed) => PerfRun {
                    role,
                    state: RunState::ClosingWriter {
                        duration,
                        transferred,
                        phase: ClosePhase::Lingering,
                    },
                },
                (ClosePhase::Lingering, RunEvent::Lingered) => PerfRun {
                    role,
                    state: RunState::Done { duration, transferred },
                },
                _ => self,
            },
            RunState::Done { .. } => self,
        }
    }

    /// What a sender decides on being scheduled: it starts its clock, or stops
    /// writing once the window has passed, keeping the interval measured then.
    pub open spec fn advance(self, now: u64) -> PerfRun {
        match self.state {
            RunState::Running { start, transferred } => if self.role is Sender {
                match start {
                    None => PerfRun {
                        role: self.role,
                        state: RunState::Running { start: Some(now), transferred },
                    },
                    Some(s) => if elapsed(s, now) >= MEASUREMENT_WINDOW {
                        PerfRun {
                            role: self.role,
                            state: RunState::ClosingWriter {
                                duration: elapsed(s, now),
                                transferred,
                                phase: ClosePhase::Flushing,
                            },
                        }
                    } else {
                        self
                    },
                }
            } else {
                self
            },
            _ => self,
        }
    }

    /// The operation that a state calls for.
    pub open spec fn action(self) -> RunAction {
        match self.state {
            RunState::Running { .. } => if self.role is Sender {
                RunAction::Write
            } else {
                RunAction::Read
            },
            RunState::ClosingWriter { phase, .. } => match phase {
                ClosePhase::Flushing => RunAction::Flush,
                ClosePhase::Closing => RunAction::Close,
                ClosePhase::Lingering => RunAction::Linger(GRACE_PERIOD),
            },
            RunState::Done { duration, transferred } => RunAction::Finish(duration, transferred),
        }
    }

    /// The state after one step.
    pub open spec fn next(self, event: RunEvent, now: u64) -> PerfRun {
        self.after(event, now).advance(now)
    }

    /// A run on a stream that was just negotiated: nothing moved, no clock started.
    pub fn new(role: RunRole) -> (r: PerfRun)
        ensures
            r == PerfRun::fresh(role),
            r.wf(),
    {
        PerfRun { role, state: RunState::Running { start: None, transferred: 0 } }
    }

    /// The number of bytes moved so far.
    pub fn bytes(&self) -> (r: usize)
        ensures
            r == self.transferred(),
    {
        match self.state {
            RunState::Running { transferred, .. } => transferred,
            RunState::ClosingWriter { transferred, .. } => transferred,
            RunState::Done { transferred, .. } => transferred,
        }
    }

    /// Takes in what happened and the time now, and returns the next action.
    pub fn step(&mut self, event: RunEvent, now: u64) -> (r: RunAction)
        requires
            old(self).wf(),
            old(self).fits(event),
        ensures
            *final(self) == old(self).next(event, now),
            r == final(self).action(),
            final(self).wf(),
            final(self).role == old(self).role,
            old(self).role is Sender ==> (r matches RunAction::Finish(duration, _) ==> duration
                >= MEASUREMENT_WINDOW),
    {
        let after = apply_event(*self, event, now);
        let next = advance_run(after, now);
        *self = next;
        action_of(&next)
    }
}

fn elapsed_since(start: u64, now: u64) -> (r: u64)
    ensures
        r == elapsed(start, now),
{
    if start <= now {
        now - start
    } else {
        0
    }
}

fn start_or(start: Option<u64>, now: u64) -> (r: u64)
    ensures
        r == started(start, now),
{
    match start {
        Some(s) => s,
        None => now,
    }
}

fn apply_event(run: PerfRun, event: RunEvent, now: u64) -> (r: PerfRun)
    requires
        run.wf(),
        run.fits(event),
    ensures
        r == run.after(event, now),
        r.wf(),
{
    let role = run.role;
    match run.state {
        RunState::Running { start, transferred } => match event {
            RunEvent::Wrote(n) if role == RunRole::Sender => PerfRun {
                role,
                state: RunState::Running {
                    start: Some(start_or(start, now)),
                    transferred: transferred + n,
                },
            },
            RunEvent::Read(n) if role == RunRole::Receiver => {
                let from = start_or(start, now);
                if n == 0 {
                    PerfRun {
                        role,
                        state: RunState::Done { duration: elapsed_since(from, now), transferred },
                    }
                } else {
                    PerfRun {
                        role,
                        state: RunState::Running { start: Some(from), transferred: transferred + n },
                    }
                }
            },
            _ => run,
        },
        RunState::ClosingWriter { duration, transferred, phase } => match (phase, event) {
            (ClosePhase::Flushing, RunEvent::Flushed) => PerfRun {
                role,
                state: RunState::ClosingWriter { duration, transferred, phase: ClosePhase::Closing },
            },
            (ClosePhase::Closing, RunEvent::Closed) => PerfRun {
                role,
                state: RunState::ClosingWriter {
                    duration,
                    transferred,
                    phase: ClosePhase::Lingering,
                },
            },
            (ClosePhase::Lingering, RunEvent::Lingered) => PerfRun {
                role,
                state: RunState::Done { duration, transferred },
            },
            _ => run,
        },
        RunState::Done { .. } => run,
    }
}

fn advance_run(run: PerfRun, now: u64) -> (r: PerfRun)
    requires
        run.wf(),
    ensures
        r == run.advance(now),
        r.wf(),
{
    match run.state {
        RunState::Running { start, transferred } => if run.role == RunRole::Sender {
            match start {
                None => PerfRun {
                    role: run.role,
                    state: RunState::Running { start: Some(now), transferred },
                },
                Some(s) => {
                    let spent = elapsed_since(s, now);
                    if spent >= MEASUREMENT_WINDOW {
                        PerfRun {
                            role: run.role,
                            state: RunState::ClosingWriter {
                                duration: spent,
                                transferred,
                                phase: ClosePhase::Flushing,
                            },
                        }
                    } else {
                        run
                    }
                },
            }
        } else {
            run
        },
        _ => run,
    }
}

fn action_of(run: &PerfRun) -> (r: RunAction)
    ensures
        r == run.action(),
{
    match run.state {
        RunState::Running { .. } => if run.role == RunRole::Sender {
            RunAction::Write
        } else {
            RunAction::Read
        },
        RunState::ClosingWriter { phase, .. } => match phase {
            ClosePhase::Flushing => RunAction::Flush,
            ClosePhase::Closing => RunAction::Close,
            ClosePhase::Lingering => RunAction::Linger(GRACE_PERIOD),
        },
        RunState::Done { duration, transferred } => RunAction::Finish(duration, transferred),
    }
}

/// The run after a sequence of steps, each an event and the time it was reported.
pub open spec fn replay(run: PerfRun, trace: Seq<(RunEvent, u64)>) -> PerfRun
    decreases trace.len(),
{
    if trace.len() == 0 {
        run
    } else {
        replay(run.next(trace[0].0, trace[0].1), trace.drop_first())
    }
}

/// Each event of `trace` answers the action that the run asked for before it.
pub open spec fn faithful(run: PerfRun, trace: Seq<(RunEvent, u64)>) -> bool
    decreases trace.len(),
{
    trace.len() == 0 || (answers(run.action(), trace[0].0) && faithful(
        run.next(trace[0].0, trace[0].1),
        trace.drop_first(),
    ))
}

/// Bytes that the events of `trace` report as moved.
pub open spec fn bytes_moved(trace: Seq<(RunEvent, u64)>) -> nat
    decreases trace.len(),
{
    if trace.len() == 0 {
        0
    } else {
        event_bytes(trace[0].0) + bytes_moved(trace.drop_first())
    }
}

/// A step that answers the run's action adds what the event reports to the
/// byte count, and keeps the run well formed.
pub proof fn lemma_step_counts(run: PerfRun, event: RunEvent, now: u64)
    requires
        run.wf(),
        run.fits(event),
        answers(run.action(), event),
    ensures
        run.next(event, now).transferred() == run.transferred() + event_bytes(event),
        run.next(event, now).wf(),
        run.next(event, now).role == run.role,
{
}

/// Every byte that a run is told of is counted: after a faithful sequence of
/// steps, a run's total is its earlier total plus the bytes reported.
pub proof fn lemma_counts_every_byte(run: PerfRun, trace: Seq<(RunEvent, u64)>)
    requires
        run.wf(),
        faithful(run, trace),
        run.transferred() + bytes_moved(trace) <= usize::MAX,
    ensures
        replay(run, trace).transferred() == run.transferred() + bytes_moved(trace),
        replay(run, trace).wf(),
        replay(run, trace).role == run.role,
    decreases trace.len(),
{
    if trace.len() > 0 {
        let (event, now) = trace[0];
        lemma_step_counts(run, event, now);
        lemma_counts_every_byte(run.next(event, now), trace.drop_first());
    }
}

/// A finished run stays as it is, whatever it is told, and keeps reporting the
/// same result.
pub proof fn lemma_done_is_final(run: PerfRun, trace: Seq<(RunEvent, u64)>)
    requires
        run.state is Done,
    ensures
        replay(run, trace) == run,
        replay(run, trace).action() == run.action(),
    decreases trace.len(),
{
    if trace.len() > 0 {
        lemma_done_is_final(run.next(trace[0].0, trace[0].1), trace.drop_first());
    }
}

/// Conservation: when a receiver reads exactly the bytes that a sender's stream
/// accepted, both runs report the same total, the sender's the count at its
/// cutoff and the receiver's one that no later step changes once it is done.
pub proof fn lemma_conservation(
    sent: Seq<(RunEvent, u64)>,
    received: Seq<(RunEvent, u64)>,
    later: Seq<(RunEvent, u64)>,
)
    requires
        faithful(PerfRun::fresh(RunRole::Sender), sent),
        faithful(PerfRun::fresh(RunRole::Receiver), received),
        bytes_moved(received) == bytes_moved(sent),
        bytes_moved(sent) <= usize::MAX,
    ensures
        replay(PerfRun::fresh(RunRole::Sender), sent).transferred() == replay(
            PerfRun::fresh(RunRole::Receiver),
            received,
        ).transferred(),
        replay(PerfRun::fresh(RunRole::Receiver), received).state is Done ==> replay(
            replay(PerfRun::fresh(RunRole::Receiver), received),
            later,
        ) == replay(PerfRun::fresh(RunRole::Receiver), received),
{
    lemma_counts_every_byte(PerfRun::fresh(RunRole::Sender), sent);
    lemma_counts_every_byte(PerfRun::fresh(RunRole::Receiver), received);
    if replay(PerfRun::fresh(RunRole::Receiver), received).state is Done {
        lemma_done_is_final(replay(PerfRun::fresh(RunRole::Receiver), received), later);
    }
}

/// A receiver whose stream ends before any byte arrived finishes at once, with
/// nothing transferred, however often it was scheduled before.
pub proof fn lemma_empty_stream_finishes(polls: Seq<(RunEvent, u64)>, now: u64)
    requires
        forall|i: int| 0 <= i < polls.len() ==> (#[trigger] polls[i]).0 is Polled,
    ensures
        replay(PerfRun::fresh(RunRole::Receiver), polls) == PerfRun::fresh(RunRole::Receiver),
        PerfRun::fresh(RunRole::Receiver).next(RunEvent::Read(0), now) == (PerfRun {
            role: RunRole::Receiver,
            state: RunState::Done { duration: 0, transferred: 0 },
        }),
        PerfRun::fresh(RunRole::Receiver).next(RunEvent::Read(0), now).action()
            == RunAction::Finish(0, 0),
    decreases polls.len(),
{
    if polls.len() > 0 {
        assert(polls[0].0 is Polled);
        let rest = polls.drop_first();
        assert forall|i: int| 0 <= i < rest.len() implies (#[trigger] rest[i]).0 is Polled by {
            assert(rest[i] == polls[i + 1]);
        }
        lemma_empty_stream_finishes(rest, now);
    }
}

} // verus!
