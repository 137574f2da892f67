//! The per-connection handler: it keeps the connection's active runs, asks for
//! outbound streams when told to start a measurement, and reports each run
//! that finishes.
use vstd::prelude::*;
use std::collections::HashMap;
use std::collections::VecDeque;
use crate::protocol::PerfProtocolConfig;
use crate::run::{PerfRun, RunAction, RunEvent, RunRole};

verus! {

broadcast use vstd::std_specs::hash::group_hash_axioms;

/// Command from the orchestrator to a handler.
#[derive(Clone, Copy, Debug, PartialEq, Eq, Structural)]
pub enum PerfHandlerIn {
    StartPerf,
}

/// Report from a handler to the orchestrator: a run finished after this many
/// nanoseconds, having moved this many bytes.
#[derive(Clone, Copy, Debug, PartialEq, Eq, Structural)]
pub enum PerfHandlerOut {
    PerfRunDone(u64, usize),
}

/// What a handler hands to the connection.
#[derive(Clone, Copy, Debug, PartialEq, Eq, Structural)]
pub enum HandlerEvent {
    /// Open a new outbound stream and negotiate it with this upgrade.
    OutboundSubstreamRequest(PerfProtocolConfig),
    /// Pass this report up to the orchestrator.
    Custom(PerfHandlerOut),
}

/// A stream finished its negotiation on the handler's connection.
#[derive(Clone, Copy, Debug, PartialEq, Eq, Structural)]
pub enum ConnectionEvent {
    /// The remote peer opened it.
    FullyNegotiatedInbound,
    /// This handler asked for it.
    FullyNegotiatedOutbound,
}

/// The role of a run on a stream that arrived by `event`.
pub open spec fn role_for(event: ConnectionEvent) -> RunRole {
    match event {
        ConnectionEvent::FullyNegotiatedInbound => RunRole::Receiver,
        ConnectionEvent::FullyNegotiatedOutbound => RunRole::Sender,
    }
}

/// A handler's state: its queue of events not yet handed out, its active runs
/// by identifier, and the identifier that the next run gets.
pub ghost struct HandlerModel {
    pub outbox: Seq<HandlerEvent>,
    pub runs: Map<u64, PerfRun>,
    pub next_run: u64,
}

impl HandlerModel {
    pub open spec fn wf(self) -> bool {
        forall|id: u64| #[trigger]
            self.runs.contains_key(id) ==> id < self.next_run && self.runs[id].wf()
    }

    /// After a start command: one outbound stream is asked for.
    pub open spec fn start_perf(self) -> HandlerModel {
        HandlerModel {
            outbox: self.outbox.push(
                HandlerEvent::OutboundSubstreamRequest(PerfProtocolConfig {}),
            ),
            ..self
        }
    }

    /// Whether a run can still be given a fresh identifier.
    pub open spec fn has_room(self) -> bool {
        self.next_run < u64::MAX
    }

    /// After a stream was negotiated: a fresh run on it, in the role that its
    /// direction gives.
    pub open spec fn add_run(self, event: ConnectionEvent) -> HandlerModel {
        HandlerModel {
            runs: self.runs.insert(self.next_run, PerfRun::fresh(role_for(event))),
            next_run: (self.next_run + 1) as u64,
            ..self
        }
    }

    /// After a step of run `id`: a run that is done leaves the set and its
    /// result joins the queue; any other stays with its new state.
    pub open spec fn step_run(self, id: u64, event: RunEvent, now: u64) -> HandlerModel {
        let run = self.runs[id].next(event, now);
        match run.action() {
            RunAction::Finish(duration, transferred) => HandlerModel {
                outbox: self.outbox.push(
                    HandlerEvent::Custom(PerfHandlerOut::PerfRunDone(duration, transferred)),
                ),
                runs: self.runs.remove(id),
                ..self
            },
            _ => HandlerModel { runs: self.runs.insert(id, run), ..self },
        }
    }
}

impl HandlerModel {
    /// What `PerfHandler::poll_run` makes of the state.
    pub open spec fn poll_run(self, id: u64, event: RunEvent, now: u64) -> HandlerModel {
        if self.runs.contains_key(id) {
            self.step_run(id, event, now)
        } else {
            self
        }
    }
}

/// The state after steps of run `id`, each an event and the time it was reported.
pub open spec fn replay_run(m: HandlerModel, id: u64, trace: Seq<(RunEvent, u64)>) -> HandlerModel
    decreases trace.len(),
{
    if trace.len() == 0 {
        m
    } else {
        replay_run(m.poll_run(id, trace[0].0, trace[0].1), id, trace.drop_first())
    }
}

/// A run that finishes is taken out of the handler at that step and its result
/// is queued once; whatever is later reported for it changes nothing and
/// queues nothing more.
pub proof fn lemma_finished_run_reported_once(
    m: HandlerModel,
    id: u64,
    event: RunEvent,
    now: u64,
    later: Seq<(RunEvent, u64)>,
)
    requires
        m.wf(),
        m.runs.contains_key(id),
        m.runs[id].next(event, now).state is Done,
    ensures
        ({
            let done = m.runs[id].next(event, now);
            let m1 = m.poll_run(id, event, now);
            &&& !m1.runs.contains_key(id)
            &&& m1.runs == m.runs.remove(id)
            &&& m1.outbox == m.outbox.push(
                HandlerEvent::Custom(
                    PerfHandlerOut::PerfRunDone(done.action()->Finish_0, done.action()->Finish_1),
                ),
            )
            &&& replay_run(m1, id, later) == m1
        }),
{
    let m1 = m.poll_run(id, event, now);
    lemma_absent_run_untouched(m1, id, later);
}

/// Steps reported for a run that is not active leave the state as it is.
pub proof fn lemma_absent_run_untouched(m: HandlerModel, id: u64, trace: Seq<(RunEvent, u64)>)
    requires
        !m.runs.contains_key(id),
    ensures
        replay_run(m, id, trace) == m,
    decreases trace.len(),
{
    if trace.len() > 0 {
        lemma_absent_run_untouched(m, id, trace.drop_first());
    }
}

pub struct PerfHandler {
    outbox: VecDeque<HandlerEvent>,
    runs: HashMap<u64, PerfRun>,
    next_run: u64,
}

impl View for PerfHandler {
    type V = HandlerModel;

    closed spec fn view(&self) -> HandlerModel {
        HandlerModel { outbox: self.outbox@, runs: self.runs@, next_run: self.next_run }
    }
}

impl PerfHandler {
    /// A handler with no runs and nothing to report.
    pub fn new() -> (r: PerfHandler)
        ensures
            r@.outbox == Seq::<HandlerEvent>::empty(),
            r@.runs == Map::<u64, PerfRun>::empty(),
            r@.next_run == 0,
            r@.wf(),
    {
        let r = PerfHandler { outbox: VecDeque::new(), runs: HashMap::new(), next_run: 0 };
        assert(r@.runs =~= Map::<u64, PerfRun>::empty());
        r
    }

    /// The upgrade to apply to streams that the remote peer opens.
    pub fn listen_protocol(&self) -> (r: PerfProtocolConfig)
        ensures
            r == (PerfProtocolConfig {}),
    {
        PerfProtocolConfig::new()
    }

    /// Takes a command from the orchestrator: a start asks for a new outbound
    /// stream, also while other runs are active.
    pub fn on_behaviour_event(&mut self, event: PerfHandlerIn)
        requires
            old(self)@.wf(),
        ensures
            final(self)@ == old(self)@.start_perf(),
            final(self)@.wf(),
    {
        match event {
            PerfHandlerIn::StartPerf => {
                self.outbox.push_back(
                    HandlerEvent::OutboundSubstreamRequest(PerfProtocolConfig::new()),
                );
            },
        }
        assert(self@.runs == old(self)@.runs);
    }

    /// Takes a newly negotiated stream and starts a run on it: a sender on a
    /// stream that this handler asked for, a receiver on one that the remote
    /// peer opened. Returns the run's identifier, under which its steps are
    /// reported, or `None` once every identifier was given out.
    pub fn on_connection_event(&mut self, event: ConnectionEvent) -> (r: Option<u64>)
        requires
            old(self)@.wf(),
        ensures
            final(self)@.wf(),
            old(self)@.has_room() ==> {
                &&& r == Some(old(self)@.next_run)
                &&& !old(self)@.runs.contains_key(old(self)@.next_run)
                &&& final(self)@ == old(self)@.add_run(event)
            },
            !old(self)@.has_room() ==> r is None && final(self)@ == old(self)@,
    {
        if self.next_run == u64::MAX {
            return None;
        }
        let id = self.next_run;
        let role = match event {
            ConnectionEvent::FullyNegotiatedInbound => RunRole::Receiver,
            ConnectionEvent::FullyNegotiatedOutbound => RunRole::Sender,
        };
        self.runs.insert(id, PerfRun::new(role));
        self.next_run = id + 1;
        assert forall|k: u64| #[trigger] self@.runs.contains_key(k) implies k < self@.next_run
            && self@.runs[k].wf() by {
            if k != id {
                assert(old(self)@.runs.contains_key(k));
            }
        }
        Some(id)
    }

    /// The connection may stay open as long as the handler exists.
    pub fn connection_keep_alive(&self) -> (r: bool)
        ensures
            r,
    {
        true
    }

    /// The byte count of run `id`, if it is active.
    pub fn transferred_of(&self, id: u64) -> (r: Option<usize>)
        ensures
            self@.runs.contains_key(id) ==> r == Some(self@.runs[id].transferred()),
            !self@.runs.contains_key(id) ==> r is None,
    {
        match self.runs.get(&id) {
            Some(run) => Some(run.bytes()),
            None => None,
        }
    }

    /// Reports what happened to run `id` and returns its next action. A run
    /// that finishes leaves the handler and its result is queued; for a run
    /// that is not active nothing changes and `None` comes back.
    pub fn poll_run(&mut self, id: u64, event: RunEvent, now: u64) -> (r: Option<RunAction>)
        requires
            old(self)@.wf(),
            old(self)@.runs.contains_key(id) ==> old(self)@.runs[id].fits(event),
        ensures
            final(self)@.wf(),
            old(self)@.runs.contains_key(id) ==> {
                &&& final(self)@ == old(self)@.step_run(id, event, now)
                &&& r == Some(old(self)@.runs[id].next(event, now).action())
            },
            !old(self)@.runs.contains_key(id) ==> r is None && final(self)@ == old(self)@,
    {
        let mut run = match self.runs.get(&id) {
            Some(run) => *run,
            None => {
                return None;
            },
        };
        let action = run.step(event, now);
        match action {
            RunAction::Finish(duration, transferred) => {
                self.runs.remove(&id);
                self.outbox.push_back(
                    HandlerEvent::Custom(PerfHandlerOut::PerfRunDone(duration, transferred)),
                );
            },
            _ => {
                self.runs.insert(id, run);
            },
        }
        proof {
            assert(self@.runs =~= old(self)@.step_run(id, event, now).runs);
        }
        Some(action)
    }

    /// Hands out the oldest queued event, if any.
    pub fn poll(&mut self) -> (r: Option<HandlerEvent>)
        requires
            old(self)@.wf(),
        ensures
            final(self)@.wf(),
            old(self)@.outbox.len() == 0 ==> r is None && final(self)@ == old(self)@,
            old(self)@.outbox.len() > 0 ==> {
                &&& r == Some(old(self)@.outbox[0])
                &&& final(self)@ == HandlerModel {
                    outbox: old(self)@.outbox.drop_first(),
                    ..old(self)@
                }
            },
    {
        let r = self.outbox.pop_front();
        assert(self@.runs == old(self)@.runs);
        assert(self@.next_run == old(self)@.next_run);
        r
    }
}

impl Default for PerfHandler {
    fn default() -> (r: PerfHandler)
        ensures
            r@.outbox == Seq::<HandlerEvent>::empty(),
            r@.runs == Map::<u64, PerfRun>::empty(),
            r@.next_run == 0,
            r@.wf(),
    {
        PerfHandler::new()
    }
}

/// A run keeps the role it was given: a step of any run leaves the role of
/// every run that is still active as it was.
pub proof fn lemma_roles_are_kept(
    m: HandlerModel,
    id: u64,
    event: RunEvent,
    now: u64,
    other: u64,
)
    requires
        m.wf(),
        m.runs.contains_key(other),
        m.poll_run(id, event, now).runs.contains_key(other),
    ensures
        m.poll_run(id, event, now).runs[other].role == m.runs[other].role,
{
}

/// Where a run comes from decides its role: a stream that this handler asked
/// for carries a sender, one that the remote peer opened a receiver.
pub proof fn lemma_role_follows_stream_origin(m: HandlerModel, event: ConnectionEvent)
    requires
        m.wf(),
        m.has_room(),
    ensures
        m.add_run(event).runs[m.next_run].role == (if event is FullyNegotiatedOutbound {
            RunRole::Sender
        } else {
            RunRole::Receiver
        }),
{
}

} // verus!
