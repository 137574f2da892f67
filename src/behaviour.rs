//! The session orchestrator: one per node. It records the direction of each
//! connection, has the dialing side start a measurement, and passes finished
//! runs up as events.
use vstd::prelude::*;
use std::collections::HashMap;
use std::collections::VecDeque;
use crate::handler::{PerfHandler, PerfHandlerIn, PerfHandlerOut};

verus! {

broadcast use vstd::std_specs::hash::group_hash_axioms;

/// Which side opened a connection: `Outgoing` where this node dialed.
#[derive(Clone, Copy, Debug, PartialEq, Eq, Structural)]
pub enum Direction {
    Incoming,
    Outgoing,
}

/// A finished run, as the application sees it: how long it ran, in
/// nanoseconds, and how many bytes it moved.
#[derive(Clone, Copy, Debug, PartialEq, Eq, Structural)]
pub enum PerfEvent {
    PerfRunDone(u64, usize),
}

impl PerfEvent {
    pub open spec fn spec_duration(self) -> u64 {
        match self {
            PerfEvent::PerfRunDone(duration, _) => duration,
        }
    }

    pub open spec fn spec_transferred(self) -> usize {
        match self {
            PerfEvent::PerfRunDone(_, transferred) => transferred,
        }
    }

    /// The run's duration in nanoseconds.
    pub fn duration(&self) -> (r: u64)
        ensures
            r == self.spec_duration(),
    {
        match self {
            PerfEvent::PerfRunDone(duration, _) => *duration,
        }
    }

    /// The bytes that the run moved.
    pub fn transferred(&self) -> (r: usize)
        ensures
            r == self.spec_transferred(),
    {
        match self {
            PerfEvent::PerfRunDone(_, transferred) => *transferred,
        }
    }

    /// Whole megabytes moved (of 1 000 000 bytes).
    pub fn megabytes(&self) -> (r: usize)
        ensures
            r == self.spec_transferred() / 1000000,
    {
        self.transferred() / 1000000
    }

    /// Megabits moved, counted from the whole megabytes.
    pub fn megabits(&self) -> (r: usize)
        ensures
            r == self.spec_transferred() / 1000000 * 8,
    {
        let mb = self.megabytes();
        assert(mb * 8 <= usize::MAX) by {
            assert(self.spec_transferred() <= usize::MAX);
        }
        mb * 8
    }
}

/// What the orchestrator hands to the network.
#[derive(Debug)]
pub enum PerfAction {
    /// Deliver `event` to the handler of `connection`, to `peer`.
    NotifyHandler { peer: Vec<u8>, connection: u64, event: PerfHandlerIn },
    /// Report `event` to the application.
    GenerateEvent(PerfEvent),
}

/// A `PerfAction` with the peer's identity as a sequence of bytes.
pub ghost enum ActionModel {
    NotifyHandler { peer: Seq<u8>, connection: u64, event: PerfHandlerIn },
    GenerateEvent(PerfEvent),
}

impl View for PerfAction {
    type V = ActionModel;

    open spec fn view(&self) -> ActionModel {
        match self {
            PerfAction::NotifyHandler { peer, connection, event } => ActionModel::NotifyHandler {
                peer: peer@,
                connection: *connection,
                event: *event,
            },
            PerfAction::GenerateEvent(e) => ActionModel::GenerateEvent(*e),
        }
    }
}

/// How many start commands for `connection` stand in `actions`.
pub open spec fn starts_for(actions: Seq<ActionModel>, connection: u64) -> nat
    decreases actions.len(),
{
    if actions.len() == 0 {
        0
    } else {
        starts_for(actions.drop_last(), connection) + if actions.last() matches ActionModel::NotifyHandler {
            connection: c,
            event: PerfHandlerIn::StartPerf,
            ..
        } && c == connection {
            1nat
        } else {
            0nat
        }
    }
}

/// The orchestrator's state: each recorded connection's peer and direction,
/// and the queue of actions not yet handed out.
pub ghost struct PerfModel {
    pub connections: Map<u64, (Seq<u8>, Direction)>,
    pub outbox: Seq<ActionModel>,
}

impl PerfModel {
    /// After a connection was established: a connection seen before stays as
    /// recorded; a new one is recorded, and where this node dialed, a start
    /// command for its handler is queued.
    pub open spec fn establish(
        self,
        peer: Seq<u8>,
        connection: u64,
        direction: Direction,
    ) -> PerfModel {
        if self.connections.contains_key(connection) {
            self
        } else {
            PerfModel {
                connections: self.connections.insert(connection, (peer, direction)),
                outbox: if direction is Outgoing {
                    self.outbox.push(
                        ActionModel::NotifyHandler {
                            peer,
                            connection,
                            event: PerfHandlerIn::StartPerf,
                        },
                    )
                } else {
                    self.outbox
                },
            }
        }
    }
}

pub struct Perf {
    connections: HashMap<u64, (Vec<u8>, Direction)>,
    outbox: VecDeque<PerfAction>,
}

impl View for Perf {
    type V = PerfModel;

    closed spec fn view(&self) -> PerfModel {
        PerfModel {
            connections: self.connections@.map_values(|c: (Vec<u8>, Direction)| (c.0@, c.1)),
            outbox: self.outbox@.map_values(|a: PerfAction| a@),
        }
    }
}

impl Perf {
    /// An orchestrator that knows of no connection.
    pub fn new() -> (r: Perf)
        ensures
            r@.connections == Map::<u64, (Seq<u8>, Direction)>::empty(),
            r@.outbox == Seq::<ActionModel>::empty(),
    {
        let r = Perf { connections: HashMap::new(), outbox: VecDeque::new() };
        assert(r@.connections =~= Map::<u64, (Seq<u8>, Direction)>::empty());
        assert(r@.outbox =~= Seq::<ActionModel>::empty());
        r
    }

    /// A handler for a new connection.
    pub fn new_handler(&self) -> (r: PerfHandler)
        ensures
            r@.outbox == Seq::<crate::handler::HandlerEvent>::empty(),
            r@.runs == Map::<u64, crate::run::PerfRun>::empty(),
            r@.next_run == 0,
            r@.wf(),
    {
        PerfHandler::new()
    }

    /// Records a connection to `peer` that was just established. Where this
    /// node dialed it, exactly one start command is queued for its handler;
    /// where the peer dialed, none.
    pub fn on_connection_established(
        &mut self,
        peer: Vec<u8>,
        connection: u64,
        direction: Direction,
    )
        ensures
            final(self)@ == old(self)@.establish(peer@, connection, direction),
            !old(self)@.connections.contains_key(connection) ==> starts_for(
                final(self)@.outbox,
                connection,
            ) == starts_for(old(self)@.outbox, connection) + if direction is Outgoing {
                1nat
            } else {
                0nat
            },
    {
        if self.connections.contains_key(&connection) {
            return;
        }
        let ghost before = self@;
        if direction == Direction::Outgoing {
            let action = PerfAction::NotifyHandler {
                peer: peer.clone(),
                connection,
                event: PerfHandlerIn::StartPerf,
            };
            assert(action@ == (ActionModel::NotifyHandler {
                peer: peer@,
                connection,
                event: PerfHandlerIn::StartPerf,
            }));
            self.outbox.push_back(action);
            assert(self@.outbox =~= before.outbox.push(action@));
            assert(self@.outbox.drop_last() =~= before.outbox);
        }
        self.connections.insert(connection, (peer, direction));
        assert(self@.connections =~= before.connections.insert(connection, (peer@, direction)));
        assert(self@.outbox =~= before.establish(peer@, connection, direction).outbox);
    }

    /// Forgets a connection that was closed.
    pub fn on_connection_closed(&mut self, connection: u64)
        ensures
            final(self)@.connections == old(self)@.connections.remove(connection),
            final(self)@.outbox == old(self)@.outbox,
    {
        let ghost before = self@;
        self.connections.remove(&connection);
        assert(self@.connections =~= before.connections.remove(connection));
    }

    /// Passes a finished run reported by a handler on to the application.
    pub fn on_connection_handler_event(&mut self, event: PerfHandlerOut)
        ensures
            final(self)@.connections == old(self)@.connections,
            final(self)@.outbox == old(self)@.outbox.push(
                ActionModel::GenerateEvent(
                    match event {
                        PerfHandlerOut::PerfRunDone(d, t) => PerfEvent::PerfRunDone(d, t),
                    },
                ),
            ),
    {
        let ghost before = self@;
        let action = match event {
            PerfHandlerOut::PerfRunDone(duration, transferred) => PerfAction::GenerateEvent(
                PerfEvent::PerfRunDone(duration, transferred),
            ),
        };
        self.outbox.push_back(action);
        assert(self@.outbox =~= before.outbox.push(action@));
    }

    /// The direction recorded for `connection`, if it is known.
    pub fn direction_of(&self, connection: u64) -> (r: Option<Direction>)
        ensures
            self@.connections.contains_key(connection) ==> r == Some(
                self@.connections[connection].1,
            ),
            !self@.connections.contains_key(connection) ==> r is None,
    {
        match self.connections.get(&connection) {
            Some(c) => Some(c.1),
            None => None,
        }
    }

    /// Hands out the oldest queued action, if any.
    pub fn poll(&mut self) -> (r: Option<PerfAction>)
        ensures
            old(self)@.outbox.len() == 0 ==> r is None && final(self)@ == old(self)@,
            old(self)@.outbox.len() > 0 ==> {
                &&& r is Some
                &&& r->0@ == old(self)@.outbox[0]
                &&& final(self)@.outbox == old(self)@.outbox.drop_first()
                &&& final(self)@.connections == old(self)@.connections
            },
    {
        let ghost before = self@;
        let r = self.outbox.pop_front();
        assert(self@.outbox =~= before.outbox.drop_first() || before.outbox.len() == 0);
        r
    }
}

impl Default for Perf {
    fn default() -> (r: Perf)
        ensures
            r@.connections == Map::<u64, (Seq<u8>, Direction)>::empty(),
            r@.outbox == Seq::<ActionModel>::empty(),
    {
        Perf::new()
    }
}

} // verus!
