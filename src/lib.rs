//! Throughput measurement between two peers over a multiplexed stream
//! connection: one peer writes a fixed-size block as fast as the stream
//! accepts it for a fixed window, the other drains the stream, and each side
//! reports how long it ran and how many bytes moved.
//!
//! The library holds the decisions as state machines over plain values; the
//! code that owns the streams, the clock and the network performs the actions
//! they hand out and reports back what happened.
pub mod behaviour;
pub mod handler;
pub mod protocol;
pub mod run;
pub mod transport;

pub use behaviour::{Direction, Perf, PerfAction, PerfEvent};
pub use handler::{ConnectionEvent, HandlerEvent, PerfHandler, PerfHandlerIn, PerfHandlerOut};
pub use protocol::PerfProtocolConfig;
pub use run::{PerfRun, RunAction, RunEvent, RunRole, RunState};
pub use transport::TcpTransportSecurity;
