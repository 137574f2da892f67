//! Negotiation of the measurement protocol on a new stream.
use vstd::prelude::*;

verus! {

/// The identifier under which streams of this protocol are negotiated.
pub open spec fn protocol_name() -> Seq<char> {
    "/perf/0.1.0"@
}

/// The upgrade applied to each negotiated stream: it marks negotiation as
/// complete and hands the stream back as it is, ready for raw bytes.
#[derive(Clone, Copy, Debug, PartialEq, Eq, Structural)]
pub struct PerfProtocolConfig {}

impl PerfProtocolConfig {
    pub fn new() -> (r: PerfProtocolConfig)
        ensures
            r == (PerfProtocolConfig {}),
    {
        PerfProtocolConfig {}
    }

    /// The protocol identifier that this upgrade answers to.
    pub fn protocol_info(&self) -> (r: &'static str)
        ensures
            r@ == protocol_name(),
    {
        "/perf/0.1.0"
    }

    /// Completes an inbound negotiation: the stream comes back unchanged.
    pub fn upgrade_inbound<C>(self, incoming: C) -> (r: C)
        ensures
            r == incoming,
    {
        incoming
    }

    /// Completes an outbound negotiation: the stream comes back unchanged.
    pub fn upgrade_outbound<C>(self, outgoing: C) -> (r: C)
        ensures
            r == outgoing,
    {
        outgoing
    }
}

} // verus!
