//! The order of the steps of one half-duplex transaction on the RS-485 bus.
//!
//! The transmit-enable line must be driven before the request is written,
//! held until the transmitter has sent every byte, and released before the
//! reply can arrive.

use vstd::prelude::*;
use crate::control::{REPLY_TIMEOUT_MS, TX_DONE_TIMEOUT_MS};

verus! {

/// One step of a bus transaction, carried out by the caller in order.
#[derive(Clone, Copy, Debug, PartialEq, Eq, Structural)]
pub enum BusStep {
    /// Assert the transmit-enable line.
    DriveTransmit,
    /// Write the request frame.
    WriteRequest,
    /// Wait until the transmitter has sent every byte, at most this long.
    AwaitSent { timeout_ms: u32 },
    /// Deassert the transmit-enable line.
    ReleaseTransmit,
    /// Read the reply, waiting at most this long.
    ReadReply { timeout_ms: u32 },
}

/// The steps of one transaction, in order.
pub open spec fn transaction_steps() -> Seq<BusStep> {
    seq![
        BusStep::DriveTransmit,
        BusStep::WriteRequest,
        BusStep::AwaitSent { timeout_ms: TX_DONE_TIMEOUT_MS },
        BusStep::ReleaseTransmit,
        BusStep::ReadReply { timeout_ms: REPLY_TIMEOUT_MS },
    ]
}

/// The steps of one transaction, in the order they must be carried out.
pub fn transaction_plan() -> (r: Vec<BusStep>)
    ensures
        r@ == transaction_steps(),
{
    let mut steps: Vec<BusStep> = Vec::new();
    steps.push(BusStep::DriveTransmit);
    steps.push(BusStep::WriteRequest);
    steps.push(BusStep::AwaitSent { timeout_ms: TX_DONE_TIMEOUT_MS });
    steps.push(BusStep::ReleaseTransmit);
    steps.push(BusStep::ReadReply { timeout_ms: REPLY_TIMEOUT_MS });
    proof {
        assert(steps@ =~= transaction_steps());
    }
    steps
}

} // verus!
