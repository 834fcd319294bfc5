//! The error taxonomy of the byte transport: how failures of the CC line's
//! PD phy become the failures that the protocol engine recovers from.
use vstd::prelude::*;

verus! {

/// Receive failures of the PD phy.
#[derive(Clone, Copy, Debug, PartialEq, Eq, Structural)]
pub enum PhyRxError {
    /// The message failed its CRC.
    Crc,
    /// The receive buffer overran.
    Overrun,
    /// A hard reset was signalled.
    HardReset,
}

/// Transmit failures of the PD phy.
#[derive(Clone, Copy, Debug, PartialEq, Eq, Structural)]
pub enum PhyTxError {
    /// The transmission was discarded.
    Discarded,
    /// A hard reset was signalled.
    HardReset,
}

/// Receive failures as the protocol engine sees them.
#[derive(Clone, Copy, Debug, PartialEq, Eq, Structural)]
pub enum RxFailure {
    /// The message was dropped; the engine retries as the protocol says.
    Discarded,
    /// The engine restarts its negotiation.
    HardReset,
}

/// Transmit failures as the protocol engine sees them.
#[derive(Clone, Copy, Debug, PartialEq, Eq, Structural)]
pub enum TxFailure {
    /// The message was dropped; the engine retries as the protocol says.
    Discarded,
    /// The engine restarts its negotiation.
    HardReset,
}

/// CRC errors and overruns drop the message; a hard reset stays one.
pub open spec fn rx_failure_of(e: PhyRxError) -> RxFailure {
    match e {
        PhyRxError::Crc => RxFailure::Discarded,
        PhyRxError::Overrun => RxFailure::Discarded,
        PhyRxError::HardReset => RxFailure::HardReset,
    }
}

/// A discarded transmission stays discarded; a hard reset stays one.
pub open spec fn tx_failure_of(e: PhyTxError) -> TxFailure {
    match e {
        PhyTxError::Discarded => TxFailure::Discarded,
        PhyTxError::HardReset => TxFailure::HardReset,
    }
}

/// Reclassifies a receive failure.
pub fn rx_failure(e: PhyRxError) -> (r: RxFailure)
    ensures
        r == rx_failure_of(e),
{
    match e {
        PhyRxError::Crc | PhyRxError::Overrun => RxFailure::Discarded,
        PhyRxError::HardReset => RxFailure::HardReset,
    }
}

/// Reclassifies a transmit failure.
pub fn tx_failure(e: PhyTxError) -> (r: TxFailure)
    ensures
        r == tx_failure_of(e),
{
    match e {
        PhyTxError::Discarded => TxFailure::Discarded,
        PhyTxError::HardReset => TxFailure::HardReset,
    }
}

/// The outcome of a receive: the byte count unchanged, or the failure
/// reclassified.
pub fn receive_outcome(r: Result<usize, PhyRxError>) -> (o: Result<usize, RxFailure>)
    ensures
        o == (match r {
            Ok(n) => Ok(n),
            Err(e) => Err(rx_failure_of(e)),
        }),
{
    match r {
        Ok(n) => Ok(n),
        Err(e) => Err(rx_failure(e)),
    }
}

/// The outcome of a transmission or a hard reset: success unchanged, or the
/// failure reclassified.
pub fn transmit_outcome(r: Result<(), PhyTxError>) -> (o: Result<(), TxFailure>)
    ensures
        o == (match r {
            Ok(u) => Ok(u),
            Err(e) => Err(tx_failure_of(e)),
        }),
{
    match r {
        Ok(u) => Ok(u),
        Err(e) => Err(tx_failure(e)),
    }
}

} // verus!
