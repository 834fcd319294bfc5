//! Sink-side decision logic for USB Power Delivery: cable attach and
//! orientation detection, the choice of the requested power contract, and the
//! per-attach session supervision.
pub mod attach;
pub mod pdo;
pub mod policy;
pub mod rdo;
pub mod session;
pub mod transport;
