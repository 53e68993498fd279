//! The error taxonomy shared by the port-device model and the adapter.

use vstd::prelude::*;

verus! {

/// Every fallible operation of this crate reports one of these.
///
/// - `ConfigurationFailure`: the port device could not be opened, or a
///   channel could not be configured for its required direction; fatal,
///   surfaces at initialization.
/// - `InvalidInput`: a button/floor combination violates the wiring
///   invariants; returned before any port access, so it never causes a
///   partial write.
/// - `IoFailure`: an individual bit or analog transfer did not complete;
///   carries the attempted channel address for diagnosis.
#[derive(Copy, Clone, Debug, PartialEq, Eq, Structural)]
pub enum ElevError {
    ConfigurationFailure,
    InvalidInput,
    IoFailure(usize),
}

} // verus!
