//! Error kinds of the provisioning subsystem.

use vstd::prelude::*;

verus! {

/// The failure kinds a provisioning cycle can end with.
///
/// `Crypto` covers key generation, certificate parsing and digest failures;
/// `Transport` an unreachable endpoint or failed remote call; `Storage` a
/// backend write failure; `NotFound` an artifact that an operation requires
/// but that was never stored.
#[derive(Clone, Copy, Debug, PartialEq, Eq, Structural)]
pub enum ProviderError {
    Crypto,
    Transport,
    Storage,
    NotFound,
}

} // verus!
