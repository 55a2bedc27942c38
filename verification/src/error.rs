use vstd::prelude::*;

verus! {

/// The two ways a prefix derivation can fail. The byte-level packing and
/// digesting steps themselves cannot fail: every error comes from a
/// collaborator outside the core.
#[derive(Debug, PartialEq, Eq)]
pub enum UlaError {
    /// DNS, socket, timeout or protocol failure during the NTP exchange,
    /// carrying a description of the underlying transport failure.
    NetworkError(String),
    /// Local MAC discovery was requested but no MAC address could be found
    /// on the host.
    IdentifierUnavailable,
}

} // verus!
