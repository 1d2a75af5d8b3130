//! The mapping from the underlying lookup's outcome to the caller-visible
//! resolution result: a successful lookup is filtered, a failed lookup is
//! reported to the caller as a failure, never swallowed.

use vstd::prelude::*;

use crate::address::{IpAddress, SocketAddress};
use crate::filter::{filter_addresses, filtered_addresses};

verus! {

/// Why a resolution failed: the underlying engine's reported error text.
#[derive(Clone, Debug, PartialEq, Eq)]
pub struct ResolutionError {
    pub message: String,
}

/// Turn the outcome of the underlying lookup into the adapter's outcome.
/// A successful lookup yields the filtered address sequence, even when the
/// filter leaves nothing; a failed lookup yields that same failure.
pub fn resolve_outcome(lookup: Result<Vec<IpAddress>, ResolutionError>) -> (r: Result<
    Vec<SocketAddress>,
    ResolutionError,
>)
    ensures
        lookup matches Ok(addrs) ==> r matches Ok(out) && out@ == filtered_addresses(addrs@),
        lookup matches Err(e) ==> r matches Err(reported) && reported == e,
{
    match lookup {
        Ok(addrs) => Ok(filter_addresses(&addrs)),
        Err(e) => Err(e),
    }
}

} // verus!
