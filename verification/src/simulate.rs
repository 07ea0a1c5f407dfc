use vstd::prelude::*;

use crate::error::Error;
use crate::responses::SimulateTransactionResponse;

verus! {

/// Separates "the call succeeded but the payload encodes a domain-level
/// failure" from plain success: a response whose error field is set becomes
/// a simulation-failed error carrying that string; any other response is
/// returned unchanged.
pub fn resolve_simulation_response(resp: SimulateTransactionResponse)
    -> (r: Result<SimulateTransactionResponse, Error>)
    ensures
        resp.error is None <==> r is Ok,
        r matches Ok(out) ==> out == resp,
        resp.error matches Some(e) ==> r == Result::<SimulateTransactionResponse, Error>::Err(
            Error::TransactionSimulationFailed(e),
        ),
{
    match resp.error {
        None => Ok(resp),
        Some(e) => Err(Error::TransactionSimulationFailed(e)),
    }
}

} // verus!
