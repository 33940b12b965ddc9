//! What every call family shares: the call primitive, handed in by the
//! caller as a function from request frame to response frame, and the error
//! path of the opcode idiom.
use vstd::prelude::*;

use crate::error::{error_of, reg_error, signed64, CallError};
use crate::function_id::{function_code, FfaFunctionId};
use crate::params::FfaParams;

verus! {

/// Whether the call primitive `smc` may be issued with any frame.
pub open spec fn accepts_all<F: Fn(FfaParams) -> FfaParams>(smc: F) -> bool {
    forall|p: FfaParams| call_requires(smc, (p,))
}

/// Whether `resp` is a response that `smc` can give to `req`.
pub open spec fn answers<F: Fn(FfaParams) -> FfaParams>(
    smc: F,
    req: FfaParams,
    resp: FfaParams,
) -> bool {
    call_ensures(smc, (req,), resp)
}

/// The failure that a response without an accepted opcode stands for: with
/// the Error opcode, the error code in x2; with any other, a protocol
/// violation naming that opcode.
pub open spec fn failure_of(resp: FfaParams) -> CallError {
    if resp.x0 == function_code(FfaFunctionId::FfaError) {
        CallError::Ffa(error_of(signed64(resp.x2)))
    } else {
        CallError::Unexpected(resp.x0)
    }
}

/// Classifies a response whose opcode the request does not accept as success.
pub fn response_failure(resp: &FfaParams) -> (e: CallError)
    ensures
        e == failure_of(*resp),
{
    if resp.x0 == FfaFunctionId::FfaError.into_u64() {
        CallError::Ffa(reg_error(resp.x2))
    } else {
        CallError::Unexpected(resp.x0)
    }
}

/// Issues one call: hands `req` to the call primitive once and returns what
/// it answers.
pub fn dispatch(smc: &impl Fn(FfaParams) -> FfaParams, req: FfaParams) -> (resp: FfaParams)
    requires
        accepts_all(*smc),
    ensures
        answers(*smc, req, resp),
{
    smc(req)
}

} // verus!
