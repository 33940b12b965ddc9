use vstd::prelude::*;

use crate::call::{accepts_all, answers, dispatch, failure_of, response_failure};
use crate::direct::FfaDirectMsg;
use crate::error::{CallError, CallResult};
use crate::function_id::{function_code, FfaFunctionId};
use crate::params::{zero_params, FfaParams};

verus! {

/// The wait request: the MsgWait opcode and no arguments.
pub open spec fn wait_request() -> FfaParams {
    FfaParams { x0: function_code(FfaFunctionId::FfaMsgWait), ..zero_params() }
}

/// Whether a response to the wait request delivers a direct message request
/// (either width).
pub open spec fn delivers_request(p: FfaParams) -> bool {
    p.x0 == function_code(FfaFunctionId::FfaMsgSendDirectReq) || p.x0 == function_code(
        FfaFunctionId::FfaMsgSendDirectReq2,
    )
}

/// The wait request frame.
pub fn wait_params() -> (r: FfaParams)
    ensures
        r == wait_request(),
{
    FfaParams {
        x0: FfaFunctionId::FfaMsgWait.into_u64(),
        x1: 0,
        x2: 0,
        x3: 0,
        x4: 0,
        x5: 0,
        x6: 0,
        x7: 0,
        x8: 0,
        x9: 0,
        x10: 0,
        x11: 0,
        x12: 0,
        x13: 0,
        x14: 0,
        x15: 0,
        x16: 0,
        x17: 0,
    }
}

/// Waiting for the next direct message request.
#[derive(Clone, Copy, Debug)]
pub struct FfaMsgWait {
    _msg: FfaDirectMsg,
}

impl FfaMsgWait {
    pub closed spec fn spec_msg(&self) -> FfaDirectMsg {
        self._msg
    }

    /// What a response to the wait request means: a direct message request
    /// carries the message; the Error opcode carries an error code; any other
    /// opcode, the Interrupt opcode among them, is a protocol violation.
    pub open spec fn response(p: FfaParams, r: CallResult<FfaMsgWait>) -> bool {
        if delivers_request(p) {
            r.is_ok() && r.unwrap().spec_msg().carried_by(p)
        } else {
            r == Err::<FfaMsgWait, CallError>(failure_of(p))
        }
    }

    /// A wait holding the all-zero message.
    pub fn new() -> (r: Self)
        ensures
            r.spec_msg().is_zero(),
    {
        FfaMsgWait { _msg: FfaDirectMsg::zero() }
    }

    pub fn msg(&self) -> (r: FfaDirectMsg)
        ensures
            r == self.spec_msg(),
    {
        self._msg
    }

    pub fn function_id(&self) -> (r: u32)
        ensures
            r == self.spec_msg().spec_function_id(),
    {
        self._msg.function_id()
    }

    /// Classifies the response to the wait request.
    pub fn from_response(p: &FfaParams) -> (r: CallResult<FfaMsgWait>)
        ensures
            FfaMsgWait::response(*p, r),
    {
        if p.x0 == FfaFunctionId::FfaMsgSendDirectReq.into_u64() || p.x0
            == FfaFunctionId::FfaMsgSendDirectReq2.into_u64() {
            Ok(FfaMsgWait { _msg: FfaDirectMsg::from_params(p) })
        } else {
            Err(response_failure(p))
        }
    }

    /// Waits for the next direct message request: one call.
    pub fn exec(self, smc: &impl Fn(FfaParams) -> FfaParams) -> (r: CallResult<Self>)
        requires
            accepts_all(*smc),
        ensures
            exists|resp: FfaParams| answers(*smc, wait_request(), resp) && FfaMsgWait::response(resp, r),
    {
        let resp = dispatch(smc, wait_params());
        FfaMsgWait::from_response(&resp)
    }
}

} // verus!
