use vstd::prelude::*;

use crate::call::{accepts_all, answers, dispatch};
use crate::error::{error_of, reg_error, signed64, FfaError};
use crate::function_id::{function_code, FfaFunctionId};
use crate::params::{pack_pair16, pair16, zero_params, FfaParams};

verus! {

/// A request to give up the caller's turn for up to a timeout.
#[derive(Clone, Copy, Debug)]
pub struct FfaYield {
    pub function_id: FfaFunctionId,
    pub vcpu_id: u16,
    pub endpoint_id: u16,
    pub timeout_lo: u32,
    pub timeout_hi: u32,
}

/// What a response to a yield means: `Success` with the 32-bit Success
/// opcode, the error code in x2 with the Error opcode, and
/// `InvalidParameters` for any other opcode.
pub open spec fn yield_status(p: FfaParams) -> FfaError {
    if p.x0 == function_code(FfaFunctionId::FfaSuccess32) {
        FfaError::Success
    } else if p.x0 == function_code(FfaFunctionId::FfaError) {
        error_of(signed64(p.x2))
    } else {
        FfaError::InvalidParameters
    }
}

impl FfaYield {
    /// The frame of the request: the MsgYield opcode, endpoint id in bits
    /// 16..31 and vcpu id in bits 0..15 of x1, the timeout's low and high
    /// halves in x2 and x3.
    pub open spec fn frame(&self) -> FfaParams {
        FfaParams {
            x0: function_code(FfaFunctionId::FfaMsgYield),
            x1: pair16(self.endpoint_id, self.vcpu_id),
            x2: self.timeout_lo as u64,
            x3: self.timeout_hi as u64,
            ..zero_params()
        }
    }

    /// A yield of `timeout` for vcpu 0 of endpoint 0.
    pub fn new(timeout: u64) -> (r: Self)
        ensures
            r.function_id == FfaFunctionId::FfaMsgYield,
            r.vcpu_id == 0,
            r.endpoint_id == 0,
            r.timeout_lo == timeout % 0x1_0000_0000,
            r.timeout_hi == timeout / 0x1_0000_0000,
            r.timeout_hi * 0x1_0000_0000 + r.timeout_lo == timeout,
    {
        FfaYield {
            function_id: FfaFunctionId::FfaMsgYield,
            vcpu_id: 0,
            endpoint_id: 0,
            timeout_lo: (timeout % 0x1_0000_0000) as u32,
            timeout_hi: (timeout / 0x1_0000_0000) as u32,
        }
    }

    /// The frame of the request.
    pub fn to_params(&self) -> (r: FfaParams)
        ensures
            r == self.frame(),
    {
        FfaParams {
            x0: FfaFunctionId::FfaMsgYield.into_u64(),
            x1: pack_pair16(self.endpoint_id, self.vcpu_id),
            x2: self.timeout_lo as u64,
            x3: self.timeout_hi as u64,
            x4: 0,
            x5: 0,
            x6: 0,
            x7: 0,
            x8: 0,
            x9: 0,
            x10: 0,
            x11: 0,
            x12: 0,
            x13: 0,
            x14: 0,
            x15: 0,
            x16: 0,
            x17: 0,
        }
    }

    /// Classifies the response to a yield. An unrecognized opcode is
    /// reported as `InvalidParameters` rather than treated as fatal.
    pub fn status(p: &FfaParams) -> (r: FfaError)
        ensures
            r == yield_status(*p),
    {
        if p.x0 == FfaFunctionId::FfaSuccess32.into_u64() {
            FfaError::Success
        } else if p.x0 == FfaFunctionId::FfaError.into_u64() {
            reg_error(p.x2)
        } else {
            FfaError::InvalidParameters
        }
    }

    /// Yields: one call.
    pub fn exec(&self, smc: &impl Fn(FfaParams) -> FfaParams) -> (r: FfaError)
        requires
            accepts_all(*smc),
        ensures
            exists|resp: FfaParams| answers(*smc, self.frame(), resp) && r == yield_status(resp),
    {
        let resp = dispatch(smc, self.to_params());
        FfaYield::status(&resp)
    }
}

} // verus!
