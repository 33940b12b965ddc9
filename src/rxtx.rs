use vstd::prelude::*;

use crate::call::{accepts_all, answers, dispatch, failure_of, response_failure};
use crate::error::{CallError, CallResult};
use crate::function_id::{function_code, FfaFunctionId};
use crate::params::{zero_params, FfaParams};

verus! {

/// A map or unmap request for the RX/TX buffer pair.
#[derive(Clone, Copy, Debug)]
pub struct FfaRxTxMsg {
    function_id: u64,
    x1: u64,
    x2: u64,
    x3: u64,
}

/// What a response to a map or unmap request means: success with the 32-bit
/// Success opcode, otherwise the failure it stands for.
pub open spec fn rxtx_response(p: FfaParams, r: CallResult<()>) -> bool {
    if p.x0 == function_code(FfaFunctionId::FfaSuccess32) {
        r == Ok::<(), CallError>(())
    } else {
        r == Err::<(), CallError>(failure_of(p))
    }
}

impl FfaRxTxMsg {
    /// The frame of the request: its four registers x0..x3.
    pub closed spec fn frame(&self) -> FfaParams {
        FfaParams { x0: self.function_id, x1: self.x1, x2: self.x2, x3: self.x3, ..zero_params() }
    }

    pub fn new() -> (r: Self)
        ensures
            r.frame() == zero_params(),
    {
        FfaRxTxMsg { function_id: 0, x1: 0, x2: 0, x3: 0 }
    }

    fn to_params(&self) -> (r: FfaParams)
        ensures
            r == self.frame(),
    {
        FfaParams {
            x0: self.function_id,
            x1: self.x1,
            x2: self.x2,
            x3: self.x3,
            x4: 0,
            x5: 0,
            x6: 0,
            x7: 0,
            x8: 0,
            x9: 0,
            x10: 0,
            x11: 0,
            x12: 0,
            x13: 0,
            x14: 0,
            x15: 0,
            x16: 0,
            x17: 0,
        }
    }

    /// Classifies the response to a map or unmap request.
    pub fn from_response(p: &FfaParams) -> (r: CallResult<()>)
        ensures
            rxtx_response(*p, r),
    {
        if p.x0 == FfaFunctionId::FfaSuccess32.into_u64() {
            Ok(())
        } else {
            Err(response_failure(p))
        }
    }

    fn exec(&self, smc: &impl Fn(FfaParams) -> FfaParams) -> (r: CallResult<()>)
        requires
            accepts_all(*smc),
        ensures
            exists|resp: FfaParams| answers(*smc, self.frame(), resp) && rxtx_response(resp, r),
    {
        let resp = dispatch(smc, self.to_params());
        FfaRxTxMsg::from_response(&resp)
    }

    /// Maps the transmit and receive buffers of `page_count` pages: one call
    /// with the RxTxMap opcode, the two addresses and the page count.
    pub fn map(
        &mut self,
        tx_addr: u64,
        rx_addr: u64,
        page_count: u32,
        smc: &impl Fn(FfaParams) -> FfaParams,
    ) -> (r: CallResult<()>)
        requires
            accepts_all(*smc),
        ensures
            final(self).frame() == (FfaParams {
                x0: function_code(FfaFunctionId::FfaRxTxMap),
                x1: tx_addr,
                x2: rx_addr,
                x3: page_count as u64,
                ..zero_params()
            }),
            exists|resp: FfaParams|
                answers(*smc, final(self).frame(), resp) && rxtx_response(resp, r),
    {
        self.function_id = FfaFunctionId::FfaRxTxMap.into_u64();
        self.x1 = tx_addr;
        self.x2 = rx_addr;
        self.x3 = page_count as u64;
        self.exec(smc)
    }

    /// Unmaps the buffers of endpoint `vm_id`: one call with the RxtxUnmap
    /// opcode and the id in bits 16..31 of x1.
    pub fn unmap(&mut self, vm_id: u16, smc: &impl Fn(FfaParams) -> FfaParams) -> (r: CallResult<
        (),
    >)
        requires
            accepts_all(*smc),
        ensures
            final(self).frame() == (FfaParams {
                x0: function_code(FfaFunctionId::FfaRxtxUnmap),
                x1: (vm_id * 65536) as u64,
                ..zero_params()
            }),
            exists|resp: FfaParams|
                answers(*smc, final(self).frame(), resp) && rxtx_response(resp, r),
    {
        self.function_id = FfaFunctionId::FfaRxtxUnmap.into_u64();
        self.x1 = vm_id as u64 * 65536;
        self.x2 = 0;
        self.x3 = 0;
        self.exec(smc)
    }
}

} // verus!
