use vstd::prelude::*;

use crate::call::{accepts_all, answers, dispatch, failure_of, response_failure};
use crate::error::{CallError, CallResult};
use crate::function_id::{function_code, FfaFunctionId};
use crate::params::{zero_params, FfaParams};

verus! {

/// Size of the retrieve request that the transmit buffer holds.
pub const FFA_MEM_RETRIEVE_REQ_SIZE: u64 = 0x40;

/// One step of a memory transaction (donate, lend, share or retrieve).
#[derive(Clone, Copy, Debug)]
pub struct FfaMemory {
    _function_id: u64,
    _total_length: u64,
    _frag_length: u64,
    _tx_address: u64,
    _page_count: u64,
    rx_buffer: u64,
    tx_buffer: u64,
}

/// What a response to a memory transaction means: with the 32-bit Success
/// or the MemRetrieveResp opcode, the response frame itself; otherwise the
/// failure it stands for.
pub open spec fn memory_response(p: FfaParams, r: CallResult<FfaParams>) -> bool {
    if p.x0 == function_code(FfaFunctionId::FfaSuccess32) || p.x0 == function_code(
        FfaFunctionId::FfaMemRetrieveResp,
    ) {
        r == Ok::<FfaParams, CallError>(p)
    } else {
        r == Err::<FfaParams, CallError>(failure_of(p))
    }
}

impl FfaMemory {
    pub closed spec fn spec_function_id(&self) -> u64 {
        self._function_id
    }

    pub closed spec fn spec_total_length(&self) -> u64 {
        self._total_length
    }

    pub closed spec fn spec_frag_length(&self) -> u64 {
        self._frag_length
    }

    pub closed spec fn spec_tx_address(&self) -> u64 {
        self._tx_address
    }

    pub closed spec fn spec_page_count(&self) -> u64 {
        self._page_count
    }

    pub closed spec fn spec_rx_buffer(&self) -> u64 {
        self.rx_buffer
    }

    pub closed spec fn spec_tx_buffer(&self) -> u64 {
        self.tx_buffer
    }

    /// The frame of this step: function id, total length, fragment length,
    /// transmit buffer address and page count in x0..x4.
    pub open spec fn frame(&self) -> FfaParams {
        FfaParams {
            x0: self.spec_function_id(),
            x1: self.spec_total_length(),
            x2: self.spec_frag_length(),
            x3: self.spec_tx_address(),
            x4: self.spec_page_count(),
            ..zero_params()
        }
    }

    /// A transaction with every field zero.
    pub fn new() -> (r: Self)
        ensures
            r.frame() == zero_params(),
            r.spec_rx_buffer() == 0,
            r.spec_tx_buffer() == 0,
    {
        FfaMemory {
            _function_id: 0,
            _total_length: 0,
            _frag_length: 0,
            _tx_address: 0,
            _page_count: 0,
            rx_buffer: 0,
            tx_buffer: 0,
        }
    }

    /// Records the receive and transmit buffers.
    pub fn set_rxtx_buffers(&mut self, rx_buffer: u64, tx_buffer: u64)
        ensures
            final(self).frame() == old(self).frame(),
            final(self).spec_rx_buffer() == rx_buffer,
            final(self).spec_tx_buffer() == tx_buffer,
    {
        self.rx_buffer = rx_buffer;
        self.tx_buffer = tx_buffer;
    }

    /// The frame of this step.
    pub fn to_params(&self) -> (r: FfaParams)
        ensures
            r == self.frame(),
    {
        FfaParams {
            x0: self._function_id,
            x1: self._total_length,
            x2: self._frag_length,
            x3: self._tx_address,
            x4: self._page_count,
            x5: 0,
            x6: 0,
            x7: 0,
            x8: 0,
            x9: 0,
            x10: 0,
            x11: 0,
            x12: 0,
            x13: 0,
            x14: 0,
            x15: 0,
            x16: 0,
            x17: 0,
        }
    }

    /// Classifies the response to a memory transaction.
    pub fn from_response(p: &FfaParams) -> (r: CallResult<FfaParams>)
        ensures
            memory_response(*p, r),
    {
        if p.x0 == FfaFunctionId::FfaSuccess32.into_u64() || p.x0
            == FfaFunctionId::FfaMemRetrieveResp.into_u64() {
            Ok(*p)
        } else {
            Err(response_failure(p))
        }
    }

    fn exec(&self, smc: &impl Fn(FfaParams) -> FfaParams) -> (r: CallResult<FfaParams>)
        requires
            accepts_all(*smc),
        ensures
            exists|resp: FfaParams| answers(*smc, self.frame(), resp) && memory_response(resp, r),
    {
        let resp = dispatch(smc, self.to_params());
        FfaMemory::from_response(&resp)
    }

    /// Sends a retrieve request of 0x40 bytes, which the caller has already
    /// placed in the transmit buffer. The address and length are not sent.
    pub fn retrieve_req(
        &mut self,
        _address: u64,
        _length: u64,
        smc: &impl Fn(FfaParams) -> FfaParams,
    ) -> (r: CallResult<FfaParams>)
        requires
            accepts_all(*smc),
        ensures
            final(self).spec_function_id() == function_code(FfaFunctionId::FfaMemRetrieveReq),
            final(self).spec_total_length() == FFA_MEM_RETRIEVE_REQ_SIZE,
            final(self).spec_frag_length() == FFA_MEM_RETRIEVE_REQ_SIZE,
            final(self).spec_tx_address() == 0,
            final(self).spec_page_count() == 0,
            final(self).spec_rx_buffer() == old(self).spec_rx_buffer(),
            final(self).spec_tx_buffer() == old(self).spec_tx_buffer(),
            exists|resp: FfaParams|
                answers(*smc, final(self).frame(), resp) && memory_response(resp, r),
    {
        self._function_id = FfaFunctionId::FfaMemRetrieveReq.into_u64();
        self._total_length = FFA_MEM_RETRIEVE_REQ_SIZE;
        self._frag_length = FFA_MEM_RETRIEVE_REQ_SIZE;
        self._tx_address = 0;
        self._page_count = 0;
        self.exec(smc)
    }
}

} // verus!
