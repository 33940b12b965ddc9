//! Client side of the ARM Firmware Framework for ARMv8-A (FF-A) call protocol.
//!
//! Every call exchanges one frame of 18 registers for another through a
//! single privileged instruction. The instruction itself is not part of this
//! crate: each call takes it as `smc`, a function from request frame to
//! response frame, so that what is sent and how the answer is read are
//! stated and checked for every possible answer.
//!
//! - [`error`] and [`function_id`]: the error codes and opcodes and their
//!   wire values;
//! - [`params`]: the register frame and the packing of byte payloads into
//!   64-bit lanes;
//! - [`call`]: the call primitive and the error path shared by the calls;
//! - one module per call family: [`version`], [`features`], [`console`],
//!   [`direct`] and [`msg`], [`msg_wait`], [`memory`], [`notify`], [`rxtx`],
//!   [`yld`];
//! - [`indirect`]: the message queue in memory shared with the other world.

pub mod call;
pub mod console;
pub mod direct;
pub mod error;
pub mod features;
pub mod function_id;
pub mod indirect;
pub mod memory;
pub mod msg;
pub mod msg_wait;
pub mod notify;
pub mod params;
pub mod rxtx;
pub mod version;
pub mod yld;

pub use console::FfaConsole;
pub use direct::FfaDirectMsg;
pub use error::{CallError, CallResult, FfaError, Result};
pub use features::FfaFeatures;
pub use function_id::FfaFunctionId;
pub use indirect::{AsyncMsgBitmap, AsyncMsgHeader, FfaIndirectMsg};
pub use memory::FfaMemory;
pub use msg::FfaMsg;
pub use msg_wait::FfaMsgWait;
pub use notify::FfaNotify;
pub use params::FfaParams;
pub use rxtx::FfaRxTxMsg;
pub use version::FfaVersion;
pub use yld::FfaYield;

use vstd::prelude::*;
use vstd::string::StringSliceAdditionalSpecFns;

use call::{accepts_all, answers, dispatch, response_failure};
use console::{chunk_accepted, chunk_count, chunk_refused};
use features::features_request;
use msg_wait::{delivers_request, wait_params, wait_request};
use version::version_request;

verus! {

/// Entry point for the calls of the protocol. Each call takes the call
/// primitive `smc`, which issues one privileged call with a request frame
/// and returns the response frame.
pub struct Ffa {}

impl Ffa {
    pub fn new() -> (r: Self) {
        Ffa {  }
    }

    /// Negotiates the protocol version, offering 1.3.
    pub fn version(&self, smc: &impl Fn(FfaParams) -> FfaParams) -> (r: Result<FfaVersion>)
        requires
            accepts_all(*smc),
        ensures
            exists|resp: FfaParams|
                answers(*smc, version_request(), resp) && FfaVersion::response(resp, r),
    {
        FfaVersion::new().exec(smc)
    }

    /// Logs `s` to the other world's console, 128 bytes per call.
    pub fn console_log(&self, s: &str, smc: &impl Fn(FfaParams) -> FfaParams) -> (r: CallResult<
        (),
    >)
        requires
            accepts_all(*smc),
        ensures
            r.is_ok() ==> forall|k: int|
                0 <= k < chunk_count(s.spec_bytes().len() as int) ==> #[trigger] chunk_accepted(
                    *smc,
                    s.spec_bytes(),
                    k,
                ),
            r.is_err() ==> exists|k: int|
                {
                    &&& 0 <= k < chunk_count(s.spec_bytes().len() as int)
                    &&& forall|j: int|
                        0 <= j < k ==> #[trigger] chunk_accepted(*smc, s.spec_bytes(), j)
                    &&& chunk_refused(*smc, s.spec_bytes(), k, r)
                },
    {
        FfaConsole::new().exec(s.as_bytes(), smc)
    }

    /// Queries the properties of feature or function `id`.
    pub fn features(&self, id: u64, properties: u64, smc: &impl Fn(FfaParams) -> FfaParams) -> (r:
        CallResult<FfaFeatures>)
        requires
            accepts_all(*smc),
        ensures
            exists|resp: FfaParams|
                answers(*smc, features_request(id), resp)
                    && FfaFeatures::response(id, resp, r),
    {
        FfaFeatures::new(id, properties).exec(smc)
    }

    /// Waits for the next direct message request and returns it.
    pub fn msg_wait(&self, smc: &impl Fn(FfaParams) -> FfaParams) -> (r: CallResult<FfaMsg>)
        requires
            accepts_all(*smc),
        ensures
            exists|resp: FfaParams|
                {
                    &&& answers(*smc, wait_request(), resp)
                    &&& delivers_request(resp) ==> r.is_ok() && r.unwrap().carried_by(resp)
                    &&& !delivers_request(resp) ==> r == Err::<FfaMsg, CallError>(
                        call::failure_of(resp),
                    )
                },
    {
        let resp = dispatch(smc, wait_params());
        proof {
            function_id::lemma_function_id_round_trip(FfaFunctionId::FfaMsgSendDirectReq);
            function_id::lemma_function_id_round_trip(FfaFunctionId::FfaMsgSendDirectReq2);
        }
        let r = if resp.x0 == FfaFunctionId::FfaMsgSendDirectReq.into_u64() || resp.x0
            == FfaFunctionId::FfaMsgSendDirectReq2.into_u64() {
            match FfaMsg::try_from_params(&resp) {
                Some(m) => Ok(m),
                None => Err(response_failure(&resp)),
            }
        } else {
            Err(response_failure(&resp))
        };
        assert(answers(*smc, wait_request(), resp));
        assert(delivers_request(resp) ==> r.is_ok() && r.unwrap().carried_by(resp));
        assert(!delivers_request(resp) ==> r == Err::<FfaMsg, CallError>(call::failure_of(resp)));
        r
    }

    /// Sends `msg` and returns the message that comes back.
    pub fn msg_resp(&self, msg: &FfaDirectMsg, smc: &impl Fn(FfaParams) -> FfaParams) -> (r:
        CallResult<FfaMsg>)
        requires
            accepts_all(*smc),
        ensures
            exists|resp: FfaParams| answers(*smc, msg.frame(), resp) && FfaMsg::response(resp, r),
    {
        let resp = dispatch(smc, msg.to_params());
        FfaMsg::from_response(&resp)
    }
}

} // verus!
