use vstd::prelude::*;
use vstd::slice::slice_subrange;

use crate::call::{accepts_all, answers, dispatch, failure_of, response_failure};
use crate::error::CallResult;
use crate::function_id::{function_code, FfaFunctionId};
use crate::params::{lanes16_frame, project_into_lanes, project_lanes, FfaParams};

verus! {

/// Most bytes that one console-log call carries (16 registers of 8 bytes).
pub const FFA_MAX_CHAR_COUNT: usize = 128;

/// Number of calls that logging `len` bytes takes.
pub open spec fn chunk_count(len: int) -> int {
    (len + 127) / 128
}

/// Chunk `k` of `bytes`: bytes `128k..128k+128`, fewer in the last chunk.
pub open spec fn console_chunk(bytes: Seq<u8>, k: int) -> Seq<u8> {
    let end = if 128 * k + 128 < bytes.len() {
        128 * k + 128
    } else {
        bytes.len() as int
    };
    bytes.subrange(128 * k, end)
}

/// The frame that logs one chunk: the ConsoleLog opcode in x0, the chunk's
/// length in x1, its bytes packed little-endian into x2 upward, the
/// registers past the chunk zero.
pub open spec fn console_frame(chunk: Seq<u8>) -> FfaParams {
    lanes16_frame(
        function_code(FfaFunctionId::FfaConsoleLog),
        chunk.len() as u64,
        project_lanes(Seq::new(16, |i: int| 0u64), chunk),
    )
}

/// Outcome of one console-log call: success with either Success opcode,
/// otherwise the failure the response stands for.
pub open spec fn console_status(resp: FfaParams) -> CallResult<()> {
    if resp.x0 == function_code(FfaFunctionId::FfaSuccess32) || resp.x0 == function_code(
        FfaFunctionId::FfaSuccess64,
    ) {
        Ok(())
    } else {
        Err(failure_of(resp))
    }
}

/// Whether `smc` can answer the call for chunk `k` with success.
pub open spec fn chunk_accepted<F: Fn(FfaParams) -> FfaParams>(
    smc: F,
    bytes: Seq<u8>,
    k: int,
) -> bool {
    exists|resp: FfaParams|
        answers(smc, console_frame(console_chunk(bytes, k)), resp) && console_status(resp).is_ok()
}

/// Whether `smc` can answer the call for chunk `k` with the failure `r`.
pub open spec fn chunk_refused<F: Fn(FfaParams) -> FfaParams>(
    smc: F,
    bytes: Seq<u8>,
    k: int,
    r: CallResult<()>,
) -> bool {
    exists|resp: FfaParams|
        answers(smc, console_frame(console_chunk(bytes, k)), resp) && console_status(resp) == r
            && r.is_err()
}

/// The console-log call family: a byte stream sent to the other world's
/// console in chunks of at most 128 bytes.
pub struct FfaConsole {}

impl FfaConsole {
    pub fn new() -> (r: Self) {
        FfaConsole {  }
    }

    /// The frame that logs `bytes[start..end]`.
    pub fn chunk_frame(bytes: &[u8], start: usize, end: usize) -> (r: FfaParams)
        requires
            start <= end <= bytes@.len(),
            end - start <= FFA_MAX_CHAR_COUNT,
        ensures
            r == console_frame(bytes@.subrange(start as int, end as int)),
    {
        let chunk = slice_subrange(bytes, start, end);
        let mut lanes = [0u64; 16];
        assert(lanes@ =~= Seq::new(16, |i: int| 0u64));
        project_into_lanes(&mut lanes, chunk);
        FfaParams {
            x0: FfaFunctionId::FfaConsoleLog.into_u64(),
            x1: (end - start) as u64,
            x2: lanes[0],
            x3: lanes[1],
            x4: lanes[2],
            x5: lanes[3],
            x6: lanes[4],
            x7: lanes[5],
            x8: lanes[6],
            x9: lanes[7],
            x10: lanes[8],
            x11: lanes[9],
            x12: lanes[10],
            x13: lanes[11],
            x14: lanes[12],
            x15: lanes[13],
            x16: lanes[14],
            x17: lanes[15],
        }
    }

    /// Classifies the response to one console-log call.
    pub fn status(resp: &FfaParams) -> (r: CallResult<()>)
        ensures
            r == console_status(*resp),
    {
        if resp.x0 == FfaFunctionId::FfaSuccess32.into_u64() || resp.x0
            == FfaFunctionId::FfaSuccess64.into_u64() {
            Ok(())
        } else {
            Err(response_failure(resp))
        }
    }

    /// Logs one chunk: one call.
    fn exec_inner(
        &self,
        smc: &impl Fn(FfaParams) -> FfaParams,
        bytes: &[u8],
        start: usize,
        end: usize,
    ) -> (r: CallResult<()>)
        requires
            accepts_all(*smc),
            start <= end <= bytes@.len(),
            end - start <= FFA_MAX_CHAR_COUNT,
        ensures
            exists|resp: FfaParams|
                answers(*smc, console_frame(bytes@.subrange(start as int, end as int)), resp)
                    && r == console_status(resp),
    {
        let resp = dispatch(smc, FfaConsole::chunk_frame(bytes, start, end));
        FfaConsole::status(&resp)
    }

    /// Logs `bytes`: one call per chunk of at most 128 bytes, in order. The
    /// first failure stops the chunks after it and is returned; chunks
    /// already logged stay logged.
    pub fn exec(&self, bytes: &[u8], smc: &impl Fn(FfaParams) -> FfaParams) -> (r: CallResult<()>)
        requires
            accepts_all(*smc),
        ensures
            r.is_ok() ==> forall|k: int|
                0 <= k < chunk_count(bytes@.len() as int) ==> #[trigger] chunk_accepted(
                    *smc,
                    bytes@,
                    k,
                ),
            r.is_err() ==> exists|k: int|
                {
                    &&& 0 <= k < chunk_count(bytes@.len() as int)
                    &&& forall|j: int| 0 <= j < k ==> #[trigger] chunk_accepted(*smc, bytes@, j)
                    &&& chunk_refused(*smc, bytes@, k, r)
                },
    {
        let len = bytes.len();
        let mut start: usize = 0;
        let ghost mut k: int = 0;
        while start < len
            invariant
                len == bytes@.len(),
                accepts_all(*smc),
                start <= len,
                start < len ==> start == 128 * k && k < chunk_count(len as int),
                0 <= k <= chunk_count(len as int),
                k > 0 ==> 128 * (k - 1) < len,
                start == len ==> len <= 128 * k,
                forall|j: int| 0 <= j < k ==> #[trigger] chunk_accepted(*smc, bytes@, j),
            decreases len - start,
        {
            let end = if len - start > FFA_MAX_CHAR_COUNT {
                start + FFA_MAX_CHAR_COUNT
            } else {
                len
            };
            assert(bytes@.subrange(start as int, end as int) == console_chunk(bytes@, k));
            let r = self.exec_inner(smc, bytes, start, end);
            if r.is_err() {
                assert(chunk_refused(*smc, bytes@, k, r));
                return r;
            }
            assert(chunk_accepted(*smc, bytes@, k));
            proof {
                if end < len {
                    assert(128 * (k + 1) < len ==> k + 1 < chunk_count(len as int)) by (nonlinear_arith);
                }
                k = k + 1;
            }
            start = end;
        }
        proof {
            if len > 0 {
                assert(128 * (k - 1) < len <= 128 * k ==> k == chunk_count(len as int))
                    by (nonlinear_arith);
            }
        }
        Ok(())
    }
}

/// The chunks of a byte stream partition it: every chunk but the last holds
/// 128 bytes, the last holds the rest (between 1 and 128), and byte `i` is
/// byte `i % 128` of chunk `i / 128`.
pub proof fn lemma_console_chunks(bytes: Seq<u8>)
    ensures
        forall|k: int|
            0 <= k < chunk_count(bytes.len() as int) - 1 ==> #[trigger] console_chunk(
                bytes,
                k,
            ).len() == 128,
        bytes.len() > 0 ==> {
            let last = console_chunk(bytes, chunk_count(bytes.len() as int) - 1);
            &&& last.len() == bytes.len() - 128 * (chunk_count(bytes.len() as int) - 1)
            &&& 1 <= last.len() <= 128
        },
        forall|i: int|
            0 <= i < bytes.len() ==> #[trigger] console_chunk(bytes, i / 128)[i % 128] == bytes[i],
{
}

} // verus!
