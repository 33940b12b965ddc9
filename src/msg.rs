use vstd::prelude::*;

use crate::call::{accepts_all, answers, dispatch, failure_of, response_failure};
use crate::direct::direct_frame;
use crate::error::{CallError, CallResult};
use crate::function_id::{function_code, function_of, FfaFunctionId};
use crate::params::{
    destination_of, frame_args14, join_u128, lanes_byte, pack_pair16, pair16, payload_byte,
    project_into_lanes, project_lanes, source_of, split_u128, FfaParams,
};

verus! {

/// A direct message with a decoded function id, as sent and as received.
#[derive(Clone, Copy, Debug)]
pub struct FfaMsg {
    pub function_id: FfaFunctionId,
    pub source_id: u16,
    pub destination_id: u16,
    pub uuid: u128,
    pub args64: [u64; 14],
}

impl FfaMsg {
    /// The frame that carries this message.
    pub open spec fn frame(&self) -> FfaParams {
        direct_frame(
            function_code(self.function_id),
            pair16(self.source_id, self.destination_id),
            self.uuid,
            self.args64@,
        )
    }

    /// Whether this is the message that frame `p` carries.
    pub open spec fn carried_by(&self, p: FfaParams) -> bool {
        &&& function_of(p.x0) == Some(self.function_id)
        &&& self.source_id == source_of(p.x1)
        &&& self.destination_id == destination_of(p.x1)
        &&& self.uuid == p.x2 * 0x1_0000_0000_0000_0000 + p.x3
        &&& self.args64@ == frame_args14(p)
    }

    /// What a response to a message means: with the Error opcode or an
    /// unrecognized one, the failure it stands for; with any other
    /// recognized opcode, the message it carries, which the caller branches
    /// on by its function id.
    pub open spec fn response(p: FfaParams, r: CallResult<FfaMsg>) -> bool {
        match r {
            Ok(m) => m.carried_by(p) && m.function_id != FfaFunctionId::FfaError,
            Err(e) => e == failure_of(p) && (function_of(p.x0).is_none() || function_of(p.x0)
                == Some(FfaFunctionId::FfaError)),
        }
    }

    /// Byte `idx` of the 112-byte payload.
    pub fn extract_u8_at_index(&self, idx: usize) -> (r: u8)
        requires
            idx < 112,
        ensures
            r == payload_byte(self.args64@, idx as int),
    {
        lanes_byte(&self.args64, idx)
    }

    /// Projects the bytes of a value onto the payload, eight bytes per lane,
    /// little-endian, left to right. Bytes past 112 are dropped; lanes past
    /// the last byte keep their value.
    pub fn struct_to_args64(&mut self, bytes: &[u8])
        ensures
            final(self).function_id == old(self).function_id,
            final(self).source_id == old(self).source_id,
            final(self).destination_id == old(self).destination_id,
            final(self).uuid == old(self).uuid,
            final(self).args64@ == project_lanes(old(self).args64@, bytes@),
    {
        project_into_lanes(&mut self.args64, bytes);
    }

    /// The frame that carries this message.
    pub fn to_params(&self) -> (r: FfaParams)
        ensures
            r == self.frame(),
    {
        let (hi, lo) = split_u128(self.uuid);
        FfaParams {
            x0: self.function_id.into_u64(),
            x1: pack_pair16(self.source_id, self.destination_id),
            x2: hi,
            x3: lo,
            x4: self.args64[0],
            x5: self.args64[1],
            x6: self.args64[2],
            x7: self.args64[3],
            x8: self.args64[4],
            x9: self.args64[5],
            x10: self.args64[6],
            x11: self.args64[7],
            x12: self.args64[8],
            x13: self.args64[9],
            x14: self.args64[10],
            x15: self.args64[11],
            x16: self.args64[12],
            x17: self.args64[13],
        }
    }

    /// The message that a frame carries, or `None` when x0 is not a known
    /// function id.
    pub fn try_from_params(p: &FfaParams) -> (r: Option<FfaMsg>)
        ensures
            function_of(p.x0).is_none() ==> r.is_none(),
            function_of(p.x0).is_some() ==> r.is_some() && r.unwrap().carried_by(*p),
    {
        match FfaFunctionId::from_u64(p.x0) {
            None => None,
            Some(function_id) => {
                let m = FfaMsg {
                    function_id,
                    source_id: ((p.x1 / 65536) % 65536) as u16,
                    destination_id: (p.x1 % 65536) as u16,
                    uuid: join_u128(p.x2, p.x3),
                    args64: [
                        p.x4,
                        p.x5,
                        p.x6,
                        p.x7,
                        p.x8,
                        p.x9,
                        p.x10,
                        p.x11,
                        p.x12,
                        p.x13,
                        p.x14,
                        p.x15,
                        p.x16,
                        p.x17,
                    ],
                };
                assert(m.args64@ =~= frame_args14(*p));
                Some(m)
            },
        }
    }

    /// Classifies the response to a message.
    pub fn from_response(p: &FfaParams) -> (r: CallResult<FfaMsg>)
        ensures
            FfaMsg::response(*p, r),
    {
        match FfaMsg::try_from_params(p) {
            Some(m) => {
                if m.function_id == FfaFunctionId::FfaError {
                    Err(response_failure(p))
                } else {
                    Ok(m)
                }
            },
            None => {
                proof {
                    crate::function_id::lemma_function_id_round_trip(FfaFunctionId::FfaError);
                }
                Err(response_failure(p))
            },
        }
    }

    /// Sends this message and classifies the response.
    pub fn exec(&self, smc: &impl Fn(FfaParams) -> FfaParams) -> (r: CallResult<FfaMsg>)
        requires
            accepts_all(*smc),
        ensures
            exists|resp: FfaParams| answers(*smc, self.frame(), resp) && FfaMsg::response(resp, r),
    {
        let resp = dispatch(smc, self.to_params());
        FfaMsg::from_response(&resp)
    }
}

} // verus!
