use vstd::prelude::*;

use crate::function_id::{function_code, FfaFunctionId};
use crate::params::{
    destination_of, frame_args14, hi64, join_u128, lo64, pack_pair16, pair16, project_into_lanes,
    project_lanes, source_of, split_u128, FfaParams,
};

verus! {

/// The frame of a direct message: function id in x0, endpoint ids in x1,
/// service UUID in x2 (high half) and x3 (low half), payload in x4..x17.
pub open spec fn direct_frame(x0: u64, x1: u64, uuid: u128, args: Seq<u64>) -> FfaParams {
    FfaParams {
        x0,
        x1,
        x2: hi64(uuid),
        x3: lo64(uuid),
        x4: args[0],
        x5: args[1],
        x6: args[2],
        x7: args[3],
        x8: args[4],
        x9: args[5],
        x10: args[6],
        x11: args[7],
        x12: args[8],
        x13: args[9],
        x14: args[10],
        x15: args[11],
        x16: args[12],
        x17: args[13],
    }
}

/// A direct message request: function id, source and destination endpoint
/// ids, service UUID and 14 payload lanes (112 bytes).
#[derive(Clone, Copy, Debug)]
pub struct FfaDirectMsg {
    _function_id: u32,
    _source_id: u16,
    _destination_id: u16,
    _uuid: u128,
    _args64: [u64; 14],
}

impl FfaDirectMsg {
    pub closed spec fn spec_function_id(&self) -> u32 {
        self._function_id
    }

    pub closed spec fn spec_source_id(&self) -> u16 {
        self._source_id
    }

    pub closed spec fn spec_destination_id(&self) -> u16 {
        self._destination_id
    }

    pub closed spec fn spec_uuid(&self) -> u128 {
        self._uuid
    }

    pub closed spec fn spec_args64(&self) -> Seq<u64> {
        self._args64@
    }

    pub proof fn lemma_args64_len(&self)
        ensures
            self.spec_args64().len() == 14,
    {
    }

    /// The frame that carries this message.
    pub open spec fn frame(&self) -> FfaParams {
        direct_frame(
            self.spec_function_id() as u64,
            pair16(self.spec_source_id(), self.spec_destination_id()),
            self.spec_uuid(),
            self.spec_args64(),
        )
    }

    /// Whether this is the message that frame `p` carries.
    pub open spec fn carried_by(&self, p: FfaParams) -> bool {
        &&& self.spec_function_id() == (p.x0 % 0x1_0000_0000) as u32
        &&& self.spec_source_id() == source_of(p.x1)
        &&& self.spec_destination_id() == destination_of(p.x1)
        &&& self.spec_uuid() == p.x2 * 0x1_0000_0000_0000_0000 + p.x3
        &&& self.spec_args64() == frame_args14(p)
    }

    /// The message with every field zero.
    pub open spec fn is_zero(&self) -> bool {
        &&& self.spec_function_id() == 0
        &&& self.spec_source_id() == 0
        &&& self.spec_destination_id() == 0
        &&& self.spec_uuid() == 0
        &&& self.spec_args64() == Seq::new(14, |i: int| 0u64)
    }

    pub fn zero() -> (r: FfaDirectMsg)
        ensures
            r.is_zero(),
    {
        let r = FfaDirectMsg {
            _function_id: 0,
            _source_id: 0,
            _destination_id: 0,
            _uuid: 0,
            _args64: [0u64; 14],
        };
        assert(r._args64@ =~= Seq::new(14, |i: int| 0u64));
        r
    }

    /// Builds a message; absent ids and UUID are zero, an absent payload is
    /// all zero.
    pub fn new(
        function_id: FfaFunctionId,
        source_id: Option<u16>,
        destination_id: Option<u16>,
        uuid: Option<u128>,
        args64: Option<[u64; 14]>,
    ) -> (r: FfaDirectMsg)
        ensures
            r.spec_function_id() == function_code(function_id),
            r.spec_source_id() == match source_id {
                Some(v) => v,
                None => 0u16,
            },
            r.spec_destination_id() == match destination_id {
                Some(v) => v,
                None => 0u16,
            },
            r.spec_uuid() == match uuid {
                Some(v) => v,
                None => 0u128,
            },
            r.spec_args64() == match args64 {
                Some(a) => a@,
                None => Seq::new(14, |i: int| 0u64),
            },
    {
        let code = function_id.into_u64();
        let args = match args64 {
            Some(a) => a,
            None => [0u64; 14],
        };
        let r = FfaDirectMsg {
            _function_id: code as u32,
            _source_id: match source_id {
                Some(v) => v,
                None => 0,
            },
            _destination_id: match destination_id {
                Some(v) => v,
                None => 0,
            },
            _uuid: match uuid {
                Some(v) => v,
                None => 0,
            },
            _args64: args,
        };
        if args64.is_none() {
            assert(r._args64@ =~= Seq::new(14, |i: int| 0u64));
        }
        r
    }

    pub fn function_id(&self) -> (r: u32)
        ensures
            r == self.spec_function_id(),
    {
        self._function_id
    }

    /// Projects the bytes of a value onto the payload, eight bytes per lane,
    /// little-endian, left to right. Bytes past 112 are dropped; lanes past
    /// the last byte keep their value.
    pub fn struct_to_args64(&mut self, bytes: &[u8])
        ensures
            final(self).spec_function_id() == old(self).spec_function_id(),
            final(self).spec_source_id() == old(self).spec_source_id(),
            final(self).spec_destination_id() == old(self).spec_destination_id(),
            final(self).spec_uuid() == old(self).spec_uuid(),
            final(self).spec_args64() == project_lanes(old(self).spec_args64(), bytes@),
    {
        project_into_lanes(&mut self._args64, bytes);
    }

    /// The frame that carries this message.
    pub fn to_params(&self) -> (r: FfaParams)
        ensures
            r == self.frame(),
    {
        let (hi, lo) = split_u128(self._uuid);
        FfaParams {
            x0: self._function_id as u64,
            x1: pack_pair16(self._source_id, self._destination_id),
            x2: hi,
            x3: lo,
            x4: self._args64[0],
            x5: self._args64[1],
            x6: self._args64[2],
            x7: self._args64[3],
            x8: self._args64[4],
            x9: self._args64[5],
            x10: self._args64[6],
            x11: self._args64[7],
            x12: self._args64[8],
            x13: self._args64[9],
            x14: self._args64[10],
            x15: self._args64[11],
            x16: self._args64[12],
            x17: self._args64[13],
        }
    }

    /// The message that a frame carries; the function id is the low 32 bits
    /// of x0.
    pub fn from_params(p: &FfaParams) -> (r: FfaDirectMsg)
        ensures
            r.carried_by(*p),
    {
        let r = FfaDirectMsg {
            _function_id: (p.x0 % 0x1_0000_0000) as u32,
            _source_id: ((p.x1 / 65536) % 65536) as u16,
            _destination_id: (p.x1 % 65536) as u16,
            _uuid: join_u128(p.x2, p.x3),
            _args64: [
                p.x4,
                p.x5,
                p.x6,
                p.x7,
                p.x8,
                p.x9,
                p.x10,
                p.x11,
                p.x12,
                p.x13,
                p.x14,
                p.x15,
                p.x16,
                p.x17,
            ],
        };
        assert(r._args64@ =~= frame_args14(*p));
        r
    }
}

/// Decoding the frame of a direct message gives the message back.
pub proof fn lemma_direct_round_trip(m: FfaDirectMsg, n: FfaDirectMsg)
    requires
        n.carried_by(m.frame()),
    ensures
        n.spec_function_id() == m.spec_function_id(),
        n.spec_source_id() == m.spec_source_id(),
        n.spec_destination_id() == m.spec_destination_id(),
        n.spec_uuid() == m.spec_uuid(),
        n.spec_args64() == m.spec_args64(),
{
    m.lemma_args64_len();
    assert(frame_args14(m.frame()) =~= m.spec_args64());
    assert(source_of(pair16(m.spec_source_id(), m.spec_destination_id())) == m.spec_source_id());
    assert(destination_of(pair16(m.spec_source_id(), m.spec_destination_id()))
        == m.spec_destination_id());
}

} // verus!
