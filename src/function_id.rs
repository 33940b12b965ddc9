use vstd::prelude::*;

verus! {

/// Operations of the FF-A protocol. Opcodes whose bit 30 is set are the
/// 64-bit register-width forms (SMC64 convention).
#[derive(Clone, Copy, Debug, PartialEq, Eq, Structural)]
pub enum FfaFunctionId {
    FfaError,
    FfaSuccess32,
    FfaSuccess64,
    FfaInterrupt,
    FfaVersion,
    FfaFeatures,
    FfaRxRelease,
    FfaRxTxMap,
    FfaRxtxUnmap,
    FfaPartitionInfoGet,
    FfaIdGet,
    FfaMsgPoll,
    FfaMsgWait,
    FfaMsgYield,
    FfaMsgRun,
    FfaMsgSend,
    FfaMsgSendDirectReq,
    FfaMsgSendDirectResp,
    FfaMemDonate,
    FfaMemLend,
    FfaMemShare,
    FfaMemRetrieveReq,
    FfaMemRetrieveResp,
    FfaMemRelinquish,
    FfaMemReclaim,
    FfaMemFragRx,
    FfaMemFragTx,
    FfaMemPermGet,
    FfaMemPermSet,
    FfaConsoleLog,
    FfaMsgSendDirectReq2,
    FfaMsgSendDirectResp2,
}

/// The opcode of each operation.
pub open spec fn function_code(f: FfaFunctionId) -> u64 {
    match f {
        FfaFunctionId::FfaError => 0x84000060,
        FfaFunctionId::FfaSuccess32 => 0x84000061,
        FfaFunctionId::FfaSuccess64 => 0xc4000061,
        FfaFunctionId::FfaInterrupt => 0x84000062,
        FfaFunctionId::FfaVersion => 0x84000063,
        FfaFunctionId::FfaFeatures => 0x84000064,
        FfaFunctionId::FfaRxRelease => 0x84000065,
        FfaFunctionId::FfaRxTxMap => 0xc4000066,
        FfaFunctionId::FfaRxtxUnmap => 0x84000067,
        FfaFunctionId::FfaPartitionInfoGet => 0x84000068,
        FfaFunctionId::FfaIdGet => 0x84000069,
        FfaFunctionId::FfaMsgPoll => 0x8400006a,
        FfaFunctionId::FfaMsgWait => 0x8400006b,
        FfaFunctionId::FfaMsgYield => 0x8400006c,
        FfaFunctionId::FfaMsgRun => 0x8400006d,
        FfaFunctionId::FfaMsgSend => 0x8400006e,
        FfaFunctionId::FfaMsgSendDirectReq => 0xc400006f,
        FfaFunctionId::FfaMsgSendDirectResp => 0xc4000070,
        FfaFunctionId::FfaMemDonate => 0xc4000071,
        FfaFunctionId::FfaMemLend => 0xc4000072,
        FfaFunctionId::FfaMemShare => 0xc4000073,
        FfaFunctionId::FfaMemRetrieveReq => 0xc4000074,
        FfaFunctionId::FfaMemRetrieveResp => 0x84000075,
        FfaFunctionId::FfaMemRelinquish => 0x84000076,
        FfaFunctionId::FfaMemReclaim => 0x84000077,
        FfaFunctionId::FfaMemFragRx => 0x8400007a,
        FfaFunctionId::FfaMemFragTx => 0x8400007b,
        FfaFunctionId::FfaMemPermGet => 0x84000088,
        FfaFunctionId::FfaMemPermSet => 0x84000089,
        FfaFunctionId::FfaConsoleLog => 0xc400008a,
        FfaFunctionId::FfaMsgSendDirectReq2 => 0xc400008d,
        FfaFunctionId::FfaMsgSendDirectResp2 => 0xc400008e,
    }
}

/// The operation that an opcode stands for; `None` for any value outside the
/// defined set.
pub open spec fn function_of(v: u64) -> Option<FfaFunctionId> {
    match v {
        0x84000060 => Some(FfaFunctionId::FfaError),
        0x84000061 => Some(FfaFunctionId::FfaSuccess32),
        0xc4000061 => Some(FfaFunctionId::FfaSuccess64),
        0x84000062 => Some(FfaFunctionId::FfaInterrupt),
        0x84000063 => Some(FfaFunctionId::FfaVersion),
        0x84000064 => Some(FfaFunctionId::FfaFeatures),
        0x84000065 => Some(FfaFunctionId::FfaRxRelease),
        0xc4000066 => Some(FfaFunctionId::FfaRxTxMap),
        0x84000067 => Some(FfaFunctionId::FfaRxtxUnmap),
        0x84000068 => Some(FfaFunctionId::FfaPartitionInfoGet),
        0x84000069 => Some(FfaFunctionId::FfaIdGet),
        0x8400006a => Some(FfaFunctionId::FfaMsgPoll),
        0x8400006b => Some(FfaFunctionId::FfaMsgWait),
        0x8400006c => Some(FfaFunctionId::FfaMsgYield),
        0x8400006d => Some(FfaFunctionId::FfaMsgRun),
        0x8400006e => Some(FfaFunctionId::FfaMsgSend),
        0xc400006f => Some(FfaFunctionId::FfaMsgSendDirectReq),
        0xc4000070 => Some(FfaFunctionId::FfaMsgSendDirectResp),
        0xc4000071 => Some(FfaFunctionId::FfaMemDonate),
        0xc4000072 => Some(FfaFunctionId::FfaMemLend),
        0xc4000073 => Some(FfaFunctionId::FfaMemShare),
        0xc4000074 => Some(FfaFunctionId::FfaMemRetrieveReq),
        0x84000075 => Some(FfaFunctionId::FfaMemRetrieveResp),
        0x84000076 => Some(FfaFunctionId::FfaMemRelinquish),
        0x84000077 => Some(FfaFunctionId::FfaMemReclaim),
        0x8400007a => Some(FfaFunctionId::FfaMemFragRx),
        0x8400007b => Some(FfaFunctionId::FfaMemFragTx),
        0x84000088 => Some(FfaFunctionId::FfaMemPermGet),
        0x84000089 => Some(FfaFunctionId::FfaMemPermSet),
        0xc400008a => Some(FfaFunctionId::FfaConsoleLog),
        0xc400008d => Some(FfaFunctionId::FfaMsgSendDirectReq2),
        0xc400008e => Some(FfaFunctionId::FfaMsgSendDirectResp2),
        _ => None,
    }
}

/// Whether `v` is the opcode of some operation.
pub open spec fn is_function_code(v: u64) -> bool {
    exists|f: FfaFunctionId| function_code(f) == v
}

impl FfaFunctionId {
    pub fn into_u64(self) -> (r: u64)
        ensures
            r == function_code(self),
    {
        match self {
            FfaFunctionId::FfaError => 0x84000060,
            FfaFunctionId::FfaSuccess32 => 0x84000061,
            FfaFunctionId::FfaSuccess64 => 0xc4000061,
            FfaFunctionId::FfaInterrupt => 0x84000062,
            FfaFunctionId::FfaVersion => 0x84000063,
            FfaFunctionId::FfaFeatures => 0x84000064,
            FfaFunctionId::FfaRxRelease => 0x84000065,
            FfaFunctionId::FfaRxTxMap => 0xc4000066,
            FfaFunctionId::FfaRxtxUnmap => 0x84000067,
            FfaFunctionId::FfaPartitionInfoGet => 0x84000068,
            FfaFunctionId::FfaIdGet => 0x84000069,
            FfaFunctionId::FfaMsgPoll => 0x8400006a,
            FfaFunctionId::FfaMsgWait => 0x8400006b,
            FfaFunctionId::FfaMsgYield => 0x8400006c,
            FfaFunctionId::FfaMsgRun => 0x8400006d,
            FfaFunctionId::FfaMsgSend => 0x8400006e,
            FfaFunctionId::FfaMsgSendDirectReq => 0xc400006f,
            FfaFunctionId::FfaMsgSendDirectResp => 0xc4000070,
            FfaFunctionId::FfaMemDonate => 0xc4000071,
            FfaFunctionId::FfaMemLend => 0xc4000072,
            FfaFunctionId::FfaMemShare => 0xc4000073,
            FfaFunctionId::FfaMemRetrieveReq => 0xc4000074,
            FfaFunctionId::FfaMemRetrieveResp => 0x84000075,
            FfaFunctionId::FfaMemRelinquish => 0x84000076,
            FfaFunctionId::FfaMemReclaim => 0x84000077,
            FfaFunctionId::FfaMemFragRx => 0x8400007a,
            FfaFunctionId::FfaMemFragTx => 0x8400007b,
            FfaFunctionId::FfaMemPermGet => 0x84000088,
            FfaFunctionId::FfaMemPermSet => 0x84000089,
            FfaFunctionId::FfaConsoleLog => 0xc400008a,
            FfaFunctionId::FfaMsgSendDirectReq2 => 0xc400008d,
            FfaFunctionId::FfaMsgSendDirectResp2 => 0xc400008e,
        }
    }

    /// Decodes an opcode; an unrecognized value gives `None`.
    pub fn from_u64(value: u64) -> (r: Option<FfaFunctionId>)
        ensures
            r == function_of(value),
    {
        match value {
            0x84000060 => Some(FfaFunctionId::FfaError),
            0x84000061 => Some(FfaFunctionId::FfaSuccess32),
            0xc4000061 => Some(FfaFunctionId::FfaSuccess64),
            0x84000062 => Some(FfaFunctionId::FfaInterrupt),
            0x84000063 => Some(FfaFunctionId::FfaVersion),
            0x84000064 => Some(FfaFunctionId::FfaFeatures),
            0x84000065 => Some(FfaFunctionId::FfaRxRelease),
            0xc4000066 => Some(FfaFunctionId::FfaRxTxMap),
            0x84000067 => Some(FfaFunctionId::FfaRxtxUnmap),
            0x84000068 => Some(FfaFunctionId::FfaPartitionInfoGet),
            0x84000069 => Some(FfaFunctionId::FfaIdGet),
            0x8400006a => Some(FfaFunctionId::FfaMsgPoll),
            0x8400006b => Some(FfaFunctionId::FfaMsgWait),
            0x8400006c => Some(FfaFunctionId::FfaMsgYield),
            0x8400006d => Some(FfaFunctionId::FfaMsgRun),
            0x8400006e => Some(FfaFunctionId::FfaMsgSend),
            0xc400006f => Some(FfaFunctionId::FfaMsgSendDirectReq),
            0xc4000070 => Some(FfaFunctionId::FfaMsgSendDirectResp),
            0xc4000071 => Some(FfaFunctionId::FfaMemDonate),
            0xc4000072 => Some(FfaFunctionId::FfaMemLend),
            0xc4000073 => Some(FfaFunctionId::FfaMemShare),
            0xc4000074 => Some(FfaFunctionId::FfaMemRetrieveReq),
            0x84000075 => Some(FfaFunctionId::FfaMemRetrieveResp),
            0x84000076 => Some(FfaFunctionId::FfaMemRelinquish),
            0x84000077 => Some(FfaFunctionId::FfaMemReclaim),
            0x8400007a => Some(FfaFunctionId::FfaMemFragRx),
            0x8400007b => Some(FfaFunctionId::FfaMemFragTx),
            0x84000088 => Some(FfaFunctionId::FfaMemPermGet),
            0x84000089 => Some(FfaFunctionId::FfaMemPermSet),
            0xc400008a => Some(FfaFunctionId::FfaConsoleLog),
            0xc400008d => Some(FfaFunctionId::FfaMsgSendDirectReq2),
            0xc400008e => Some(FfaFunctionId::FfaMsgSendDirectResp2),
            _ => None,
        }
    }
}

impl From<FfaFunctionId> for u64 {
    fn from(value: FfaFunctionId) -> u64 {
        value.into_u64()
    }
}

impl vstd::std_specs::convert::FromSpecImpl<FfaFunctionId> for u64 {
    open spec fn obeys_from_spec() -> bool {
        true
    }

    open spec fn from_spec(v: FfaFunctionId) -> u64 {
        function_code(v)
    }
}

/// Decoding the opcode of an operation gives that operation back.
pub proof fn lemma_function_id_round_trip(f: FfaFunctionId)
    ensures
        function_of(function_code(f)) == Some(f),
{
}

/// A value decodes to an operation exactly when it is the opcode of one, and
/// then it is that operation's opcode.
pub proof fn lemma_function_id_decode(v: u64)
    ensures
        function_of(v).is_some() <==> is_function_code(v),
        function_of(v).is_some() ==> function_code(function_of(v).unwrap()) == v,
{
    if function_of(v).is_some() {
        assert(function_code(function_of(v).unwrap()) == v);
    } else {
        assert forall|f: FfaFunctionId| function_code(f) != v by {
            lemma_function_id_round_trip(f);
        }
    }
}

} // verus!
