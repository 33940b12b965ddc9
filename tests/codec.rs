use ffa::{
    CallError, FfaDirectMsg, FfaError, FfaFeatures, FfaFunctionId, FfaMsg, FfaNotify, FfaParams,
    FfaVersion,
};

const ALL_ERRORS: [FfaError; 9] = [
    FfaError::Success,
    FfaError::NotSupported,
    FfaError::InvalidParameters,
    FfaError::NoMemory,
    FfaError::Busy,
    FfaError::Interrupted,
    FfaError::Denied,
    FfaError::Retry,
    FfaError::Aborted,
];

const ALL_IDS: [FfaFunctionId; 32] = [
    FfaFunctionId::FfaError,
    FfaFunctionId::FfaSuccess32,
    FfaFunctionId::FfaSuccess64,
    FfaFunctionId::FfaInterrupt,
    FfaFunctionId::FfaVersion,
    FfaFunctionId::FfaFeatures,
    FfaFunctionId::FfaRxRelease,
    FfaFunctionId::FfaRxTxMap,
    FfaFunctionId::FfaRxtxUnmap,
    FfaFunctionId::FfaPartitionInfoGet,
    FfaFunctionId::FfaIdGet,
    FfaFunctionId::FfaMsgPoll,
    FfaFunctionId::FfaMsgWait,
    FfaFunctionId::FfaMsgYield,
    FfaFunctionId::FfaMsgRun,
    FfaFunctionId::FfaMsgSend,
    FfaFunctionId::FfaMsgSendDirectReq,
    FfaFunctionId::FfaMsgSendDirectResp,
    FfaFunctionId::FfaMemDonate,
    FfaFunctionId::FfaMemLend,
    FfaFunctionId::FfaMemShare,
    FfaFunctionId::FfaMemRetrieveReq,
    FfaFunctionId::FfaMemRetrieveResp,
    FfaFunctionId::FfaMemRelinquish,
    FfaFunctionId::FfaMemReclaim,
    FfaFunctionId::FfaMemFragRx,
    FfaFunctionId::FfaMemFragTx,
    FfaFunctionId::FfaMemPermGet,
    FfaFunctionId::FfaMemPermSet,
    FfaFunctionId::FfaConsoleLog,
    FfaFunctionId::FfaMsgSendDirectReq2,
    FfaFunctionId::FfaMsgSendDirectResp2,
];

fn frame(x0: u64, x1: u64, x2: u64) -> FfaParams {
    FfaParams { x0, x1, x2, ..FfaParams::default() }
}

#[test]
fn error_codes_round_trip() {
    for e in ALL_ERRORS {
        assert_eq!(FfaError::from_i64(e.into_i64()), e);
    }
    assert_eq!(FfaError::Success.into_i64(), 0);
    assert_eq!(FfaError::NotSupported.into_i64(), -1);
    assert_eq!(FfaError::Aborted.into_i64(), -8);
}

#[test]
fn error_codes_out_of_range_are_unknown() {
    for v in [1i64, -9, 100, i64::MIN, i64::MAX] {
        assert_eq!(FfaError::from_i64(v), FfaError::UnknownError);
    }
}

#[test]
fn error_into_result() {
    assert_eq!(FfaError::Success.into_result(), Ok(()));
    assert_eq!(FfaError::Busy.into_result(), Err(FfaError::Busy));
}

#[test]
fn function_ids_round_trip() {
    for f in ALL_IDS {
        assert_eq!(FfaFunctionId::from_u64(f.into_u64()), Some(f));
    }
    assert_eq!(FfaFunctionId::FfaSuccess32.into_u64(), 0x84000061);
    assert_eq!(FfaFunctionId::FfaSuccess64.into_u64(), 0xc4000061);
    assert_eq!(FfaFunctionId::FfaConsoleLog.into_u64(), 0xc400008a);
}

#[test]
fn function_ids_unrecognized() {
    for v in [0u64, 0x84000000, 0x8400006f, 0xc4000062, 0x84000078, 0x1_8400_0060, u64::MAX] {
        assert_eq!(FfaFunctionId::from_u64(v), None);
    }
}

#[test]
fn version_request_encodes_1_3() {
    let req = FfaVersion::request();
    assert_eq!(req.x0, 0x84000063);
    assert_eq!(req.x1, 0x0001_0003);
    assert_eq!(req.x2, 0);
    assert_eq!(ffa::version::version_arg(1, 3), 0x0001_0003);
}

#[test]
fn version_response_decodes() {
    let v = FfaVersion::from_response(&frame(0x0001_0003, 0, 0)).unwrap();
    assert_eq!(v.major(), 1);
    assert_eq!(v.minor(), 3);
    let v = FfaVersion::from_response(&frame(0x7fff_ffff, 0, 0)).unwrap();
    assert_eq!(v.major(), 0x7fff);
    assert_eq!(v.minor(), 0xffff);
}

#[test]
fn version_response_error_bit() {
    assert_eq!(
        FfaVersion::from_response(&frame(0xFFFF_FFFE, 0, 0)).unwrap_err(),
        FfaError::InvalidParameters
    );
    assert_eq!(
        FfaVersion::from_response(&frame(0xFFFF_FFFF_FFFF_FFFE, 0, 0)).unwrap_err(),
        FfaError::InvalidParameters
    );
    assert_eq!(
        FfaVersion::from_response(&frame(0xFFFF_FFFF, 0, 0)).unwrap_err(),
        FfaError::NotSupported
    );
    assert_eq!(
        FfaVersion::from_response(&frame(0x8000_0000, 0, 0)).unwrap_err(),
        FfaError::UnknownError
    );
}

#[test]
fn direct_payload_trailing_byte_lands_in_lane_13() {
    let mut bytes = [0u8; 112];
    bytes[111] = 0xFF;
    let mut msg = FfaDirectMsg::new(FfaFunctionId::FfaMsgSendDirectReq, None, None, None, None);
    msg.struct_to_args64(&bytes);
    let p = msg.to_params();
    let lanes = [
        p.x4, p.x5, p.x6, p.x7, p.x8, p.x9, p.x10, p.x11, p.x12, p.x13, p.x14, p.x15, p.x16,
    ];
    assert!(lanes.iter().all(|&l| l == 0));
    assert_eq!(p.x17, 0xFF00_0000_0000_0000);
}

#[test]
fn direct_payload_truncates_past_112_bytes() {
    let mut bytes = [0xAAu8; 130];
    bytes[0] = 0x01;
    bytes[1] = 0x02;
    let mut msg = FfaMsg {
        function_id: FfaFunctionId::FfaMsgSendDirectReq,
        source_id: 0,
        destination_id: 0,
        uuid: 0,
        args64: [7; 14],
    };
    msg.struct_to_args64(&bytes);
    assert_eq!(msg.args64[0], 0xAAAA_AAAA_AAAA_0201);
    assert_eq!(msg.args64[13], 0xAAAA_AAAA_AAAA_AAAA);
    assert_eq!(msg.extract_u8_at_index(0), 0x01);
    assert_eq!(msg.extract_u8_at_index(1), 0x02);
    assert_eq!(msg.extract_u8_at_index(111), 0xAA);
}

#[test]
fn short_payload_keeps_later_lanes() {
    let mut msg = FfaMsg {
        function_id: FfaFunctionId::FfaMsgSendDirectReq,
        source_id: 0,
        destination_id: 0,
        uuid: 0,
        args64: [7; 14],
    };
    msg.struct_to_args64(&[0x11, 0x22, 0x33]);
    assert_eq!(msg.args64[0], 0x33_22_11);
    assert_eq!(msg.args64[1], 7);
    assert_eq!(msg.extract_u8_at_index(2), 0x33);
    assert_eq!(msg.extract_u8_at_index(3), 0);
}

#[test]
fn direct_msg_frame_layout_and_round_trip() {
    let mut args = [0u64; 14];
    args[0] = 0x1111;
    args[13] = 0xdddd;
    let uuid = 0x0011_2233_4455_6677_8899_aabb_ccdd_eeffu128;
    let msg = FfaDirectMsg::new(
        FfaFunctionId::FfaMsgSendDirectResp,
        Some(0x8001),
        Some(0x0002),
        Some(uuid),
        Some(args),
    );
    let p = msg.to_params();
    assert_eq!(p.x0, 0xc4000070);
    assert_eq!(p.x1, 0x8001_0002);
    assert_eq!(p.x2, 0x0011_2233_4455_6677);
    assert_eq!(p.x3, 0x8899_aabb_ccdd_eeff);
    assert_eq!(p.x4, 0x1111);
    assert_eq!(p.x17, 0xdddd);
    let back = FfaDirectMsg::from_params(&p);
    assert_eq!(back.to_params(), p);
    assert_eq!(back.function_id(), 0xc4000070);
}

#[test]
fn direct_msg_defaults_are_zero() {
    let msg = FfaDirectMsg::new(FfaFunctionId::FfaMsgWait, None, None, None, None);
    let p = msg.to_params();
    assert_eq!(p, FfaParams { x0: 0x8400006b, ..FfaParams::default() });
}

#[test]
fn msg_frame_round_trip() {
    let msg = FfaMsg {
        function_id: FfaFunctionId::FfaMsgSendDirectReq2,
        source_id: 3,
        destination_id: 4,
        uuid: 5 << 64 | 6,
        args64: [9; 14],
    };
    let p = msg.to_params();
    assert_eq!(p.x1, 0x0003_0004);
    assert_eq!(p.x2, 5);
    assert_eq!(p.x3, 6);
    let back = FfaMsg::try_from_params(&p).unwrap();
    assert_eq!(back.function_id, FfaFunctionId::FfaMsgSendDirectReq2);
    assert_eq!(back.source_id, 3);
    assert_eq!(back.destination_id, 4);
    assert_eq!(back.uuid, msg.uuid);
    assert_eq!(back.args64, msg.args64);
    assert!(FfaMsg::try_from_params(&frame(0x1234, 0, 0)).is_none());
}

#[test]
fn msg_response_classification() {
    let ok = FfaMsg::from_response(&frame(0xc4000070, 0x0001_0002, 0)).unwrap();
    assert_eq!(ok.function_id, FfaFunctionId::FfaMsgSendDirectResp);
    let yielded = FfaMsg::from_response(&frame(0x8400006c, 0, 0)).unwrap();
    assert_eq!(yielded.function_id, FfaFunctionId::FfaMsgYield);
    assert_eq!(
        FfaMsg::from_response(&frame(0x84000060, 0, (-4i64) as u64)).unwrap_err(),
        CallError::Ffa(FfaError::Busy)
    );
    assert_eq!(
        FfaMsg::from_response(&frame(0x42, 0, 0)).unwrap_err(),
        CallError::Unexpected(0x42)
    );
}

#[test]
fn notify_frame_and_bytes() {
    let mut n = FfaNotify::new();
    n.function_id = 0x84000061;
    n.source_id = 1;
    n.destination_id = 2;
    n.args64[0] = 0x0807_0605_0403_0201;
    n.args64[15] = 0xff00_0000_0000_0000;
    let p = n.to_params();
    assert_eq!(p.x1, 0x0001_0002);
    assert_eq!(p.x2, 0x0807_0605_0403_0201);
    assert_eq!(p.x17, 0xff00_0000_0000_0000);
    assert_eq!(n.extract_u8_at_index(0), 1);
    assert_eq!(n.extract_u8_at_index(7), 8);
    assert_eq!(n.extract_u8_at_index(127), 0xff);
    assert_eq!(n.extract_u8_at_index(128), 0);
    assert_eq!(n.extract_u8_at_index(usize::MAX), 0);
    let back = FfaNotify::from_params(&p);
    assert_eq!(back.args64, n.args64);
}

#[test]
fn notify_response_classification() {
    let ok = FfaNotify::from_response(&frame(0x84000061, 0x0005_0006, 0x99)).unwrap();
    assert_eq!(ok.source_id, 5);
    assert_eq!(ok.destination_id, 6);
    assert_eq!(ok.args64[0], 0x99);
    assert_eq!(
        FfaNotify::from_response(&frame(0x84000060, 0, (-2i64) as u64)).unwrap_err(),
        CallError::Ffa(FfaError::InvalidParameters)
    );
    assert_eq!(
        FfaNotify::from_response(&frame(0xc4000061, 0, 0)).unwrap_err(),
        CallError::Unexpected(0xc4000061)
    );
}

#[test]
fn features_id_kind_and_response() {
    let f = FfaFeatures::new(0x8400_0063, 0);
    assert!(f.is_function_id());
    assert!(!f.is_feature_id());
    let g = FfaFeatures::new(0x1, 0);
    assert!(g.is_feature_id());
    let req = g.request();
    assert_eq!(req.x0, 0x84000064);
    assert_eq!(req.x1, 0x1);
    let r = g.from_response(&frame(0x84000061, 0x10, 0x20)).unwrap();
    assert_eq!(r.id(), 0x1);
    assert_eq!(r.properties(), 0x10);
    assert_eq!(r.interface_properties(), 0x20);
    assert_eq!(
        g.from_response(&frame(0x84000060, 0, (-1i64) as u64)).unwrap_err(),
        CallError::Ffa(FfaError::NotSupported)
    );
    assert_eq!(
        g.from_response(&frame(0x84000063, 0, 0)).unwrap_err(),
        CallError::Unexpected(0x84000063)
    );
}
