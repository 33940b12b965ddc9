use std::cell::RefCell;

use ffa::{
    CallError, Ffa, FfaConsole, FfaDirectMsg, FfaError, FfaFunctionId, FfaMemory, FfaMsgWait,
    FfaParams, FfaRxTxMsg, FfaYield,
};

const SUCCESS32: u64 = 0x84000061;
const ERROR: u64 = 0x84000060;

fn frame(x0: u64, x1: u64, x2: u64) -> FfaParams {
    FfaParams { x0, x1, x2, ..FfaParams::default() }
}

#[test]
fn console_log_splits_into_three_calls() {
    let calls = RefCell::new(Vec::new());
    let smc = |p: FfaParams| {
        calls.borrow_mut().push(p);
        frame(SUCCESS32, 0, 0)
    };
    let bytes: Vec<u8> = (0..300u32).map(|i| i as u8).collect();
    assert_eq!(FfaConsole::new().exec(&bytes, &smc), Ok(()));
    let calls = calls.into_inner();
    assert_eq!(calls.len(), 3);
    assert_eq!(calls.iter().map(|p| p.x1).collect::<Vec<_>>(), vec![128, 128, 44]);
    assert!(calls.iter().all(|p| p.x0 == 0xc400008a));
    assert_eq!(calls[0].x2, 0x0706_0504_0302_0100);
    assert_eq!(calls[1].x2, u64::from_le_bytes([128, 129, 130, 131, 132, 133, 134, 135]));
    // The last chunk holds bytes 256..300: five full lanes and one of four bytes.
    assert_eq!(calls[2].x7, u64::from_le_bytes([40, 41, 42, 43, 0, 0, 0, 0]));
    assert_eq!(calls[2].x8, 0);
    assert_eq!(calls[2].x17, 0);
}

#[test]
fn console_log_stops_at_first_failure() {
    let calls = RefCell::new(Vec::new());
    let smc = |p: FfaParams| {
        calls.borrow_mut().push(p);
        if calls.borrow().len() == 2 {
            frame(ERROR, 0, (-7i64) as u64)
        } else {
            frame(SUCCESS32, 0, 0)
        }
    };
    let bytes = [b'x'; 300];
    assert_eq!(FfaConsole::new().exec(&bytes, &smc), Err(CallError::Ffa(FfaError::Retry)));
    assert_eq!(calls.borrow().len(), 2);
}

#[test]
fn console_log_empty_issues_no_call() {
    let calls = RefCell::new(0);
    let smc = |_p: FfaParams| {
        *calls.borrow_mut() += 1;
        frame(SUCCESS32, 0, 0)
    };
    assert_eq!(Ffa::new().console_log("", &smc), Ok(()));
    assert_eq!(*calls.borrow(), 0);
}

#[test]
fn console_log_unexpected_opcode_is_fatal() {
    let smc = |_p: FfaParams| frame(0x84000063, 0, 0);
    assert_eq!(
        Ffa::new().console_log("hello", &smc),
        Err(CallError::Unexpected(0x84000063))
    );
}

#[test]
fn console_log_str_bytes() {
    let calls = RefCell::new(Vec::new());
    let smc = |p: FfaParams| {
        calls.borrow_mut().push(p);
        frame(0xc4000061, 0, 0)
    };
    assert_eq!(Ffa::new().console_log("hi!", &smc), Ok(()));
    let calls = calls.into_inner();
    assert_eq!(calls.len(), 1);
    assert_eq!(calls[0].x1, 3);
    assert_eq!(calls[0].x2, 0x21_69_68);
}

#[test]
fn version_call() {
    let seen = RefCell::new(None);
    let smc = |p: FfaParams| {
        *seen.borrow_mut() = Some(p);
        frame(0x0001_0002, 0, 0)
    };
    let v = Ffa::new().version(&smc).unwrap();
    assert_eq!((v.major(), v.minor()), (1, 2));
    let req = seen.borrow().unwrap();
    assert_eq!((req.x0, req.x1), (0x84000063, 0x0001_0003));
    let failing = |_p: FfaParams| frame(0xFFFF_FFFE, 0, 0);
    assert_eq!(Ffa::new().version(&failing).unwrap_err(), FfaError::InvalidParameters);
}

#[test]
fn features_call() {
    let seen = RefCell::new(None);
    let smc = |p: FfaParams| {
        *seen.borrow_mut() = Some(p);
        frame(SUCCESS32, 0xab, 0xcd)
    };
    let f = Ffa::new().features(0x84000063, 0, &smc).unwrap();
    assert_eq!((f.id(), f.properties(), f.interface_properties()), (0x84000063, 0xab, 0xcd));
    let req = seen.borrow().unwrap();
    assert_eq!((req.x0, req.x1), (0x84000064, 0x84000063));
    let failing = |_p: FfaParams| frame(ERROR, 0, (-1i64) as u64);
    assert_eq!(
        Ffa::new().features(1, 0, &failing).unwrap_err(),
        CallError::Ffa(FfaError::NotSupported)
    );
}

#[test]
fn msg_wait_delivers_request() {
    let smc = |p: FfaParams| {
        assert_eq!(p, frame(0x8400006b, 0, 0));
        FfaParams { x0: 0xc400006f, x1: 0x0008_0001, x4: 42, ..FfaParams::default() }
    };
    let m = Ffa::new().msg_wait(&smc).unwrap();
    assert_eq!(m.function_id, FfaFunctionId::FfaMsgSendDirectReq);
    assert_eq!((m.source_id, m.destination_id), (8, 1));
    assert_eq!(m.args64[0], 42);
    let w = FfaMsgWait::new().exec(&smc).unwrap();
    assert_eq!(w.function_id(), 0xc400006f);
    assert_eq!(w.msg().to_params().x4, 42);
}

#[test]
fn msg_wait_interrupt_and_error() {
    let interrupt = |_p: FfaParams| frame(0x84000062, 0, 0);
    assert_eq!(
        Ffa::new().msg_wait(&interrupt).unwrap_err(),
        CallError::Unexpected(0x84000062)
    );
    assert_eq!(
        FfaMsgWait::new().exec(&interrupt).unwrap_err(),
        CallError::Unexpected(0x84000062)
    );
    let error = |_p: FfaParams| frame(ERROR, 0, (-6i64) as u64);
    assert_eq!(Ffa::new().msg_wait(&error).unwrap_err(), CallError::Ffa(FfaError::Denied));
    assert_eq!(FfaMsgWait::new().function_id(), 0);
}

#[test]
fn msg_resp_sends_frame() {
    let msg = FfaDirectMsg::new(FfaFunctionId::FfaMsgSendDirectResp, Some(1), Some(2), None, None);
    let smc = |p: FfaParams| {
        assert_eq!((p.x0, p.x1), (0xc4000070, 0x0001_0002));
        frame(0x8400006b, 0, 0)
    };
    let r = Ffa::new().msg_resp(&msg, &smc).unwrap();
    assert_eq!(r.function_id, FfaFunctionId::FfaMsgWait);
}

#[test]
fn memory_retrieve_request() {
    let mut mem = FfaMemory::new();
    mem.set_rxtx_buffers(0x1000, 0x2000);
    let seen = RefCell::new(None);
    let smc = |p: FfaParams| {
        *seen.borrow_mut() = Some(p);
        frame(0x84000075, 0x40, 0)
    };
    let resp = mem.retrieve_req(0xdead, 0x10, &smc).unwrap();
    assert_eq!(resp.x0, 0x84000075);
    let req = seen.borrow().unwrap();
    assert_eq!(req, FfaParams { x0: 0xc4000074, x1: 0x40, x2: 0x40, ..FfaParams::default() });
    assert_eq!(FfaMemory::from_response(&frame(SUCCESS32, 0, 0)), Ok(frame(SUCCESS32, 0, 0)));
    let failing = |_p: FfaParams| frame(ERROR, 0, (-3i64) as u64);
    assert_eq!(
        mem.retrieve_req(0, 0, &failing).unwrap_err(),
        CallError::Ffa(FfaError::NoMemory)
    );
    let odd = |_p: FfaParams| frame(0xc4000071, 0, 0);
    assert_eq!(mem.retrieve_req(0, 0, &odd).unwrap_err(), CallError::Unexpected(0xc4000071));
}

#[test]
fn rxtx_map_and_unmap() {
    let seen = RefCell::new(Vec::new());
    let smc = |p: FfaParams| {
        seen.borrow_mut().push(p);
        frame(SUCCESS32, 0, 0)
    };
    let mut m = FfaRxTxMsg::new();
    assert_eq!(m.map(0x8000, 0x9000, 2, &smc), Ok(()));
    assert_eq!(m.unmap(0x0102, &smc), Ok(()));
    let seen = seen.into_inner();
    assert_eq!(
        seen[0],
        FfaParams { x0: 0xc4000066, x1: 0x8000, x2: 0x9000, x3: 2, ..FfaParams::default() }
    );
    assert_eq!(seen[1], frame(0x84000067, 0x0102_0000, 0));
    let failing = |_p: FfaParams| frame(ERROR, 0, (-4i64) as u64);
    assert_eq!(m.map(0, 0, 1, &failing), Err(CallError::Ffa(FfaError::Busy)));
}

#[test]
fn yield_splits_timeout_and_classifies() {
    let y = FfaYield::new(0x0000_0001_0000_0002);
    assert_eq!((y.timeout_lo, y.timeout_hi), (2, 1));
    assert_eq!(y.function_id, FfaFunctionId::FfaMsgYield);
    let mut y2 = y;
    y2.vcpu_id = 3;
    y2.endpoint_id = 4;
    let p = y2.to_params();
    assert_eq!(p, FfaParams { x0: 0x8400006c, x1: 0x0004_0003, x2: 2, x3: 1, ..FfaParams::default() });
    let ok = |_p: FfaParams| frame(SUCCESS32, 0, 0);
    assert_eq!(y.exec(&ok), FfaError::Success);
    let err = |_p: FfaParams| frame(ERROR, 0, (-7i64) as u64);
    assert_eq!(y.exec(&err), FfaError::Retry);
    let odd = |_p: FfaParams| frame(0x8400006d, 0, 0);
    assert_eq!(y.exec(&odd), FfaError::InvalidParameters);
    let bad_code = |_p: FfaParams| frame(ERROR, 0, 5);
    assert_eq!(y.exec(&bad_code), FfaError::UnknownError);
}
