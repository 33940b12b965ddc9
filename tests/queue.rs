use ffa::indirect::{QUEUE_REGION_SIZE, QUEUE_STATE_FREE, QUEUE_STATE_VALID};
use ffa::{AsyncMsgHeader, FfaError, FfaIndirectMsg};

fn fresh_queue() -> (FfaIndirectMsg, Vec<u8>) {
    let q = FfaIndirectMsg::new();
    let mut region = vec![0xEEu8; QUEUE_REGION_SIZE];
    assert_eq!(q.init_indirect_msg(&mut region), FfaError::Success);
    (q, region)
}

#[test]
fn init_zeroes_and_sets_count() {
    let (_q, region) = fresh_queue();
    let h = AsyncMsgHeader::parse(&region);
    assert_eq!(h.version, 0);
    assert_eq!(h.count, 15);
    assert!(region.iter().enumerate().all(|(i, &b)| if i == 2 { b == 15 } else { b == 0 }));
}

#[test]
fn init_rejects_short_region() {
    let q = FfaIndirectMsg::new();
    let mut region = vec![0xEEu8; QUEUE_REGION_SIZE - 1];
    assert_eq!(q.init_indirect_msg(&mut region), FfaError::InvalidParameters);
    assert!(region.iter().all(|&b| b == 0xEE));
}

#[test]
fn write_then_read_one_slot() {
    let (q, mut region) = fresh_queue();
    let msg: Vec<u8> = (1..=10).collect();
    assert_eq!(q.write_indirect_msg(&mut region, 7, &msg), FfaError::Success);
    let h = AsyncMsgHeader::parse(&region);
    assert_eq!(h.bitmap[0].seq_num, 7);
    assert_eq!(h.bitmap[0].length, 10);
    assert_eq!(h.bitmap[0].state, QUEUE_STATE_VALID);
    assert!(h.bitmap[1..].iter().all(|b| b.state == QUEUE_STATE_FREE));
    assert_eq!(&region[256..266], &msg[..]);

    let mut buf = [0u8; 256];
    assert_eq!(q.read_indirect_msg(&mut region, 7, &mut buf), Ok(10));
    assert_eq!(&buf[..10], &msg[..]);
    let h = AsyncMsgHeader::parse(&region);
    assert_eq!(h.bitmap[0].seq_num, 0);
    assert_eq!(h.bitmap[0].length, 0);
    assert_eq!(h.bitmap[0].state, QUEUE_STATE_FREE);

    assert_eq!(q.read_indirect_msg(&mut region, 7, &mut buf), Err(FfaError::Retry));
}

#[test]
fn write_into_full_queue_is_no_memory() {
    let (q, mut region) = fresh_queue();
    for seq in 0..15u16 {
        assert_eq!(q.write_indirect_msg(&mut region, seq, &[seq as u8; 4]), FfaError::Success);
    }
    let before = region.clone();
    assert_eq!(q.write_indirect_msg(&mut region, 99, &[1, 2, 3]), FfaError::NoMemory);
    assert_eq!(region, before);
}

#[test]
fn long_message_spans_slots_in_order() {
    let (q, mut region) = fresh_queue();
    assert_eq!(q.write_indirect_msg(&mut region, 1, &[5u8; 20]), FfaError::Success);
    let msg: Vec<u8> = (0..600u32).map(|i| (i % 251) as u8).collect();
    assert_eq!(q.write_indirect_msg(&mut region, 2, &msg), FfaError::Success);
    let h = AsyncMsgHeader::parse(&region);
    assert_eq!((h.bitmap[1].seq_num, h.bitmap[1].length), (2, 256));
    assert_eq!((h.bitmap[2].seq_num, h.bitmap[2].length), (2, 256));
    assert_eq!((h.bitmap[3].seq_num, h.bitmap[3].length), (2, 88));
    assert_eq!(h.bitmap[4].state, QUEUE_STATE_FREE);

    let mut buf = [0u8; 256];
    let mut out = Vec::new();
    for _ in 0..3 {
        let n = q.read_indirect_msg(&mut region, 2, &mut buf).unwrap();
        out.extend_from_slice(&buf[..n]);
    }
    assert_eq!(out, msg);
    assert_eq!(q.read_indirect_msg(&mut region, 2, &mut buf), Err(FfaError::Retry));
    assert_eq!(q.read_indirect_msg(&mut region, 1, &mut buf), Ok(20));
}

#[test]
fn empty_message_takes_one_slot() {
    let (q, mut region) = fresh_queue();
    assert_eq!(q.write_indirect_msg(&mut region, 3, &[]), FfaError::Success);
    let h = AsyncMsgHeader::parse(&region);
    assert_eq!((h.bitmap[0].seq_num, h.bitmap[0].length, h.bitmap[0].state), (3, 0, QUEUE_STATE_VALID));
    let mut buf = [9u8; 256];
    assert_eq!(q.read_indirect_msg(&mut region, 3, &mut buf), Ok(0));
    assert_eq!(buf, [9u8; 256]);
}

#[test]
fn partial_write_is_not_rolled_back() {
    let (q, mut region) = fresh_queue();
    for seq in 0..13u16 {
        assert_eq!(q.write_indirect_msg(&mut region, seq, &[1]), FfaError::Success);
    }
    assert_eq!(q.write_indirect_msg(&mut region, 50, &[2u8; 600]), FfaError::NoMemory);
    let h = AsyncMsgHeader::parse(&region);
    assert_eq!((h.bitmap[13].seq_num, h.bitmap[13].length), (50, 256));
    assert_eq!((h.bitmap[14].seq_num, h.bitmap[14].length), (50, 256));
}

#[test]
fn header_count_limits_slots_and_lengths_are_clamped() {
    let (q, mut region) = fresh_queue();
    region[2] = 1;
    assert_eq!(q.write_indirect_msg(&mut region, 1, &[1]), FfaError::Success);
    assert_eq!(q.write_indirect_msg(&mut region, 2, &[2]), FfaError::NoMemory);
    // A length field beyond one block is clamped on read.
    region[8 + 2] = 0xff;
    region[8 + 3] = 0xff;
    let mut buf = [0u8; 256];
    assert_eq!(q.read_indirect_msg(&mut region, 1, &mut buf), Ok(256));
}

#[test]
fn short_region_is_rejected_by_read_and_write() {
    let q = FfaIndirectMsg::new();
    let mut region = vec![0u8; 128];
    let mut buf = [0u8; 256];
    assert_eq!(q.write_indirect_msg(&mut region, 1, &[1]), FfaError::InvalidParameters);
    assert_eq!(q.read_indirect_msg(&mut region, 1, &mut buf), Err(FfaError::InvalidParameters));
}
