use netlib::rs_error::NetErr;
use netlib::sip::skbuff::{align4, SKBuff, SKBuffHolder, PCBUDP};

#[test]
fn align4_rounds_up() {
    assert_eq!(align4(0), 0);
    assert_eq!(align4(1), 4);
    assert_eq!(align4(4), 4);
    assert_eq!(align4(5), 8);
    assert_eq!(align4(60), 60);
    assert_eq!(align4(61), 64);
}

#[test]
fn with_capcity_lays_the_buffer_out() {
    let skb = SKBuff::with_capcity(61);
    assert_eq!(skb.arena, vec![0u8; 64]);
    assert_eq!(skb.data, 0);
    assert_eq!(skb.tail, 0);
    assert_eq!(skb.total_len, 61);
    assert_eq!(skb.curproto_len, 61);
    assert!(skb.next.is_none());
    assert_eq!((skb.phy, skb.nh, skb.th), (None, None, None));
    assert!(!skb.ip_checked);
}

#[test]
fn with_capcity_zero() {
    let mut skb = SKBuff::with_capcity(0);
    assert!(skb.arena.is_empty());
    assert_eq!(skb.forward(0), Ok(0));
    assert_eq!(skb.forward(1), Err(NetErr::BufferOverrun));
}

#[test]
fn forward_returns_the_old_tail_and_moves_on() {
    let mut skb = SKBuff::with_capcity(60);
    assert_eq!(skb.forward(14), Ok(0));
    assert_eq!(skb.tail, 14);
    assert_eq!(skb.curproto_len, 46);
    assert_eq!(skb.forward(28), Ok(14));
    assert_eq!(skb.tail, 42);
    assert_eq!(skb.curproto_len, 18);
    assert_eq!(skb.total_len, 60);
    assert_eq!(skb.data, 0);
}

#[test]
fn forward_past_the_end_is_an_overrun_and_changes_nothing() {
    let mut skb = SKBuff::with_capcity(60);
    assert_eq!(skb.forward(61), Err(NetErr::BufferOverrun));
    assert_eq!(skb.tail, 0);
    assert_eq!(skb.curproto_len, 60);
    assert_eq!(skb.forward(60), Ok(0));
    assert_eq!(skb.forward(1), Err(NetErr::BufferOverrun));
    assert_eq!(skb.tail, 60);
    assert_eq!(skb.curproto_len, 0);
}

#[test]
fn forward_into_the_padding_is_an_overrun() {
    // 61 bytes are padded to 64; the padding is not part of the frame
    let mut skb = SKBuff::with_capcity(61);
    assert_eq!(skb.forward(62), Err(NetErr::BufferOverrun));
    assert_eq!(skb.forward(61), Ok(0));
}

#[test]
fn forward_of_the_largest_distance_does_not_wrap() {
    let mut skb = SKBuff::with_capcity(8);
    assert_eq!(skb.forward(4), Ok(0));
    assert_eq!(skb.forward(usize::MAX), Err(NetErr::BufferOverrun));
    assert_eq!(skb.tail, 4);
}

#[test]
fn from_frame_copies_and_pads() {
    let skb = SKBuff::from_frame(&[1, 2, 3, 4, 5]);
    assert_eq!(skb.arena, vec![1, 2, 3, 4, 5, 0, 0, 0]);
    assert_eq!(skb.total_len, 5);
    assert_eq!(skb.curproto_len, 5);
    assert_eq!(skb.wire_bytes(), vec![1, 2, 3, 4, 5]);
}

#[test]
fn wire_bytes_follow_curproto_len() {
    let mut skb = SKBuff::from_frame(&[1, 2, 3, 4, 5]);
    assert_eq!(skb.forward(2), Ok(0));
    assert_eq!(skb.wire_bytes(), vec![1, 2, 3]);
}

#[test]
fn holder_hands_out_consecutive_handles() {
    let mut holder = SKBuffHolder::new();
    assert!(holder.data.is_empty());
    assert_eq!(holder.push_get_raw(SKBuff::with_capcity(4)), 0);
    assert_eq!(holder.push_get_raw(SKBuff::with_capcity(8)), 1);
    assert_eq!(holder.data.len(), 2);
    assert_eq!(holder.data[1].total_len, 8);
}

#[test]
fn udp_pcb_starts_with_the_largest_ttl() {
    let pcb = PCBUDP::new();
    assert_eq!(pcb.ttl, 255);
    assert_eq!(pcb.flags, 0);
}

#[test]
fn well_formed_tells_broken_buffers_apart() {
    let mut skb = SKBuff::with_capcity(60);
    assert!(skb.well_formed());
    assert!(skb.well_formed_one());
    skb.tail = 61;
    assert!(!skb.well_formed());
    skb.tail = 0;
    skb.nh = Some(60);
    assert!(!skb.well_formed());
    skb.nh = Some(59);
    assert!(skb.well_formed());
    skb.curproto_len = 61;
    assert!(!skb.well_formed());
    skb.curproto_len = 60;
    let mut bad = SKBuff::with_capcity(8);
    bad.total_len = 9;
    skb.next = Some(Box::new(bad));
    assert!(skb.well_formed_one());
    assert!(!skb.well_formed());
}
