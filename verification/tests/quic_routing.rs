use sfo_reuseport::quic::{
    quic_long_header_dcid, quic_reuseport_bpf_accepts_packet, quic_worker_index,
    quic_worker_index_prefix,
};

#[test]
fn quic_long_header_uses_two_byte_worker_index_prefix() {
    let packet = [0xe0, 0, 0, 0, 1, 4, 0, 2, 9, 9];
    assert_eq!(quic_worker_index(&packet, 4), Some(2));
}

#[test]
fn quic_long_header_uses_full_16_bit_worker_index_prefix() {
    let packet = [0xe0, 0, 0, 0, 1, 4, 0x01, 0x03, 9, 9];
    assert_eq!(quic_worker_index(&packet, 4), Some(3));
}

#[test]
fn quic_initial_uses_two_byte_worker_index_prefix() {
    let packet = [0xc0, 0, 0, 0, 1, 8, 0, 2, 6, 5, 4, 3, 2, 1];
    assert_eq!(quic_worker_index(&packet, 4), Some(2));
}

#[test]
fn quic_zero_rtt_uses_two_byte_worker_index_prefix() {
    let packet = [0xd0, 0, 0, 0, 1, 8, 0, 3, 5, 7, 9, 11, 13, 15];
    assert_eq!(quic_worker_index(&packet, 4), Some(3));
}

#[test]
fn quic_short_header_uses_two_byte_worker_index_prefix() {
    let packet = [0x40, 0, 3, 2, 3];
    assert_eq!(quic_worker_index(&packet, 4), Some(3));
}

#[test]
fn quic_short_header_uses_full_16_bit_worker_index_prefix() {
    let packet = [0x40, 0x01, 0x03, 2, 3];
    assert_eq!(quic_worker_index(&packet, 4), Some(3));
}

#[test]
fn quic_route_key_rejects_empty_or_truncated_dcid() {
    assert_eq!(quic_worker_index(&[], 4), None);
    assert_eq!(quic_worker_index(&[0xc0, 0, 0, 0, 1, 0], 4), None);
    assert_eq!(quic_worker_index(&[0xc0, 0, 0, 0, 1, 1, 1], 4), None);
    assert_eq!(quic_worker_index(&[0xc0, 0, 0, 0, 1, 4, 1], 4), None);
    assert_eq!(
        quic_worker_index(&[0xc0, 0, 0, 0, 1, 8, 1, 2, 3, 4, 5, 6, 7], 4),
        None
    );
    assert_eq!(quic_worker_index(&[0x40], 4), None);
    assert_eq!(quic_worker_index(&[0x40, 0x80], 4), None);
}

#[test]
fn quic_reuseport_bpf_path_trusts_kernel_worker_selection() {
    let packet = [0xe0, 0, 0, 0, 1, 4, 0, 2, 9, 9];

    assert_eq!(quic_worker_index(&packet, 4), Some(2));
    assert!(quic_reuseport_bpf_accepts_packet(&packet, 4));
}

#[test]
fn quic_worker_index_needs_workers() {
    let packet = [0xe0, 0, 0, 0, 1, 4, 0, 2, 9, 9];
    assert_eq!(quic_worker_index(&packet, 0), None);
    assert!(!quic_reuseport_bpf_accepts_packet(&packet, 0));
    assert!(!quic_reuseport_bpf_accepts_packet(&[0x40, 0x80], 4));
}

#[test]
fn quic_prefix_reads_big_endian_half_word() {
    assert_eq!(quic_worker_index_prefix(&[0x12, 0x34, 0x56]), Some(0x1234));
    assert_eq!(quic_worker_index_prefix(&[0xff, 0xff]), Some(0xffff));
    assert_eq!(quic_worker_index_prefix(&[0x12]), None);
}

#[test]
fn quic_long_header_dcid_extracts_announced_bytes() {
    let packet = [0xc0, 0, 0, 0, 1, 3, 7, 8, 9, 10];
    assert_eq!(quic_long_header_dcid(&packet), Some(&[7u8, 8, 9][..]));
    assert_eq!(quic_long_header_dcid(&[0xc0, 0, 0, 0, 1]), None);
}

#[test]
fn long_and_short_header_of_one_connection_reach_the_same_worker() {
    // A connection id issued for worker 0x0105, first in an Initial packet,
    // then in a short-header packet.
    let cid = [0x01, 0x05, 0xaa, 0xbb, 0xcc, 0xdd, 0xee, 0xff];
    let mut initial = vec![0xc3, 0, 0, 0, 1, cid.len() as u8];
    initial.extend_from_slice(&cid);
    initial.extend_from_slice(&[0, 1, 2, 3]);
    let mut short = vec![0x41];
    short.extend_from_slice(&cid);
    short.extend_from_slice(&[9, 9, 9]);
    for workers in 1..10 {
        assert_eq!(quic_worker_index(&initial, workers), Some(0x0105 % workers));
        assert_eq!(quic_worker_index(&short, workers), Some(0x0105 % workers));
    }
}
