use sfo_reuseport::quic::quic_worker_index;
use sfo_reuseport::{Error, QuicCidGenerator};

#[test]
fn quic_cid_generator_is_public_without_quinn_types() {
    let generator = QuicCidGenerator::new(3).unwrap();

    assert_eq!(generator.worker_index(), 3);
    assert_eq!(generator.cid_len(), QuicCidGenerator::DEFAULT_CID_LEN);
}

#[test]
fn quic_cid_generator_writes_two_byte_worker_prefix_and_random_suffix() {
    let generator = QuicCidGenerator::new(7).unwrap();

    let first = generator.generate().unwrap();
    let second = generator.generate().unwrap();

    assert_eq!(first.len(), QuicCidGenerator::DEFAULT_CID_LEN);
    assert_eq!(&first[..2], &[0, 7]);
    assert_eq!(&second[..2], &[0, 7]);
    assert_ne!(&first[2..], &second[2..]);
}

#[test]
fn quic_cid_generator_writes_full_16_bit_worker_prefix_and_random_suffix() {
    let generator = QuicCidGenerator::new(0x0103).unwrap();

    let first = generator.generate().unwrap();
    let second = generator.generate().unwrap();

    assert_eq!(first.len(), QuicCidGenerator::DEFAULT_CID_LEN);
    assert_eq!(&first[..2], &[0x01, 0x03]);
    assert_eq!(&second[..2], &[0x01, 0x03]);
    assert_ne!(&first[2..], &second[2..]);
}

#[test]
fn quic_cid_generator_supports_configured_length_and_generate_into() {
    let generator = QuicCidGenerator::for_worker(7)
        .unwrap()
        .with_cid_len(12)
        .unwrap();
    let mut cid = [0_u8; 12];

    generator.generate_into(&mut cid).unwrap();

    assert_eq!(generator.worker_index(), 7);
    assert_eq!(generator.cid_len(), 12);
    assert_eq!(&cid[..2], &[0, 7]);
}

#[test]
fn quic_cid_generator_rejects_invalid_lengths_and_worker_index() {
    assert!(QuicCidGenerator::new(1).unwrap().with_cid_len(7).is_err());
    assert!(QuicCidGenerator::new(1).unwrap().with_cid_len(21).is_err());
    assert!(QuicCidGenerator::for_worker(0x1_0000).is_err());

    let generator = QuicCidGenerator::new(1).unwrap();
    let mut short = [0_u8; 7];
    assert!(generator.generate_into(&mut short).is_err());
}

#[test]
fn quic_cid_generator_error_messages_name_the_limits() {
    match QuicCidGenerator::new(0x1_0000) {
        Err(Error::InvalidConfig(m)) => {
            assert_eq!(m, "QUIC CID worker index must be between 0 and 65535")
        }
        other => panic!("unexpected {other:?}"),
    }
    match QuicCidGenerator::new(1).unwrap().with_cid_len(21) {
        Err(Error::InvalidConfig(m)) => {
            assert_eq!(m, "QUIC CID length must be between 8 and 20 bytes")
        }
        other => panic!("unexpected {other:?}"),
    }
    let generator = QuicCidGenerator::new(1).unwrap().with_cid_len(20).unwrap();
    let mut wrong = [0_u8; 8];
    match generator.generate_into(&mut wrong) {
        Err(Error::InvalidConfig(m)) => {
            assert_eq!(m, "QUIC CID buffer length must equal configured CID length 20")
        }
        other => panic!("unexpected {other:?}"),
    }
    assert_eq!(wrong, [0_u8; 8]);
}

#[test]
fn quic_cid_limits_are_inclusive() {
    let generator = QuicCidGenerator::new(0xffff).unwrap();
    assert_eq!(generator.worker_index(), 0xffff);
    assert_eq!(generator.clone().with_cid_len(8).unwrap().cid_len(), 8);
    assert_eq!(generator.clone().with_cid_len(20).unwrap().cid_len(), 20);
    let cid = generator.with_cid_len(20).unwrap().generate().unwrap();
    assert_eq!(cid.len(), 20);
    assert_eq!(&cid[..2], &[0xff, 0xff]);
}

#[test]
fn generated_cids_route_back_to_their_worker() {
    for worker in [0usize, 1, 2, 3, 255, 256, 0x1234] {
        let cid = QuicCidGenerator::new(worker).unwrap().generate().unwrap();
        let mut short = vec![0x40];
        short.extend_from_slice(&cid);
        let mut long = vec![0xc0, 0, 0, 0, 1, cid.len() as u8];
        long.extend_from_slice(&cid);
        for workers in 1..9 {
            assert_eq!(quic_worker_index(&short, workers), Some(worker % workers));
            assert_eq!(quic_worker_index(&long, workers), Some(worker % workers));
        }
    }
}

#[test]
fn worker_prefix_keeps_the_random_suffix() {
    let generator = QuicCidGenerator::new(0x0103).unwrap();
    let mut random = [9_u8, 8, 7, 6, 5, 4, 3, 2];
    generator.write_worker_prefix(&mut random).unwrap();
    assert_eq!(random, [0x01, 0x03, 7, 6, 5, 4, 3, 2]);

    let mut short = [1_u8, 2, 3];
    assert!(matches!(generator.write_worker_prefix(&mut short), Err(Error::InvalidConfig(_))));
    assert_eq!(short, [1, 2, 3]);
}

#[test]
fn wrong_length_buffer_is_left_untouched() {
    let generator = QuicCidGenerator::new(1).unwrap();
    let mut short = [5_u8; 7];
    assert!(matches!(generator.generate_into(&mut short), Err(Error::InvalidConfig(_))));
    assert_eq!(short, [5_u8; 7]);
}
