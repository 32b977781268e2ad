use payroll::bytes::{push_le_bytes, read_le_u64};
use payroll::randomness::{generate_secure_random, ticket_from_random_bytes, verify_vrf_and_get_random};
use payroll::{PayrollError, Pubkey};

fn key(w0: u64, w1: u64, w2: u64, w3: u64) -> Pubkey {
    Pubkey { w0, w1, w2, w3 }
}

#[test]
fn entropy_draw_matches_triple_sha256() {
    let slot: u64 = 123_456;
    let entropy = slot.to_le_bytes();
    let r = generate_secure_random(slot, 1_700_000_000, &key(1, 2, 3, 4), &entropy, 1_000_003);
    assert_eq!(r, Ok(272_231));
}

#[test]
fn entropy_draw_with_negative_timestamp() {
    let r = generate_secure_random(7, -5, &key(1, 2, 3, 4), &[9, 9], 10);
    assert_eq!(r, Ok(5));
}

#[test]
fn entropy_draw_stays_below_tickets_sold() {
    for sold in [1u32, 2, 3, 10, 97, 10_000] {
        for slot in 0u64..20 {
            let w = generate_secure_random(slot, 1_000 + slot as i64, &key(slot, 0, 0, 9), &[1, 2, 3], sold).unwrap();
            assert!(w < sold);
        }
    }
}

#[test]
fn entropy_draw_without_tickets_fails() {
    assert_eq!(generate_secure_random(1, 1, &key(0, 0, 0, 0), &[], 0), Err(PayrollError::NoTicketsSold));
}

#[test]
fn vrf_draw_reads_low_eight_bytes() {
    assert_eq!(verify_vrf_and_get_random(&[1, 0, 0, 0, 0, 0, 0, 0], 10), Ok(1));
    assert_eq!(verify_vrf_and_get_random(&[1, 2, 3, 4, 5, 6, 7, 8, 99, 99], 1000), Ok(201));
    assert_eq!(verify_vrf_and_get_random(&[0xff; 8], 7), Ok(1));
}

#[test]
fn vrf_draw_errors() {
    assert_eq!(verify_vrf_and_get_random(&[], 10), Err(PayrollError::VrfResultNotAvailable));
    assert_eq!(verify_vrf_and_get_random(&[1, 2, 3, 4, 5, 6, 7], 10), Err(PayrollError::InvalidVrfProof));
    assert_eq!(verify_vrf_and_get_random(&[0; 8], 0), Err(PayrollError::NoTicketsSold));
}

#[test]
fn ticket_from_bytes_is_modulo() {
    assert_eq!(ticket_from_random_bytes(&[10, 0, 0, 0, 0, 0, 0, 0], 4), 2);
}

#[test]
fn little_endian_round_trip() {
    let mut buf: Vec<u8> = vec![7];
    push_le_bytes(&mut buf, 0x0807_0605_0403_0201, 8);
    assert_eq!(buf, vec![7, 1, 2, 3, 4, 5, 6, 7, 8]);
    assert_eq!(read_le_u64(&buf, 1), 0x0807_0605_0403_0201);
    let mut short: Vec<u8> = Vec::new();
    push_le_bytes(&mut short, 0x1234_5678, 2);
    assert_eq!(short, vec![0x78, 0x56]);
}

#[test]
fn pubkey_bytes_round_trip() {
    let mut raw = [0u8; 32];
    for (i, b) in raw.iter_mut().enumerate() {
        *b = i as u8 + 1;
    }
    let k = Pubkey::from_bytes(&raw);
    assert_eq!(k.w0, u64::from_le_bytes([1, 2, 3, 4, 5, 6, 7, 8]));
    assert_eq!(k.w3, u64::from_le_bytes([25, 26, 27, 28, 29, 30, 31, 32]));
    assert_eq!(k.to_bytes(), raw.to_vec());
}
