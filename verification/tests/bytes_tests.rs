use solana_games_program::bytes::{bytes_equal, is_all_zero, pad_bytes};

#[test]
fn pad_bytes_fills_with_zeros() {
    let padded: [u8; 8] = pad_bytes::<8>(b"abc").unwrap();
    assert_eq!(padded, [b'a', b'b', b'c', 0, 0, 0, 0, 0]);
}

#[test]
fn pad_bytes_refuses_what_does_not_fit() {
    assert!(pad_bytes::<2>(b"abc").is_none());
    assert!(pad_bytes::<3>(b"abc").is_some());
}

#[test]
fn zero_test_and_comparison() {
    assert!(is_all_zero(&[0u8; 32]));
    let mut h = [0u8; 32];
    h[31] = 1;
    assert!(!is_all_zero(&h));
    assert!(bytes_equal(&h, &h));
    assert!(!bytes_equal(&h, &[0u8; 32]));
}
