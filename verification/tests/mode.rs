use proofcortex_verifier::errors::VerifierError;
use proofcortex_verifier::mode::{select_mode, to_fixed_bytes, Mode, SubmissionConfig,
    DEFAULT_CHAIN_ID};

fn cfg(rpc: bool, key: bool, addr: bool) -> SubmissionConfig {
    SubmissionConfig::new(
        if rpc { Some("http://localhost:8545".to_string()) } else { None },
        if key { Some("6a6b".to_string()) } else { None },
        if addr { Some("0x00112233445566778899aabbccddeeff00112233".to_string()) } else { None },
        None,
    )
}

#[test]
fn offline_for_every_incomplete_credential_combination() {
    let combos = [
        (false, false, false),
        (true, false, false),
        (false, true, false),
        (false, false, true),
        (true, true, false),
        (true, false, true),
        (false, true, true),
    ];
    for (rpc, key, addr) in combos {
        assert_eq!(select_mode(&cfg(rpc, key, addr)), Mode::Offline);
    }
}

#[test]
fn online_only_with_all_three_credentials() {
    assert_eq!(select_mode(&cfg(true, true, true)), Mode::Online);
}

#[test]
fn empty_credential_counts_as_absent() {
    let c = SubmissionConfig::new(
        Some(String::new()),
        Some("6a6b".to_string()),
        Some("0x00112233445566778899aabbccddeeff00112233".to_string()),
        None,
    );
    assert_eq!(select_mode(&c), Mode::Offline);
}

#[test]
fn chain_id_defaults_and_never_gates_mode() {
    let c = cfg(false, false, false);
    assert_eq!(c.chain_id, 1337);
    assert_eq!(DEFAULT_CHAIN_ID, 1337);
    let c2 = SubmissionConfig::new(None, None, None, Some(31337));
    assert_eq!(c2.chain_id, 31337);
    assert_eq!(select_mode(&c2), Mode::Offline);
    let mut c3 = cfg(true, true, true);
    c3.chain_id = 31337;
    assert_eq!(select_mode(&c3), Mode::Online);
}

#[test]
fn to_fixed_bytes_left_pads_a_short_input() {
    // 31 bytes in, 32 out, with one leading zero byte.
    let hex31 = "11".repeat(31);
    let got = to_fixed_bytes(&format!("0x{}", hex31)).unwrap();
    assert_eq!(got.len(), 32);
    assert_eq!(got[0], 0u8);
    assert!(got[1..].iter().all(|&b| b == 0x11u8));
}

#[test]
fn to_fixed_bytes_fails_on_a_long_input() {
    let hex33 = "11".repeat(33);
    assert_eq!(to_fixed_bytes(&hex33), Err(VerifierError::HashTooLong));
}

#[test]
fn to_fixed_bytes_accepts_exactly_32_bytes() {
    let hex32 = "ab".repeat(32);
    let got = to_fixed_bytes(&hex32).unwrap();
    assert_eq!(got, vec![0xabu8; 32]);
}

#[test]
fn to_fixed_bytes_rejects_bad_hex() {
    assert_eq!(to_fixed_bytes("0xzz"), Err(VerifierError::Encoding));
    assert_eq!(to_fixed_bytes("abc"), Err(VerifierError::Encoding));
}

#[test]
fn to_fixed_bytes_pads_an_empty_input_to_zeros() {
    assert_eq!(to_fixed_bytes("0x").unwrap(), vec![0u8; 32]);
    assert_eq!(to_fixed_bytes("").unwrap(), vec![0u8; 32]);
}

#[test]
fn to_fixed_bytes_strips_one_prefix_only() {
    assert_eq!(to_fixed_bytes("0xdeadbeef"), to_fixed_bytes("deadbeef"));
    // A second prefix is not hex any more.
    assert_eq!(to_fixed_bytes("0x0xdeadbeef"), Err(VerifierError::Encoding));
}
