use nexor::cross_chain_swap::payload::{
    decode_request_action, decode_swap_params, encode_multi_hop_swap_data, encode_swap_data,
    find_terminator, DecodeError, RequestAction, SwapParams,
};
use nexor::cross_chain_swap::records::Status;
use nexor::cross_chain_swap::route::{
    calculate_expected_output, is_route_supported, is_supported_chain, is_supported_token,
    quote_fits, rate_of, str_same,
};

#[test]
fn quote_is_deterministic() {
    let first = calculate_expected_output("DOT", "USDT", 1_000_000_000);
    assert_eq!(first, 4_985_000_000);
    for _ in 0..10 {
        assert_eq!(calculate_expected_output("DOT", "USDT", 1_000_000_000), first);
    }
}

#[test]
fn quote_follows_the_rate_table() {
    assert_eq!(calculate_expected_output("DOT", "USDC", 1_000_000), 4_985_000);
    assert_eq!(calculate_expected_output("USDT", "USDC", 1_000_000), 997_000);
    assert_eq!(calculate_expected_output("USDC", "USDT", 1_000_000), 997_000);
    assert_eq!(calculate_expected_output("KSM", "USDT", 1_000_000), 19_940_000);
    assert_eq!(calculate_expected_output("ASTR", "USDT", 1_000_000), 99_700);
    assert_eq!(calculate_expected_output("USDT", "DOT", 1_000_000), 997_000);
    assert_eq!(calculate_expected_output("HDX", "BNC", 1_000), 997);
    assert_eq!(rate_of("KSM", "USDT"), 20_000_000);
    assert_eq!(rate_of("USDT", "KSM"), 1_000_000);
}

#[test]
fn quote_rounds_toward_zero() {
    assert_eq!(calculate_expected_output("USDT", "USDC", 0), 0);
    assert_eq!(calculate_expected_output("USDT", "USDC", 1), 1);
    assert_eq!(calculate_expected_output("USDT", "USDC", 333), 333);
    assert_eq!(calculate_expected_output("USDT", "USDC", 334), 333);
    assert_eq!(calculate_expected_output("USDT", "USDC", 1000), 997);
    assert_eq!(calculate_expected_output("ASTR", "USDT", 9), 0);
    assert_eq!(calculate_expected_output("ASTR", "USDT", 10), 1);
}

#[test]
fn quote_range_is_exact() {
    assert!(quote_fits("KSM", "USDT", u128::MAX / 20_000_000));
    assert!(!quote_fits("KSM", "USDT", u128::MAX / 20_000_000 + 1));
    assert!(quote_fits("ASTR", "USDT", u128::MAX / 100_000));
    assert!(!quote_fits("ASTR", "USDT", u128::MAX / 100_000 + 1));
    let largest = u128::MAX / 20_000_000;
    let gross = largest * 20_000_000 / 1_000_000;
    assert_eq!(calculate_expected_output("KSM", "USDT", largest), gross - gross * 3 / 1000);
}

#[test]
fn allow_lists_hold_what_they_should() {
    for token in ["USDT", "DOT", "USDC", "KSM", "ASTR", "BNC", "HDX"] {
        assert!(is_supported_token(token));
    }
    for token in ["", "usdt", "USD", "USDTT", "BTC"] {
        assert!(!is_supported_token(token));
    }
    for chain in ["AssetHub", "Acala", "Hydration", "Moonbeam", "Astar", "Bifrost"] {
        assert!(is_supported_chain(chain));
    }
    for chain in ["", "Kusama", "assethub", "Polkadot"] {
        assert!(!is_supported_chain(chain));
    }
    assert!(str_same("Acala", "Acala"));
    assert!(!str_same("Acala", "Acal"));
}

#[test]
fn route_pre_check_uses_its_own_lists() {
    assert!(is_route_supported("USDT", "USDC", "AssetHub", "Hydration"));
    assert!(is_route_supported("KSM", "ASTR", "Kusama", "Astar"));
    assert!(!is_route_supported("BNC", "USDC", "AssetHub", "Hydration"));
    assert!(!is_route_supported("USDT", "HDX", "AssetHub", "Hydration"));
    assert!(!is_route_supported("USDT", "USDC", "Moonbeam", "Hydration"));
    assert!(!is_route_supported("USDT", "USDC", "AssetHub", "Bifrost"));
}

#[test]
fn status_codes_are_stable() {
    let all = [
        (Status::Initiated, 0u8),
        (Status::InProgress, 1),
        (Status::Completed, 2),
        (Status::Failed, 3),
        (Status::Refunded, 4),
    ];
    for (status, code) in all {
        assert_eq!(status.code(), code);
        assert_eq!(Status::from_code(code), Some(status));
        assert_eq!(status.is_active(), code < 2);
        assert_eq!(status.is_terminal(), code >= 2);
    }
    assert_eq!(Status::from_code(5), None);
    assert_eq!(Status::from_code(255), None);
}

#[test]
fn compact_layout_is_exact() {
    let data = encode_swap_data("DOT", "USDT", 0x0102, 3);
    let mut expected = b"DOT\0USDT\0".to_vec();
    expected.extend_from_slice(&[2, 1, 0, 0, 0, 0, 0, 0, 0, 0, 0, 0, 0, 0, 0, 0]);
    expected.extend_from_slice(&[3, 0, 0, 0]);
    assert_eq!(data, expected);
    assert_eq!(encode_swap_data("", "", 0, 0).len(), 22);
}

#[test]
fn step_request_layout_is_exact() {
    let data = encode_multi_hop_swap_data(0x01020304, 5, "DOT", "USDT", 1000);
    let mut expected = vec![1u8, 4, 3, 2, 1, 5, 0, 0, 0];
    expected.extend_from_slice(b"DOT\0USDT\0");
    expected.extend_from_slice(&1000u128.to_le_bytes());
    assert_eq!(data, expected);
}

#[test]
fn decoding_inverts_encoding() {
    let cases: [(u32, u32, &str, &str, u128); 4] = [
        (0, 0, "USDT", "USDC", 1000),
        (u32::MAX, 9, "DOT", "", u128::MAX),
        (7, 1, "", "KSM", 0),
        (256, 65536, "", "", 1 << 100),
    ];
    for (swap_id, step, source, target, amount) in cases {
        let data = encode_multi_hop_swap_data(swap_id, step, source, target, amount);
        assert_eq!(decode_request_action(&data), Ok(RequestAction::ExecuteSwap));
        assert_eq!(
            decode_swap_params(&data),
            Ok(SwapParams {
                swap_id,
                step,
                source_token: source.as_bytes().to_vec(),
                target_token: target.as_bytes().to_vec(),
                amount,
            })
        );
    }
}

#[test]
fn malformed_bodies_are_rejected() {
    assert_eq!(decode_request_action(&[]), Err(DecodeError::Empty));
    assert_eq!(decode_request_action(&[0]), Err(DecodeError::UnknownAction));
    assert_eq!(decode_request_action(&[3, 1, 2]), Err(DecodeError::UnknownAction));
    assert_eq!(decode_request_action(&[2]), Ok(RequestAction::QuerySwapStatus));

    assert_eq!(decode_swap_params(&[]), Err(DecodeError::Truncated));
    assert_eq!(decode_swap_params(&[1, 0, 0, 0, 0, 0, 0, 0]), Err(DecodeError::Truncated));
    assert_eq!(decode_swap_params(&[2, 0, 0, 0, 0, 0, 0, 0, 0]), Err(DecodeError::WrongAction));
    assert_eq!(
        decode_swap_params(&[1, 0, 0, 0, 0, 0, 0, 0, 0]),
        Err(DecodeError::UnterminatedToken)
    );
    assert_eq!(
        decode_swap_params(&[1, 0, 0, 0, 0, 0, 0, 0, 0, b'A', 0, b'B']),
        Err(DecodeError::UnterminatedToken)
    );
    let good = encode_multi_hop_swap_data(1, 2, "A", "B", 3);
    assert_eq!(decode_swap_params(&good[..good.len() - 1]), Err(DecodeError::BadAmount));
    let mut long = good.clone();
    long.push(0);
    assert_eq!(decode_swap_params(&long), Err(DecodeError::BadAmount));
    assert!(decode_swap_params(&good).is_ok());
}

#[test]
fn terminator_is_the_first_zero_byte() {
    let data = [5u8, 0, 7, 0, 9];
    assert_eq!(find_terminator(&data, 0), 1);
    assert_eq!(find_terminator(&data, 1), 1);
    assert_eq!(find_terminator(&data, 2), 3);
    assert_eq!(find_terminator(&data, 4), 5);
    assert_eq!(find_terminator(&data, 5), 5);
}
