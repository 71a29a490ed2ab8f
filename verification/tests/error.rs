use alloy::primitives::keccak256;
use erc8183::error::{decode_revert_reason, SdkError};

/// The 4-byte selector of a Solidity error signature.
fn selector(signature: &str) -> [u8; 4] {
    let h = keccak256(signature.as_bytes());
    [h[0], h[1], h[2], h[3]]
}

#[test]
fn decode_revert_returns_none_for_unknown() {
    assert_eq!(decode_revert_reason(&[0xFF, 0xFF, 0xFF, 0xFF]), None);
}

#[test]
fn decode_revert_returns_none_for_short_input() {
    assert_eq!(decode_revert_reason(&[0x01, 0x02, 0x03]), None);
    assert_eq!(decode_revert_reason(&[]), None);
}

#[test]
fn decode_revert_all_custom_errors() {
    let selectors: &[([u8; 4], &str)] = &[
        (selector("ZeroAddress()"), "ZeroAddress"),
        (selector("InvalidExpiry()"), "InvalidExpiry"),
        (selector("InvalidStatus(uint8)"), "InvalidStatus"),
        (selector("Unauthorized()"), "Unauthorized"),
        (selector("ProviderAlreadySet()"), "ProviderAlreadySet"),
        (selector("ProviderNotSet()"), "ProviderNotSet"),
        (selector("BudgetMismatch(uint256,uint256)"), "BudgetMismatch"),
        (selector("ZeroBudget()"), "ZeroBudget"),
        (selector("JobAlreadyExpired()"), "JobAlreadyExpired"),
        (selector("JobNotExpired()"), "JobNotExpired"),
        (selector("FeeTooHigh()"), "FeeTooHigh"),
        (selector("JobDoesNotExist()"), "JobDoesNotExist"),
        (selector("HookNotWhitelisted()"), "HookNotWhitelisted"),
        (selector("HookInterfaceNotSupported()"), "HookInterfaceNotSupported"),
        (selector("DescriptionTooLong()"), "DescriptionTooLong"),
        (selector("OwnableUnauthorizedAccount(address)"), "OwnableUnauthorizedAccount"),
        (selector("OwnableInvalidOwner(address)"), "OwnableInvalidOwner"),
    ];
    for (sel, name) in selectors {
        assert_eq!(
            decode_revert_reason(sel),
            Some(*name),
            "selector {sel:02x?} should decode to {name}"
        );
    }
}

#[test]
fn error_display_messages() {
    assert_eq!(
        SdkError::ContractNotConfigured.to_string(),
        "contract not configured"
    );
    assert_eq!(
        SdkError::InvalidJobStatus { status: 99 }.to_string(),
        "invalid job status: 99"
    );
    assert_eq!(
        SdkError::UnknownChainId { chain_id: 42 }.to_string(),
        "unknown chain ID: 42"
    );
}

#[test]
fn decode_revert_documented_example() {
    assert_eq!(
        decode_revert_reason(&[0xd3, 0x6c, 0x85, 0x00]),
        Some("InvalidExpiry")
    );
}

#[test]
fn decode_revert_ignores_bytes_after_selector() {
    let mut data = selector("BudgetMismatch(uint256,uint256)").to_vec();
    data.extend_from_slice(&[0u8; 64]);
    data[40] = 7;
    assert_eq!(decode_revert_reason(&data), Some("BudgetMismatch"));
}

#[test]
fn decode_revert_unknown_selector_with_payload() {
    let mut data = selector("Transfer(address,address,uint256)").to_vec();
    data.extend_from_slice(&[1u8; 32]);
    assert_eq!(decode_revert_reason(&data), None);
}

#[test]
fn error_display_event_not_found() {
    let e = SdkError::EventNotFound {
        context: "JobCreated event not found in createJob receipt",
    };
    assert_eq!(
        e.to_string(),
        "event not found in receipt: JobCreated event not found in createJob receipt"
    );
}

#[test]
fn error_display_large_numbers() {
    assert_eq!(
        SdkError::UnknownChainId { chain_id: u64::MAX }.to_string(),
        "unknown chain ID: 18446744073709551615"
    );
    assert_eq!(
        SdkError::InvalidJobStatus { status: 0 }.to_string(),
        "invalid job status: 0"
    );
    assert_eq!(
        SdkError::UnknownChainId { chain_id: 10 }.to_string(),
        "unknown chain ID: 10"
    );
}

#[test]
fn error_display_json_variant() {
    let inner = serde_json::from_str::<u8>("not json").unwrap_err();
    let expected = format!("json error: {inner}");
    assert_eq!(SdkError::Json(inner).to_string(), expected);
}
