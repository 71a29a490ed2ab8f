//! Error type of the SDK and decoding of contract revert selectors.

use vstd::prelude::*;
use vstd::string::StringExecFns;

use crate::primitives::{decimal, push_decimal};

verus! {

#[verifier::external_type_specification]
#[verifier::external_body]
pub struct ExContractError(alloy::contract::Error);

#[verifier::external_type_specification]
#[verifier::external_body]
#[verifier::reject_recursive_types(E)]
#[verifier::reject_recursive_types(ErrResp)]
pub struct ExRpcError<E, ErrResp>(alloy::transports::RpcError<E, ErrResp>);

#[verifier::external_type_specification]
#[verifier::external_body]
pub struct ExTransportErrorKind(alloy::transports::TransportErrorKind);

#[verifier::external_type_specification]
#[verifier::external_body]
pub struct ExRawValue(serde_json::value::RawValue);

#[verifier::external_type_specification]
#[verifier::external_body]
pub struct ExPendingTransactionError(alloy::providers::PendingTransactionError);

#[verifier::external_type_specification]
#[verifier::external_body]
pub struct ExJsonError(serde_json::Error);

/// The primary error type for all ERC-8183 SDK operations.
#[derive(Debug)]
pub enum SdkError {
    /// A contract interaction failed.
    Contract(alloy::contract::Error),
    /// An RPC transport error occurred.
    Transport(alloy::transports::RpcError<alloy::transports::TransportErrorKind>),
    /// The contract address was not configured.
    ContractNotConfigured,
    /// Expected event was not found in a transaction receipt.
    EventNotFound {
        /// Description of which event was expected.
        context: &'static str,
    },
    /// A pending transaction was dropped or failed to confirm.
    PendingTransaction(alloy::providers::PendingTransactionError),
    /// JSON serialization / deserialization failed.
    Json(serde_json::Error),
    /// An invalid job status was returned from the contract.
    InvalidJobStatus {
        /// The raw status value returned by the contract.
        status: u8,
    },
    /// The chain ID does not correspond to a known ERC-8183 deployment.
    UnknownChainId {
        /// The unrecognised chain ID.
        chain_id: u64,
    },
}

} // verus!

verus! {

/// The name of the `AgenticCommerce` custom error whose 4-byte selector is
/// `sel`, if there is one.
///
/// Each selector is the first four bytes of the Keccak-256 hash of the error's
/// Solidity signature, as the contract's ABI declares it.
pub open spec fn revert_name(sel: Seq<u8>) -> Option<&'static str> {
    if sel == seq![0xd9u8, 0x2eu8, 0x23u8, 0x3du8] {
        Some("ZeroAddress")
    } else if sel == seq![0xd3u8, 0x6cu8, 0x85u8, 0x00u8] {
        Some("InvalidExpiry")
    } else if sel == seq![0x77u8, 0x4fu8, 0x7fu8, 0x12u8] {
        Some("InvalidStatus")
    } else if sel == seq![0x82u8, 0xb4u8, 0x29u8, 0x00u8] {
        Some("Unauthorized")
    } else if sel == seq![0xd0u8, 0x77u8, 0x27u8, 0xc5u8] {
        Some("ProviderAlreadySet")
    } else if sel == seq![0xa9u8, 0x45u8, 0x6du8, 0x43u8] {
        Some("ProviderNotSet")
    } else if sel == seq![0x73u8, 0x35u8, 0x80u8, 0xbdu8] {
        Some("BudgetMismatch")
    } else if sel == seq![0xffu8, 0x97u8, 0xb8u8, 0x61u8] {
        Some("ZeroBudget")
    } else if sel == seq![0x43u8, 0xa3u8, 0xd2u8, 0x80u8] {
        Some("JobAlreadyExpired")
    } else if sel == seq![0xd9u8, 0xfdu8, 0x01u8, 0x10u8] {
        Some("JobNotExpired")
    } else if sel == seq![0xcdu8, 0x4eu8, 0x61u8, 0x67u8] {
        Some("FeeTooHigh")
    } else if sel == seq![0xfcu8, 0x5fu8, 0xb8u8, 0xd0u8] {
        Some("JobDoesNotExist")
    } else if sel == seq![0xa0u8, 0x4bu8, 0x28u8, 0xecu8] {
        Some("HookNotWhitelisted")
    } else if sel == seq![0xbfu8, 0xbdu8, 0x50u8, 0x41u8] {
        Some("HookInterfaceNotSupported")
    } else if sel == seq![0xd7u8, 0xcfu8, 0xc5u8, 0x90u8] {
        Some("DescriptionTooLong")
    } else if sel == seq![0x11u8, 0x8cu8, 0xdau8, 0xa7u8] {
        Some("OwnableUnauthorizedAccount")
    } else if sel == seq![0x1eu8, 0x4fu8, 0xbdu8, 0xf7u8] {
        Some("OwnableInvalidOwner")
    } else {
        None
    }
}

/// Whether the first four bytes of `data` are `a, b, c, d`.
fn starts_with_selector(data: &[u8], a: u8, b: u8, c: u8, d: u8) -> (r: bool)
    requires
        data@.len() >= 4,
    ensures
        r == (data@.take(4) == seq![a, b, c, d]),
{
    let r = data[0] == a && data[1] == b && data[2] == c && data[3] == d;
    assert(r == (data@.take(4) =~= seq![a, b, c, d]));
    r
}

/// Decode a 4-byte revert selector into a human-readable error name.
///
/// Returns the error name if it matches a known `AgenticCommerce` custom
/// error, or `None` for unrecognized selectors and for inputs shorter than
/// four bytes. Bytes after the selector are ignored.
pub fn decode_revert_reason(data: &[u8]) -> (r: Option<&'static str>)
    ensures
        data@.len() < 4 ==> r.is_none(),
        data@.len() >= 4 ==> r == revert_name(data@.take(4)),
{
    if data.len() < 4 {
        return None;
    }
    if starts_with_selector(data, 0xd9, 0x2e, 0x23, 0x3d) {
        Some("ZeroAddress")
    } else if starts_with_selector(data, 0xd3, 0x6c, 0x85, 0x00) {
        Some("InvalidExpiry")
    } else if starts_with_selector(data, 0x77, 0x4f, 0x7f, 0x12) {
        Some("InvalidStatus")
    } else if starts_with_selector(data, 0x82, 0xb4, 0x29, 0x00) {
        Some("Unauthorized")
    } else if starts_with_selector(data, 0xd0, 0x77, 0x27, 0xc5) {
        Some("ProviderAlreadySet")
    } else if starts_with_selector(data, 0xa9, 0x45, 0x6d, 0x43) {
        Some("ProviderNotSet")
    } else if starts_with_selector(data, 0x73, 0x35, 0x80, 0xbd) {
        Some("BudgetMismatch")
    } else if starts_with_selector(data, 0xff, 0x97, 0xb8, 0x61) {
        Some("ZeroBudget")
    } else if starts_with_selector(data, 0x43, 0xa3, 0xd2, 0x80) {
        Some("JobAlreadyExpired")
    } else if starts_with_selector(data, 0xd9, 0xfd, 0x01, 0x10) {
        Some("JobNotExpired")
    } else if starts_with_selector(data, 0xcd, 0x4e, 0x61, 0x67) {
        Some("FeeTooHigh")
    } else if starts_with_selector(data, 0xfc, 0x5f, 0xb8, 0xd0) {
        Some("JobDoesNotExist")
    } else if starts_with_selector(data, 0xa0, 0x4b, 0x28, 0xec) {
        Some("HookNotWhitelisted")
    } else if starts_with_selector(data, 0xbf, 0xbd, 0x50, 0x41) {
        Some("HookInterfaceNotSupported")
    } else if starts_with_selector(data, 0xd7, 0xcf, 0xc5, 0x90) {
        Some("DescriptionTooLong")
    } else if starts_with_selector(data, 0x11, 0x8c, 0xda, 0xa7) {
        Some("OwnableUnauthorizedAccount")
    } else if starts_with_selector(data, 0x1e, 0x4f, 0xbd, 0xf7) {
        Some("OwnableInvalidOwner")
    } else {
        None
    }
}

} // verus!

verus! {

/// The `AgenticCommerce` custom errors: each 4-byte selector with the name of
/// the error it belongs to, in the order the contract declares them.
pub open spec fn custom_errors() -> Seq<(Seq<u8>, &'static str)> {
    seq![
        (seq![0xd9u8, 0x2eu8, 0x23u8, 0x3du8], "ZeroAddress"),
        (seq![0xd3u8, 0x6cu8, 0x85u8, 0x00u8], "InvalidExpiry"),
        (seq![0x77u8, 0x4fu8, 0x7fu8, 0x12u8], "InvalidStatus"),
        (seq![0x82u8, 0xb4u8, 0x29u8, 0x00u8], "Unauthorized"),
        (seq![0xd0u8, 0x77u8, 0x27u8, 0xc5u8], "ProviderAlreadySet"),
        (seq![0xa9u8, 0x45u8, 0x6du8, 0x43u8], "ProviderNotSet"),
        (seq![0x73u8, 0x35u8, 0x80u8, 0xbdu8], "BudgetMismatch"),
        (seq![0xffu8, 0x97u8, 0xb8u8, 0x61u8], "ZeroBudget"),
        (seq![0x43u8, 0xa3u8, 0xd2u8, 0x80u8], "JobAlreadyExpired"),
        (seq![0xd9u8, 0xfdu8, 0x01u8, 0x10u8], "JobNotExpired"),
        (seq![0xcdu8, 0x4eu8, 0x61u8, 0x67u8], "FeeTooHigh"),
        (seq![0xfcu8, 0x5fu8, 0xb8u8, 0xd0u8], "JobDoesNotExist"),
        (seq![0xa0u8, 0x4bu8, 0x28u8, 0xecu8], "HookNotWhitelisted"),
        (seq![0xbfu8, 0xbdu8, 0x50u8, 0x41u8], "HookInterfaceNotSupported"),
        (seq![0xd7u8, 0xcfu8, 0xc5u8, 0x90u8], "DescriptionTooLong"),
        (seq![0x11u8, 0x8cu8, 0xdau8, 0xa7u8], "OwnableUnauthorizedAccount"),
        (seq![0x1eu8, 0x4fu8, 0xbdu8, 0xf7u8], "OwnableInvalidOwner"),
    ]
}

/// The decode table is exactly the seventeen `AgenticCommerce` custom
/// errors: each of their selectors decodes to its own name, and every other
/// 4-byte prefix (such as `08c379a0`, the selector of Solidity's
/// `Error(string)`) decodes to nothing.
pub proof fn lemma_revert_table_is_custom_errors(sel: Seq<u8>)
    ensures
        revert_name(seq![0xd9u8, 0x2eu8, 0x23u8, 0x3du8]) == Some("ZeroAddress"),
        revert_name(seq![0xd3u8, 0x6cu8, 0x85u8, 0x00u8]) == Some("InvalidExpiry"),
        revert_name(seq![0x77u8, 0x4fu8, 0x7fu8, 0x12u8]) == Some("InvalidStatus"),
        revert_name(seq![0x82u8, 0xb4u8, 0x29u8, 0x00u8]) == Some("Unauthorized"),
        revert_name(seq![0xd0u8, 0x77u8, 0x27u8, 0xc5u8]) == Some("ProviderAlreadySet"),
        revert_name(seq![0xa9u8, 0x45u8, 0x6du8, 0x43u8]) == Some("ProviderNotSet"),
        revert_name(seq![0x73u8, 0x35u8, 0x80u8, 0xbdu8]) == Some("BudgetMismatch"),
        revert_name(seq![0xffu8, 0x97u8, 0xb8u8, 0x61u8]) == Some("ZeroBudget"),
        revert_name(seq![0x43u8, 0xa3u8, 0xd2u8, 0x80u8]) == Some("JobAlreadyExpired"),
        revert_name(seq![0xd9u8, 0xfdu8, 0x01u8, 0x10u8]) == Some("JobNotExpired"),
        revert_name(seq![0xcdu8, 0x4eu8, 0x61u8, 0x67u8]) == Some("FeeTooHigh"),
        revert_name(seq![0xfcu8, 0x5fu8, 0xb8u8, 0xd0u8]) == Some("JobDoesNotExist"),
        revert_name(seq![0xa0u8, 0x4bu8, 0x28u8, 0xecu8]) == Some("HookNotWhitelisted"),
        revert_name(seq![0xbfu8, 0xbdu8, 0x50u8, 0x41u8]) == Some("HookInterfaceNotSupported"),
        revert_name(seq![0xd7u8, 0xcfu8, 0xc5u8, 0x90u8]) == Some("DescriptionTooLong"),
        revert_name(seq![0x11u8, 0x8cu8, 0xdau8, 0xa7u8]) == Some("OwnableUnauthorizedAccount"),
        revert_name(seq![0x1eu8, 0x4fu8, 0xbdu8, 0xf7u8]) == Some("OwnableInvalidOwner"),
        revert_name(sel).is_some() ==> {
            ||| sel == seq![0xd9u8, 0x2eu8, 0x23u8, 0x3du8]
            ||| sel == seq![0xd3u8, 0x6cu8, 0x85u8, 0x00u8]
            ||| sel == seq![0x77u8, 0x4fu8, 0x7fu8, 0x12u8]
            ||| sel == seq![0x82u8, 0xb4u8, 0x29u8, 0x00u8]
            ||| sel == seq![0xd0u8, 0x77u8, 0x27u8, 0xc5u8]
            ||| sel == seq![0xa9u8, 0x45u8, 0x6du8, 0x43u8]
            ||| sel == seq![0x73u8, 0x35u8, 0x80u8, 0xbdu8]
            ||| sel == seq![0xffu8, 0x97u8, 0xb8u8, 0x61u8]
            ||| sel == seq![0x43u8, 0xa3u8, 0xd2u8, 0x80u8]
            ||| sel == seq![0xd9u8, 0xfdu8, 0x01u8, 0x10u8]
            ||| sel == seq![0xcdu8, 0x4eu8, 0x61u8, 0x67u8]
            ||| sel == seq![0xfcu8, 0x5fu8, 0xb8u8, 0xd0u8]
            ||| sel == seq![0xa0u8, 0x4bu8, 0x28u8, 0xecu8]
            ||| sel == seq![0xbfu8, 0xbdu8, 0x50u8, 0x41u8]
            ||| sel == seq![0xd7u8, 0xcfu8, 0xc5u8, 0x90u8]
            ||| sel == seq![0x11u8, 0x8cu8, 0xdau8, 0xa7u8]
            ||| sel == seq![0x1eu8, 0x4fu8, 0xbdu8, 0xf7u8]
        },
        custom_errors().len() == 17,
{
}

/// Every custom error of the contract decodes to its own name: a revert whose
/// data starts with the error's selector is reported under that name, whatever
/// bytes follow.
pub proof fn lemma_custom_errors_decode(i: int, data: Seq<u8>)
    requires
        0 <= i < custom_errors().len(),
        data.len() >= 4,
        data.take(4) == custom_errors()[i].0,
    ensures
        revert_name(data.take(4)) == Some(custom_errors()[i].1),
{
    let t = custom_errors();
    assert(t.len() == 17);
    if i == 0 { assert(data.take(4) == t[0].0); }
    else if i == 1 { assert(data.take(4) == t[1].0); }
    else if i == 2 { assert(data.take(4) == t[2].0); }
    else if i == 3 { assert(data.take(4) == t[3].0); }
    else if i == 4 { assert(data.take(4) == t[4].0); }
    else if i == 5 { assert(data.take(4) == t[5].0); }
    else if i == 6 { assert(data.take(4) == t[6].0); }
    else if i == 7 { assert(data.take(4) == t[7].0); }
    else if i == 8 { assert(data.take(4) == t[8].0); }
    else if i == 9 { assert(data.take(4) == t[9].0); }
    else if i == 10 { assert(data.take(4) == t[10].0); }
    else if i == 11 { assert(data.take(4) == t[11].0); }
    else if i == 12 { assert(data.take(4) == t[12].0); }
    else if i == 13 { assert(data.take(4) == t[13].0); }
    else if i == 14 { assert(data.take(4) == t[14].0); }
    else if i == 15 { assert(data.take(4) == t[15].0); }
    else { assert(data.take(4) == t[16].0); }
}

/// Only the custom errors of the contract decode to a name: a selector that
/// decodes belongs to exactly one entry of the table.
pub proof fn lemma_decoded_names_are_custom_errors(sel: Seq<u8>)
    requires
        revert_name(sel).is_some(),
    ensures
        exists|i: int|
            0 <= i < custom_errors().len() && #[trigger] custom_errors()[i].0 == sel
                && custom_errors()[i].1 == revert_name(sel).unwrap(),
{
    let t = custom_errors();
    if sel == t[0].0 { assert(t[0].1 == revert_name(sel).unwrap()); }
    else if sel == t[1].0 { assert(t[1].1 == revert_name(sel).unwrap()); }
    else if sel == t[2].0 { assert(t[2].1 == revert_name(sel).unwrap()); }
    else if sel == t[3].0 { assert(t[3].1 == revert_name(sel).unwrap()); }
    else if sel == t[4].0 { assert(t[4].1 == revert_name(sel).unwrap()); }
    else if sel == t[5].0 { assert(t[5].1 == revert_name(sel).unwrap()); }
    else if sel == t[6].0 { assert(t[6].1 == revert_name(sel).unwrap()); }
    else if sel == t[7].0 { assert(t[7].1 == revert_name(sel).unwrap()); }
    else if sel == t[8].0 { assert(t[8].1 == revert_name(sel).unwrap()); }
    else if sel == t[9].0 { assert(t[9].1 == revert_name(sel).unwrap()); }
    else if sel == t[10].0 { assert(t[10].1 == revert_name(sel).unwrap()); }
    else if sel == t[11].0 { assert(t[11].1 == revert_name(sel).unwrap()); }
    else if sel == t[12].0 { assert(t[12].1 == revert_name(sel).unwrap()); }
    else if sel == t[13].0 { assert(t[13].1 == revert_name(sel).unwrap()); }
    else if sel == t[14].0 { assert(t[14].1 == revert_name(sel).unwrap()); }
    else if sel == t[15].0 { assert(t[15].1 == revert_name(sel).unwrap()); }
    else { assert(sel == t[16].0); assert(t[16].1 == revert_name(sel).unwrap()); }
}

} // verus!

verus! {

/// Calls `Display` of `alloy::contract::Error`. Nothing is stated of the text.
#[verifier::external_body]
fn contract_error_text(e: &alloy::contract::Error) -> String {
    format!("{e}")
}

/// Calls `Display` of alloy's `RpcError<TransportErrorKind>`. Nothing is
/// stated of the text.
#[verifier::external_body]
fn transport_error_text(
    e: &alloy::transports::RpcError<alloy::transports::TransportErrorKind>,
) -> String {
    format!("{e}")
}

/// Calls `Display` of `alloy::providers::PendingTransactionError`. Nothing is
/// stated of the text.
#[verifier::external_body]
fn pending_error_text(e: &alloy::providers::PendingTransactionError) -> String {
    format!("{e}")
}

/// Calls `Display` of `serde_json::Error`. Nothing is stated of the text.
#[verifier::external_body]
fn json_error_text(e: &serde_json::Error) -> String {
    format!("{e}")
}

/// `prefix` followed by `rest`.
fn joined(prefix: &str, rest: &str) -> (r: String)
    ensures
        r@ == prefix@ + rest@,
{
    let mut s = prefix.to_owned();
    s.append(rest);
    s
}

impl SdkError {
    /// The error's message, as its `Display` prints it.
    pub fn to_string(&self) -> (r: String)
        ensures
            match self {
                SdkError::Contract(_) => "contract error: "@.is_prefix_of(r@),
                SdkError::Transport(_) => "transport error: "@.is_prefix_of(r@),
                SdkError::ContractNotConfigured => r@ == "contract not configured"@,
                SdkError::EventNotFound { context } => r@ == "event not found in receipt: "@
                    + context@,
                SdkError::PendingTransaction(_) => "pending transaction error: "@.is_prefix_of(
                    r@,
                ),
                SdkError::Json(_) => "json error: "@.is_prefix_of(r@),
                SdkError::InvalidJobStatus { status } => r@ == "invalid job status: "@ + decimal(
                    *status as nat,
                ),
                SdkError::UnknownChainId { chain_id } => r@ == "unknown chain ID: "@ + decimal(
                    *chain_id as nat,
                ),
            },
    {
        match self {
            SdkError::Contract(e) => joined("contract error: ", contract_error_text(e).as_str()),
            SdkError::Transport(e) => joined("transport error: ", transport_error_text(e).as_str()),
            SdkError::ContractNotConfigured => "contract not configured".to_owned(),
            SdkError::EventNotFound { context } => joined("event not found in receipt: ", context),
            SdkError::PendingTransaction(e) => joined(
                "pending transaction error: ",
                pending_error_text(e).as_str(),
            ),
            SdkError::Json(e) => joined("json error: ", json_error_text(e).as_str()),
            SdkError::InvalidJobStatus { status } => {
                let mut s = "invalid job status: ".to_owned();
                push_decimal(&mut s, *status as u64);
                s
            },
            SdkError::UnknownChainId { chain_id } => {
                let mut s = "unknown chain ID: ".to_owned();
                push_decimal(&mut s, *chain_id);
                s
            },
        }
    }
}

} // verus!
