use erc8183::error::SdkError;
use erc8183::Network;

#[test]
fn try_from_valid_chain_id() {
    let net = Network::try_from(143).unwrap();
    assert_eq!(net, Network::MonadMainnet);
}

#[test]
fn try_from_invalid_chain_id() {
    assert!(Network::try_from(999).is_err());
}

#[test]
fn all_roundtrips_via_try_from() {
    for net in Network::ALL {
        let resolved = Network::try_from(net.chain_id()).unwrap();
        assert_eq!(*net, resolved);
    }
}

#[test]
fn monad_mainnet_properties() {
    let net = Network::MonadMainnet;
    assert_eq!(net.chain_id(), 143);
    assert!(!net.address().is_zero());
    assert!(net.rpc_url().starts_with("https://"));
    assert!(net.explorer_base_url().starts_with("https://"));
}

#[test]
fn explorer_url_contains_address() {
    let net = Network::MonadMainnet;
    let addr = net.address();
    let url = net.explorer_url(addr);
    assert!(url.starts_with(net.explorer_base_url()));
    assert!(
        url.contains(&addr.to_string()),
        "URL should embed the address: {url}"
    );
}

#[test]
fn display() {
    assert_eq!(Network::MonadMainnet.to_string(), "Monad Mainnet");
}

#[test]
fn unknown_chain_id_error_carries_the_id() {
    match Network::try_from(999) {
        Err(SdkError::UnknownChainId { chain_id }) => assert_eq!(chain_id, 999),
        other => panic!("unexpected: {other:?}"),
    }
}

#[test]
fn monad_mainnet_exact_values() {
    let net = Network::MonadMainnet;
    assert_eq!(net.rpc_url(), "https://rpc.monad.xyz");
    assert_eq!(net.explorer_base_url(), "https://monad.socialscan.io");
    assert_eq!(
        net.address().to_string(),
        "0xE8c4FFb4A6F7B8040a7AE39F6651290E06A40725"
    );
    assert_eq!(
        net.explorer_url(net.address()),
        "https://monad.socialscan.io/address/0xE8c4FFb4A6F7B8040a7AE39F6651290E06A40725"
    );
}
