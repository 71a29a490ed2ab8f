use erc8183::error::SdkError;
use alloy::primitives::keccak256;
use erc8183::job::{decode_job_created, parse_job_id, EventLog};
use erc8183::{Address, Erc8183, Network, U256};

#[test]
fn unconfigured_client_has_no_job_handle() {
    let client = Erc8183::new(7u32);
    assert_eq!(client.contract_address(), None);
    assert!(matches!(client.job(), Err(SdkError::ContractNotConfigured)));
}

#[test]
fn with_address_configures_job_handle() {
    let addr = Address::repeat_byte(0x42);
    let client = Erc8183::new(7u32).with_address(addr);
    assert_eq!(client.contract_address(), Some(addr));
    let handle = client.job().unwrap();
    assert_eq!(handle.contract_address(), addr);
    assert_eq!(**handle.provider(), 7u32);
    assert_eq!(*client.provider(), 7u32);
    assert_eq!(client.into_provider(), 7u32);
}

#[test]
fn with_network_uses_deployment_address() {
    let client = Erc8183::new("rpc").with_network(Network::MonadMainnet);
    assert_eq!(
        client.contract_address(),
        Some(Network::MonadMainnet.address())
    );
    assert_eq!(
        client.job().unwrap().contract_address(),
        Network::MonadMainnet.address()
    );
}

fn job_created_log(job_id: u64) -> EventLog {
    let sig = keccak256("JobCreated(uint256,address,address,address,uint256,address)".as_bytes());
    let mut id = [0u8; 32];
    id[24..].copy_from_slice(&job_id.to_be_bytes());
    EventLog {
        topics: vec![sig.0, id, [0x11; 32], [0x22; 32]],
        data: vec![0u8; 96],
    }
}

#[test]
fn parse_job_id_takes_first_job_created() {
    let other = EventLog { topics: vec![[7u8; 32]], data: vec![] };
    let logs = vec![other, job_created_log(5), job_created_log(9)];
    assert_eq!(parse_job_id(&logs).unwrap(), U256::from(5));
}

#[test]
fn parse_job_id_reports_missing_event() {
    let mut short = job_created_log(3);
    short.data.truncate(95);
    let mut extra_topic = job_created_log(4);
    extra_topic.topics.push([0u8; 32]);
    let mut wrong_sig = job_created_log(6);
    wrong_sig.topics[0][31] ^= 1;
    let logs = vec![short, extra_topic, wrong_sig];
    match parse_job_id(&logs) {
        Err(SdkError::EventNotFound { context }) => {
            assert_eq!(context, "JobCreated event not found in createJob receipt")
        }
        other => panic!("unexpected: {other:?}"),
    }
    assert!(parse_job_id(&[]).is_err());
}

#[test]
fn decode_job_created_reads_big_endian_id() {
    let mut log = job_created_log(0);
    log.topics[1] = [0u8; 32];
    log.topics[1][0] = 1;
    log.topics[1][31] = 2;
    let id = decode_job_created(&log).unwrap();
    assert_eq!(id, U256 { limbs: [2, 0, 0, 1u64 << 56] });
    log.data.extend_from_slice(&[9u8; 40]);
    assert!(decode_job_created(&log).is_some());
}

#[test]
fn u256_from_be_bytes_matches_alloy() {
    let mut bytes = [0u8; 32];
    for (i, b) in bytes.iter_mut().enumerate() {
        *b = (i as u8).wrapping_mul(37).wrapping_add(5);
    }
    let ours = U256::from_be_bytes(bytes);
    let theirs = alloy::primitives::U256::from_be_bytes(bytes);
    assert_eq!(ours.limbs, *theirs.as_limbs());
    assert_eq!(ours.to_string(), theirs.to_string());
}
