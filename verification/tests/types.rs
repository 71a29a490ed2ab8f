use erc8183::error::SdkError;
use erc8183::types::{CreateJobParams, Job, RawJob, MAX_EXPIRY};
use erc8183::{Address, JobStatus, B256, U256};

const STATUS_TABLE: [(u8, JobStatus, &str, bool); 6] = [
    (0, JobStatus::Open, "Open", false),
    (1, JobStatus::Funded, "Funded", false),
    (2, JobStatus::Submitted, "Submitted", false),
    (3, JobStatus::Completed, "Completed", true),
    (4, JobStatus::Rejected, "Rejected", true),
    (5, JobStatus::Expired, "Expired", true),
];

#[test]
fn job_status_from_u8_roundtrip() {
    for &(raw, expected, _, _) in &STATUS_TABLE {
        let parsed = JobStatus::from_u8(raw).unwrap();
        assert_eq!(parsed, expected, "from_u8({raw})");
        assert_eq!(parsed as u8, raw, "{expected:?} repr");
    }
}

#[test]
fn job_status_from_u8_rejects_out_of_range() {
    for v in (u8::try_from(STATUS_TABLE.len()).unwrap())..=255 {
        assert!(
            JobStatus::from_u8(v).is_err(),
            "expected error for status {v}"
        );
    }
}

#[test]
fn job_status_is_terminal() {
    for &(_, variant, _, terminal) in &STATUS_TABLE {
        assert_eq!(variant.is_terminal(), terminal, "{variant:?}");
    }
}

#[test]
fn job_status_display() {
    for &(_, variant, label, _) in &STATUS_TABLE {
        assert_eq!(variant.to_string(), label, "{variant:?}");
    }
}

#[test]
fn create_job_params_new_sets_all_fields() {
    let provider = Address::repeat_byte(0x01);
    let evaluator = Address::repeat_byte(0x02);
    let expired_at = U256::from(1_700_000_000);
    let params = CreateJobParams::new(provider, evaluator, expired_at, "my job");
    assert_eq!(params.provider, provider);
    assert_eq!(params.evaluator, evaluator);
    assert_eq!(params.expired_at, expired_at);
    assert_eq!(params.description, "my job");
    assert_eq!(params.hook, Address::zero(), "hook should default to ZERO");
}

#[test]
fn create_job_params_with_hook() {
    let hook = Address::repeat_byte(0xAB);
    let params = CreateJobParams::new(Address::zero(), Address::zero(), U256::from(1000), "test")
        .with_hook(hook);
    assert_eq!(params.hook, hook);
}

#[test]
fn job_display_contains_all_fields() {
    let client = Address::repeat_byte(0x11);
    let provider = Address::repeat_byte(0x22);
    let job = Job {
        id: U256::from(42),
        client,
        provider,
        evaluator: Address::zero(),
        description: String::new(),
        budget: U256::from(100),
        expired_at: U256::zero(),
        status: JobStatus::Funded,
        hook: Address::zero(),
        deliverable: B256::zero(),
    };
    let s = job.to_string();
    assert!(s.contains("#42"), "missing job id: {s}");
    assert!(s.contains("[Funded]"), "missing status: {s}");
    assert!(s.contains("budget=100"), "missing budget: {s}");
    assert!(
        s.contains(&format!("client={}", client.to_string())),
        "missing client: {s}"
    );
    assert!(
        s.contains(&format!("provider={}", provider.to_string())),
        "missing provider: {s}"
    );
}

fn raw_job(status: u8) -> RawJob {
    RawJob {
        id: U256::from(7),
        client: Address::repeat_byte(0x11),
        provider: Address::repeat_byte(0x22),
        evaluator: Address::repeat_byte(0x33),
        description: "write docs".to_string(),
        budget: U256::from(5_000),
        expired_at: U256::from(1_900_000_000),
        status,
        hook: Address::zero(),
        deliverable: B256([0xAB; 32]),
    }
}

#[test]
fn job_from_raw_copies_fields_and_decodes_status() {
    let job = Job::from_raw(raw_job(2)).unwrap();
    assert_eq!(job.id, U256::from(7));
    assert_eq!(job.client, Address::repeat_byte(0x11));
    assert_eq!(job.provider, Address::repeat_byte(0x22));
    assert_eq!(job.evaluator, Address::repeat_byte(0x33));
    assert_eq!(job.description, "write docs");
    assert_eq!(job.budget, U256::from(5_000));
    assert_eq!(job.expired_at, U256::from(1_900_000_000));
    assert_eq!(job.status, JobStatus::Submitted);
    assert_eq!(job.hook, Address::zero());
    assert_eq!(job.deliverable, B256([0xAB; 32]));
}

#[test]
fn job_from_raw_rejects_invalid_status() {
    match Job::from_raw(raw_job(6)) {
        Err(SdkError::InvalidJobStatus { status }) => assert_eq!(status, 6),
        other => panic!("unexpected: {other:?}"),
    }
}

#[test]
fn job_status_codes() {
    for &(raw, variant, _, _) in &STATUS_TABLE {
        assert_eq!(variant.as_u8(), raw);
    }
    match JobStatus::from_u8(200) {
        Err(SdkError::InvalidJobStatus { status }) => assert_eq!(status, 200),
        other => panic!("unexpected: {other:?}"),
    }
}

#[test]
fn job_display_exact_text() {
    let job = Job {
        id: U256::from(1),
        client: Address::zero(),
        provider: Address::zero(),
        evaluator: Address::zero(),
        description: String::new(),
        budget: U256::zero(),
        expired_at: U256::zero(),
        status: JobStatus::Open,
        hook: Address::zero(),
        deliverable: B256::zero(),
    };
    assert_eq!(
        job.to_string(),
        "Job #1 [Open] budget=0 client=0x0000000000000000000000000000000000000000 \
         provider=0x0000000000000000000000000000000000000000"
    );
}

#[test]
fn max_expiry_is_uint48_max() {
    assert_eq!(MAX_EXPIRY, (1u64 << 48) - 1);
}
