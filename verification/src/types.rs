//! Core domain types of the Agentic Commerce Protocol.

use vstd::prelude::*;

use crate::error::SdkError;
use crate::primitives::{decimal, eip55_text, lemma_limbs_value_positional, Address, B256, U256};
use vstd::arithmetic::power::pow;

verus! {

/// Maximum value for `expiredAt`; the on-chain field is `uint48`.
pub const MAX_EXPIRY: u64 = 0xFFFF_FFFF_FFFFu64;

/// `MAX_EXPIRY` is the largest value of the contract's `uint48` `expiredAt`
/// field: every bit of the low 48 is set and no other.
pub proof fn lemma_max_expiry_is_uint48_max()
    ensures
        MAX_EXPIRY == ((1u64 << 48u64) - 1) as u64,
        MAX_EXPIRY >> 48u64 == 0,
{
    assert(((1u64 << 48u64) - 1) as u64 == 0xFFFF_FFFF_FFFFu64) by (bit_vector);
    assert(0xFFFF_FFFF_FFFFu64 >> 48u64 == 0) by (bit_vector);
}

/// The six possible states of a job in the Agentic Commerce Protocol.
///
/// State transitions follow:
/// `Open → Funded → Submitted → Completed | Rejected | Expired`
#[derive(Debug, Clone, Copy, PartialEq, Eq, Hash, Structural)]
pub enum JobStatus {
    /// Created; budget not yet set or not yet funded.
    Open,
    /// Budget escrowed. Provider may submit work.
    Funded,
    /// Provider has submitted work. Evaluator may complete or reject.
    Submitted,
    /// Terminal. Escrow released to provider (minus optional platform fee).
    Completed,
    /// Terminal. Escrow refunded to client.
    Rejected,
    /// Terminal. Same as Rejected; escrow refunded after expiry.
    Expired,
}

/// The on-chain `uint8` encoding of a status.
pub open spec fn status_code(s: JobStatus) -> u8 {
    match s {
        JobStatus::Open => 0,
        JobStatus::Funded => 1,
        JobStatus::Submitted => 2,
        JobStatus::Completed => 3,
        JobStatus::Rejected => 4,
        JobStatus::Expired => 5,
    }
}

/// The status whose on-chain encoding is `value`, if there is one.
pub open spec fn status_of_code(value: u8) -> Option<JobStatus> {
    if value == 0 {
        Some(JobStatus::Open)
    } else if value == 1 {
        Some(JobStatus::Funded)
    } else if value == 2 {
        Some(JobStatus::Submitted)
    } else if value == 3 {
        Some(JobStatus::Completed)
    } else if value == 4 {
        Some(JobStatus::Rejected)
    } else if value == 5 {
        Some(JobStatus::Expired)
    } else {
        None
    }
}

/// The name a status is displayed under.
pub open spec fn status_label(s: JobStatus) -> Seq<char> {
    match s {
        JobStatus::Open => "Open"@,
        JobStatus::Funded => "Funded"@,
        JobStatus::Submitted => "Submitted"@,
        JobStatus::Completed => "Completed"@,
        JobStatus::Rejected => "Rejected"@,
        JobStatus::Expired => "Expired"@,
    }
}

/// What `from_u8` returns for `value`: the status it encodes, or the
/// invalid-status error carrying the raw value.
pub open spec fn parsed_status(r: Result<JobStatus, SdkError>, value: u8) -> bool {
    match status_of_code(value) {
        Some(s) => r == Ok::<JobStatus, SdkError>(s),
        None => r matches Err(SdkError::InvalidJobStatus { status }) && status == value,
    }
}

/// Decoding inverts encoding: every status decodes from its own code, and a
/// code that decodes is the code of the status it decodes to. Exactly the
/// codes below six decode.
pub proof fn lemma_status_code_roundtrip(s: JobStatus, value: u8)
    ensures
        status_of_code(status_code(s)) == Some(s),
        status_of_code(value) matches Some(t) ==> status_code(t) == value,
        status_of_code(value).is_some() <==> value < 6,
{
}

/// The on-chain encoding follows the protocol's order of states: Open is 0,
/// Funded 1, Submitted 2, Completed 3, Rejected 4, Expired 5.
pub proof fn lemma_status_code_table()
    ensures
        status_code(JobStatus::Open) == 0,
        status_code(JobStatus::Funded) == 1,
        status_code(JobStatus::Submitted) == 2,
        status_code(JobStatus::Completed) == 3,
        status_code(JobStatus::Rejected) == 4,
        status_code(JobStatus::Expired) == 5,
{
}

/// What `from_u8` may return: for a code below six, the status with that
/// code; for any other, the invalid-status error carrying the code itself.
pub proof fn lemma_parsed_status_exact(r: Result<JobStatus, SdkError>, value: u8)
    requires
        parsed_status(r, value),
    ensures
        value < 6 ==> (r matches Ok(s) && status_code(s) == value),
        value >= 6 ==> (r matches Err(SdkError::InvalidJobStatus { status }) && status == value),
{
}

impl JobStatus {
    /// Parse a raw `u8` status value from the contract into a [`JobStatus`].
    ///
    /// Returns [`SdkError::InvalidJobStatus`] if the value is out of range.
    pub fn from_u8(value: u8) -> (r: Result<JobStatus, SdkError>)
        ensures
            parsed_status(r, value),
    {
        match value {
            0 => Ok(JobStatus::Open),
            1 => Ok(JobStatus::Funded),
            2 => Ok(JobStatus::Submitted),
            3 => Ok(JobStatus::Completed),
            4 => Ok(JobStatus::Rejected),
            5 => Ok(JobStatus::Expired),
            _ => Err(SdkError::InvalidJobStatus { status: value }),
        }
    }

    /// The status's on-chain `uint8` encoding.
    pub fn as_u8(self) -> (r: u8)
        ensures
            r == status_code(self),
    {
        match self {
            JobStatus::Open => 0,
            JobStatus::Funded => 1,
            JobStatus::Submitted => 2,
            JobStatus::Completed => 3,
            JobStatus::Rejected => 4,
            JobStatus::Expired => 5,
        }
    }

    /// The name of the status, as its `Display` prints it.
    pub fn to_string(&self) -> (r: String)
        ensures
            r@ == status_label(*self),
    {
        let s = match self {
            JobStatus::Open => "Open",
            JobStatus::Funded => "Funded",
            JobStatus::Submitted => "Submitted",
            JobStatus::Completed => "Completed",
            JobStatus::Rejected => "Rejected",
            JobStatus::Expired => "Expired",
        };
        s.to_owned()
    }

    /// Returns `true` if the job has reached a terminal state.
    pub fn is_terminal(self) -> (r: bool)
        ensures
            r <==> (self == JobStatus::Completed || self == JobStatus::Rejected
                || self == JobStatus::Expired),
    {
        match self {
            JobStatus::Completed | JobStatus::Rejected | JobStatus::Expired => true,
            _ => false,
        }
    }
}

/// A fully resolved job as returned by `getJob`.
#[derive(Debug, Clone)]
pub struct Job {
    /// The on-chain job identifier.
    pub id: U256,
    /// The address that created and funded the job.
    pub client: Address,
    /// The address that performs the work. May be the zero address if not yet assigned.
    pub provider: Address,
    /// The address that attests completion or rejection.
    pub evaluator: Address,
    /// Human-readable job description (e.g. brief, scope reference).
    pub description: String,
    /// The escrowed budget amount in payment token units.
    pub budget: U256,
    /// Unix timestamp after which anyone may trigger a refund.
    pub expired_at: U256,
    /// Current job status.
    pub status: JobStatus,
    /// Optional hook contract address. The zero address means no hook.
    pub hook: Address,
    /// Deliverable reference submitted by the provider (e.g. IPFS CID hash).
    /// All zero if not yet submitted.
    pub deliverable: B256,
}

/// The job record exactly as the contract's `getJob` returns it, with the
/// status still in its raw `uint8` encoding.
#[derive(Debug, Clone)]
pub struct RawJob {
    /// The on-chain job identifier.
    pub id: U256,
    /// The client address.
    pub client: Address,
    /// The provider address.
    pub provider: Address,
    /// The evaluator address.
    pub evaluator: Address,
    /// The job description.
    pub description: String,
    /// The escrowed budget.
    pub budget: U256,
    /// The expiry timestamp.
    pub expired_at: U256,
    /// The raw status code.
    pub status: u8,
    /// The hook address.
    pub hook: Address,
    /// The deliverable reference.
    pub deliverable: B256,
}

/// The text of a job, as its `Display` prints it.
pub open spec fn job_text(job: Job) -> Seq<char> {
    "Job #"@ + decimal(job.id.value()) + " ["@ + status_label(job.status) + "] budget="@
        + decimal(job.budget.value()) + " client="@ + eip55_text(job.client.0@) + " provider="@
        + eip55_text(job.provider.0@)
}

/// The job's text is assembled from its fields' own texts, in order: the id
/// and the budget in full 256-bit decimal (every limb weighed by its
/// position), the status under its own label, and the client and provider
/// as their checksummed addresses.
pub proof fn lemma_job_text_from_fields(job: Job)
    ensures
        job_text(job) == "Job #"@ + decimal(
            (job.id.limbs@[0] + job.id.limbs@[1] * pow(256, 8) + job.id.limbs@[2] * pow(256, 16)
                + job.id.limbs@[3] * pow(256, 24)) as nat,
        ) + " ["@ + status_label(job.status) + "] budget="@ + decimal(
            (job.budget.limbs@[0] + job.budget.limbs@[1] * pow(256, 8) + job.budget.limbs@[2]
                * pow(256, 16) + job.budget.limbs@[3] * pow(256, 24)) as nat,
        ) + " client="@ + eip55_text(job.client.0@) + " provider="@ + eip55_text(job.provider.0@),
{
    lemma_limbs_value_positional(job.id.limbs@);
    lemma_limbs_value_positional(job.budget.limbs@);
}

/// Each status is displayed under its own name.
pub proof fn lemma_status_labels()
    ensures
        status_label(JobStatus::Open) == "Open"@,
        status_label(JobStatus::Funded) == "Funded"@,
        status_label(JobStatus::Submitted) == "Submitted"@,
        status_label(JobStatus::Completed) == "Completed"@,
        status_label(JobStatus::Rejected) == "Rejected"@,
        status_label(JobStatus::Expired) == "Expired"@,
{
}

impl Job {
    /// Resolve a raw `getJob` record: every field is carried over and the
    /// status code is decoded.
    ///
    /// Returns [`SdkError::InvalidJobStatus`] if the status code is out of range.
    pub fn from_raw(raw: RawJob) -> (r: Result<Job, SdkError>)
        ensures
            match status_of_code(raw.status) {
                Some(status) => r matches Ok(job) && job.id == raw.id && job.client == raw.client
                    && job.provider == raw.provider && job.evaluator == raw.evaluator
                    && job.description@ == raw.description@ && job.budget == raw.budget
                    && job.expired_at == raw.expired_at && job.status == status && job.hook
                    == raw.hook && job.deliverable == raw.deliverable,
                None => r matches Err(SdkError::InvalidJobStatus { status }) && status
                    == raw.status,
            },
    {
        let status = match JobStatus::from_u8(raw.status) {
            Ok(s) => s,
            Err(e) => return Err(e),
        };
        Ok(Job {
            id: raw.id,
            client: raw.client,
            provider: raw.provider,
            evaluator: raw.evaluator,
            description: raw.description,
            budget: raw.budget,
            expired_at: raw.expired_at,
            status,
            hook: raw.hook,
            deliverable: raw.deliverable,
        })
    }

    /// The job's one-line summary, as its `Display` prints it:
    /// `Job #<id> [<status>] budget=<budget> client=<client> provider=<provider>`.
    pub fn to_string(&self) -> (r: String)
        ensures
            r@ == job_text(*self),
    {
        let mut s = "Job #".to_owned();
        s.append(self.id.to_string().as_str());
        s.append(" [");
        s.append(self.status.to_string().as_str());
        s.append("] budget=");
        s.append(self.budget.to_string().as_str());
        s.append(" client=");
        s.append(self.client.to_string().as_str());
        s.append(" provider=");
        s.append(self.provider.to_string().as_str());
        s
    }
}

/// Parameters for creating a new job.
#[derive(Debug, Clone)]
#[non_exhaustive]
pub struct CreateJobParams {
    /// Provider address. Use the zero address for deferred provider assignment.
    pub provider: Address,
    /// Evaluator address. Must be non-zero.
    pub evaluator: Address,
    /// Unix timestamp for job expiry.
    pub expired_at: U256,
    /// Job description string.
    pub description: String,
    /// Optional hook contract address. Defaults to the zero address (no hook).
    pub hook: Address,
}

impl CreateJobParams {
    /// Create new job parameters with the required fields.
    ///
    /// `provider` may be the zero address for deferred assignment; `hook`
    /// defaults to the zero address (no hook).
    pub fn new(provider: Address, evaluator: Address, expired_at: U256, description: &str) -> (r:
        CreateJobParams)
        ensures
            r.provider == provider,
            r.evaluator == evaluator,
            r.expired_at == expired_at,
            r.description@ == description@,
            r.hook.0@ == Seq::new(20, |_i: int| 0u8),
    {
        CreateJobParams {
            provider,
            evaluator,
            expired_at,
            description: description.to_owned(),
            hook: Address::zero(),
        }
    }

    /// Set the hook contract address; every other field is kept.
    pub fn with_hook(self, hook: Address) -> (r: CreateJobParams)
        ensures
            r.hook == hook,
            r.provider == self.provider,
            r.evaluator == self.evaluator,
            r.expired_at == self.expired_at,
            r.description == self.description,
    {
        let mut p = self;
        p.hook = hook;
        p
    }
}

} // verus!
