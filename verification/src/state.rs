//! The mathematical model of the escrow: a view of the whole system (every
//! job record together with every account balance) and one transition
//! function per operation. The executable manager refines these transitions
//! exactly, and the laws about the protocol are proved over them.

use vstd::prelude::*;
use crate::errors::EscrowError;
use crate::job::JobStatus;

verus! {

/// The mathematical content of one job record.
#[verifier::ext_equal]
pub ghost struct JobView {
    pub id: Seq<char>,
    pub title: Seq<char>,
    pub pay: u64,
    pub employer: u64,
    pub worker: u64,
    pub worker_approved: bool,
    pub employer_approved: bool,
    pub status: JobStatus,
    pub escrow_account: u64,
}

/// The whole system: the job records in creation order, and the balance of
/// every account that has ever held funds.
#[verifier::ext_equal]
pub ghost struct StateView {
    pub jobs: Seq<JobView>,
    pub accounts: Map<u64, u64>,
}

impl StateView {
    /// The balance of an account; an account never funded holds nothing.
    pub open spec fn bal(self, account: u64) -> u64 {
        if self.accounts.contains_key(account) {
            self.accounts[account]
        } else {
            0
        }
    }

    /// Whether some job carries this id.
    pub open spec fn has_job(self, id: Seq<char>) -> bool {
        exists|i: int| 0 <= i < self.jobs.len() && (#[trigger] self.jobs[i]).id == id
    }

    /// The position of the job with this id (unique under `wf`).
    pub open spec fn job_index(self, id: Seq<char>) -> int {
        choose|i: int| 0 <= i < self.jobs.len() && (#[trigger] self.jobs[i]).id == id
    }

    /// The job with this id.
    pub open spec fn job(self, id: Seq<char>) -> JobView {
        self.jobs[self.job_index(id)]
    }

    /// Whether the account is the employer or the worker of some job.
    pub open spec fn is_party_account(self, account: u64) -> bool {
        exists|i: int|
            0 <= i < self.jobs.len() && ((#[trigger] self.jobs[i]).employer == account
                || self.jobs[i].worker == account)
    }

    /// Whether the account is the custody account of some job.
    pub open spec fn is_custody_account(self, account: u64) -> bool {
        exists|i: int| 0 <= i < self.jobs.len() && (#[trigger] self.jobs[i]).escrow_account == account
    }

    /// Well-formedness of the system: job ids and custody accounts are
    /// unique, custody accounts belong to no party, every custody account
    /// holds exactly what its job demands, and a job is completed exactly
    /// when both parties have approved it.
    pub open spec fn wf(self) -> bool {
        &&& forall|i: int, j: int|
            #![trigger self.jobs[i], self.jobs[j]]
            0 <= i < j < self.jobs.len() ==> self.jobs[i].id != self.jobs[j].id
        &&& forall|i: int, j: int|
            #![trigger self.jobs[i], self.jobs[j]]
            0 <= i < j < self.jobs.len() ==> self.jobs[i].escrow_account
                != self.jobs[j].escrow_account
        &&& forall|i: int, j: int|
            #![trigger self.jobs[i], self.jobs[j]]
            0 <= i < self.jobs.len() && 0 <= j < self.jobs.len() ==> self.jobs[i].escrow_account
                != self.jobs[j].employer && self.jobs[i].escrow_account != self.jobs[j].worker
        &&& forall|i: int|
            0 <= i < self.jobs.len() ==> self.bal((#[trigger] self.jobs[i]).escrow_account)
                == custody_expected(self.jobs[i])
        &&& forall|i: int|
            0 <= i < self.jobs.len() ==> (((#[trigger] self.jobs[i]).worker_approved
                && self.jobs[i].employer_approved) <==> self.jobs[i].status
                == JobStatus::Completed)
    }
}

/// What the custody account of a job must hold: the full pay until the one
/// release, nothing after it.
pub open spec fn custody_expected(j: JobView) -> u64 {
    if j.status == JobStatus::Completed {
        0
    } else {
        j.pay
    }
}

/// The funds held in custody for the job with this id.
pub open spec fn custody_balance_of(s: StateView, id: Seq<char>) -> u64 {
    s.bal(s.job(id).escrow_account)
}

/// A new job record, provided both parties have co-signed the creation.
pub open spec fn create_job_record(
    job_id: Seq<char>,
    title: Seq<char>,
    pay: u64,
    employer: u64,
    worker: u64,
    escrow_account: u64,
    employer_signed: bool,
    worker_signed: bool,
) -> Result<JobView, EscrowError> {
    if !employer_signed || !worker_signed {
        Err(EscrowError::Authorization)
    } else {
        Ok(
            JobView {
                id: job_id,
                title: title,
                pay: pay,
                employer: employer,
                worker: worker,
                worker_approved: false,
                employer_approved: false,
                status: JobStatus::Pending,
                escrow_account: escrow_account,
            },
        )
    }
}

/// The worker's approval of a single job: only the worker may give it, only
/// while the job is pending; the second of the two approvals asks for the
/// release of the custody funds.
pub open spec fn approve_worker_record(j: JobView, caller: u64) -> Result<
    (JobView, bool),
    EscrowError,
> {
    if caller != j.worker {
        Err(EscrowError::Authorization)
    } else if j.status != JobStatus::Pending {
        Err(EscrowError::InvalidState)
    } else {
        let release = j.employer_approved;
        Ok(
            (
                JobView {
                    worker_approved: true,
                    status: if release {
                        JobStatus::Completed
                    } else {
                        JobStatus::Pending
                    },
                    ..j
                },
                release,
            ),
        )
    }
}

/// The employer's approval of a single job, symmetric to the worker's.
pub open spec fn approve_employer_record(j: JobView, caller: u64) -> Result<
    (JobView, bool),
    EscrowError,
> {
    if caller != j.employer {
        Err(EscrowError::Authorization)
    } else if j.status != JobStatus::Pending {
        Err(EscrowError::InvalidState)
    } else {
        let release = j.worker_approved;
        Ok(
            (
                JobView {
                    employer_approved: true,
                    status: if release {
                        JobStatus::Completed
                    } else {
                        JobStatus::Pending
                    },
                    ..j
                },
                release,
            ),
        )
    }
}

/// A party's rejection of a single job: only a party may reject, only while
/// the job is pending. The custody funds do not move.
pub open spec fn reject_record(j: JobView, caller: u64) -> Result<JobView, EscrowError> {
    if caller != j.employer && caller != j.worker {
        Err(EscrowError::Authorization)
    } else if j.status != JobStatus::Pending {
        Err(EscrowError::InvalidState)
    } else {
        Ok(JobView { status: JobStatus::Rejected, ..j })
    }
}

/// Whether the requested custody account would collide with an account the
/// escrow already depends on: a custody account must be fresh, and neither
/// party of the new job may be a custody account of an earlier one.
pub open spec fn custody_conflict(
    s: StateView,
    employer: u64,
    worker: u64,
    escrow_account: u64,
) -> bool {
    ||| escrow_account == employer
    ||| escrow_account == worker
    ||| s.is_party_account(escrow_account)
    ||| s.is_custody_account(escrow_account)
    ||| s.is_custody_account(employer)
    ||| s.is_custody_account(worker)
}

/// Creation: with both co-signatures, a fresh id and a fresh custody
/// account, the record is allocated and the pay moves from the employer to
/// custody; both happen, or neither does.
pub open spec fn create_step(
    s: StateView,
    job_id: Seq<char>,
    title: Seq<char>,
    pay: u64,
    employer: u64,
    worker: u64,
    escrow_account: u64,
    signers: Seq<u64>,
) -> (StateView, Result<(), EscrowError>) {
    match create_job_record(
        job_id,
        title,
        pay,
        employer,
        worker,
        escrow_account,
        signers.contains(employer),
        signers.contains(worker),
    ) {
        Err(e) => (s, Err(e)),
        Ok(j) => if s.has_job(job_id) {
            (s, Err(EscrowError::Duplicate))
        } else if custody_conflict(s, employer, worker, escrow_account) || s.bal(escrow_account)
            != 0 {
            (s, Err(EscrowError::Duplicate))
        } else if s.bal(employer) < pay {
            (s, Err(EscrowError::InsufficientFunds))
        } else {
            (
                StateView {
                    jobs: s.jobs.push(j),
                    accounts: s.accounts.insert(employer, (s.bal(employer) - pay) as u64).insert(
                        escrow_account,
                        pay,
                    ),
                },
                Ok(()),
            )
        },
    }
}

/// The release of the custody funds to the worker, shared by the two
/// approval transitions. The transfer aborts the whole approval if custody
/// is underfunded or the worker's balance cannot take the pay.
pub open spec fn release_step(s: StateView, i: int, j2: JobView) -> (
    StateView,
    Result<(), EscrowError>,
) {
    let j = s.jobs[i];
    if s.bal(j.escrow_account) < j.pay {
        (s, Err(EscrowError::InsufficientFunds))
    } else if s.bal(j.worker) + j.pay > u64::MAX {
        (s, Err(EscrowError::Overflow))
    } else {
        (
            StateView {
                jobs: s.jobs.update(i, j2),
                accounts: s.accounts.insert(
                    j.escrow_account,
                    (s.bal(j.escrow_account) - j.pay) as u64,
                ).insert(j.worker, (s.bal(j.worker) + j.pay) as u64),
            },
            Ok(()),
        )
    }
}

/// The worker-approval transition on the whole system.
pub open spec fn approve_worker_step(s: StateView, job_id: Seq<char>, caller: u64) -> (
    StateView,
    Result<(), EscrowError>,
) {
    if !s.has_job(job_id) {
        (s, Err(EscrowError::NotFound))
    } else {
        let i = s.job_index(job_id);
        match approve_worker_record(s.jobs[i], caller) {
            Err(e) => (s, Err(e)),
            Ok((j2, release)) => if release {
                release_step(s, i, j2)
            } else {
                (StateView { jobs: s.jobs.update(i, j2), ..s }, Ok(()))
            },
        }
    }
}

/// The employer-approval transition on the whole system.
pub open spec fn approve_employer_step(s: StateView, job_id: Seq<char>, caller: u64) -> (
    StateView,
    Result<(), EscrowError>,
) {
    if !s.has_job(job_id) {
        (s, Err(EscrowError::NotFound))
    } else {
        let i = s.job_index(job_id);
        match approve_employer_record(s.jobs[i], caller) {
            Err(e) => (s, Err(e)),
            Ok((j2, release)) => if release {
                release_step(s, i, j2)
            } else {
                (StateView { jobs: s.jobs.update(i, j2), ..s }, Ok(()))
            },
        }
    }
}

/// The rejection transition on the whole system: the record turns terminal
/// and no funds move.
pub open spec fn reject_step(s: StateView, job_id: Seq<char>, caller: u64) -> (
    StateView,
    Result<(), EscrowError>,
) {
    if !s.has_job(job_id) {
        (s, Err(EscrowError::NotFound))
    } else {
        let i = s.job_index(job_id);
        match reject_record(s.jobs[i], caller) {
            Err(e) => (s, Err(e)),
            Ok(j2) => (StateView { jobs: s.jobs.update(i, j2), ..s }, Ok(())),
        }
    }
}

/// Funding an account from outside the escrow. Custody accounts belong to
/// the escrow logic and cannot be funded.
pub open spec fn fund_step(s: StateView, account: u64, amount: u64) -> (
    StateView,
    Result<(), EscrowError>,
) {
    if s.is_custody_account(account) {
        (s, Err(EscrowError::Authorization))
    } else if s.bal(account) + amount > u64::MAX {
        (s, Err(EscrowError::Overflow))
    } else {
        (
            StateView {
                accounts: s.accounts.insert(account, (s.bal(account) + amount) as u64),
                ..s
            },
            Ok(()),
        )
    }
}

/// One operation of the escrow manager, with its arguments.
pub ghost enum Op {
    CreateJob {
        job_id: Seq<char>,
        title: Seq<char>,
        pay: u64,
        employer: u64,
        worker: u64,
        escrow_account: u64,
        signers: Seq<u64>,
    },
    ApproveJobWorker { job_id: Seq<char>, caller: u64 },
    ApproveJobEmployer { job_id: Seq<char>, caller: u64 },
    RejectJob { job_id: Seq<char>, caller: u64 },
    Fund { account: u64, amount: u64 },
}

/// The transition taken by one operation: the next system state, and the
/// result handed to the caller. An operation that fails leaves the state
/// exactly as it was.
pub open spec fn step(s: StateView, op: Op) -> (StateView, Result<(), EscrowError>) {
    match op {
        Op::CreateJob { job_id, title, pay, employer, worker, escrow_account, signers } =>
            create_step(s, job_id, title, pay, employer, worker, escrow_account, signers),
        Op::ApproveJobWorker { job_id, caller } => approve_worker_step(s, job_id, caller),
        Op::ApproveJobEmployer { job_id, caller } => approve_employer_step(s, job_id, caller),
        Op::RejectJob { job_id, caller } => reject_step(s, job_id, caller),
        Op::Fund { account, amount } => fund_step(s, account, amount),
    }
}

/// The job position determined by a first-match search agrees with
/// `job_index` whenever ids are unique.
pub proof fn lemma_job_index_agrees(s: StateView, id: Seq<char>, i: int)
    requires
        forall|p: int, q: int|
            #![trigger s.jobs[p], s.jobs[q]]
            0 <= p < q < s.jobs.len() ==> s.jobs[p].id != s.jobs[q].id,
        0 <= i < s.jobs.len(),
        s.jobs[i].id == id,
    ensures
        s.has_job(id),
        s.job_index(id) == i,
        s.job(id) == s.jobs[i],
{
    assert(s.has_job(id));
    let k = s.job_index(id);
    if k < i {
        assert(s.jobs[k].id != s.jobs[i].id);
    } else if k > i {
        assert(s.jobs[i].id != s.jobs[k].id);
    }
}

} // verus!
