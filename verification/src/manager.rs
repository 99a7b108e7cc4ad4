//! The escrow job manager: the executable state machine over the job
//! records and the account balances. Every operation refines the
//! corresponding transition of `state` exactly: it performs the transition
//! on success and changes nothing on failure.

use std::collections::HashMap;
use vstd::prelude::*;
use crate::errors::EscrowError;
use crate::job::Job;
use crate::job::JobStatus;
use crate::laws::lemma_approve_employer_preserves_wf;
use crate::laws::lemma_approve_worker_preserves_wf;
use crate::laws::lemma_create_preserves_wf;
use crate::laws::lemma_fund_preserves_wf;
use crate::laws::lemma_reject_preserves_wf;
use crate::state::JobView;
use crate::state::StateView;
use crate::state::approve_employer_step;
use crate::state::approve_worker_step;
use crate::state::create_step;
use crate::state::custody_balance_of;
use crate::state::fund_step;
use crate::state::lemma_job_index_agrees;
use crate::state::reject_step;

verus! {

broadcast use vstd::std_specs::hash::group_hash_axioms;

/// The escrow job manager: all job records in creation order, and the
/// balance of every account, custody accounts included.
pub struct EscrowManager {
    jobs: Vec<Job>,
    accounts: HashMap<u64, u64>,
}

impl View for EscrowManager {
    type V = StateView;

    closed spec fn view(&self) -> StateView {
        StateView { jobs: self.jobs@.map_values(|j: Job| j@), accounts: self.accounts@ }
    }
}

impl EscrowManager {
    /// The manager's invariant: the system it holds is well-formed.
    pub open spec fn wf(self) -> bool {
        self@.wf()
    }

    /// A manager with no jobs and no funded accounts.
    pub fn new() -> (r: EscrowManager)
        ensures
            r.wf(),
            r@.jobs == Seq::<JobView>::empty(),
            r@.accounts == Map::<u64, u64>::empty(),
    {
        let r = EscrowManager { jobs: Vec::new(), accounts: HashMap::new() };
        proof {
            assert(r@.jobs =~= Seq::<JobView>::empty());
        }
        r
    }

    /// The current balance of an account; an account never funded holds
    /// nothing.
    pub fn balance(&self, account: u64) -> (r: u64)
        ensures
            r == self@.bal(account),
    {
        match self.accounts.get(&account) {
            Some(b) => *b,
            None => 0,
        }
    }

    /// How many jobs have been created.
    pub fn job_count(&self) -> (r: usize)
        ensures
            r == self@.jobs.len(),
    {
        self.jobs.len()
    }

    /// The position of the job with this id, if any.
    fn find_job(&self, job_id: &String) -> (r: Option<usize>)
        ensures
            match r {
                Some(i) => i < self.jobs@.len() && self@.jobs[i as int].id == job_id@,
                None => !self@.has_job(job_id@),
            },
    {
        let mut i: usize = 0;
        while i < self.jobs.len()
            invariant
                i <= self.jobs@.len(),
                forall|k: int| 0 <= k < i ==> (#[trigger] self@.jobs[k]).id != job_id@,
            decreases self.jobs@.len() - i,
        {
            if self.jobs[i].id == *job_id {
                return Some(i);
            }
            i += 1;
        }
        None
    }

    /// Whether the account is the custody account of some job.
    fn is_custody(&self, account: u64) -> (r: bool)
        ensures
            r == self@.is_custody_account(account),
    {
        let mut i: usize = 0;
        while i < self.jobs.len()
            invariant
                i <= self.jobs@.len(),
                forall|k: int| 0 <= k < i ==> (#[trigger] self@.jobs[k]).escrow_account != account,
            decreases self.jobs@.len() - i,
        {
            if self.jobs[i].escrow_account == account {
                proof {
                    assert((#[trigger] self@.jobs[i as int]).escrow_account == account);
                    assert(self@.is_custody_account(account));
                }
                return true;
            }
            i += 1;
        }
        false
    }

    /// Whether the account is the employer or the worker of some job.
    fn is_party(&self, account: u64) -> (r: bool)
        ensures
            r == self@.is_party_account(account),
    {
        let mut i: usize = 0;
        while i < self.jobs.len()
            invariant
                i <= self.jobs@.len(),
                forall|k: int|
                    0 <= k < i ==> (#[trigger] self@.jobs[k]).employer != account
                        && self@.jobs[k].worker != account,
            decreases self.jobs@.len() - i,
        {
            if self.jobs[i].employer == account || self.jobs[i].worker == account {
                proof {
                    assert((#[trigger] self@.jobs[i as int]).employer == account || self@.jobs[
                        i as int
                    ].worker == account);
                    assert(self@.is_party_account(account));
                }
                return true;
            }
            i += 1;
        }
        false
    }

    /// Funds an account from outside the escrow, for instance when a party
    /// first appears. Custody accounts belong to the escrow logic and
    /// cannot be funded; a balance cannot grow past the largest
    /// representable amount.
    pub fn fund(&mut self, account: u64, amount: u64) -> (r: Result<(), EscrowError>)
        requires
            old(self).wf(),
        ensures
            final(self).wf(),
            final(self)@ == fund_step(old(self)@, account, amount).0,
            r == fund_step(old(self)@, account, amount).1,
    {
        proof {
            lemma_fund_preserves_wf(old(self)@, account, amount);
        }
        if self.is_custody(account) {
            return Err(EscrowError::Authorization);
        }
        let b = self.balance(account);
        if amount > u64::MAX - b {
            return Err(EscrowError::Overflow);
        }
        self.accounts.insert(account, b + amount);
        proof {
            assert(self@ =~~= fund_step(old(self)@, account, amount).0);
        }
        Ok(())
    }

    /// Creates a job. With both parties' co-signatures, a fresh id and a
    /// fresh custody account, the record is allocated pending and the pay
    /// moves from the employer into custody; the record and the deposit
    /// happen together, or the whole call fails and nothing changes.
    pub fn create_job(
        &mut self,
        job_id: String,
        title: String,
        pay: u64,
        employer: u64,
        worker: u64,
        escrow_account: u64,
        signers: &Vec<u64>,
    ) -> (r: Result<(), EscrowError>)
        requires
            old(self).wf(),
        ensures
            final(self).wf(),
            final(self)@ == create_step(
                old(self)@,
                job_id@,
                title@,
                pay,
                employer,
                worker,
                escrow_account,
                signers@,
            ).0,
            r == create_step(
                old(self)@,
                job_id@,
                title@,
                pay,
                employer,
                worker,
                escrow_account,
                signers@,
            ).1,
    {
        let ghost gid = job_id@;
        let ghost gtitle = title@;
        proof {
            lemma_create_preserves_wf(
                old(self)@,
                gid,
                gtitle,
                pay,
                employer,
                worker,
                escrow_account,
                signers@,
            );
        }
        let employer_signed = contains_account(signers, employer);
        let worker_signed = contains_account(signers, worker);
        let job = match Job::create(
            job_id,
            title,
            pay,
            employer,
            worker,
            escrow_account,
            employer_signed,
            worker_signed,
        ) {
            Ok(j) => j,
            Err(e) => {
                return Err(e);
            },
        };
        if self.find_job(&job.id).is_some() {
            return Err(EscrowError::Duplicate);
        }
        if escrow_account == employer || escrow_account == worker {
            return Err(EscrowError::Duplicate);
        }
        if self.is_party(escrow_account) || self.is_custody(escrow_account) || self.is_custody(
            employer,
        ) || self.is_custody(worker) {
            return Err(EscrowError::Duplicate);
        }
        if self.balance(escrow_account) != 0 {
            return Err(EscrowError::Duplicate);
        }
        let employer_balance = self.balance(employer);
        if employer_balance < pay {
            return Err(EscrowError::InsufficientFunds);
        }
        let ghost jv = job@;
        self.accounts.insert(employer, employer_balance - pay);
        self.accounts.insert(escrow_account, pay);
        self.jobs.push(job);
        proof {
            assert(self@.jobs =~= old(self)@.jobs.push(jv));
            assert(self@ =~~= create_step(
                old(self)@,
                gid,
                gtitle,
                pay,
                employer,
                worker,
                escrow_account,
                signers@,
            ).0);
        }
        Ok(())
    }

    /// Records the worker's approval of the job. If the employer has
    /// already approved, the whole custody balance is released to the
    /// worker in the same call and the job completes; if the release
    /// cannot be performed, the approval fails and nothing changes.
    pub fn approve_job_worker(&mut self, job_id: &String, caller: u64) -> (r: Result<
        (),
        EscrowError,
    >)
        requires
            old(self).wf(),
        ensures
            final(self).wf(),
            final(self)@ == approve_worker_step(old(self)@, job_id@, caller).0,
            r == approve_worker_step(old(self)@, job_id@, caller).1,
    {
        proof {
            lemma_approve_worker_preserves_wf(old(self)@, job_id@, caller);
        }
        let idx = match self.find_job(job_id) {
            Some(i) => i,
            None => {
                return Err(EscrowError::NotFound);
            },
        };
        proof {
            lemma_job_index_agrees(self@, job_id@, idx as int);
        }
        let worker = self.jobs[idx].worker;
        if caller != worker {
            return Err(EscrowError::Authorization);
        }
        if !(self.jobs[idx].status == JobStatus::Pending) {
            return Err(EscrowError::InvalidState);
        }
        let release = self.jobs[idx].employer_approved;
        let pay = self.jobs[idx].pay;
        let escrow_account = self.jobs[idx].escrow_account;
        if release {
            let custody = self.balance(escrow_account);
            if custody < pay {
                return Err(EscrowError::InsufficientFunds);
            }
            let worker_balance = self.balance(worker);
            if pay > u64::MAX - worker_balance {
                return Err(EscrowError::Overflow);
            }
            let approved = Job {
                id: self.jobs[idx].id.clone(),
                title: self.jobs[idx].title.clone(),
                pay,
                employer: self.jobs[idx].employer,
                worker,
                worker_approved: true,
                employer_approved: true,
                status: JobStatus::Completed,
                escrow_account,
            };
            self.jobs[idx] = approved;
            self.accounts.insert(escrow_account, custody - pay);
            self.accounts.insert(worker, worker_balance + pay);
            proof {
                assert(self@ =~~= approve_worker_step(old(self)@, job_id@, caller).0);
            }
            Ok(())
        } else {
            let approved = Job {
                id: self.jobs[idx].id.clone(),
                title: self.jobs[idx].title.clone(),
                pay,
                employer: self.jobs[idx].employer,
                worker,
                worker_approved: true,
                employer_approved: false,
                status: JobStatus::Pending,
                escrow_account,
            };
            self.jobs[idx] = approved;
            proof {
                assert(self@ =~~= approve_worker_step(old(self)@, job_id@, caller).0);
            }
            Ok(())
        }
    }

    /// Records the employer's approval of the job, symmetric to the
    /// worker's: the second of the two approvals releases the custody
    /// funds to the worker.
    pub fn approve_job_employer(&mut self, job_id: &String, caller: u64) -> (r: Result<
        (),
        EscrowError,
    >)
        requires
            old(self).wf(),
        ensures
            final(self).wf(),
            final(self)@ == approve_employer_step(old(self)@, job_id@, caller).0,
            r == approve_employer_step(old(self)@, job_id@, caller).1,
    {
        proof {
            lemma_approve_employer_preserves_wf(old(self)@, job_id@, caller);
        }
        let idx = match self.find_job(job_id) {
            Some(i) => i,
            None => {
                return Err(EscrowError::NotFound);
            },
        };
        proof {
            lemma_job_index_agrees(self@, job_id@, idx as int);
        }
        let employer = self.jobs[idx].employer;
        if caller != employer {
            return Err(EscrowError::Authorization);
        }
        if !(self.jobs[idx].status == JobStatus::Pending) {
            return Err(EscrowError::InvalidState);
        }
        let release = self.jobs[idx].worker_approved;
        let pay = self.jobs[idx].pay;
        let worker = self.jobs[idx].worker;
        let escrow_account = self.jobs[idx].escrow_account;
        if release {
            let custody = self.balance(escrow_account);
            if custody < pay {
                return Err(EscrowError::InsufficientFunds);
            }
            let worker_balance = self.balance(worker);
            if pay > u64::MAX - worker_balance {
                return Err(EscrowError::Overflow);
            }
            let approved = Job {
                id: self.jobs[idx].id.clone(),
                title: self.jobs[idx].title.clone(),
                pay,
                employer,
                worker,
                worker_approved: true,
                employer_approved: true,
                status: JobStatus::Completed,
                escrow_account,
            };
            self.jobs[idx] = approved;
            self.accounts.insert(escrow_account, custody - pay);
            self.accounts.insert(worker, worker_balance + pay);
            proof {
                assert(self@ =~~= approve_employer_step(old(self)@, job_id@, caller).0);
            }
            Ok(())
        } else {
            let approved = Job {
                id: self.jobs[idx].id.clone(),
                title: self.jobs[idx].title.clone(),
                pay,
                employer,
                worker,
                worker_approved: false,
                employer_approved: true,
                status: JobStatus::Pending,
                escrow_account,
            };
            self.jobs[idx] = approved;
            proof {
                assert(self@ =~~= approve_employer_step(old(self)@, job_id@, caller).0);
            }
            Ok(())
        }
    }

    /// Records a party's rejection of the job. The job turns terminal and
    /// the custody funds stay locked in the custody account: this design
    /// has no refund path.
    pub fn reject_job(&mut self, job_id: &String, caller: u64) -> (r: Result<(), EscrowError>)
        requires
            old(self).wf(),
        ensures
            final(self).wf(),
            final(self)@ == reject_step(old(self)@, job_id@, caller).0,
            r == reject_step(old(self)@, job_id@, caller).1,
    {
        proof {
            lemma_reject_preserves_wf(old(self)@, job_id@, caller);
        }
        let idx = match self.find_job(job_id) {
            Some(i) => i,
            None => {
                return Err(EscrowError::NotFound);
            },
        };
        proof {
            lemma_job_index_agrees(self@, job_id@, idx as int);
        }
        let employer = self.jobs[idx].employer;
        let worker = self.jobs[idx].worker;
        if caller != employer && caller != worker {
            return Err(EscrowError::Authorization);
        }
        if !(self.jobs[idx].status == JobStatus::Pending) {
            return Err(EscrowError::InvalidState);
        }
        let rejected = Job {
            id: self.jobs[idx].id.clone(),
            title: self.jobs[idx].title.clone(),
            pay: self.jobs[idx].pay,
            employer,
            worker,
            worker_approved: self.jobs[idx].worker_approved,
            employer_approved: self.jobs[idx].employer_approved,
            status: JobStatus::Rejected,
            escrow_account: self.jobs[idx].escrow_account,
        };
        self.jobs[idx] = rejected;
        proof {
            assert(self@ =~~= reject_step(old(self)@, job_id@, caller).0);
        }
        Ok(())
    }

    /// The funds currently held in custody for the job with this id.
    pub fn custody_balance_for(&self, job_id: &String) -> (r: Option<u64>)
        requires
            self.wf(),
        ensures
            match r {
                Some(b) => self@.has_job(job_id@) && b == custody_balance_of(self@, job_id@),
                None => !self@.has_job(job_id@),
            },
    {
        match self.find_job(job_id) {
            Some(i) => {
                proof {
                    lemma_job_index_agrees(self@, job_id@, i as int);
                }
                Some(self.balance(self.jobs[i].escrow_account))
            },
            None => None,
        }
    }

    /// The job record under this id, if any.
    pub fn get_job(&self, job_id: &String) -> (r: Option<&Job>)
        requires
            self.wf(),
        ensures
            match r {
                Some(j) => self@.has_job(job_id@) && j@ == self@.job(job_id@),
                None => !self@.has_job(job_id@),
            },
    {
        match self.find_job(job_id) {
            Some(i) => {
                proof {
                    lemma_job_index_agrees(self@, job_id@, i as int);
                }
                Some(&self.jobs[i])
            },
            None => None,
        }
    }
}

/// Whether this identity is among the co-signers of the call.
fn contains_account(signers: &Vec<u64>, account: u64) -> (r: bool)
    ensures
        r == signers@.contains(account),
{
    let mut i: usize = 0;
    while i < signers.len()
        invariant
            i <= signers@.len(),
            forall|k: int| 0 <= k < i ==> signers@[k] != account,
        decreases signers@.len() - i,
    {
        if signers[i] == account {
            return true;
        }
        i += 1;
    }
    false
}

} // verus!
