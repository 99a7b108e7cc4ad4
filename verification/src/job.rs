//! The job record and the per-record transitions. Each transition here acts
//! on a single record and reports whether the custody funds are due for
//! release; moving the funds themselves is the manager's part.

use vstd::prelude::*;
use crate::errors::EscrowError;
use crate::state::JobView;
use crate::state::approve_employer_record;
use crate::state::approve_worker_record;
use crate::state::create_job_record;
use crate::state::reject_record;

verus! {

/// The status of a job. `Completed` and `Rejected` are terminal: no
/// operation moves a job out of them.
#[derive(Clone, Copy, Debug, PartialEq, Eq, Structural)]
pub enum JobStatus {
    Pending,
    Completed,
    Rejected,
}

/// The escrowed work agreement: who pays, who works, how much is held in
/// custody, and how far the two approvals have come.
#[derive(Debug)]
pub struct Job {
    pub id: String,
    pub title: String,
    pub pay: u64,
    pub employer: u64,
    pub worker: u64,
    pub worker_approved: bool,
    pub employer_approved: bool,
    pub status: JobStatus,
    pub escrow_account: u64,
}

impl View for Job {
    type V = JobView;

    open spec fn view(&self) -> JobView {
        JobView {
            id: self.id@,
            title: self.title@,
            pay: self.pay,
            employer: self.employer,
            worker: self.worker,
            worker_approved: self.worker_approved,
            employer_approved: self.employer_approved,
            status: self.status,
            escrow_account: self.escrow_account,
        }
    }
}

impl Job {
    /// Builds the record of a freshly created job, provided the employer
    /// and the worker have both co-signed the creation.
    pub fn create(
        id: String,
        title: String,
        pay: u64,
        employer: u64,
        worker: u64,
        escrow_account: u64,
        employer_signed: bool,
        worker_signed: bool,
    ) -> (r: Result<Job, EscrowError>)
        ensures
            match r {
                Ok(j) => create_job_record(
                    id@,
                    title@,
                    pay,
                    employer,
                    worker,
                    escrow_account,
                    employer_signed,
                    worker_signed,
                ) == Ok::<JobView, EscrowError>(j@),
                Err(e) => create_job_record(
                    id@,
                    title@,
                    pay,
                    employer,
                    worker,
                    escrow_account,
                    employer_signed,
                    worker_signed,
                ) == Err::<JobView, EscrowError>(e),
            },
    {
        if !employer_signed || !worker_signed {
            return Err(EscrowError::Authorization);
        }
        Ok(
            Job {
                id,
                title,
                pay,
                employer,
                worker,
                worker_approved: false,
                employer_approved: false,
                status: JobStatus::Pending,
                escrow_account,
            },
        )
    }

    /// Records the worker's approval. On success the result says whether
    /// both approvals are now in and the custody funds are due to the
    /// worker; on failure the record is unchanged.
    pub fn approve_worker(&mut self, caller: u64) -> (r: Result<bool, EscrowError>)
        ensures
            match r {
                Ok(release) => approve_worker_record(old(self)@, caller) == Ok::<
                    (JobView, bool),
                    EscrowError,
                >((final(self)@, release)),
                Err(e) => final(self)@ == old(self)@ && approve_worker_record(old(self)@, caller)
                    == Err::<(JobView, bool), EscrowError>(e),
            },
    {
        if caller != self.worker {
            return Err(EscrowError::Authorization);
        }
        if !(matches!(self.status, JobStatus::Pending)) {
            return Err(EscrowError::InvalidState);
        }
        self.worker_approved = true;
        if self.employer_approved {
            self.status = JobStatus::Completed;
            Ok(true)
        } else {
            Ok(false)
        }
    }

    /// Records the employer's approval, symmetric to the worker's.
    pub fn approve_employer(&mut self, caller: u64) -> (r: Result<bool, EscrowError>)
        ensures
            match r {
                Ok(release) => approve_employer_record(old(self)@, caller) == Ok::<
                    (JobView, bool),
                    EscrowError,
                >((final(self)@, release)),
                Err(e) => final(self)@ == old(self)@ && approve_employer_record(old(self)@, caller)
                    == Err::<(JobView, bool), EscrowError>(e),
            },
    {
        if caller != self.employer {
            return Err(EscrowError::Authorization);
        }
        if !(matches!(self.status, JobStatus::Pending)) {
            return Err(EscrowError::InvalidState);
        }
        self.employer_approved = true;
        if self.worker_approved {
            self.status = JobStatus::Completed;
            Ok(true)
        } else {
            Ok(false)
        }
    }

    /// Records a party's rejection; the record turns terminal and the
    /// custody funds stay where they are.
    pub fn reject(&mut self, caller: u64) -> (r: Result<(), EscrowError>)
        ensures
            match r {
                Ok(()) => reject_record(old(self)@, caller) == Ok::<JobView, EscrowError>(
                    final(self)@,
                ),
                Err(e) => final(self)@ == old(self)@ && reject_record(old(self)@, caller) == Err::<
                    JobView,
                    EscrowError,
                >(e),
            },
    {
        if caller != self.employer && caller != self.worker {
            return Err(EscrowError::Authorization);
        }
        if !(matches!(self.status, JobStatus::Pending)) {
            return Err(EscrowError::InvalidState);
        }
        self.status = JobStatus::Rejected;
        Ok(())
    }
}

} // verus!
