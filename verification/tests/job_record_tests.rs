use escrow::EscrowError;
use escrow::Job;
use escrow::JobStatus;

fn pending_job() -> Job {
    Job::create("j1".to_string(), "t".to_string(), 500, 1, 2, 9, true, true).unwrap()
}

#[test]
fn record_creation_needs_both_signatures() {
    let r = Job::create("j1".to_string(), "t".to_string(), 500, 1, 2, 9, true, false);
    assert_eq!(r.unwrap_err(), EscrowError::Authorization);
    let r = Job::create("j1".to_string(), "t".to_string(), 500, 1, 2, 9, false, true);
    assert_eq!(r.unwrap_err(), EscrowError::Authorization);
    let j = pending_job();
    assert_eq!(j.status, JobStatus::Pending);
    assert!(!j.worker_approved);
    assert!(!j.employer_approved);
    assert_eq!(j.escrow_account, 9);
}

#[test]
fn record_dual_approval_reports_release_exactly_once() {
    let mut j = pending_job();
    assert_eq!(j.approve_worker(2), Ok(false));
    assert_eq!(j.status, JobStatus::Pending);
    assert_eq!(j.approve_employer(1), Ok(true));
    assert_eq!(j.status, JobStatus::Completed);
    assert_eq!(j.approve_worker(2), Err(EscrowError::InvalidState));
    assert_eq!(j.approve_employer(1), Err(EscrowError::InvalidState));
}

#[test]
fn record_approvals_check_the_caller() {
    let mut j = pending_job();
    assert_eq!(j.approve_worker(1), Err(EscrowError::Authorization));
    assert_eq!(j.approve_employer(2), Err(EscrowError::Authorization));
    assert!(!j.worker_approved);
    assert!(!j.employer_approved);
}

#[test]
fn record_rejection_is_terminal_and_for_parties_only() {
    let mut j = pending_job();
    assert_eq!(j.reject(7), Err(EscrowError::Authorization));
    assert_eq!(j.reject(2), Ok(()));
    assert_eq!(j.status, JobStatus::Rejected);
    assert_eq!(j.approve_worker(2), Err(EscrowError::InvalidState));
    assert_eq!(j.reject(1), Err(EscrowError::InvalidState));
}
