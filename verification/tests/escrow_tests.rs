use escrow::EscrowError;
use escrow::EscrowManager;
use escrow::JobStatus;

const EMPLOYER: u64 = 1;
const WORKER: u64 = 2;
const CUSTODY: u64 = 9;
const OUTSIDER: u64 = 7;
const PAY: u64 = 1000;

fn funded_manager() -> EscrowManager {
    let mut m = EscrowManager::new();
    m.fund(EMPLOYER, PAY).unwrap();
    m
}

fn create_j1(m: &mut EscrowManager) {
    let signers = vec![EMPLOYER, WORKER];
    m.create_job(
        "j1".to_string(),
        "fix the roof".to_string(),
        PAY,
        EMPLOYER,
        WORKER,
        CUSTODY,
        &signers,
    )
    .unwrap();
}

#[test]
fn create_deposits_pay_into_custody() {
    let mut m = funded_manager();
    create_j1(&mut m);
    assert_eq!(m.balance(CUSTODY), PAY);
    assert_eq!(m.balance(EMPLOYER), 0);
    assert_eq!(m.custody_balance_for(&"j1".to_string()), Some(PAY));
    let job = m.get_job(&"j1".to_string()).unwrap();
    assert_eq!(job.status, JobStatus::Pending);
    assert_eq!(job.id, "j1".to_string());
    assert_eq!(job.title, "fix the roof".to_string());
    assert_eq!(job.pay, PAY);
    assert_eq!(job.employer, EMPLOYER);
    assert_eq!(job.worker, WORKER);
    assert!(!job.worker_approved);
    assert!(!job.employer_approved);
    assert_eq!(m.job_count(), 1);
}

#[test]
fn create_without_worker_cosignature_fails() {
    let mut m = funded_manager();
    let signers = vec![EMPLOYER];
    let r = m.create_job(
        "j1".to_string(),
        "t".to_string(),
        PAY,
        EMPLOYER,
        WORKER,
        CUSTODY,
        &signers,
    );
    assert_eq!(r, Err(EscrowError::Authorization));
    assert_eq!(m.balance(CUSTODY), 0);
    assert_eq!(m.balance(EMPLOYER), PAY);
    assert_eq!(m.job_count(), 0);
}

#[test]
fn create_without_employer_cosignature_fails() {
    let mut m = funded_manager();
    let signers = vec![WORKER];
    let r = m.create_job(
        "j1".to_string(),
        "t".to_string(),
        PAY,
        EMPLOYER,
        WORKER,
        CUSTODY,
        &signers,
    );
    assert_eq!(r, Err(EscrowError::Authorization));
    assert_eq!(m.balance(CUSTODY), 0);
    assert_eq!(m.balance(EMPLOYER), PAY);
}

#[test]
fn create_with_underfunded_employer_fails() {
    let mut m = EscrowManager::new();
    m.fund(EMPLOYER, PAY - 1).unwrap();
    let signers = vec![EMPLOYER, WORKER];
    let r = m.create_job(
        "j1".to_string(),
        "t".to_string(),
        PAY,
        EMPLOYER,
        WORKER,
        CUSTODY,
        &signers,
    );
    assert_eq!(r, Err(EscrowError::InsufficientFunds));
    assert_eq!(m.balance(EMPLOYER), PAY - 1);
    assert_eq!(m.job_count(), 0);
}

#[test]
fn create_with_duplicate_id_fails() {
    let mut m = EscrowManager::new();
    m.fund(EMPLOYER, 2 * PAY).unwrap();
    create_j1(&mut m);
    let signers = vec![EMPLOYER, WORKER];
    let r = m.create_job(
        "j1".to_string(),
        "again".to_string(),
        PAY,
        EMPLOYER,
        WORKER,
        CUSTODY + 1,
        &signers,
    );
    assert_eq!(r, Err(EscrowError::Duplicate));
    assert_eq!(m.balance(EMPLOYER), PAY);
    assert_eq!(m.job_count(), 1);
}

#[test]
fn create_with_used_custody_account_fails() {
    let mut m = EscrowManager::new();
    m.fund(EMPLOYER, 2 * PAY).unwrap();
    create_j1(&mut m);
    let signers = vec![EMPLOYER, WORKER];
    let r = m.create_job(
        "j2".to_string(),
        "t".to_string(),
        PAY,
        EMPLOYER,
        WORKER,
        CUSTODY,
        &signers,
    );
    assert_eq!(r, Err(EscrowError::Duplicate));
    assert_eq!(m.balance(CUSTODY), PAY);
}

#[test]
fn create_with_party_as_custody_account_fails() {
    let mut m = funded_manager();
    let signers = vec![EMPLOYER, WORKER];
    let r = m.create_job(
        "j1".to_string(),
        "t".to_string(),
        PAY,
        EMPLOYER,
        WORKER,
        WORKER,
        &signers,
    );
    assert_eq!(r, Err(EscrowError::Duplicate));
    assert_eq!(m.job_count(), 0);
}

#[test]
fn worker_then_employer_approval_releases_once() {
    let mut m = funded_manager();
    create_j1(&mut m);
    m.approve_job_worker(&"j1".to_string(), WORKER).unwrap();
    let job = m.get_job(&"j1".to_string()).unwrap();
    assert!(job.worker_approved);
    assert_eq!(job.status, JobStatus::Pending);
    assert_eq!(m.balance(WORKER), 0);
    m.approve_job_employer(&"j1".to_string(), EMPLOYER).unwrap();
    assert_eq!(m.balance(WORKER), PAY);
    assert_eq!(m.balance(CUSTODY), 0);
    assert_eq!(m.custody_balance_for(&"j1".to_string()), Some(0));
    let job = m.get_job(&"j1".to_string()).unwrap();
    assert_eq!(job.status, JobStatus::Completed);
    assert!(job.worker_approved);
    assert!(job.employer_approved);
}

#[test]
fn employer_then_worker_approval_releases_once() {
    let mut m = funded_manager();
    create_j1(&mut m);
    m.approve_job_employer(&"j1".to_string(), EMPLOYER).unwrap();
    let job = m.get_job(&"j1".to_string()).unwrap();
    assert!(job.employer_approved);
    assert_eq!(job.status, JobStatus::Pending);
    assert_eq!(m.balance(WORKER), 0);
    m.approve_job_worker(&"j1".to_string(), WORKER).unwrap();
    assert_eq!(m.balance(WORKER), PAY);
    assert_eq!(m.balance(CUSTODY), 0);
    assert_eq!(
        m.get_job(&"j1".to_string()).unwrap().status,
        JobStatus::Completed
    );
}

#[test]
fn no_double_release_after_completion() {
    let mut m = funded_manager();
    create_j1(&mut m);
    m.approve_job_worker(&"j1".to_string(), WORKER).unwrap();
    m.approve_job_employer(&"j1".to_string(), EMPLOYER).unwrap();
    assert_eq!(m.balance(WORKER), PAY);
    let r = m.approve_job_worker(&"j1".to_string(), WORKER);
    assert_eq!(r, Err(EscrowError::InvalidState));
    let r = m.approve_job_employer(&"j1".to_string(), EMPLOYER);
    assert_eq!(r, Err(EscrowError::InvalidState));
    let r = m.reject_job(&"j1".to_string(), EMPLOYER);
    assert_eq!(r, Err(EscrowError::InvalidState));
    assert_eq!(m.balance(WORKER), PAY);
    assert_eq!(m.balance(CUSTODY), 0);
    assert_eq!(
        m.get_job(&"j1".to_string()).unwrap().status,
        JobStatus::Completed
    );
}

#[test]
fn worker_approval_by_wrong_identity_fails() {
    let mut m = funded_manager();
    create_j1(&mut m);
    let r = m.approve_job_worker(&"j1".to_string(), OUTSIDER);
    assert_eq!(r, Err(EscrowError::Authorization));
    let r = m.approve_job_worker(&"j1".to_string(), EMPLOYER);
    assert_eq!(r, Err(EscrowError::Authorization));
    let job = m.get_job(&"j1".to_string()).unwrap();
    assert!(!job.worker_approved);
    assert_eq!(m.balance(CUSTODY), PAY);
}

#[test]
fn employer_approval_by_wrong_identity_fails() {
    let mut m = funded_manager();
    create_j1(&mut m);
    let r = m.approve_job_employer(&"j1".to_string(), WORKER);
    assert_eq!(r, Err(EscrowError::Authorization));
    let job = m.get_job(&"j1".to_string()).unwrap();
    assert!(!job.employer_approved);
}

#[test]
fn approval_of_unknown_job_fails() {
    let mut m = funded_manager();
    create_j1(&mut m);
    let r = m.approve_job_worker(&"nope".to_string(), WORKER);
    assert_eq!(r, Err(EscrowError::NotFound));
    let r = m.reject_job(&"nope".to_string(), WORKER);
    assert_eq!(r, Err(EscrowError::NotFound));
    assert_eq!(m.custody_balance_for(&"nope".to_string()), None);
    assert!(m.get_job(&"nope".to_string()).is_none());
}

#[test]
fn reject_after_one_approval_locks_funds() {
    let mut m = funded_manager();
    create_j1(&mut m);
    m.approve_job_employer(&"j1".to_string(), EMPLOYER).unwrap();
    m.reject_job(&"j1".to_string(), WORKER).unwrap();
    let job = m.get_job(&"j1".to_string()).unwrap();
    assert_eq!(job.status, JobStatus::Rejected);
    assert_eq!(m.balance(CUSTODY), PAY);
    assert_eq!(m.balance(WORKER), 0);
}

#[test]
fn reject_by_third_party_fails() {
    let mut m = funded_manager();
    create_j1(&mut m);
    let r = m.reject_job(&"j1".to_string(), OUTSIDER);
    assert_eq!(r, Err(EscrowError::Authorization));
    assert_eq!(
        m.get_job(&"j1".to_string()).unwrap().status,
        JobStatus::Pending
    );
}

#[test]
fn rejected_job_accepts_no_further_operation() {
    let mut m = funded_manager();
    create_j1(&mut m);
    m.reject_job(&"j1".to_string(), EMPLOYER).unwrap();
    let r = m.approve_job_worker(&"j1".to_string(), WORKER);
    assert_eq!(r, Err(EscrowError::InvalidState));
    let r = m.approve_job_employer(&"j1".to_string(), EMPLOYER);
    assert_eq!(r, Err(EscrowError::InvalidState));
    let r = m.reject_job(&"j1".to_string(), WORKER);
    assert_eq!(r, Err(EscrowError::InvalidState));
    let r = m.fund(CUSTODY, 5);
    assert_eq!(r, Err(EscrowError::Authorization));
    assert_eq!(m.balance(CUSTODY), PAY);
    assert_eq!(m.balance(WORKER), 0);
    assert_eq!(
        m.get_job(&"j1".to_string()).unwrap().status,
        JobStatus::Rejected
    );
}

#[test]
fn funding_a_custody_account_fails() {
    let mut m = funded_manager();
    create_j1(&mut m);
    let r = m.fund(CUSTODY, 1);
    assert_eq!(r, Err(EscrowError::Authorization));
    assert_eq!(m.balance(CUSTODY), PAY);
}

#[test]
fn funding_past_the_largest_balance_fails() {
    let mut m = EscrowManager::new();
    m.fund(OUTSIDER, u64::MAX).unwrap();
    let r = m.fund(OUTSIDER, 1);
    assert_eq!(r, Err(EscrowError::Overflow));
    assert_eq!(m.balance(OUTSIDER), u64::MAX);
}

#[test]
fn release_that_would_overflow_worker_fails_atomically() {
    let mut m = funded_manager();
    m.fund(WORKER, u64::MAX).unwrap();
    create_j1(&mut m);
    m.approve_job_employer(&"j1".to_string(), EMPLOYER).unwrap();
    let r = m.approve_job_worker(&"j1".to_string(), WORKER);
    assert_eq!(r, Err(EscrowError::Overflow));
    // The failed approval left the flag unset and the custody untouched.
    let job = m.get_job(&"j1".to_string()).unwrap();
    assert!(!job.worker_approved);
    assert_eq!(job.status, JobStatus::Pending);
    assert_eq!(m.balance(CUSTODY), PAY);
    assert_eq!(m.balance(WORKER), u64::MAX);
}

#[test]
fn zero_pay_job_completes_with_no_movement() {
    let mut m = EscrowManager::new();
    let signers = vec![EMPLOYER, WORKER];
    m.create_job(
        "free".to_string(),
        "t".to_string(),
        0,
        EMPLOYER,
        WORKER,
        CUSTODY,
        &signers,
    )
    .unwrap();
    assert_eq!(m.custody_balance_for(&"free".to_string()), Some(0));
    m.approve_job_worker(&"free".to_string(), WORKER).unwrap();
    m.approve_job_employer(&"free".to_string(), EMPLOYER).unwrap();
    assert_eq!(m.balance(WORKER), 0);
    assert_eq!(
        m.get_job(&"free".to_string()).unwrap().status,
        JobStatus::Completed
    );
}

#[test]
fn empty_id_is_an_ordinary_opaque_id() {
    let mut m = funded_manager();
    let signers = vec![EMPLOYER, WORKER];
    m.create_job(
        String::new(),
        String::new(),
        PAY,
        EMPLOYER,
        WORKER,
        CUSTODY,
        &signers,
    )
    .unwrap();
    assert_eq!(m.custody_balance_for(&String::new()), Some(PAY));
    m.approve_job_worker(&String::new(), WORKER).unwrap();
    m.approve_job_employer(&String::new(), EMPLOYER).unwrap();
    assert_eq!(m.balance(WORKER), PAY);
}

#[test]
fn two_jobs_keep_separate_custody() {
    let mut m = EscrowManager::new();
    m.fund(EMPLOYER, 300).unwrap();
    let signers = vec![EMPLOYER, WORKER];
    m.create_job(
        "a".to_string(),
        "t".to_string(),
        100,
        EMPLOYER,
        WORKER,
        11,
        &signers,
    )
    .unwrap();
    m.create_job(
        "b".to_string(),
        "t".to_string(),
        200,
        EMPLOYER,
        WORKER,
        12,
        &signers,
    )
    .unwrap();
    assert_eq!(m.balance(EMPLOYER), 0);
    assert_eq!(m.custody_balance_for(&"a".to_string()), Some(100));
    assert_eq!(m.custody_balance_for(&"b".to_string()), Some(200));
    m.approve_job_worker(&"a".to_string(), WORKER).unwrap();
    m.approve_job_employer(&"a".to_string(), EMPLOYER).unwrap();
    assert_eq!(m.balance(WORKER), 100);
    assert_eq!(m.custody_balance_for(&"a".to_string()), Some(0));
    assert_eq!(m.custody_balance_for(&"b".to_string()), Some(200));
    assert_eq!(
        m.get_job(&"b".to_string()).unwrap().status,
        JobStatus::Pending
    );
}
