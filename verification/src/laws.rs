//! The laws of the escrow protocol, proved over the transition functions of
//! `state`. Together they say: every operation keeps the system well-formed,
//! creation demands both co-signatures, approvals demand the right caller,
//! dual approval releases the pay exactly once in either order, and a
//! rejected job is locked for good.

use vstd::prelude::*;
use crate::errors::EscrowError;
use crate::job::JobStatus;
use crate::state::JobView;
use crate::state::Op;
use crate::state::StateView;
use crate::state::approve_employer_record;
use crate::state::approve_employer_step;
use crate::state::approve_worker_record;
use crate::state::approve_worker_step;
use crate::state::create_step;
use crate::state::custody_balance_of;
use crate::state::custody_conflict;
use crate::state::custody_expected;
use crate::state::fund_step;
use crate::state::lemma_job_index_agrees;
use crate::state::reject_record;
use crate::state::reject_step;
use crate::state::release_step;
use crate::state::step;

verus! {

/// A well-formed system pins each custody balance: the full pay before the
/// release, zero after it.
pub proof fn lemma_custody_balance(s: StateView, id: Seq<char>)
    requires
        s.wf(),
        s.has_job(id),
    ensures
        custody_balance_of(s, id) == if s.job(id).status == JobStatus::Completed {
            0u64
        } else {
            s.job(id).pay
        },
{
    let i = s.job_index(id);
    assert(0 <= i < s.jobs.len() && s.jobs[i].id == id);
    assert(s.bal(s.jobs[i].escrow_account) == custody_expected(s.jobs[i]));
}

/// Creation keeps the system well-formed.
pub proof fn lemma_create_preserves_wf(
    s: StateView,
    job_id: Seq<char>,
    title: Seq<char>,
    pay: u64,
    employer: u64,
    worker: u64,
    escrow_account: u64,
    signers: Seq<u64>,
)
    requires
        s.wf(),
    ensures
        create_step(s, job_id, title, pay, employer, worker, escrow_account, signers).0.wf(),
{
    let (s2, r) = create_step(s, job_id, title, pay, employer, worker, escrow_account, signers);
    if r is Ok {
        let n = s.jobs.len() as int;
        assert(!s.has_job(job_id));
        assert(!custody_conflict(s, employer, worker, escrow_account));
        assert forall|k: int| 0 <= k < n implies (#[trigger] s.jobs[k]).id != job_id by {
            if s.jobs[k].id == job_id {
                assert(s.has_job(job_id));
            }
        }
        assert forall|k: int| 0 <= k < n implies (#[trigger] s.jobs[k]).escrow_account
            != escrow_account && s.jobs[k].escrow_account != employer && s.jobs[k].escrow_account
            != worker && s.jobs[k].employer != escrow_account && s.jobs[k].worker
            != escrow_account by {
            if s.jobs[k].escrow_account == escrow_account || s.jobs[k].escrow_account == employer
                || s.jobs[k].escrow_account == worker {
                assert(s.is_custody_account(s.jobs[k].escrow_account));
            }
            if s.jobs[k].employer == escrow_account || s.jobs[k].worker == escrow_account {
                assert(s.is_party_account(escrow_account));
            }
        }
        assert(escrow_account != employer && escrow_account != worker);
        assert(s2.jobs.len() == n + 1);
        assert(s2.jobs[n].status == JobStatus::Pending);
        assert(s2.bal(escrow_account) == pay);
        assert forall|k: int| 0 <= k < n implies s2.bal(
            (#[trigger] s2.jobs[k]).escrow_account,
        ) == custody_expected(s2.jobs[k]) by {
            assert(s2.jobs[k] == s.jobs[k]);
            assert(s.bal(s.jobs[k].escrow_account) == custody_expected(s.jobs[k]));
            assert(s2.bal(s.jobs[k].escrow_account) == s.bal(s.jobs[k].escrow_account));
        }
        assert(s2.wf());
    }
}

/// The release of a job's custody funds keeps the system well-formed, and
/// under well-formedness it fails only when the worker's balance cannot
/// take the pay.
pub proof fn lemma_release_preserves_wf(s: StateView, i: int, j2: JobView)
    requires
        s.wf(),
        0 <= i < s.jobs.len(),
        j2.id == s.jobs[i].id,
        j2.title == s.jobs[i].title,
        j2.pay == s.jobs[i].pay,
        j2.employer == s.jobs[i].employer,
        j2.worker == s.jobs[i].worker,
        j2.escrow_account == s.jobs[i].escrow_account,
        j2.worker_approved && j2.employer_approved,
        j2.status == JobStatus::Completed,
        s.jobs[i].status != JobStatus::Completed,
    ensures
        release_step(s, i, j2).0.wf(),
        release_step(s, i, j2).1 is Ok <==> s.bal(s.jobs[i].worker) + s.jobs[i].pay <= u64::MAX,
        release_step(s, i, j2).1 is Err ==> release_step(s, i, j2).0 == s,
{
    let j = s.jobs[i];
    assert(s.bal(j.escrow_account) == custody_expected(j));
    assert(j.escrow_account != j.worker && j.escrow_account != j.employer);
    if s.bal(j.worker) + j.pay <= u64::MAX {
        let s2 = release_step(s, i, j2).0;
        assert(s2.jobs == s.jobs.update(i, j2));
        assert(s2.bal(j.escrow_account) == 0);
        assert forall|k: int| 0 <= k < s2.jobs.len() implies s2.bal(
            (#[trigger] s2.jobs[k]).escrow_account,
        ) == custody_expected(s2.jobs[k]) by {
            if k != i {
                assert(s2.jobs[k] == s.jobs[k]);
                assert(s.jobs[k].escrow_account != j.escrow_account);
                assert(s.jobs[k].escrow_account != j.worker);
                assert(s.bal(s.jobs[k].escrow_account) == custody_expected(s.jobs[k]));
            }
        }
        assert(s2.wf());
    }
}

/// An approval that completes no release only sets one flag; the system
/// stays well-formed.
proof fn lemma_flag_update_preserves_wf(s: StateView, i: int, j2: JobView)
    requires
        s.wf(),
        0 <= i < s.jobs.len(),
        j2.id == s.jobs[i].id,
        j2.title == s.jobs[i].title,
        j2.pay == s.jobs[i].pay,
        j2.employer == s.jobs[i].employer,
        j2.worker == s.jobs[i].worker,
        j2.escrow_account == s.jobs[i].escrow_account,
        (j2.worker_approved && j2.employer_approved) <==> j2.status == JobStatus::Completed,
        custody_expected(j2) == custody_expected(s.jobs[i]),
    ensures
        (StateView { jobs: s.jobs.update(i, j2), ..s }).wf(),
{
    let s2 = StateView { jobs: s.jobs.update(i, j2), ..s };
    assert forall|k: int| 0 <= k < s2.jobs.len() implies s2.bal(
        (#[trigger] s2.jobs[k]).escrow_account,
    ) == custody_expected(s2.jobs[k]) by {
        if k == i {
            assert(s.bal(s.jobs[i].escrow_account) == custody_expected(s.jobs[i]));
        } else {
            assert(s2.jobs[k] == s.jobs[k]);
            assert(s.bal(s.jobs[k].escrow_account) == custody_expected(s.jobs[k]));
        }
    }
    assert(s2.wf());
}

/// The worker-approval transition keeps the system well-formed.
pub proof fn lemma_approve_worker_preserves_wf(s: StateView, job_id: Seq<char>, caller: u64)
    requires
        s.wf(),
    ensures
        approve_worker_step(s, job_id, caller).0.wf(),
{
    if s.has_job(job_id) {
        let i = s.job_index(job_id);
        assert(0 <= i < s.jobs.len() && s.jobs[i].id == job_id);
        let j = s.jobs[i];
        match approve_worker_record(j, caller) {
            Ok((j2, release)) => {
                assert(j.status == JobStatus::Pending);
                if release {
                    assert((j.worker_approved && j.employer_approved) <==> j.status
                        == JobStatus::Completed);
                    lemma_release_preserves_wf(s, i, j2);
                } else {
                    lemma_flag_update_preserves_wf(s, i, j2);
                }
            },
            Err(_) => {},
        }
    }
}

/// The employer-approval transition keeps the system well-formed.
pub proof fn lemma_approve_employer_preserves_wf(s: StateView, job_id: Seq<char>, caller: u64)
    requires
        s.wf(),
    ensures
        approve_employer_step(s, job_id, caller).0.wf(),
{
    if s.has_job(job_id) {
        let i = s.job_index(job_id);
        assert(0 <= i < s.jobs.len() && s.jobs[i].id == job_id);
        let j = s.jobs[i];
        match approve_employer_record(j, caller) {
            Ok((j2, release)) => {
                assert(j.status == JobStatus::Pending);
                if release {
                    lemma_release_preserves_wf(s, i, j2);
                } else {
                    lemma_flag_update_preserves_wf(s, i, j2);
                }
            },
            Err(_) => {},
        }
    }
}

/// The rejection transition keeps the system well-formed.
pub proof fn lemma_reject_preserves_wf(s: StateView, job_id: Seq<char>, caller: u64)
    requires
        s.wf(),
    ensures
        reject_step(s, job_id, caller).0.wf(),
{
    if s.has_job(job_id) {
        let i = s.job_index(job_id);
        assert(0 <= i < s.jobs.len() && s.jobs[i].id == job_id);
        let j = s.jobs[i];
        match reject_record(j, caller) {
            Ok(j2) => {
                assert((j.worker_approved && j.employer_approved) <==> j.status
                    == JobStatus::Completed);
                lemma_flag_update_preserves_wf(s, i, j2);
            },
            Err(_) => {},
        }
    }
}

/// The funding transition keeps the system well-formed.
pub proof fn lemma_fund_preserves_wf(s: StateView, account: u64, amount: u64)
    requires
        s.wf(),
    ensures
        fund_step(s, account, amount).0.wf(),
{
    let (s2, r) = fund_step(s, account, amount);
    if r is Ok {
        assert forall|k: int| 0 <= k < s2.jobs.len() implies s2.bal(
            (#[trigger] s2.jobs[k]).escrow_account,
        ) == custody_expected(s2.jobs[k]) by {
            if s.jobs[k].escrow_account == account {
                assert(s.is_custody_account(account));
            }
            assert(s.bal(s.jobs[k].escrow_account) == custody_expected(s.jobs[k]));
        }
        assert(s2.wf());
    }
}

/// Every operation keeps the system well-formed: the invariant of the
/// escrow — custody balances pinned, custody accounts owned by the escrow
/// alone, completion exactly at dual approval — survives every transition.
pub proof fn lemma_step_preserves_wf(s: StateView, op: Op)
    requires
        s.wf(),
    ensures
        step(s, op).0.wf(),
{
    match op {
        Op::CreateJob { job_id, title, pay, employer, worker, escrow_account, signers } => {
            lemma_create_preserves_wf(
                s,
                job_id,
                title,
                pay,
                employer,
                worker,
                escrow_account,
                signers,
            );
        },
        Op::ApproveJobWorker { job_id, caller } => {
            lemma_approve_worker_preserves_wf(s, job_id, caller);
        },
        Op::ApproveJobEmployer { job_id, caller } => {
            lemma_approve_employer_preserves_wf(s, job_id, caller);
        },
        Op::RejectJob { job_id, caller } => {
            lemma_reject_preserves_wf(s, job_id, caller);
        },
        Op::Fund { account, amount } => {
            lemma_fund_preserves_wf(s, account, amount);
        },
    }
}

/// A creation that lacks the employer's or the worker's co-signature fails
/// with an authorization error and changes nothing: no record appears and
/// no balance moves.
pub proof fn lemma_create_needs_both_cosigners(
    s: StateView,
    job_id: Seq<char>,
    title: Seq<char>,
    pay: u64,
    employer: u64,
    worker: u64,
    escrow_account: u64,
    signers: Seq<u64>,
)
    requires
        !signers.contains(employer) || !signers.contains(worker),
    ensures
        create_step(s, job_id, title, pay, employer, worker, escrow_account, signers) == (
            s,
            Err::<(), EscrowError>(EscrowError::Authorization),
        ),
{
}

/// A worker approval from any identity other than the job's worker fails
/// with an authorization error and changes nothing; in particular the
/// approval flag stays as it was.
pub proof fn lemma_approve_worker_wrong_caller(s: StateView, job_id: Seq<char>, caller: u64)
    requires
        s.has_job(job_id),
        caller != s.job(job_id).worker,
    ensures
        approve_worker_step(s, job_id, caller) == (
            s,
            Err::<(), EscrowError>(EscrowError::Authorization),
        ),
{
}

/// An employer approval from any identity other than the job's employer
/// fails with an authorization error and changes nothing.
pub proof fn lemma_approve_employer_wrong_caller(s: StateView, job_id: Seq<char>, caller: u64)
    requires
        s.has_job(job_id),
        caller != s.job(job_id).employer,
    ensures
        approve_employer_step(s, job_id, caller) == (
            s,
            Err::<(), EscrowError>(EscrowError::Authorization),
        ),
{
}

/// A rejection from any identity that is neither the employer nor the
/// worker of the job fails with an authorization error and changes nothing.
pub proof fn lemma_reject_wrong_caller(s: StateView, job_id: Seq<char>, caller: u64)
    requires
        s.has_job(job_id),
        caller != s.job(job_id).employer,
        caller != s.job(job_id).worker,
    ensures
        reject_step(s, job_id, caller) == (s, Err::<(), EscrowError>(EscrowError::Authorization)),
{
}

/// Dual approval releases the pay exactly once. From a pending job with
/// neither approval given, approving as the worker and as the employer — in
/// either order — succeeds, ends in the same state, and in that state the
/// worker has gained exactly one pay, the custody account holds zero, the
/// job is completed, and no further approval changes anything.
pub proof fn lemma_dual_approval_single_release(s: StateView, job_id: Seq<char>)
    requires
        s.wf(),
        s.has_job(job_id),
        s.job(job_id).status == JobStatus::Pending,
        !s.job(job_id).worker_approved,
        !s.job(job_id).employer_approved,
        s.bal(s.job(job_id).worker) + s.job(job_id).pay <= u64::MAX,
    ensures
        ({
            let j = s.job(job_id);
            let (s1, r1) = approve_worker_step(s, job_id, j.worker);
            let (s2, r2) = approve_employer_step(s1, job_id, j.employer);
            let (t1, q1) = approve_employer_step(s, job_id, j.employer);
            let (t2, q2) = approve_worker_step(t1, job_id, j.worker);
            &&& r1 == Ok::<(), EscrowError>(())
            &&& r2 == Ok::<(), EscrowError>(())
            &&& q1 == Ok::<(), EscrowError>(())
            &&& q2 == Ok::<(), EscrowError>(())
            &&& s2 == t2
            &&& s2.has_job(job_id)
            &&& s2.job(job_id).status == JobStatus::Completed
            &&& custody_balance_of(s2, job_id) == 0
            &&& s2.bal(j.worker) == s.bal(j.worker) + j.pay
            &&& forall|c: u64| #![auto] approve_worker_step(s2, job_id, c).0 == s2
            &&& forall|c: u64| #![auto] approve_employer_step(s2, job_id, c).0 == s2
        }),
{
    let i = s.job_index(job_id);
    assert(0 <= i < s.jobs.len() && s.jobs[i].id == job_id);
    let j = s.jobs[i];
    assert(s.bal(j.escrow_account) == custody_expected(j));
    assert(j.escrow_account != j.worker && j.escrow_account != j.employer);

    // Worker first.
    let (s1, r1) = approve_worker_step(s, job_id, j.worker);
    lemma_approve_worker_preserves_wf(s, job_id, j.worker);
    assert(s1.jobs == s.jobs.update(i, s1.jobs[i]));
    assert(s1.jobs[i].id == job_id);
    lemma_job_index_agrees(s1, job_id, i);
    assert(s1.accounts == s.accounts);
    let (s2, r2) = approve_employer_step(s1, job_id, j.employer);
    lemma_approve_employer_preserves_wf(s1, job_id, j.employer);
    assert(r2 == Ok::<(), EscrowError>(()));
    assert(s2.jobs[i].id == job_id);
    lemma_job_index_agrees(s2, job_id, i);
    assert(s2.bal(j.escrow_account) == 0);
    assert(s2.bal(j.worker) == s.bal(j.worker) + j.pay);

    // Employer first.
    let (t1, q1) = approve_employer_step(s, job_id, j.employer);
    lemma_approve_employer_preserves_wf(s, job_id, j.employer);
    assert(t1.jobs[i].id == job_id);
    lemma_job_index_agrees(t1, job_id, i);
    assert(t1.accounts == s.accounts);
    let (t2, q2) = approve_worker_step(t1, job_id, j.worker);
    assert(q2 == Ok::<(), EscrowError>(()));

    // Both orders end in the one released state.
    assert(s2.jobs =~= t2.jobs);
    assert(s2.accounts =~= t2.accounts);
    assert(s2 == t2);

    // The released state accepts no further approval of this job.
    assert(s2.jobs[i].status == JobStatus::Completed);
    assert forall|c: u64| #![auto] approve_worker_step(s2, job_id, c).0 == s2 by {
        assert(s2.job_index(job_id) == i);
    }
    assert forall|c: u64| #![auto] approve_employer_step(s2, job_id, c).0 == s2 by {
        assert(s2.job_index(job_id) == i);
    }
}

/// Rejection locks the funds: once a job is rejected, its custody account
/// holds the full pay, and no operation whatever — creation, approval,
/// rejection or funding, on this job or any other — changes its record or
/// moves its custody balance.
pub proof fn lemma_rejected_job_is_locked(s: StateView, op: Op, id: Seq<char>)
    requires
        s.wf(),
        s.has_job(id),
        s.job(id).status == JobStatus::Rejected,
    ensures
        custody_balance_of(s, id) == s.job(id).pay,
        ({
            let s2 = step(s, op).0;
            &&& s2.has_job(id)
            &&& s2.job(id) == s.job(id)
            &&& custody_balance_of(s2, id) == s.job(id).pay
        }),
{
    lemma_terminal_job_is_locked(s, op, id);
}

/// A terminal job is immutable: once a job is completed or rejected, no
/// operation whatever — creation, approval, rejection or funding, on this
/// job or any other — changes its record or moves its custody balance.
#[verifier::rlimit(60)]
pub proof fn lemma_terminal_job_is_locked(s: StateView, op: Op, id: Seq<char>)
    requires
        s.wf(),
        s.has_job(id),
        s.job(id).status != JobStatus::Pending,
    ensures
        custody_balance_of(s, id) == custody_expected(s.job(id)),
        ({
            let s2 = step(s, op).0;
            &&& s2.has_job(id)
            &&& s2.job(id) == s.job(id)
            &&& custody_balance_of(s2, id) == custody_balance_of(s, id)
        }),
{
    let i = s.job_index(id);
    assert(0 <= i < s.jobs.len() && s.jobs[i].id == id);
    let j = s.jobs[i];
    assert(s.bal(j.escrow_account) == custody_expected(j));
    lemma_step_preserves_wf(s, op);
    let s2 = step(s, op).0;
    match op {
        Op::CreateJob { job_id, title, pay, employer, worker, escrow_account, signers } => {
            if step(s, op).1 is Ok {
                assert(!custody_conflict(s, employer, worker, escrow_account));
                if employer == j.escrow_account || escrow_account == j.escrow_account {
                    assert(s.is_custody_account(j.escrow_account));
                }
                assert(s2.jobs[i] == s.jobs[i]);
                lemma_job_index_agrees(s2, id, i);
                assert(s2.bal(j.escrow_account) == s.bal(j.escrow_account));
            }
        },
        Op::ApproveJobWorker { job_id, caller } => {
            if s.has_job(job_id) {
                let k = s.job_index(job_id);
                assert(0 <= k < s.jobs.len() && s.jobs[k].id == job_id);
                if job_id == id {
                    assert(k == i) by {
                        if k < i {
                            assert(s.jobs[k].id != s.jobs[i].id);
                        } else if k > i {
                            assert(s.jobs[i].id != s.jobs[k].id);
                        }
                    }
                } else {
                    assert(k != i);
                    match approve_worker_record(s.jobs[k], caller) {
                        Ok((j2, release)) => {
                            if step(s, op).1 is Ok {
                                assert(s2.jobs == s.jobs.update(k, s2.jobs[k]));
                                assert(forall|a: u64|
                                    a != s.jobs[k].escrow_account && a != s.jobs[k].worker
                                        ==> #[trigger] s2.bal(a) == s.bal(a));
                                lemma_job_i_untouched(s, s2, k, i, id);
                            }
                        },
                        Err(_) => {},
                    }
                }
            }
        },
        Op::ApproveJobEmployer { job_id, caller } => {
            if s.has_job(job_id) {
                let k = s.job_index(job_id);
                assert(0 <= k < s.jobs.len() && s.jobs[k].id == job_id);
                if job_id == id {
                    assert(k == i) by {
                        if k < i {
                            assert(s.jobs[k].id != s.jobs[i].id);
                        } else if k > i {
                            assert(s.jobs[i].id != s.jobs[k].id);
                        }
                    }
                } else {
                    assert(k != i);
                    match approve_employer_record(s.jobs[k], caller) {
                        Ok((j2, release)) => {
                            if step(s, op).1 is Ok {
                                assert(s2.jobs == s.jobs.update(k, s2.jobs[k]));
                                assert(forall|a: u64|
                                    a != s.jobs[k].escrow_account && a != s.jobs[k].worker
                                        ==> #[trigger] s2.bal(a) == s.bal(a));
                                lemma_job_i_untouched(s, s2, k, i, id);
                            }
                        },
                        Err(_) => {},
                    }
                }
            }
        },
        Op::RejectJob { job_id, caller } => {
            if s.has_job(job_id) {
                let k = s.job_index(job_id);
                assert(0 <= k < s.jobs.len() && s.jobs[k].id == job_id);
                if job_id == id {
                    assert(k == i) by {
                        if k < i {
                            assert(s.jobs[k].id != s.jobs[i].id);
                        } else if k > i {
                            assert(s.jobs[i].id != s.jobs[k].id);
                        }
                    }
                } else {
                    assert(k != i);
                    match reject_record(s.jobs[k], caller) {
                        Ok(j2) => {
                            assert(s2.jobs == s.jobs.update(k, s2.jobs[k]));
                            assert(forall|a: u64|
                                a != s.jobs[k].escrow_account && a != s.jobs[k].worker
                                    ==> #[trigger] s2.bal(a) == s.bal(a));
                            lemma_job_i_untouched(s, s2, k, i, id);
                        },
                        Err(_) => {},
                    }
                }
            }
        },
        Op::Fund { account, amount } => {
            if step(s, op).1 is Ok {
                if account == j.escrow_account {
                    assert(s.is_custody_account(account));
                }
                lemma_job_index_agrees(s2, id, i);
            }
        },
    }
}

/// Records are never removed, their identity is immutable, and approvals
/// are monotone: no operation changes a job's position, id, title, pay,
/// parties or custody account, and an approval flag once given is never
/// retracted.
pub proof fn lemma_record_immutability(s: StateView, op: Op, i: int)
    requires
        s.wf(),
        0 <= i < s.jobs.len(),
    ensures
        ({
            let s2 = step(s, op).0;
            &&& s.jobs.len() <= s2.jobs.len()
            &&& s2.jobs[i].id == s.jobs[i].id
            &&& s2.jobs[i].title == s.jobs[i].title
            &&& s2.jobs[i].pay == s.jobs[i].pay
            &&& s2.jobs[i].employer == s.jobs[i].employer
            &&& s2.jobs[i].worker == s.jobs[i].worker
            &&& s2.jobs[i].escrow_account == s.jobs[i].escrow_account
            &&& (s.jobs[i].worker_approved ==> s2.jobs[i].worker_approved)
            &&& (s.jobs[i].employer_approved ==> s2.jobs[i].employer_approved)
        }),
{
    let s2 = step(s, op).0;
    match op {
        Op::CreateJob { job_id, title, pay, employer, worker, escrow_account, signers } => {
            assert(s2.jobs[i] == s.jobs[i]);
        },
        Op::ApproveJobWorker { job_id, caller } => {
            if s.has_job(job_id) {
                let k = s.job_index(job_id);
                assert(0 <= k < s.jobs.len() && s.jobs[k].id == job_id);
                if k != i {
                    assert(s2.jobs[i] == s.jobs[i]);
                }
            }
        },
        Op::ApproveJobEmployer { job_id, caller } => {
            if s.has_job(job_id) {
                let k = s.job_index(job_id);
                assert(0 <= k < s.jobs.len() && s.jobs[k].id == job_id);
                if k != i {
                    assert(s2.jobs[i] == s.jobs[i]);
                }
            }
        },
        Op::RejectJob { job_id, caller } => {
            if s.has_job(job_id) {
                let k = s.job_index(job_id);
                assert(0 <= k < s.jobs.len() && s.jobs[k].id == job_id);
                if k != i {
                    assert(s2.jobs[i] == s.jobs[i]);
                }
            }
        },
        Op::Fund { account, amount } => {},
    }
}

/// The frame of a per-job operation: an operation that rewrites the record
/// at one position and moves funds only through that job's custody account
/// and worker leaves every other job's record and custody balance as they
/// were.
proof fn lemma_job_i_untouched(s: StateView, s2: StateView, k: int, i: int, id: Seq<char>)
    requires
        s.wf(),
        s2.wf(),
        0 <= i < s.jobs.len(),
        0 <= k < s.jobs.len(),
        k != i,
        s.jobs[i].id == id,
        s2.jobs == s.jobs.update(k, s2.jobs[k]),
        forall|a: u64|
            a != s.jobs[k].escrow_account && a != s.jobs[k].worker ==> #[trigger] s2.bal(a)
                == s.bal(a),
    ensures
        s2.has_job(id),
        s2.job(id) == s.jobs[i],
        s2.bal(s.jobs[i].escrow_account) == s.bal(s.jobs[i].escrow_account),
{
    assert(s2.jobs[i] == s.jobs[i]);
    lemma_job_index_agrees(s2, id, i);
    assert(s.jobs[i].escrow_account != s.jobs[k].escrow_account);
    assert(s.jobs[i].escrow_account != s.jobs[k].worker);
    assert(s2.bal(s.jobs[i].escrow_account) == s.bal(s.jobs[i].escrow_account));
}

} // verus!
