use vstd::prelude::*;

use crate::model::{
    empty_state, has_profile, initialized_state, lemma_profile_at, lemma_release_inv,
    lemma_unfunded_sums_zero, ledger_inv, profile_index, release_error, release_ok,
    release_step, stats_of, student_amount, amount_for, total_amount, LedgerState,
};
use crate::rules::{init_outcome, release_outcome};
use crate::types::{ContractError, RecordView};

verus! {

/// One call of `release_scholarship`, by its arguments.
pub struct ReleaseCall {
    pub student: Seq<u8>,
    pub amount: i128,
    pub now: u64,
}

/// The ledger after the successful releases `calls`, in order, from `s`.
pub open spec fn releases_from(s: LedgerState, calls: Seq<ReleaseCall>) -> LedgerState
    decreases calls.len(),
{
    if calls.len() == 0 {
        s
    } else {
        let c = calls.last();
        release_step(releases_from(s, calls.drop_last()), c.student, c.amount, c.now)
    }
}

/// Whether each of `calls`, made in order by `admin` with a valid proof, succeeds.
pub open spec fn all_succeed(s: LedgerState, admin: Seq<u8>, calls: Seq<ReleaseCall>) -> bool
    decreases calls.len(),
{
    calls.len() == 0 || {
        let c = calls.last();
        all_succeed(s, admin, calls.drop_last()) && release_ok(
            releases_from(s, calls.drop_last()),
            admin,
            true,
            c.student,
            c.amount,
        )
    }
}

/// Sum of the amounts of `calls`.
pub open spec fn amounts_sum(calls: Seq<ReleaseCall>) -> int
    decreases calls.len(),
{
    if calls.len() == 0 {
        0
    } else {
        amounts_sum(calls.drop_last()) + calls.last().amount
    }
}

/// The identifier that the `k`-th of `calls` (from 0) received.
pub open spec fn issued_id(s: LedgerState, calls: Seq<ReleaseCall>, k: int) -> int {
    stats_of(releases_from(s, calls.take(k))).last_scholarship_id + 1
}

/// After successful releases from a freshly initialized ledger, the records
/// are exactly the calls, in order, numbered from 1, and the invariant holds.
pub proof fn lemma_run_records(admin: Seq<u8>, calls: Seq<ReleaseCall>)
    requires
        all_succeed(initialized_state(empty_state(), admin), admin, calls),
    ensures
        ({
            let t = releases_from(initialized_state(empty_state(), admin), calls);
            &&& ledger_inv(t)
            &&& t.initialized
            &&& t.admin == Some(admin)
            &&& t.records.len() == calls.len()
            &&& forall|k: int|
                0 <= k < calls.len() ==> #[trigger] t.records[k] == (RecordView {
                    student: calls[k].student,
                    amount: calls[k].amount,
                    timestamp: calls[k].now,
                    scholarship_id: (k + 1) as u64,
                })
            &&& total_amount(t.records) == amounts_sum(calls)
        }),
    decreases calls.len(),
{
    let s0 = initialized_state(empty_state(), admin);
    if calls.len() == 0 {
        assert(ledger_inv(s0));
    } else {
        let prev = calls.drop_last();
        lemma_run_records(admin, prev);
        let p = releases_from(s0, prev);
        let c = calls.last();
        lemma_release_inv(p, c.student, c.amount, c.now);
        let t = releases_from(s0, calls);
        assert forall|k: int| 0 <= k < calls.len() implies #[trigger] t.records[k] == (RecordView {
            student: calls[k].student,
            amount: calls[k].amount,
            timestamp: calls[k].now,
            scholarship_id: (k + 1) as u64,
        }) by {
            if k < prev.len() {
                assert(t.records[k] == p.records[k]);
                assert(prev[k] == calls[k]);
            }
        }
    }
}

/// Successful releases from a freshly initialized ledger leave as many
/// scholarships in the totals as there were calls, and the sum of their
/// amounts as the total disbursed.
pub proof fn lemma_totals_count_releases(admin: Seq<u8>, calls: Seq<ReleaseCall>)
    requires
        all_succeed(initialized_state(empty_state(), admin), admin, calls),
    ensures
        stats_of(releases_from(initialized_state(empty_state(), admin), calls)).total_scholarships
            == calls.len(),
        stats_of(releases_from(initialized_state(empty_state(), admin), calls)).total_disbursed
            == amounts_sum(calls),
{
    lemma_run_records(admin, calls);
}

/// Successful releases from a freshly initialized ledger receive the
/// identifiers 1, 2, 3, ... in call order, and the record of the `k`-th call
/// carries the identifier it received.
pub proof fn lemma_ids_dense_in_order(admin: Seq<u8>, calls: Seq<ReleaseCall>)
    requires
        all_succeed(initialized_state(empty_state(), admin), admin, calls),
    ensures
        forall|k: int|
            0 <= k < calls.len() ==> #[trigger] issued_id(
                initialized_state(empty_state(), admin),
                calls,
                k,
            ) == k + 1,
        forall|k: int|
            0 <= k < calls.len() ==> #[trigger] releases_from(
                initialized_state(empty_state(), admin),
                calls,
            ).records[k].scholarship_id == k + 1,
{
    lemma_run_records(admin, calls);
    assert forall|k: int| 0 <= k < calls.len() implies #[trigger] issued_id(
        initialized_state(empty_state(), admin),
        calls,
        k,
    ) == k + 1 by {
        lemma_prefix_succeeds(admin, calls, k);
        lemma_run_records(admin, calls.take(k));
    }
}

/// A prefix of a run of successful releases is itself one.
pub proof fn lemma_prefix_succeeds(admin: Seq<u8>, calls: Seq<ReleaseCall>, k: int)
    requires
        all_succeed(initialized_state(empty_state(), admin), admin, calls),
        0 <= k <= calls.len(),
    ensures
        all_succeed(initialized_state(empty_state(), admin), admin, calls.take(k)),
    decreases calls.len(),
{
    if k < calls.len() {
        let prev = calls.drop_last();
        assert(prev.take(k) == calls.take(k));
        lemma_prefix_succeeds(admin, prev, k);
    } else {
        assert(calls.take(k) == calls);
    }
}

/// In a ledger that keeps its invariant, what a student has received, as the
/// queries report it, is the sum of the amounts of the records for that student.
pub proof fn lemma_student_amount_matches_records(s: LedgerState, a: Seq<u8>)
    requires
        ledger_inv(s),
    ensures
        student_amount(s, a) == amount_for(s.records, a),
{
    if has_profile(s.profiles, a) {
        let j = profile_index(s.profiles, a);
        lemma_profile_at(s.profiles, a, j);
    } else {
        lemma_unfunded_sums_zero(s, a);
    }
}

/// After any run of successful releases from a freshly initialized ledger,
/// each student's total received equals the sum of the amounts of the records
/// for that student.
pub proof fn lemma_profiles_match_records(admin: Seq<u8>, calls: Seq<ReleaseCall>, a: Seq<u8>)
    requires
        all_succeed(initialized_state(empty_state(), admin), admin, calls),
    ensures
        ({
            let t = releases_from(initialized_state(empty_state(), admin), calls);
            student_amount(t, a) == amount_for(t.records, a)
        }),
{
    lemma_run_records(admin, calls);
    lemma_student_amount_matches_records(
        releases_from(initialized_state(empty_state(), admin), calls),
        a,
    );
}

/// A second `initialize` fails with `AlreadyInitialized`, whoever calls it.
pub proof fn lemma_init_twice_refused(s: LedgerState, first: Seq<u8>, authorized: bool)
    requires
        !s.initialized,
    ensures
        init_outcome(initialized_state(s, first).initialized, authorized) == Err::<(), ContractError>(
            ContractError::AlreadyInitialized,
        ),
{
}

/// A release by the administrator, with a valid proof, of an amount that is
/// not positive fails with `InvalidAmount`.
pub proof fn lemma_nonpositive_amount_refused(
    s: LedgerState,
    admin: Seq<u8>,
    student: Seq<u8>,
    amount: i128,
)
    requires
        s.initialized,
        s.admin == Some(admin),
        amount <= 0,
    ensures
        !release_ok(s, admin, true, student, amount),
        release_error(s, admin, true, student, amount) == ContractError::InvalidAmount,
{
    assert(release_outcome(s.initialized, true, s.admin, admin, amount) == Err::<(), ContractError>(
        ContractError::InvalidAmount,
    ));
}

/// After the administrator is replaced, a release named for the former one
/// fails with `WrongAdmin`, even with a valid proof.
pub proof fn lemma_former_admin_refused(
    s: LedgerState,
    former: Seq<u8>,
    successor: Seq<u8>,
    student: Seq<u8>,
    amount: i128,
)
    requires
        s.initialized,
        former != successor,
    ensures
        ({
            let t = LedgerState { admin: Some(successor), ..s };
            &&& !release_ok(t, former, true, student, amount)
            &&& release_error(t, former, true, student, amount) == ContractError::WrongAdmin
        }),
{
}

} // verus!
