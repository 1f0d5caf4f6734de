use vstd::prelude::*;

use crate::rules::{profile_after, release_fits, release_outcome, stats_after};
use crate::types::{zero_stats, ContractError, ContractStats, ProfileView, RecordView};

verus! {

/// Everything the ledger holds, as values.
pub struct LedgerState {
    pub admin: Option<Seq<u8>>,
    pub initialized: bool,
    pub stats: Option<ContractStats>,
    /// One profile per student that has received a scholarship.
    pub profiles: Seq<ProfileView>,
    /// The record with identifier `k` stands at index `k - 1`.
    pub records: Seq<RecordView>,
    pub last_activity: Option<u64>,
}

/// The ledger before `initialize`.
pub open spec fn empty_state() -> LedgerState {
    LedgerState {
        admin: None,
        initialized: false,
        stats: None,
        profiles: Seq::empty(),
        records: Seq::empty(),
        last_activity: None,
    }
}

/// The ledger right after a successful `initialize` with `admin`.
pub open spec fn initialized_state(s: LedgerState, admin: Seq<u8>) -> LedgerState {
    LedgerState { admin: Some(admin), initialized: true, stats: Some(zero_stats()), ..s }
}

/// The totals as a query sees them: all zero where none were written.
pub open spec fn stats_of(s: LedgerState) -> ContractStats {
    match s.stats {
        Some(st) => st,
        None => zero_stats(),
    }
}

/// Sum of the amounts of the records whose student is `a`.
pub open spec fn amount_for(rs: Seq<RecordView>, a: Seq<u8>) -> int
    decreases rs.len(),
{
    if rs.len() == 0 {
        0
    } else {
        amount_for(rs.drop_last(), a) + if rs.last().student == a {
            rs.last().amount as int
        } else {
            0
        }
    }
}

/// Number of the records whose student is `a`.
pub open spec fn count_for(rs: Seq<RecordView>, a: Seq<u8>) -> int
    decreases rs.len(),
{
    if rs.len() == 0 {
        0
    } else {
        count_for(rs.drop_last(), a) + if rs.last().student == a {
            1int
        } else {
            0
        }
    }
}

/// Sum of the amounts of all records.
pub open spec fn total_amount(rs: Seq<RecordView>) -> int
    decreases rs.len(),
{
    if rs.len() == 0 {
        0
    } else {
        total_amount(rs.drop_last()) + rs.last().amount
    }
}

pub open spec fn has_profile(ps: Seq<ProfileView>, a: Seq<u8>) -> bool {
    exists|j: int| 0 <= j < ps.len() && #[trigger] ps[j].address == a
}

pub open spec fn profile_index(ps: Seq<ProfileView>, a: Seq<u8>) -> int {
    choose|j: int| 0 <= j < ps.len() && #[trigger] ps[j].address == a
}

/// The profile of student `a`, if the student has one.
pub open spec fn profile_of(ps: Seq<ProfileView>, a: Seq<u8>) -> Option<ProfileView> {
    if has_profile(ps, a) {
        Some(ps[profile_index(ps, a)])
    } else {
        None
    }
}

/// The record with identifier `id`, if one was issued.
pub open spec fn record_of(rs: Seq<RecordView>, id: u64) -> Option<RecordView> {
    if 1 <= id <= rs.len() {
        Some(rs[id - 1])
    } else {
        None
    }
}

/// What `get_student_amount` answers: the profile's total, or 0 without one.
pub open spec fn student_amount(s: LedgerState, a: Seq<u8>) -> int {
    match profile_of(s.profiles, a) {
        Some(p) => p.total_received as int,
        None => 0,
    }
}

/// What `get_student_scholarship_count` answers: the profile's count, or 0 without one.
pub open spec fn student_count(s: LedgerState, a: Seq<u8>) -> int {
    match profile_of(s.profiles, a) {
        Some(p) => p.scholarship_count as int,
        None => 0,
    }
}

pub open spec fn unique_students(ps: Seq<ProfileView>) -> bool {
    forall|i: int, j: int|
        0 <= i < ps.len() && 0 <= j < ps.len() && i != j ==> #[trigger] ps[i].address
            != #[trigger] ps[j].address
}

/// The ledger's invariant: identifiers dense from 1, totals and profiles equal
/// to what the records add up to, one profile per student funded.
pub open spec fn ledger_inv(s: LedgerState) -> bool {
    let st = stats_of(s);
    &&& s.initialized ==> s.admin is Some && s.stats is Some
    &&& !s.initialized ==> s.stats is None && s.records.len() == 0 && s.profiles.len() == 0
    &&& forall|i: int| 0 <= i < s.records.len() ==> #[trigger] s.records[i].scholarship_id == i + 1
    &&& forall|i: int| 0 <= i < s.records.len() ==> #[trigger] s.records[i].amount > 0
    &&& st.last_scholarship_id == s.records.len()
    &&& st.total_scholarships == s.records.len()
    &&& st.total_disbursed == total_amount(s.records)
    &&& st.total_students == s.profiles.len()
    &&& unique_students(s.profiles)
    &&& forall|i: int|
        0 <= i < s.profiles.len() ==> #[trigger] s.profiles[i].total_received == amount_for(
            s.records,
            s.profiles[i].address,
        ) && s.profiles[i].scholarship_count == count_for(s.records, s.profiles[i].address)
    &&& forall|i: int|
        0 <= i < s.records.len() ==> has_profile(s.profiles, #[trigger] s.records[i].student)
}

/// Whether a release by `admin` of `amount` to `student` succeeds in `s`.
pub open spec fn release_ok(
    s: LedgerState,
    admin: Seq<u8>,
    authorized: bool,
    student: Seq<u8>,
    amount: i128,
) -> bool {
    &&& release_outcome(s.initialized, authorized, s.admin, admin, amount) is Ok
    &&& release_fits(stats_of(s), profile_of(s.profiles, student), amount)
}

/// Why a release by `admin` of `amount` to `student` fails in `s`, where it does.
pub open spec fn release_error(
    s: LedgerState,
    admin: Seq<u8>,
    authorized: bool,
    student: Seq<u8>,
    amount: i128,
) -> ContractError {
    match release_outcome(s.initialized, authorized, s.admin, admin, amount) {
        Err(e) => e,
        Ok(_) => ContractError::Overflow,
    }
}

/// The ledger after a successful release of `amount` to `student` at time `now`.
pub open spec fn release_step(s: LedgerState, student: Seq<u8>, amount: i128, now: u64) -> LedgerState {
    let st = stats_of(s);
    let prior = profile_of(s.profiles, student);
    let updated = profile_after(prior, student, amount, now);
    LedgerState {
        stats: Some(stats_after(st, prior is None, amount)),
        profiles: if has_profile(s.profiles, student) {
            s.profiles.update(profile_index(s.profiles, student), updated)
        } else {
            s.profiles.push(updated)
        },
        records: s.records.push(
            RecordView {
                student,
                amount,
                timestamp: now,
                scholarship_id: (st.last_scholarship_id + 1) as u64,
            },
        ),
        last_activity: Some(now),
        ..s
    }
}

pub proof fn lemma_profile_at(ps: Seq<ProfileView>, a: Seq<u8>, j: int)
    requires
        unique_students(ps),
        0 <= j < ps.len(),
        ps[j].address == a,
    ensures
        has_profile(ps, a),
        profile_index(ps, a) == j,
        profile_of(ps, a) == Some(ps[j]),
{
    assert(ps[j].address == a);
    let k = profile_index(ps, a);
    assert(ps[k].address == a);
}

proof fn lemma_sums_push(rs: Seq<RecordView>, r: RecordView, a: Seq<u8>)
    ensures
        amount_for(rs.push(r), a) == amount_for(rs, a) + if r.student == a {
            r.amount as int
        } else {
            0
        },
        count_for(rs.push(r), a) == count_for(rs, a) + if r.student == a {
            1int
        } else {
            0
        },
        total_amount(rs.push(r)) == total_amount(rs) + r.amount,
{
    assert(rs.push(r).drop_last() == rs);
}

pub proof fn lemma_unfunded_sums_zero(s: LedgerState, a: Seq<u8>)
    requires
        forall|i: int| 0 <= i < s.records.len() ==> has_profile(s.profiles, #[trigger] s.records[i].student),
        !has_profile(s.profiles, a),
    ensures
        amount_for(s.records, a) == 0,
        count_for(s.records, a) == 0,
    decreases s.records.len(),
{
    if s.records.len() > 0 {
        let t = LedgerState { records: s.records.drop_last(), ..s };
        assert forall|i: int| 0 <= i < t.records.len() implies has_profile(
            t.profiles,
            #[trigger] t.records[i].student,
        ) by {
            assert(t.records[i] == s.records[i]);
        }
        lemma_unfunded_sums_zero(t, a);
        let last = s.records.len() - 1;
        assert(has_profile(s.profiles, s.records[last].student));
    }
}

/// `initialize` leaves a ledger that satisfies the invariant.
pub proof fn lemma_init_inv(s: LedgerState, admin: Seq<u8>)
    requires
        ledger_inv(s),
        !s.initialized,
    ensures
        ledger_inv(initialized_state(s, admin)),
{
    assert(total_amount(s.records) == 0);
}

/// A successful release keeps the invariant.
pub proof fn lemma_release_inv(s: LedgerState, student: Seq<u8>, amount: i128, now: u64)
    requires
        ledger_inv(s),
        s.initialized,
        amount > 0,
        release_fits(stats_of(s), profile_of(s.profiles, student), amount),
    ensures
        ledger_inv(release_step(s, student, amount, now)),
{
    let t = release_step(s, student, amount, now);
    let st = stats_of(s);
    let r = RecordView {
        student,
        amount,
        timestamp: now,
        scholarship_id: (st.last_scholarship_id + 1) as u64,
    };
    assert(t.records == s.records.push(r));
    assert forall|b: Seq<u8>| true implies amount_for(t.records, b) == amount_for(s.records, b) + (
    if student == b {
        amount as int
    } else {
        0
    }) && count_for(t.records, b) == count_for(s.records, b) + (if student == b {
        1int
    } else {
        0
    }) by {
        lemma_sums_push(s.records, r, b);
    }
    lemma_sums_push(s.records, r, student);
    assert(forall|i: int| 0 <= i < s.records.len() ==> t.records[i] == s.records[i]);
    if has_profile(s.profiles, student) {
        let j = profile_index(s.profiles, student);
        lemma_profile_at(s.profiles, student, j);
        assert(t.profiles[j].address == student);
        assert forall|i: int| 0 <= i < t.profiles.len() implies #[trigger] t.profiles[i].total_received
            == amount_for(t.records, t.profiles[i].address) && t.profiles[i].scholarship_count
            == count_for(t.records, t.profiles[i].address) by {
            if i != j {
                assert(t.profiles[i] == s.profiles[i]);
            }
        }
        assert forall|i: int| 0 <= i < t.records.len() implies has_profile(
            t.profiles,
            #[trigger] t.records[i].student,
        ) by {
            if i < s.records.len() {
                let a = s.records[i].student;
                assert(has_profile(s.profiles, a));
                let k = profile_index(s.profiles, a);
                assert(t.profiles[k].address == a);
            } else {
                assert(t.profiles[j].address == student);
            }
        }
        assert(unique_students(t.profiles)) by {
            assert forall|x: int, y: int|
                0 <= x < t.profiles.len() && 0 <= y < t.profiles.len() && x != y implies #[trigger] t.profiles[x].address
                != #[trigger] t.profiles[y].address by {
                assert(s.profiles[x].address == t.profiles[x].address);
                assert(s.profiles[y].address == t.profiles[y].address);
            }
        }
    } else {
        lemma_unfunded_sums_zero(s, student);
        let n = s.profiles.len() as int;
        assert(t.profiles[n].address == student);
        assert forall|i: int| 0 <= i < t.profiles.len() implies #[trigger] t.profiles[i].total_received
            == amount_for(t.records, t.profiles[i].address) && t.profiles[i].scholarship_count
            == count_for(t.records, t.profiles[i].address) by {
            if i < n {
                assert(t.profiles[i] == s.profiles[i]);
                assert(s.profiles[i].address != student);
            }
        }
        assert forall|i: int| 0 <= i < t.records.len() implies has_profile(
            t.profiles,
            #[trigger] t.records[i].student,
        ) by {
            if i < s.records.len() {
                let a = s.records[i].student;
                assert(has_profile(s.profiles, a));
                let k = profile_index(s.profiles, a);
                assert(t.profiles[k].address == a);
            } else {
                assert(t.profiles[n].address == student);
            }
        }
        assert(unique_students(t.profiles)) by {
            assert forall|x: int, y: int|
                0 <= x < t.profiles.len() && 0 <= y < t.profiles.len() && x != y implies #[trigger] t.profiles[x].address
                != #[trigger] t.profiles[y].address by {
                if x < n && y < n {
                    assert(s.profiles[x].address == t.profiles[x].address);
                    assert(s.profiles[y].address == t.profiles[y].address);
                } else if x < n {
                    assert(s.profiles[x].address == t.profiles[x].address);
                } else if y < n {
                    assert(s.profiles[y].address == t.profiles[y].address);
                }
            }
        }
    }
}

} // verus!
