use vstd::prelude::*;

use crate::address::Address;
use crate::model::{
    empty_state, has_profile, initialized_state, lemma_init_inv, lemma_profile_at,
    lemma_release_inv, ledger_inv, profile_of, record_of, release_error, release_ok,
    release_step, stats_of, student_amount, student_count, LedgerState,
};
use crate::rules::{
    admin_view, amount_or_zero, apply_release, check_init, check_release, check_update_admin, count_or_zero, init_outcome,
    profile_view, recent_start, recent_start_id, stats_or_zero, update_admin_outcome,
};
use crate::types::{ContractError, ContractStats, ScholarshipRecord, StudentProfile};

verus! {

/// The scholarship ledger: the administrator, the totals, one profile per
/// student funded and every record issued, with the last activity time.
pub struct ScholarshipContract {
    admin: Option<Address>,
    initialized: bool,
    stats: Option<ContractStats>,
    profiles: Vec<StudentProfile>,
    records: Vec<ScholarshipRecord>,
    last_activity: Option<u64>,
}

pub open spec fn opt_admin_view(a: Option<Address>) -> Option<Seq<u8>> {
    match a {
        Some(x) => Some(x@),
        None => None,
    }
}

impl View for ScholarshipContract {
    type V = LedgerState;

    closed spec fn view(&self) -> LedgerState {
        LedgerState {
            admin: opt_admin_view(self.admin),
            initialized: self.initialized,
            stats: self.stats,
            profiles: self.profiles@.map_values(|p: StudentProfile| p@),
            records: self.records@.map_values(|r: ScholarshipRecord| r@),
            last_activity: self.last_activity,
        }
    }
}

impl ScholarshipContract {
    pub open spec fn wf(&self) -> bool {
        ledger_inv(self@)
    }

    /// A ledger that has not been initialized.
    pub fn new() -> (r: ScholarshipContract)
        ensures
            r@ == empty_state(),
            r.wf(),
    {
        let r = ScholarshipContract {
            admin: None,
            initialized: false,
            stats: None,
            profiles: Vec::new(),
            records: Vec::new(),
            last_activity: None,
        };
        assert(r@.profiles == Seq::<crate::types::ProfileView>::empty());
        assert(r@.records == Seq::<crate::types::RecordView>::empty());
        r
    }

    fn admin_ref(&self) -> (r: Option<&Address>)
        ensures
            admin_view(r) == self@.admin,
    {
        match &self.admin {
            Some(a) => Some(a),
            None => None,
        }
    }

    /// Sets `admin` as administrator and all totals to zero. `authorized` tells
    /// whether the call carries a valid proof for `admin`.
    pub fn init(&mut self, admin: Address, authorized: bool) -> (r: Result<(), ContractError>)
        requires
            old(self).wf(),
        ensures
            final(self).wf(),
            r == init_outcome(old(self)@.initialized, authorized),
            r is Ok ==> final(self)@ == initialized_state(old(self)@, admin@),
            r is Err ==> final(self)@ == old(self)@,
    {
        let checked = check_init(self.initialized, authorized);
        if checked.is_err() {
            return checked;
        }
        proof {
            lemma_init_inv(self@, admin@);
        }
        self.admin = Some(admin);
        self.initialized = true;
        self.stats = Some(ContractStats::zero());
        Ok(())
    }

    /// The index of `student`'s profile, if the student has one.
    fn find_profile(&self, student: &Address) -> (r: Option<usize>)
        requires
            self.wf(),
        ensures
            match r {
                Some(j) => j < self@.profiles.len() && self@.profiles[j as int].address == student@
                    && profile_of(self@.profiles, student@) == Some(self@.profiles[j as int]),
                None => !has_profile(self@.profiles, student@) && profile_of(
                    self@.profiles,
                    student@,
                ) is None,
            },
    {
        let mut i: usize = 0;
        while i < self.profiles.len()
            invariant
                self.wf(),
                i <= self.profiles@.len(),
                forall|k: int| 0 <= k < i ==> #[trigger] self@.profiles[k].address != student@,
            decreases self.profiles@.len() - i,
        {
            if self.profiles[i].address.same_as(student) {
                proof {
                    lemma_profile_at(self@.profiles, student@, i as int);
                }
                return Some(i);
            }
            i = i + 1;
        }
        None
    }

    /// Issues the next scholarship: `amount` to `student`, stamped `now`, and
    /// returns its identifier. `authorized` tells whether the call carries a
    /// valid proof for `admin`.
    pub fn release_scholarship(
        &mut self,
        admin: &Address,
        authorized: bool,
        student: &Address,
        amount: i128,
        now: u64,
    ) -> (r: Result<u64, ContractError>)
        requires
            old(self).wf(),
        ensures
            final(self).wf(),
            r is Ok <==> release_ok(old(self)@, admin@, authorized, student@, amount),
            r is Ok ==> r == Ok::<u64, ContractError>(
                (stats_of(old(self)@).last_scholarship_id + 1) as u64,
            ) && final(self)@ == release_step(old(self)@, student@, amount, now),
            r is Err ==> r == Err::<u64, ContractError>(
                release_error(old(self)@, admin@, authorized, student@, amount),
            ) && final(self)@ == old(self)@,
    {
        let checked = check_release(self.initialized, authorized, self.admin_ref(), admin, amount);
        match checked {
            Err(e) => {
                return Err(e);
            },
            Ok(_) => {},
        }
        let stats = stats_or_zero(self.stats);
        let idx = self.find_profile(student);
        let prior = match idx {
            Some(j) => Some(self.profiles[j].duplicate()),
            None => None,
        };
        assert(profile_view(prior) == profile_of(self@.profiles, student@));
        let released = apply_release(&stats, prior, student, amount, now);
        match released {
            Err(e) => Err(e),
            Ok(rel) => {
                let ghost before = self@;
                proof {
                    lemma_release_inv(before, student@, amount, now);
                }
                let id = rel.record.scholarship_id;
                match idx {
                    Some(j) => {
                        proof {
                            lemma_profile_at(self@.profiles, student@, j as int);
                        }
                        self.profiles.set(j, rel.profile);
                    },
                    None => {
                        self.profiles.push(rel.profile);
                    },
                }
                self.records.push(rel.record);
                self.stats = Some(rel.stats);
                self.last_activity = Some(now);
                assert(self@.profiles == release_step(before, student@, amount, now).profiles);
                assert(self@.records == release_step(before, student@, amount, now).records);
                Ok(id)
            },
        }
    }

    /// Makes `new_admin` the administrator. `authorized` tells whether the call
    /// carries a valid proof for `current_admin`.
    pub fn update_admin(&mut self, current_admin: &Address, authorized: bool, new_admin: Address) -> (r: Result<
        (),
        ContractError,
    >)
        requires
            old(self).wf(),
        ensures
            final(self).wf(),
            r == update_admin_outcome(authorized, old(self)@.admin, current_admin@),
            r is Ok ==> final(self)@ == (LedgerState { admin: Some(new_admin@), ..old(self)@ }),
            r is Err ==> final(self)@ == old(self)@,
    {
        let checked = check_update_admin(authorized, self.admin_ref(), current_admin);
        if checked.is_err() {
            return checked;
        }
        self.admin = Some(new_admin);
        Ok(())
    }

    /// The total received by `student`; 0 for a student never funded.
    pub fn get_student_amount(&self, student: &Address) -> (r: i128)
        requires
            self.wf(),
        ensures
            r == student_amount(self@, student@),
    {
        match self.find_profile(student) {
            Some(j) => amount_or_zero(Some(&self.profiles[j])),
            None => amount_or_zero(None),
        }
    }

    /// The number of scholarships `student` received; 0 for a student never funded.
    pub fn get_student_scholarship_count(&self, student: &Address) -> (r: u32)
        requires
            self.wf(),
        ensures
            r == student_count(self@, student@),
    {
        match self.find_profile(student) {
            Some(j) => count_or_zero(Some(&self.profiles[j])),
            None => count_or_zero(None),
        }
    }

    /// The profile of `student`, or `None` for a student never funded.
    pub fn get_student_profile(&self, student: &Address) -> (r: Option<StudentProfile>)
        requires
            self.wf(),
        ensures
            profile_view(r) == profile_of(self@.profiles, student@),
    {
        match self.find_profile(student) {
            Some(j) => Some(self.profiles[j].duplicate()),
            None => None,
        }
    }

    /// The record with identifier `scholarship_id`, or `None` if none was issued.
    pub fn get_scholarship_record(&self, scholarship_id: u64) -> (r: Option<ScholarshipRecord>)
        requires
            self.wf(),
        ensures
            match r {
                Some(x) => record_of(self@.records, scholarship_id) == Some(x@),
                None => record_of(self@.records, scholarship_id) is None,
            },
    {
        if scholarship_id >= 1 && scholarship_id <= self.records.len() as u64 {
            Some(self.records[(scholarship_id - 1) as usize].duplicate())
        } else {
            None
        }
    }

    /// The totals; all zero before `initialize`.
    pub fn get_contract_stats(&self) -> (r: ContractStats)
        ensures
            r == stats_of(self@),
    {
        stats_or_zero(self.stats)
    }

    pub fn get_total_disbursed(&self) -> (r: i128)
        ensures
            r == stats_of(self@).total_disbursed,
    {
        self.get_contract_stats().total_disbursed
    }

    pub fn get_admin(&self) -> (r: Option<Address>)
        ensures
            opt_admin_view(r) == self@.admin,
    {
        match &self.admin {
            Some(a) => Some(a.duplicate()),
            None => None,
        }
    }

    pub fn is_initialized(&self) -> (r: bool)
        ensures
            r == self@.initialized,
    {
        self.initialized
    }

    /// The time of the last release, if one was made.
    pub fn get_last_activity(&self) -> (r: Option<u64>)
        ensures
            r == self@.last_activity,
    {
        self.last_activity
    }

    /// The records of the `count` most recent identifiers, oldest first.
    pub fn get_recent_scholarships(&self, count: u32) -> (r: Vec<ScholarshipRecord>)
        requires
            self.wf(),
        ensures
            r@.map_values(|x: ScholarshipRecord| x@) == self@.records.subrange(
                if count == 0 { self@.records.len() as int } else { recent_start(
                    stats_of(self@).last_scholarship_id,
                    count,
                ) - 1 },
                self@.records.len() as int,
            ),
    {
        let mut result: Vec<ScholarshipRecord> = Vec::new();
        let last = self.get_contract_stats().last_scholarship_id;
        if count == 0 {
            assert(result@.map_values(|x: ScholarshipRecord| x@) =~= self@.records.subrange(
                self@.records.len() as int,
                self@.records.len() as int,
            ));
            return result;
        }
        let start = recent_start_id(last, count);
        let mut i: usize = (start - 1) as usize;
        while i < self.records.len()
            invariant
                self.wf(),
                last == self@.records.len(),
                1 <= start,
                start - 1 <= i <= self@.records.len(),
                result@.map_values(|x: ScholarshipRecord| x@) == self@.records.subrange(
                    start - 1,
                    i as int,
                ),
            decreases self@.records.len() - i,
        {
            let rec = self.records[i].duplicate();
            assert(rec@ == self@.records[i as int]);
            let ghost prev = result@;
            result.push(rec);
            assert(result@.map_values(|x: ScholarshipRecord| x@) =~= prev.map_values(
                |x: ScholarshipRecord| x@,
            ).push(rec@));
            assert(result@.map_values(|x: ScholarshipRecord| x@) =~= self@.records.subrange(
                start - 1,
                i + 1,
            ));
            i = i + 1;
        }
        result
    }
}

} // verus!
