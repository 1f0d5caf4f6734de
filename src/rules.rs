use vstd::prelude::*;

use crate::address::Address;
use crate::types::{
    zero_stats, ContractError, ContractStats, DataKey, ProfileView, RecordView, ScholarshipRecord,
    StorageTier, StudentProfile,
};

verus! {

/// The store that each key lives in: the admin, the flag and the totals with
/// the instance; profiles and records long-term; the last activity short-lived.
pub open spec fn tier_of(key: DataKey) -> StorageTier {
    match key {
        DataKey::Admin | DataKey::IsInitialized | DataKey::ContractStats => StorageTier::Instance,
        DataKey::StudentProfile(_) | DataKey::ScholarshipRecord(_) => StorageTier::Persistent,
        DataKey::LastActivity => StorageTier::Temporary,
    }
}

pub fn key_tier(key: &DataKey) -> (r: StorageTier)
    ensures
        r == tier_of(*key),
{
    match key {
        DataKey::Admin | DataKey::IsInitialized | DataKey::ContractStats => StorageTier::Instance,
        DataKey::StudentProfile(_) | DataKey::ScholarshipRecord(_) => StorageTier::Persistent,
        DataKey::LastActivity => StorageTier::Temporary,
    }
}

/// The outcome of `initialize`'s checks, in the order they are made.
pub open spec fn init_outcome(initialized: bool, authorized: bool) -> Result<(), ContractError> {
    if initialized {
        Err(ContractError::AlreadyInitialized)
    } else if !authorized {
        Err(ContractError::Unauthorized)
    } else {
        Ok(())
    }
}

pub fn check_init(initialized: bool, authorized: bool) -> (r: Result<(), ContractError>)
    ensures
        r == init_outcome(initialized, authorized),
{
    if initialized {
        Err(ContractError::AlreadyInitialized)
    } else if !authorized {
        Err(ContractError::Unauthorized)
    } else {
        Ok(())
    }
}

/// The outcome of a release's checks, in the order they are made.
pub open spec fn release_outcome(
    initialized: bool,
    authorized: bool,
    stored_admin: Option<Seq<u8>>,
    admin: Seq<u8>,
    amount: i128,
) -> Result<(), ContractError> {
    if !initialized {
        Err(ContractError::NotInitialized)
    } else if !authorized {
        Err(ContractError::Unauthorized)
    } else if stored_admin.is_none() {
        Err(ContractError::NoAdminSet)
    } else if stored_admin.unwrap() != admin {
        Err(ContractError::WrongAdmin)
    } else if amount <= 0 {
        Err(ContractError::InvalidAmount)
    } else {
        Ok(())
    }
}

pub open spec fn admin_view(a: Option<&Address>) -> Option<Seq<u8>> {
    match a {
        Some(x) => Some(x@),
        None => None,
    }
}

pub fn check_release(
    initialized: bool,
    authorized: bool,
    stored_admin: Option<&Address>,
    admin: &Address,
    amount: i128,
) -> (r: Result<(), ContractError>)
    ensures
        r == release_outcome(initialized, authorized, admin_view(stored_admin), admin@, amount),
{
    if !initialized {
        return Err(ContractError::NotInitialized);
    }
    if !authorized {
        return Err(ContractError::Unauthorized);
    }
    match stored_admin {
        None => Err(ContractError::NoAdminSet),
        Some(stored) => {
            if !admin.same_as(stored) {
                Err(ContractError::WrongAdmin)
            } else if amount <= 0 {
                Err(ContractError::InvalidAmount)
            } else {
                Ok(())
            }
        },
    }
}

/// The outcome of `update_admin`'s checks, in the order they are made.
pub open spec fn update_admin_outcome(
    authorized: bool,
    stored_admin: Option<Seq<u8>>,
    current_admin: Seq<u8>,
) -> Result<(), ContractError> {
    if !authorized {
        Err(ContractError::Unauthorized)
    } else if stored_admin.is_none() {
        Err(ContractError::NoAdminSet)
    } else if stored_admin.unwrap() != current_admin {
        Err(ContractError::WrongAdmin)
    } else {
        Ok(())
    }
}

pub fn check_update_admin(
    authorized: bool,
    stored_admin: Option<&Address>,
    current_admin: &Address,
) -> (r: Result<(), ContractError>)
    ensures
        r == update_admin_outcome(authorized, admin_view(stored_admin), current_admin@),
{
    if !authorized {
        return Err(ContractError::Unauthorized);
    }
    match stored_admin {
        None => Err(ContractError::NoAdminSet),
        Some(stored) => {
            if !current_admin.same_as(stored) {
                Err(ContractError::WrongAdmin)
            } else {
                Ok(())
            }
        },
    }
}

pub open spec fn fits_i128(x: int) -> bool {
    i128::MIN <= x <= i128::MAX
}

/// Whether a release of `amount` keeps every counter and total in range,
/// given the totals and the student's profile, if any, before it.
pub open spec fn release_fits(stats: ContractStats, profile: Option<ProfileView>, amount: i128) -> bool {
    &&& stats.last_scholarship_id + 1 <= u64::MAX
    &&& fits_i128(stats.total_disbursed + amount)
    &&& stats.total_scholarships + 1 <= u32::MAX
    &&& match profile {
        None => stats.total_students + 1 <= u32::MAX,
        Some(p) => fits_i128(p.total_received + amount) && p.scholarship_count + 1 <= u32::MAX,
    }
}

/// Totals after a release of `amount`; `new_student` when the student had no profile.
pub open spec fn stats_after(stats: ContractStats, new_student: bool, amount: i128) -> ContractStats {
    ContractStats {
        total_disbursed: (stats.total_disbursed + amount) as i128,
        total_students: if new_student {
            (stats.total_students + 1) as u32
        } else {
            stats.total_students
        },
        total_scholarships: (stats.total_scholarships + 1) as u32,
        last_scholarship_id: (stats.last_scholarship_id + 1) as u64,
    }
}

/// The student's profile after a release of `amount` at time `now`.
pub open spec fn profile_after(
    profile: Option<ProfileView>,
    student: Seq<u8>,
    amount: i128,
    now: u64,
) -> ProfileView {
    match profile {
        None => ProfileView {
            address: student,
            total_received: amount,
            scholarship_count: 1,
            last_scholarship_date: now,
        },
        Some(p) => ProfileView {
            address: p.address,
            total_received: (p.total_received + amount) as i128,
            scholarship_count: (p.scholarship_count + 1) as u32,
            last_scholarship_date: now,
        },
    }
}

pub open spec fn profile_view(p: Option<StudentProfile>) -> Option<ProfileView> {
    match p {
        Some(x) => Some(x@),
        None => None,
    }
}

/// What one release writes: the new totals, the student's profile and the record.
pub struct Release {
    pub stats: ContractStats,
    pub profile: StudentProfile,
    pub record: ScholarshipRecord,
}

/// Computes what a release writes from what it reads: the totals and the
/// student's profile (absent on a first scholarship). The new record takes the
/// identifier after the last one issued.
pub fn apply_release(
    stats: &ContractStats,
    profile: Option<StudentProfile>,
    student: &Address,
    amount: i128,
    now: u64,
) -> (r: Result<Release, ContractError>)
    ensures
        release_fits(*stats, profile_view(profile), amount) <==> r is Ok,
        !release_fits(*stats, profile_view(profile), amount) ==> r == Err::<Release, ContractError>(
            ContractError::Overflow,
        ),
        r matches Ok(rel) ==> {
            &&& rel.stats == stats_after(*stats, profile is None, amount)
            &&& rel.profile@ == profile_after(profile_view(profile), student@, amount, now)
            &&& rel.record@ == (RecordView {
                student: student@,
                amount,
                timestamp: now,
                scholarship_id: (stats.last_scholarship_id + 1) as u64,
            })
        },
{
    let new_student = profile.is_none();
    let scholarship_id = match stats.last_scholarship_id.checked_add(1) {
        Some(v) => v,
        None => return Err(ContractError::Overflow),
    };
    let total_disbursed = match stats.total_disbursed.checked_add(amount) {
        Some(v) => v,
        None => return Err(ContractError::Overflow),
    };
    let total_scholarships = match stats.total_scholarships.checked_add(1) {
        Some(v) => v,
        None => return Err(ContractError::Overflow),
    };
    let total_students = if new_student {
        match stats.total_students.checked_add(1) {
            Some(v) => v,
            None => return Err(ContractError::Overflow),
        }
    } else {
        stats.total_students
    };
    let base = match profile {
        Some(p) => p,
        None => StudentProfile {
            address: student.duplicate(),
            total_received: 0,
            scholarship_count: 0,
            last_scholarship_date: 0,
        },
    };
    let total_received = match base.total_received.checked_add(amount) {
        Some(v) => v,
        None => return Err(ContractError::Overflow),
    };
    let scholarship_count = match base.scholarship_count.checked_add(1) {
        Some(v) => v,
        None => return Err(ContractError::Overflow),
    };
    let new_profile = StudentProfile {
        address: base.address,
        total_received,
        scholarship_count,
        last_scholarship_date: now,
    };
    let record = ScholarshipRecord {
        student: student.duplicate(),
        amount,
        timestamp: now,
        scholarship_id,
    };
    let new_stats = ContractStats {
        total_disbursed,
        total_students,
        total_scholarships,
        last_scholarship_id: scholarship_id,
    };
    Ok(Release { stats: new_stats, profile: new_profile, record })
}

/// The first identifier of the `count` most recent ones, never below 1.
pub open spec fn recent_start(last_id: u64, count: u32) -> int {
    if last_id >= count {
        last_id - count + 1
    } else {
        1
    }
}

pub fn recent_start_id(last_id: u64, count: u32) -> (r: u64)
    requires
        count > 0,
    ensures
        r == recent_start(last_id, count),
{
    if last_id >= count as u64 {
        last_id - (count as u64 - 1)
    } else {
        1
    }
}

/// A student's total received as stored, or 0 where no profile exists.
pub fn amount_or_zero(profile: Option<&StudentProfile>) -> (r: i128)
    ensures
        r == match profile {
            Some(p) => p.total_received,
            None => 0,
        },
{
    match profile {
        Some(p) => p.total_received,
        None => 0,
    }
}

/// A student's scholarship count as stored, or 0 where no profile exists.
pub fn count_or_zero(profile: Option<&StudentProfile>) -> (r: u32)
    ensures
        r == match profile {
            Some(p) => p.scholarship_count,
            None => 0,
        },
{
    match profile {
        Some(p) => p.scholarship_count,
        None => 0,
    }
}

/// The totals as stored, or all zero where none were ever written.
pub fn stats_or_zero(stats: Option<ContractStats>) -> (r: ContractStats)
    ensures
        r == match stats {
            Some(s) => s,
            None => zero_stats(),
        },
{
    match stats {
        Some(s) => s,
        None => ContractStats::zero(),
    }
}

} // verus!
