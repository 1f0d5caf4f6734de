use vstd::prelude::*;

use crate::address::Address;

verus! {

/// One disbursement, written once and never changed.
#[derive(Debug)]
pub struct ScholarshipRecord {
    pub student: Address,
    pub amount: i128,
    pub timestamp: u64,
    pub scholarship_id: u64,
}

/// What the ledger has accumulated for one student.
#[derive(Debug)]
pub struct StudentProfile {
    pub address: Address,
    pub total_received: i128,
    pub scholarship_count: u32,
    pub last_scholarship_date: u64,
}

/// Running totals over every disbursement.
#[derive(Clone, Copy, Debug, PartialEq, Eq, Structural)]
pub struct ContractStats {
    pub total_disbursed: i128,
    pub total_students: u32,
    pub total_scholarships: u32,
    pub last_scholarship_id: u64,
}

/// The key under which each entity is kept.
#[derive(Debug)]
pub enum DataKey {
    Admin,
    IsInitialized,
    ContractStats,
    StudentProfile(Address),
    ScholarshipRecord(u64),
    LastActivity,
}

/// The three stores of the host, by lifetime.
#[derive(Clone, Copy, Debug, PartialEq, Eq, Structural)]
pub enum StorageTier {
    /// Kept with the contract instance, across upgrades.
    Instance,
    /// Kept long-term, one entry per key, unbounded in count.
    Persistent,
    /// Short-lived: the host may drop it at any time.
    Temporary,
}

/// Why a mutating call was refused; a refused call changes nothing.
#[derive(Clone, Copy, Debug, PartialEq, Eq, Structural)]
pub enum ContractError {
    AlreadyInitialized,
    NotInitialized,
    Unauthorized,
    WrongAdmin,
    InvalidAmount,
    NoAdminSet,
    /// A counter or a total would leave the range of its integer type.
    Overflow,
}

/// A record with its student as a key.
pub struct RecordView {
    pub student: Seq<u8>,
    pub amount: i128,
    pub timestamp: u64,
    pub scholarship_id: u64,
}

/// A profile with its student as a key.
pub struct ProfileView {
    pub address: Seq<u8>,
    pub total_received: i128,
    pub scholarship_count: u32,
    pub last_scholarship_date: u64,
}

impl View for ScholarshipRecord {
    type V = RecordView;

    open spec fn view(&self) -> RecordView {
        RecordView {
            student: self.student@,
            amount: self.amount,
            timestamp: self.timestamp,
            scholarship_id: self.scholarship_id,
        }
    }
}

impl View for StudentProfile {
    type V = ProfileView;

    open spec fn view(&self) -> ProfileView {
        ProfileView {
            address: self.address@,
            total_received: self.total_received,
            scholarship_count: self.scholarship_count,
            last_scholarship_date: self.last_scholarship_date,
        }
    }
}

impl ScholarshipRecord {
    pub fn duplicate(&self) -> (r: ScholarshipRecord)
        ensures
            r@ == self@,
    {
        ScholarshipRecord {
            student: self.student.duplicate(),
            amount: self.amount,
            timestamp: self.timestamp,
            scholarship_id: self.scholarship_id,
        }
    }
}

impl StudentProfile {
    pub fn duplicate(&self) -> (r: StudentProfile)
        ensures
            r@ == self@,
    {
        StudentProfile {
            address: self.address.duplicate(),
            total_received: self.total_received,
            scholarship_count: self.scholarship_count,
            last_scholarship_date: self.last_scholarship_date,
        }
    }
}

impl Clone for ScholarshipRecord {
    fn clone(&self) -> (r: ScholarshipRecord)
        ensures
            r@ == self@,
    {
        self.duplicate()
    }
}

impl Clone for StudentProfile {
    fn clone(&self) -> (r: StudentProfile)
        ensures
            r@ == self@,
    {
        self.duplicate()
    }
}

impl PartialEq for ScholarshipRecord {
    fn eq(&self, other: &ScholarshipRecord) -> (r: bool) {
        self.student.same_as(&other.student) && self.amount == other.amount && self.timestamp
            == other.timestamp && self.scholarship_id == other.scholarship_id
    }
}

impl vstd::std_specs::cmp::PartialEqSpecImpl for ScholarshipRecord {
    open spec fn obeys_eq_spec() -> bool {
        true
    }

    open spec fn eq_spec(&self, other: &ScholarshipRecord) -> bool {
        self@ == other@
    }
}

impl Eq for ScholarshipRecord {
}

impl PartialEq for StudentProfile {
    fn eq(&self, other: &StudentProfile) -> (r: bool) {
        self.address.same_as(&other.address) && self.total_received == other.total_received
            && self.scholarship_count == other.scholarship_count && self.last_scholarship_date
            == other.last_scholarship_date
    }
}

impl vstd::std_specs::cmp::PartialEqSpecImpl for StudentProfile {
    open spec fn obeys_eq_spec() -> bool {
        true
    }

    open spec fn eq_spec(&self, other: &StudentProfile) -> bool {
        self@ == other@
    }
}

impl Eq for StudentProfile {
}

/// Totals before the first disbursement.
pub open spec fn zero_stats() -> ContractStats {
    ContractStats {
        total_disbursed: 0,
        total_students: 0,
        total_scholarships: 0,
        last_scholarship_id: 0,
    }
}

impl ContractStats {
    pub fn zero() -> (r: ContractStats)
        ensures
            r == zero_stats(),
    {
        ContractStats {
            total_disbursed: 0,
            total_students: 0,
            total_scholarships: 0,
            last_scholarship_id: 0,
        }
    }
}

} // verus!
