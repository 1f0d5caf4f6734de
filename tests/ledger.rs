use scholarship::rules::{
    apply_release, check_init, check_release, check_update_admin, key_tier, recent_start_id,
    stats_or_zero,
};
use scholarship::{
    Address, ContractError, ContractStats, DataKey, ScholarshipContract, StorageTier,
    StudentProfile,
};

fn addr(key: &str) -> Address {
    Address::new(key.as_bytes().to_vec())
}

fn fresh_with_admin(admin: &Address) -> ScholarshipContract {
    let mut c = ScholarshipContract::new();
    c.init(admin.clone(), true).unwrap();
    c
}

#[test]
fn test_initialization() {
    let admin = addr("GADMIN");
    let mut client = ScholarshipContract::new();
    client.init(admin.clone(), true).unwrap();
    assert_eq!(client.get_admin(), Some(admin.clone()));

    let stats = client.get_contract_stats();
    assert_eq!(stats.total_disbursed, 0);
    assert_eq!(stats.total_students, 0);
    assert_eq!(stats.total_scholarships, 0);

    assert!(client.is_initialized());
}

#[test]
fn test_scholarship_release() {
    let admin = addr("GADMIN");
    let student = addr("GSTUDENT");
    let mut client = fresh_with_admin(&admin);

    let scholarship_id = client.release_scholarship(&admin, true, &student, 1000, 0).unwrap();
    assert_eq!(scholarship_id, 1);

    assert_eq!(client.get_student_amount(&student), 1000);
    assert_eq!(client.get_total_disbursed(), 1000);
    assert_eq!(client.get_student_scholarship_count(&student), 1);

    let stats = client.get_contract_stats();
    assert_eq!(stats.total_disbursed, 1000);
    assert_eq!(stats.total_students, 1);
    assert_eq!(stats.total_scholarships, 1);
    assert_eq!(stats.last_scholarship_id, 1);

    let record = client.get_scholarship_record(1);
    assert!(record.is_some());
    let record = record.unwrap();
    assert_eq!(record.student, student);
    assert_eq!(record.amount, 1000);
    assert_eq!(record.scholarship_id, 1);
}

#[test]
fn test_multiple_scholarships() {
    let admin = addr("GADMIN");
    let student1 = addr("GSTUDENT1");
    let student2 = addr("GSTUDENT2");
    let mut client = fresh_with_admin(&admin);

    let id1 = client.release_scholarship(&admin, true, &student1, 1000, 0).unwrap();
    let id2 = client.release_scholarship(&admin, true, &student2, 1500, 0).unwrap();
    let id3 = client.release_scholarship(&admin, true, &student1, 500, 0).unwrap();

    assert_eq!(id1, 1);
    assert_eq!(id2, 2);
    assert_eq!(id3, 3);

    assert_eq!(client.get_student_amount(&student1), 1500);
    assert_eq!(client.get_student_amount(&student2), 1500);
    assert_eq!(client.get_total_disbursed(), 3000);
    assert_eq!(client.get_student_scholarship_count(&student1), 2);
    assert_eq!(client.get_student_scholarship_count(&student2), 1);

    let stats = client.get_contract_stats();
    assert_eq!(stats.total_disbursed, 3000);
    assert_eq!(stats.total_students, 2);
    assert_eq!(stats.total_scholarships, 3);
    assert_eq!(stats.last_scholarship_id, 3);
}

#[test]
fn test_admin_update() {
    let admin = addr("GADMIN");
    let new_admin = addr("GNEWADMIN");
    let mut client = fresh_with_admin(&admin);
    assert_eq!(client.get_admin(), Some(admin.clone()));

    client.update_admin(&admin, true, new_admin.clone()).unwrap();
    assert_eq!(client.get_admin(), Some(new_admin.clone()));
}

#[test]
fn test_student_profile() {
    let now: u64 = 1234567890;
    let admin = addr("GADMIN");
    let student = addr("GSTUDENT");
    let mut client = fresh_with_admin(&admin);

    assert_eq!(client.get_student_profile(&student), None);

    client.release_scholarship(&admin, true, &student, 1000, now).unwrap();

    let profile = client.get_student_profile(&student).unwrap();
    assert_eq!(profile.address, student);
    assert_eq!(profile.total_received, 1000);
    assert_eq!(profile.scholarship_count, 1);
    assert!(profile.last_scholarship_date > 0);
    assert_eq!(profile.last_scholarship_date, now);
}

#[test]
fn test_contract_stats() {
    let admin = addr("GADMIN");
    let student1 = addr("GSTUDENT1");
    let student2 = addr("GSTUDENT2");
    let mut client = fresh_with_admin(&admin);

    let stats = client.get_contract_stats();
    assert_eq!(stats.total_disbursed, 0);
    assert_eq!(stats.total_students, 0);
    assert_eq!(stats.total_scholarships, 0);
    assert_eq!(stats.last_scholarship_id, 0);

    client.release_scholarship(&admin, true, &student1, 1000, 0).unwrap();
    client.release_scholarship(&admin, true, &student2, 2000, 0).unwrap();
    client.release_scholarship(&admin, true, &student1, 500, 0).unwrap();

    let stats = client.get_contract_stats();
    assert_eq!(stats.total_disbursed, 3500);
    assert_eq!(stats.total_students, 2);
    assert_eq!(stats.total_scholarships, 3);
    assert_eq!(stats.last_scholarship_id, 3);
}

#[test]
fn test_recent_scholarships() {
    let admin = addr("GADMIN");
    let student1 = addr("GSTUDENT1");
    let student2 = addr("GSTUDENT2");
    let mut client = fresh_with_admin(&admin);

    client.release_scholarship(&admin, true, &student1, 1000, 0).unwrap();
    client.release_scholarship(&admin, true, &student2, 2000, 0).unwrap();
    client.release_scholarship(&admin, true, &student1, 500, 0).unwrap();

    let recent = client.get_recent_scholarships(2);
    assert_eq!(recent.len(), 2);

    assert_eq!(recent.get(0).unwrap().scholarship_id, 2);
    assert_eq!(recent.get(1).unwrap().scholarship_id, 3);
    assert_eq!(recent.get(0).unwrap().amount, 2000);
    assert_eq!(recent.get(1).unwrap().amount, 500);
}

#[test]
fn totals_follow_a_run_of_releases() {
    let admin = addr("GADMIN");
    let mut client = fresh_with_admin(&admin);
    let amounts: [i128; 4] = [7, 11, 13, 17];
    for (k, a) in amounts.iter().enumerate() {
        let student = addr(if k % 2 == 0 { "GEVEN" } else { "GODD" });
        let id = client.release_scholarship(&admin, true, &student, *a, 100 + k as u64).unwrap();
        assert_eq!(id, k as u64 + 1);
    }
    let stats = client.get_contract_stats();
    assert_eq!(stats.total_scholarships, 4);
    assert_eq!(stats.total_disbursed, 48);
    assert_eq!(client.get_student_amount(&addr("GEVEN")), 20);
    assert_eq!(client.get_student_amount(&addr("GODD")), 28);
    for id in 1..=4u64 {
        let record = client.get_scholarship_record(id).unwrap();
        assert_eq!(record.scholarship_id, id);
        assert_eq!(record.timestamp, 99 + id);
    }
    assert_eq!(client.get_scholarship_record(5), None);
    assert_eq!(client.get_scholarship_record(0), None);
    assert_eq!(client.get_last_activity(), Some(103));
}

#[test]
fn init_twice_is_refused_and_changes_nothing() {
    let first = addr("GFIRST");
    let second = addr("GSECOND");
    let mut client = fresh_with_admin(&first);
    let before = client.get_contract_stats();
    assert_eq!(client.init(second.clone(), true), Err(ContractError::AlreadyInitialized));
    assert_eq!(client.get_admin(), Some(first));
    assert_eq!(client.get_contract_stats(), before);
    assert!(client.is_initialized());
}

#[test]
fn init_without_proof_is_refused() {
    let mut client = ScholarshipContract::new();
    assert_eq!(client.init(addr("GADMIN"), false), Err(ContractError::Unauthorized));
    assert!(!client.is_initialized());
    assert_eq!(client.get_admin(), None);
}

#[test]
fn nonpositive_amounts_are_refused_and_change_nothing() {
    let admin = addr("GADMIN");
    let student = addr("GSTUDENT");
    let mut client = fresh_with_admin(&admin);
    client.release_scholarship(&admin, true, &student, 40, 5).unwrap();
    for amount in [0i128, -1, i128::MIN] {
        assert_eq!(
            client.release_scholarship(&admin, true, &student, amount, 9),
            Err(ContractError::InvalidAmount)
        );
    }
    let stats = client.get_contract_stats();
    assert_eq!(stats.total_disbursed, 40);
    assert_eq!(stats.total_scholarships, 1);
    assert_eq!(stats.last_scholarship_id, 1);
    assert_eq!(client.get_student_amount(&student), 40);
    assert_eq!(client.get_last_activity(), Some(5));
}

#[test]
fn recent_two_of_three() {
    let admin = addr("GADMIN");
    let mut client = fresh_with_admin(&admin);
    for k in 0..3u64 {
        client.release_scholarship(&admin, true, &addr("GS"), 10 + k as i128, k).unwrap();
    }
    let ids: Vec<u64> = client.get_recent_scholarships(2).iter().map(|r| r.scholarship_id).collect();
    assert_eq!(ids, vec![2, 3]);
}

#[test]
fn recent_edge_counts() {
    let admin = addr("GADMIN");
    let mut client = fresh_with_admin(&admin);
    assert!(client.get_recent_scholarships(5).is_empty());
    for k in 0..3u64 {
        client.release_scholarship(&admin, true, &addr("GS"), 1, k).unwrap();
    }
    assert!(client.get_recent_scholarships(0).is_empty());
    let all: Vec<u64> = client.get_recent_scholarships(3).iter().map(|r| r.scholarship_id).collect();
    assert_eq!(all, vec![1, 2, 3]);
    let more: Vec<u64> =
        client.get_recent_scholarships(u32::MAX).iter().map(|r| r.scholarship_id).collect();
    assert_eq!(more, vec![1, 2, 3]);
    assert!(ScholarshipContract::new().get_recent_scholarships(1).is_empty());
}

#[test]
fn unfunded_student_reads_zero_and_absent() {
    let admin = addr("GADMIN");
    let mut client = fresh_with_admin(&admin);
    client.release_scholarship(&admin, true, &addr("GOTHER"), 10, 1).unwrap();
    let nobody = addr("GNOBODY");
    assert_eq!(client.get_student_amount(&nobody), 0);
    assert_eq!(client.get_student_scholarship_count(&nobody), 0);
    assert_eq!(client.get_student_profile(&nobody), None);
}

#[test]
fn scenario_three_releases_two_students() {
    let a = addr("GA");
    let s1 = addr("GS1");
    let s2 = addr("GS2");
    let mut client = fresh_with_admin(&a);
    assert_eq!(client.release_scholarship(&a, true, &s1, 1000, 1), Ok(1));
    assert_eq!(
        client.get_contract_stats(),
        ContractStats {
            total_disbursed: 1000,
            total_students: 1,
            total_scholarships: 1,
            last_scholarship_id: 1
        }
    );
    assert_eq!(client.release_scholarship(&a, true, &s2, 1500, 2), Ok(2));
    assert_eq!(client.release_scholarship(&a, true, &s1, 500, 3), Ok(3));
    assert_eq!(
        client.get_contract_stats(),
        ContractStats {
            total_disbursed: 3000,
            total_students: 2,
            total_scholarships: 3,
            last_scholarship_id: 3
        }
    );
    assert_eq!(client.get_student_amount(&s1), 1500);
}

#[test]
fn former_admin_is_refused_after_update() {
    let a = addr("GA");
    let b = addr("GB");
    let student = addr("GSTUDENT");
    let mut client = fresh_with_admin(&a);
    assert_eq!(client.update_admin(&a, true, b.clone()), Ok(()));
    assert_eq!(
        client.release_scholarship(&a, true, &student, 100, 1),
        Err(ContractError::WrongAdmin)
    );
    assert_eq!(client.release_scholarship(&b, true, &student, 100, 1), Ok(1));
}

#[test]
fn release_errors_in_order() {
    let admin = addr("GADMIN");
    let student = addr("GSTUDENT");
    let mut blank = ScholarshipContract::new();
    assert_eq!(
        blank.release_scholarship(&admin, true, &student, 5, 1),
        Err(ContractError::NotInitialized)
    );
    let mut client = fresh_with_admin(&admin);
    assert_eq!(
        client.release_scholarship(&admin, false, &student, 5, 1),
        Err(ContractError::Unauthorized)
    );
    assert_eq!(
        client.release_scholarship(&addr("GINTRUDER"), true, &student, 5, 1),
        Err(ContractError::WrongAdmin)
    );
    assert_eq!(
        client.release_scholarship(&addr("GINTRUDER"), true, &student, 0, 1),
        Err(ContractError::WrongAdmin)
    );
    assert_eq!(client.get_contract_stats().total_scholarships, 0);
    assert_eq!(client.get_last_activity(), None);
}

#[test]
fn update_admin_errors() {
    let admin = addr("GADMIN");
    let mut blank = ScholarshipContract::new();
    assert_eq!(blank.update_admin(&admin, true, addr("GB")), Err(ContractError::NoAdminSet));
    let mut client = fresh_with_admin(&admin);
    assert_eq!(client.update_admin(&admin, false, addr("GB")), Err(ContractError::Unauthorized));
    assert_eq!(client.update_admin(&addr("GB"), true, addr("GC")), Err(ContractError::WrongAdmin));
    assert_eq!(client.get_admin(), Some(admin));
}

#[test]
fn overflow_of_total_is_refused() {
    let admin = addr("GADMIN");
    let mut client = fresh_with_admin(&admin);
    client.release_scholarship(&admin, true, &addr("GS1"), i128::MAX, 1).unwrap();
    assert_eq!(
        client.release_scholarship(&admin, true, &addr("GS2"), 1, 2),
        Err(ContractError::Overflow)
    );
    assert_eq!(client.get_contract_stats().total_scholarships, 1);
    assert_eq!(client.get_student_profile(&addr("GS2")), None);
}

#[test]
fn checks_and_release_step_by_values() {
    let admin = addr("GADMIN");
    assert_eq!(check_init(true, true), Err(ContractError::AlreadyInitialized));
    assert_eq!(check_init(false, false), Err(ContractError::Unauthorized));
    assert_eq!(check_init(false, true), Ok(()));
    assert_eq!(check_release(true, true, None, &admin, 5), Err(ContractError::NoAdminSet));
    assert_eq!(check_release(true, true, Some(&admin), &admin, -3), Err(ContractError::InvalidAmount));
    assert_eq!(check_release(true, true, Some(&admin), &admin, 3), Ok(()));
    assert_eq!(check_update_admin(true, Some(&admin), &admin), Ok(()));

    let stats = ContractStats {
        total_disbursed: 50,
        total_students: 2,
        total_scholarships: 4,
        last_scholarship_id: 4,
    };
    let student = addr("GS");
    let prior = StudentProfile {
        address: student.clone(),
        total_received: 20,
        scholarship_count: 2,
        last_scholarship_date: 7,
    };
    let rel = match apply_release(&stats, Some(prior), &student, 30, 9) {
        Ok(rel) => rel,
        Err(e) => panic!("release refused: {:?}", e),
    };
    assert_eq!(rel.stats.total_disbursed, 80);
    assert_eq!(rel.stats.total_students, 2);
    assert_eq!(rel.stats.total_scholarships, 5);
    assert_eq!(rel.stats.last_scholarship_id, 5);
    assert_eq!(rel.profile.total_received, 50);
    assert_eq!(rel.profile.scholarship_count, 3);
    assert_eq!(rel.profile.last_scholarship_date, 9);
    assert_eq!(rel.record.scholarship_id, 5);
    assert_eq!(rel.record.amount, 30);
    assert_eq!(rel.record.timestamp, 9);

    let first = match apply_release(&stats, None, &student, 30, 9) {
        Ok(rel) => rel,
        Err(e) => panic!("release refused: {:?}", e),
    };
    assert_eq!(first.stats.total_students, 3);
    assert_eq!(first.profile.total_received, 30);
    assert_eq!(first.profile.scholarship_count, 1);
    assert_eq!(first.profile.address, student);

    let full = ContractStats { last_scholarship_id: u64::MAX, ..stats };
    assert!(matches!(apply_release(&full, None, &student, 1, 1), Err(ContractError::Overflow)));
}

#[test]
fn window_start_and_default_totals() {
    assert_eq!(recent_start_id(3, 2), 2);
    assert_eq!(recent_start_id(3, 3), 1);
    assert_eq!(recent_start_id(3, 10), 1);
    assert_eq!(recent_start_id(0, 1), 1);
    assert_eq!(recent_start_id(u64::MAX, 1), u64::MAX);
    assert_eq!(stats_or_zero(None).total_disbursed, 0);
    assert_eq!(stats_or_zero(None).last_scholarship_id, 0);
    assert_eq!(ScholarshipContract::new().get_contract_stats().total_scholarships, 0);
    assert_eq!(ScholarshipContract::new().get_total_disbursed(), 0);
}

#[test]
fn keys_live_in_their_tiers() {
    assert_eq!(key_tier(&DataKey::Admin), StorageTier::Instance);
    assert_eq!(key_tier(&DataKey::IsInitialized), StorageTier::Instance);
    assert_eq!(key_tier(&DataKey::ContractStats), StorageTier::Instance);
    assert_eq!(key_tier(&DataKey::StudentProfile(addr("GS"))), StorageTier::Persistent);
    assert_eq!(key_tier(&DataKey::ScholarshipRecord(4)), StorageTier::Persistent);
    assert_eq!(key_tier(&DataKey::LastActivity), StorageTier::Temporary);
}

#[test]
fn addresses_compare_by_key() {
    let a = addr("GABC");
    assert!(a.same_as(&addr("GABC")));
    assert!(!a.same_as(&addr("GABD")));
    assert!(!a.same_as(&addr("GAB")));
    assert_eq!(a.duplicate(), a);
}
