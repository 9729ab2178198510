use pallet_member::registry::Registry;
use pallet_member::types::{Config, Error, Event, KycStatus, MemberType, Origin};
use pallet_member::uuid::generate_member_uuid;

fn test_config() -> Config {
    Config {
        max_first_name_length: 64,
        max_last_name_length: 64,
        max_email_length: 128,
        max_address_length: 256,
        max_mobile_length: 16,
    }
}

fn register_default(reg: &mut Registry, account: u64, email: &str, now: u64) -> Result<(), Error> {
    reg.register_member(
        Origin::Signed(account),
        MemberType::General,
        b"John".to_vec(),
        b"Doe".to_vec(),
        b"2000-01-01".to_vec(),
        email.as_bytes().to_vec(),
        b"1 Main Street".to_vec(),
        b"+12345678".to_vec(),
        now,
    )
}

#[test]
fn register_valid_member_increments_count() {
    let mut reg = Registry::new(test_config());
    assert_eq!(reg.total_members(), 0);
    let r = reg.register_member(
        Origin::Signed(1),
        MemberType::Professional,
        b"Ada".to_vec(),
        b"Lovelace".to_vec(),
        b"2000-01-01".to_vec(),
        b"a@b.com".to_vec(),
        b"12 Loop Road".to_vec(),
        b"+12345678".to_vec(),
        5,
    );
    assert_eq!(r, Ok(()));
    assert_eq!(reg.total_members(), 1);
    assert!(reg.has_member_profile(1));
    assert!(reg.is_email_registered(&b"a@b.com".to_vec()));
}

#[test]
fn register_twice_same_account_fails() {
    let mut reg = Registry::new(test_config());
    assert_eq!(register_default(&mut reg, 1, "a@b.com", 5), Ok(()));
    let second = register_default(&mut reg, 1, "other@b.com", 6);
    assert_eq!(second, Err(Error::MemberAlreadyExists));
    assert_eq!(reg.total_members(), 1);
}

#[test]
fn register_invalid_email_writes_nothing() {
    let mut reg = Registry::new(test_config());
    let r = register_default(&mut reg, 1, "not-an-email", 5);
    assert_eq!(r, Err(Error::InvalidEmailFormat));
    assert_eq!(reg.total_members(), 0);
    assert!(!reg.has_member_profile(1));
    assert!(reg.events().is_empty());
}

#[test]
fn register_duplicate_email_fails() {
    let mut reg = Registry::new(test_config());
    assert_eq!(register_default(&mut reg, 1, "x@y.com", 5), Ok(()));
    let r = register_default(&mut reg, 2, "x@y.com", 6);
    assert_eq!(r, Err(Error::EmailAlreadyExists));
    assert_eq!(reg.total_members(), 1);
    assert!(!reg.has_member_profile(2));
}

#[test]
fn update_address_resets_approved_kyc() {
    let mut reg = Registry::new(test_config());
    assert_eq!(register_default(&mut reg, 1, "a@b.com", 5), Ok(()));
    let member_id = reg.get_member_uuid_by_account(1).unwrap();
    let r = reg.admin_update_kyc_status(Origin::Root, member_id, KycStatus::Approved, 6);
    assert_eq!(r, Ok(()));
    assert_eq!(
        reg.get_member_by_account(1).unwrap().kyc_status,
        KycStatus::Approved
    );
    let r = reg.update_member(
        Origin::Signed(1),
        None,
        None,
        None,
        None,
        None,
        Some(b"9 New Street".to_vec()),
        None,
        7,
    );
    assert_eq!(r, Ok(()));
    let m = reg.get_member_by_account(1).unwrap();
    assert_eq!(m.kyc_status, KycStatus::Unapproved);
    assert_eq!(m.address, b"9 New Street".to_vec());
    assert_eq!(m.updated_at, 7);
}

#[test]
fn update_with_no_arguments_is_a_silent_success() {
    let mut reg = Registry::new(test_config());
    assert_eq!(register_default(&mut reg, 1, "a@b.com", 5), Ok(()));
    let events_before = reg.events().len();
    let r = reg.update_member(Origin::Signed(1), None, None, None, None, None, None, None, 9);
    assert_eq!(r, Ok(()));
    assert_eq!(reg.events().len(), events_before);
    let m = reg.get_member_by_account(1).unwrap();
    assert_eq!(m.updated_at, 5);
    assert_eq!(m.kyc_status, KycStatus::Unapproved);
}

#[test]
fn update_to_identical_values_is_a_silent_success() {
    let mut reg = Registry::new(test_config());
    assert_eq!(register_default(&mut reg, 1, "a@b.com", 5), Ok(()));
    let events_before = reg.events().len();
    let r = reg.update_member(
        Origin::Signed(1),
        Some(MemberType::General),
        Some(b"John".to_vec()),
        None,
        Some(b"2000-01-01".to_vec()),
        Some(b"a@b.com".to_vec()),
        None,
        Some(b"+12345678".to_vec()),
        9,
    );
    assert_eq!(r, Ok(()));
    assert_eq!(reg.events().len(), events_before);
    assert_eq!(reg.get_member_by_account(1).unwrap().updated_at, 5);
}

#[test]
fn update_email_moves_the_email_index() {
    let mut reg = Registry::new(test_config());
    assert_eq!(register_default(&mut reg, 1, "old@y.com", 5), Ok(()));
    let member_id = reg.get_member_uuid_by_account(1).unwrap();
    let r = reg.update_member(
        Origin::Signed(1),
        None,
        None,
        None,
        None,
        Some(b"new@y.com".to_vec()),
        None,
        None,
        6,
    );
    assert_eq!(r, Ok(()));
    assert!(!reg.is_email_registered(&b"old@y.com".to_vec()));
    assert!(reg.is_email_registered(&b"new@y.com".to_vec()));
    assert_eq!(reg.get_member_by_account(1).unwrap().member_id, member_id);
    match reg.events().last().unwrap() {
        Event::MemberUpdated { previous_email, new_email, updated_by, .. } => {
            assert_eq!(previous_email.as_ref().unwrap(), &b"old@y.com".to_vec());
            assert_eq!(new_email, &b"new@y.com".to_vec());
            assert_eq!(*updated_by, 1);
        }
        _ => panic!("expected a member update event"),
    }
}

#[test]
fn update_to_anothers_email_fails() {
    let mut reg = Registry::new(test_config());
    assert_eq!(register_default(&mut reg, 1, "a@y.com", 5), Ok(()));
    assert_eq!(register_default(&mut reg, 2, "b@y.com", 6), Ok(()));
    let r = reg.update_member(
        Origin::Signed(2),
        None,
        None,
        None,
        None,
        Some(b"a@y.com".to_vec()),
        None,
        None,
        7,
    );
    assert_eq!(r, Err(Error::EmailAlreadyExists));
    assert_eq!(reg.get_member_by_account(2).unwrap().email, b"b@y.com".to_vec());
}

#[test]
fn update_without_profile_fails() {
    let mut reg = Registry::new(test_config());
    let r = reg.update_member(
        Origin::Signed(3),
        None,
        None,
        None,
        None,
        None,
        Some(b"somewhere".to_vec()),
        None,
        7,
    );
    assert_eq!(r, Err(Error::MemberNotFound));
}

#[test]
fn update_field_over_bound_fails() {
    let mut reg = Registry::new(test_config());
    assert_eq!(register_default(&mut reg, 1, "a@b.com", 5), Ok(()));
    let long_name = vec![b'x'; 65];
    let r = reg.update_member(
        Origin::Signed(1),
        None,
        Some(long_name),
        None,
        None,
        None,
        None,
        None,
        6,
    );
    assert_eq!(r, Err(Error::InvalidMemberData));
    assert_eq!(reg.get_member_by_account(1).unwrap().first_name, b"John".to_vec());
}

#[test]
fn register_field_over_bound_fails() {
    let mut reg = Registry::new(test_config());
    let r = reg.register_member(
        Origin::Signed(1),
        MemberType::General,
        vec![b'x'; 65],
        b"Doe".to_vec(),
        b"2000-01-01".to_vec(),
        b"a@b.com".to_vec(),
        b"1 Main Street".to_vec(),
        b"+12345678".to_vec(),
        5,
    );
    assert_eq!(r, Err(Error::InvalidMemberData));
    assert_eq!(reg.total_members(), 0);
}

#[test]
fn register_rejects_bad_mobile_and_date() {
    let mut reg = Registry::new(test_config());
    let r = reg.register_member(
        Origin::Signed(1),
        MemberType::General,
        b"John".to_vec(),
        b"Doe".to_vec(),
        b"2000-01-01".to_vec(),
        b"a@b.com".to_vec(),
        b"1 Main Street".to_vec(),
        b"12ab5678".to_vec(),
        5,
    );
    assert_eq!(r, Err(Error::InvalidMobileFormat));
    let r = reg.register_member(
        Origin::Signed(1),
        MemberType::General,
        b"John".to_vec(),
        b"Doe".to_vec(),
        b"2000/01/01".to_vec(),
        b"a@b.com".to_vec(),
        b"1 Main Street".to_vec(),
        b"+12345678".to_vec(),
        5,
    );
    assert_eq!(r, Err(Error::InvalidDateFormat));
    assert_eq!(reg.total_members(), 0);
}

#[test]
fn registration_event_carries_id_account_and_email() {
    let mut reg = Registry::new(test_config());
    assert_eq!(register_default(&mut reg, 9, "a@b.com", 5), Ok(()));
    let member_id = reg.get_member_uuid_by_account(9).unwrap();
    match reg.events().last().unwrap() {
        Event::MemberRegistered { member_id: id, account, email } => {
            assert_eq!(*id, member_id);
            assert_eq!(*account, 9);
            assert_eq!(email, &b"a@b.com".to_vec());
        }
        _ => panic!("expected a registration event"),
    }
}

#[test]
fn member_id_is_the_blake2_digest_of_account_and_time() {
    let mut reg = Registry::new(test_config());
    assert_eq!(register_default(&mut reg, 7, "a@b.com", 11), Ok(()));
    let member_id = reg.get_member_uuid_by_account(7).unwrap();
    let mut preimage = Vec::new();
    preimage.extend_from_slice(&7u64.to_le_bytes());
    preimage.extend_from_slice(&11u64.to_le_bytes());
    let expected = <sp_core::Blake2Hasher as sp_core::Hasher>::hash(&preimage);
    assert_eq!(member_id, expected.0);
    assert_eq!(member_id, generate_member_uuid(7, 11));
}

#[test]
fn distinct_registrations_get_distinct_ids() {
    let mut reg = Registry::new(test_config());
    assert_eq!(register_default(&mut reg, 1, "a@b.com", 5), Ok(()));
    assert_eq!(register_default(&mut reg, 2, "c@d.com", 5), Ok(()));
    let id1 = reg.get_member_uuid_by_account(1).unwrap();
    let id2 = reg.get_member_uuid_by_account(2).unwrap();
    assert_ne!(id1, id2);
    assert_eq!(generate_member_uuid(1, 5), generate_member_uuid(1, 5));
    assert_ne!(generate_member_uuid(1, 5), generate_member_uuid(1, 6));
}

#[test]
fn submit_kyc_stores_hashes_and_keeps_status() {
    let mut reg = Registry::new(test_config());
    assert_eq!(register_default(&mut reg, 1, "a@b.com", 5), Ok(()));
    let member_id = reg.get_member_uuid_by_account(1).unwrap();
    assert_eq!(
        reg.admin_update_kyc_status(Origin::Root, member_id, KycStatus::Approved, 6),
        Ok(())
    );
    let kyc = [3u8; 32];
    let photo = [4u8; 32];
    let r = reg.submit_kyc(Origin::Signed(1), kyc, Some(photo), 7);
    assert_eq!(r, Ok(()));
    let m = reg.get_member_by_account(1).unwrap();
    assert_eq!(m.kyc_hash, Some(kyc));
    assert_eq!(m.photo_hash, Some(photo));
    assert_eq!(m.kyc_status, KycStatus::Approved);
    assert_eq!(m.updated_at, 7);
}

#[test]
fn submit_kyc_twice_with_same_hash_is_idempotent() {
    let mut reg = Registry::new(test_config());
    assert_eq!(register_default(&mut reg, 1, "a@b.com", 5), Ok(()));
    let kyc = [3u8; 32];
    assert_eq!(reg.submit_kyc(Origin::Signed(1), kyc, None, 6), Ok(()));
    let status_before = reg.get_member_by_account(1).unwrap().kyc_status;
    assert_eq!(reg.submit_kyc(Origin::Signed(1), kyc, None, 7), Ok(()));
    let m = reg.get_member_by_account(1).unwrap();
    assert_eq!(m.kyc_hash, Some(kyc));
    assert_eq!(m.kyc_status, status_before);
    assert_eq!(m.photo_hash, None);
}

#[test]
fn submit_kyc_without_profile_fails() {
    let mut reg = Registry::new(test_config());
    let r = reg.submit_kyc(Origin::Signed(1), [3u8; 32], None, 6);
    assert_eq!(r, Err(Error::MemberNotFound));
}

#[test]
fn signed_kyc_status_update_reports_the_caller() {
    let mut reg = Registry::new(test_config());
    assert_eq!(register_default(&mut reg, 1, "a@b.com", 5), Ok(()));
    let member_id = reg.get_member_uuid_by_account(1).unwrap();
    let r = reg.update_kyc_status(Origin::Signed(2), member_id, KycStatus::Rejected, 6);
    assert_eq!(r, Ok(()));
    let m = reg.get_member_by_account(1).unwrap();
    assert_eq!(m.kyc_status, KycStatus::Rejected);
    match reg.events().last().unwrap() {
        Event::KycStatusUpdated { updated_by, old_status, new_status, .. } => {
            assert_eq!(*updated_by, 2);
            assert_eq!(*old_status, KycStatus::Unapproved);
            assert_eq!(*new_status, KycStatus::Rejected);
        }
        _ => panic!("expected a status update event"),
    }
}

#[test]
fn admin_kyc_status_update_reports_the_owner() {
    let mut reg = Registry::new(test_config());
    assert_eq!(register_default(&mut reg, 1, "a@b.com", 5), Ok(()));
    let member_id = reg.get_member_uuid_by_account(1).unwrap();
    assert_eq!(
        reg.admin_update_kyc_status(Origin::Signed(2), member_id, KycStatus::Approved, 6),
        Err(Error::BadOrigin)
    );
    assert_eq!(
        reg.admin_update_kyc_status(Origin::Root, member_id, KycStatus::Approved, 6),
        Ok(())
    );
    match reg.events().last().unwrap() {
        Event::KycStatusUpdated { updated_by, new_status, .. } => {
            assert_eq!(*updated_by, 1);
            assert_eq!(*new_status, KycStatus::Approved);
        }
        _ => panic!("expected a status update event"),
    }
}

#[test]
fn kyc_status_update_for_unknown_member_fails() {
    let mut reg = Registry::new(test_config());
    let r = reg.update_kyc_status(Origin::Signed(2), [9u8; 32], KycStatus::Approved, 6);
    assert_eq!(r, Err(Error::MemberNotFound));
    let r = reg.admin_update_kyc_status(Origin::Root, [9u8; 32], KycStatus::Approved, 6);
    assert_eq!(r, Err(Error::MemberNotFound));
}

#[test]
fn get_member_surfaces_the_full_profile_in_an_event() {
    let mut reg = Registry::new(test_config());
    assert_eq!(register_default(&mut reg, 1, "a@b.com", 5), Ok(()));
    assert_eq!(reg.get_member(Origin::Signed(2)), Err(Error::MemberNotFound));
    assert_eq!(reg.get_member(Origin::Signed(1)), Ok(()));
    match reg.events().last().unwrap() {
        Event::MemberDataRetrieved {
            accessed_by,
            first_name,
            last_name,
            date_of_birth,
            email,
            kyc_status,
            created_at,
            ..
        } => {
            assert_eq!(*accessed_by, 1);
            assert_eq!(first_name, &b"John".to_vec());
            assert_eq!(last_name, &b"Doe".to_vec());
            assert_eq!(date_of_birth, &b"2000-01-01".to_vec());
            assert_eq!(email, &b"a@b.com".to_vec());
            assert_eq!(*kyc_status, KycStatus::Unapproved);
            assert_eq!(*created_at, 5);
        }
        _ => panic!("expected a data retrieval event"),
    }
}

#[test]
fn register_from_root_origin_fails() {
    let mut reg = Registry::new(test_config());
    let r = reg.register_member(
        Origin::Root,
        MemberType::General,
        b"John".to_vec(),
        b"Doe".to_vec(),
        b"2000-01-01".to_vec(),
        b"a@b.com".to_vec(),
        b"1 Main Street".to_vec(),
        b"+12345678".to_vec(),
        5,
    );
    assert_eq!(r, Err(Error::BadOrigin));
}

#[test]
fn example_counter_round_trip() {
    let mut reg = Registry::new(test_config());
    assert_eq!(reg.cause_error(Origin::Signed(1)), Err(Error::NoneValue));
    assert_eq!(reg.do_something(Origin::Signed(1), 41), Ok(()));
    assert_eq!(reg.something(), Some(41));
    assert_eq!(reg.cause_error(Origin::Signed(1)), Ok(()));
    assert_eq!(reg.something(), Some(42));
    assert_eq!(reg.do_something(Origin::Signed(1), u32::MAX), Ok(()));
    assert_eq!(reg.cause_error(Origin::Signed(1)), Err(Error::StorageOverflow));
    assert_eq!(reg.something(), Some(u32::MAX));
}

#[test]
fn lookups_by_uuid_and_account_agree() {
    let mut reg = Registry::new(test_config());
    assert_eq!(register_default(&mut reg, 1, "a@b.com", 5), Ok(()));
    let id = reg.get_member_uuid_by_account(1).unwrap();
    let by_uuid = reg.get_member_by_uuid(&id).unwrap();
    assert_eq!(by_uuid.created_by, 1);
    assert_eq!(by_uuid.email, b"a@b.com".to_vec());
    assert!(reg.get_member_by_uuid(&[8u8; 32]).is_none());
    assert!(reg.get_member_by_account(2).is_none());
    assert!(reg.get_member_uuid_by_account(2).is_none());
}
