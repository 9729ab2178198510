use pallet_member::registry::Registry;
use pallet_member::types::{Config, Error, KycStatus, MemberType, Origin};

#[test]
fn defaults_are_unapproved_and_general() {
    assert_eq!(KycStatus::default(), KycStatus::Unapproved);
    assert_eq!(MemberType::default(), MemberType::General);
}

#[test]
fn many_registrations_stay_pairwise_distinct() {
    let config = Config {
        max_first_name_length: 64,
        max_last_name_length: 64,
        max_email_length: 128,
        max_address_length: 256,
        max_mobile_length: 16,
    };
    let mut reg = Registry::new(config);
    let mut ids = Vec::new();
    for account in 0u64..8 {
        let email = format!("user{account}@example.com");
        let r = reg.register_member(
            Origin::Signed(account),
            MemberType::UniversityStudent,
            b"First".to_vec(),
            b"Last".to_vec(),
            b"1990-12-31".to_vec(),
            email.into_bytes(),
            b"Address".to_vec(),
            b"7654321".to_vec(),
            account,
        );
        assert_eq!(r, Ok(()));
        ids.push(reg.get_member_uuid_by_account(account).unwrap());
    }
    assert_eq!(reg.total_members(), 8);
    for i in 0..ids.len() {
        for j in 0..ids.len() {
            if i != j {
                assert_ne!(ids[i], ids[j]);
            }
        }
    }
    // A fresh account may not take an email that is already bound.
    let r = reg.register_member(
        Origin::Signed(99),
        MemberType::General,
        b"First".to_vec(),
        b"Last".to_vec(),
        b"1990-12-31".to_vec(),
        b"user3@example.com".to_vec(),
        b"Address".to_vec(),
        b"7654321".to_vec(),
        99,
    );
    assert_eq!(r, Err(Error::EmailAlreadyExists));
}
