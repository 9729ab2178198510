//! Data model of the member registry.
//!
//! Executable types mirror what is kept on chain; each compound type has a
//! ghost view (`MemberV`, `EventV`) over mathematical sequences that the
//! contracts speak about.

use vstd::prelude::*;

verus! {

/// An authenticated account, the unit of ownership.
pub type AccountId = u64;

/// A 32-byte hash value, used for member identifiers and content references.
pub type H256 = [u8; 32];

/// Member identifiers are 32-byte hashes derived at registration.
pub type MemberUuid = H256;

/// The origin of a call: an ordinary signed account, or the privileged root.
#[derive(Clone, Copy, PartialEq, Eq, Structural, Debug)]
pub enum Origin {
    Signed(AccountId),
    Root,
}

/// KYC verification state of a member.
#[derive(Clone, Copy, PartialEq, Eq, Structural, Debug)]
pub enum KycStatus {
    Unapproved,
    Approved,
    Rejected,
}

impl Default for KycStatus {
    /// A fresh member starts unapproved.
    fn default() -> (r: Self)
        ensures
            r == KycStatus::Unapproved,
    {
        KycStatus::Unapproved
    }
}

/// Kind of membership a profile holds.
#[derive(Clone, Copy, PartialEq, Eq, Structural, Debug)]
pub enum MemberType {
    UniversityStudent,
    SchoolStudent,
    Professional,
    General,
}

impl Default for MemberType {
    fn default() -> (r: Self)
        ensures
            r == MemberType::General,
    {
        MemberType::General
    }
}

/// Typed failures of the registry's operations.
#[derive(Clone, Copy, PartialEq, Eq, Structural, Debug)]
pub enum Error {
    /// The caller is not an acceptable origin for the operation.
    BadOrigin,
    /// No value was previously stored by the example counter.
    NoneValue,
    /// The example counter would overflow.
    StorageOverflow,
    /// The referenced member or account has no profile.
    MemberNotFound,
    /// The account already owns a member profile.
    MemberAlreadyExists,
    /// The email address is already registered.
    EmailAlreadyExists,
    /// The caller does not own this member profile.
    NotMemberOwner,
    /// A field exceeds its configured length bound.
    InvalidMemberData,
    /// Access to the profile was denied.
    AccessDenied,
    /// No KYC documents were found.
    KycNotFound,
    /// The KYC status transition is not allowed.
    InvalidKycStatusTransition,
    /// The new email equals the current one.
    EmailUnchanged,
    /// Only an administrator may update the KYC status.
    UnauthorizedKycUpdate,
    /// The email address is not well formed.
    InvalidEmailFormat,
    /// The mobile number is not well formed.
    InvalidMobileFormat,
    /// The date is not in `YYYY-MM-DD` form.
    InvalidDateFormat,
}

/// Marker under which the host runtime declares the bounds its staking
/// benchmarks assume. The registry itself makes no use of it; it is kept
/// for interface compatibility with the runtime composition.
pub struct StakingBenchmarkingConfig;

/// Length bounds for the variable-length profile fields, fixed at
/// deployment.
#[derive(Clone, Copy, PartialEq, Eq, Structural, Debug)]
pub struct Config {
    pub max_first_name_length: u32,
    pub max_last_name_length: u32,
    pub max_email_length: u32,
    pub max_address_length: u32,
    pub max_mobile_length: u32,
}

/// The canonical profile record of one member.
pub struct Member {
    /// Unique identifier, derived at registration and never changed.
    pub member_id: MemberUuid,
    pub member_type: MemberType,
    pub first_name: Vec<u8>,
    pub last_name: Vec<u8>,
    /// Date of birth in `YYYY-MM-DD` form.
    pub date_of_birth: Vec<u8>,
    /// Globally unique email address.
    pub email: Vec<u8>,
    pub address: Vec<u8>,
    pub mobile: Vec<u8>,
    pub kyc_status: KycStatus,
    /// Content reference of a submitted photo, if any.
    pub photo_hash: Option<H256>,
    /// Content reference of submitted KYC documents, if any.
    pub kyc_hash: Option<H256>,
    /// Chain time of registration.
    pub created_at: u64,
    /// Chain time of the last write to this record.
    pub updated_at: u64,
    /// The registering account, the sole owner; never changed.
    pub created_by: AccountId,
}

/// Mathematical view of a member record.
pub struct MemberV {
    pub member_id: Seq<u8>,
    pub member_type: MemberType,
    pub first_name: Seq<u8>,
    pub last_name: Seq<u8>,
    pub date_of_birth: Seq<u8>,
    pub email: Seq<u8>,
    pub address: Seq<u8>,
    pub mobile: Seq<u8>,
    pub kyc_status: KycStatus,
    pub photo_hash: Option<Seq<u8>>,
    pub kyc_hash: Option<Seq<u8>>,
    pub created_at: u64,
    pub updated_at: u64,
    pub created_by: AccountId,
}

/// View of an optional hash as an optional byte sequence.
pub open spec fn view_opt_hash(o: Option<H256>) -> Option<Seq<u8>> {
    match o {
        Some(h) => Some(h@),
        None => None,
    }
}

/// View of an optional byte string as an optional byte sequence.
pub open spec fn view_opt_bytes(o: Option<Vec<u8>>) -> Option<Seq<u8>> {
    match o {
        Some(v) => Some(v@),
        None => None,
    }
}

impl View for Member {
    type V = MemberV;

    open spec fn view(&self) -> MemberV {
        MemberV {
            member_id: self.member_id@,
            member_type: self.member_type,
            first_name: self.first_name@,
            last_name: self.last_name@,
            date_of_birth: self.date_of_birth@,
            email: self.email@,
            address: self.address@,
            mobile: self.mobile@,
            kyc_status: self.kyc_status,
            photo_hash: view_opt_hash(self.photo_hash),
            kyc_hash: view_opt_hash(self.kyc_hash),
            created_at: self.created_at,
            updated_at: self.updated_at,
            created_by: self.created_by,
        }
    }
}

/// Notifications appended to the host ledger's event log.
pub enum Event {
    /// The example counter was set.
    SomethingStored { something: u32, who: AccountId },
    /// A new member was registered.
    MemberRegistered { member_id: MemberUuid, account: AccountId, email: Vec<u8> },
    /// A member profile was edited.
    MemberUpdated {
        member_id: MemberUuid,
        updated_by: AccountId,
        /// The email before the update, if the update changed it.
        previous_email: Option<Vec<u8>>,
        new_email: Vec<u8>,
    },
    /// KYC documents were submitted.
    KycSubmitted { member_id: MemberUuid, submitted_by: AccountId, kyc_hash: H256 },
    /// The KYC status of a member was changed.
    KycStatusUpdated {
        member_id: MemberUuid,
        updated_by: AccountId,
        old_status: KycStatus,
        new_status: KycStatus,
    },
    /// A member read their own full profile.
    MemberDataRetrieved {
        member_id: MemberUuid,
        accessed_by: AccountId,
        member_type: MemberType,
        first_name: Vec<u8>,
        last_name: Vec<u8>,
        date_of_birth: Vec<u8>,
        email: Vec<u8>,
        address: Vec<u8>,
        mobile: Vec<u8>,
        photo_hash: Option<H256>,
        kyc_status: KycStatus,
        kyc_hash: Option<H256>,
        created_at: u64,
        updated_at: u64,
    },
}

/// Mathematical view of an event.
pub enum EventV {
    SomethingStored { something: u32, who: AccountId },
    MemberRegistered { member_id: Seq<u8>, account: AccountId, email: Seq<u8> },
    MemberUpdated {
        member_id: Seq<u8>,
        updated_by: AccountId,
        previous_email: Option<Seq<u8>>,
        new_email: Seq<u8>,
    },
    KycSubmitted { member_id: Seq<u8>, submitted_by: AccountId, kyc_hash: Seq<u8> },
    KycStatusUpdated {
        member_id: Seq<u8>,
        updated_by: AccountId,
        old_status: KycStatus,
        new_status: KycStatus,
    },
    MemberDataRetrieved {
        member_id: Seq<u8>,
        accessed_by: AccountId,
        member_type: MemberType,
        first_name: Seq<u8>,
        last_name: Seq<u8>,
        date_of_birth: Seq<u8>,
        email: Seq<u8>,
        address: Seq<u8>,
        mobile: Seq<u8>,
        photo_hash: Option<Seq<u8>>,
        kyc_status: KycStatus,
        kyc_hash: Option<Seq<u8>>,
        created_at: u64,
        updated_at: u64,
    },
}

impl View for Event {
    type V = EventV;

    open spec fn view(&self) -> EventV {
        match self {
            Event::SomethingStored { something, who } => EventV::SomethingStored {
                something: *something,
                who: *who,
            },
            Event::MemberRegistered { member_id, account, email } => EventV::MemberRegistered {
                member_id: member_id@,
                account: *account,
                email: email@,
            },
            Event::MemberUpdated { member_id, updated_by, previous_email, new_email } => {
                EventV::MemberUpdated {
                    member_id: member_id@,
                    updated_by: *updated_by,
                    previous_email: match previous_email {
                        Some(e) => Some(e@),
                        None => None,
                    },
                    new_email: new_email@,
                }
            },
            Event::KycSubmitted { member_id, submitted_by, kyc_hash } => EventV::KycSubmitted {
                member_id: member_id@,
                submitted_by: *submitted_by,
                kyc_hash: kyc_hash@,
            },
            Event::KycStatusUpdated { member_id, updated_by, old_status, new_status } => {
                EventV::KycStatusUpdated {
                    member_id: member_id@,
                    updated_by: *updated_by,
                    old_status: *old_status,
                    new_status: *new_status,
                }
            },
            Event::MemberDataRetrieved {
                member_id,
                accessed_by,
                member_type,
                first_name,
                last_name,
                date_of_birth,
                email,
                address,
                mobile,
                photo_hash,
                kyc_status,
                kyc_hash,
                created_at,
                updated_at,
            } => EventV::MemberDataRetrieved {
                member_id: member_id@,
                accessed_by: *accessed_by,
                member_type: *member_type,
                first_name: first_name@,
                last_name: last_name@,
                date_of_birth: date_of_birth@,
                email: email@,
                address: address@,
                mobile: mobile@,
                photo_hash: view_opt_hash(*photo_hash),
                kyc_status: *kyc_status,
                kyc_hash: view_opt_hash(*kyc_hash),
                created_at: *created_at,
                updated_at: *updated_at,
            },
        }
    }
}

} // verus!
