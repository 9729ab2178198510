//! Mathematical model of the registry.
//!
//! `RegistryV` is the ghost state the contracts speak about. The
//! `spec_*` functions give the exact outcome of each operation — the result
//! handed back and the state after — and the executable operations are
//! proved to agree with them. `members_ok` is the registry invariant:
//! every stored record is well formed and no two members share an
//! identifier, an owning account or an email.

use vstd::prelude::*;

use crate::types::{AccountId, Config, Error, EventV, KycStatus, MemberType, MemberV, Origin};
use crate::uuid::derived_member_id;
use crate::validate::{valid_date, valid_email, valid_mobile};

verus! {

/// Mathematical view of the whole registry state.
#[verifier::ext_equal]
pub struct RegistryV {
    pub config: Config,
    pub members: Seq<MemberV>,
    pub something: Option<u32>,
    pub events: Seq<EventV>,
}

/// Some member is owned by `account`.
pub open spec fn has_account(ms: Seq<MemberV>, account: AccountId) -> bool {
    exists|i: int| 0 <= i < ms.len() && (#[trigger] ms[i]).created_by == account
}

/// The index of the member owned by `account`.
pub open spec fn account_index(ms: Seq<MemberV>, account: AccountId) -> int {
    choose|i: int| 0 <= i < ms.len() && (#[trigger] ms[i]).created_by == account
}

/// Some member holds `email`.
pub open spec fn has_email(ms: Seq<MemberV>, email: Seq<u8>) -> bool {
    exists|i: int| 0 <= i < ms.len() && (#[trigger] ms[i]).email == email
}

/// The index of the member holding `email`.
pub open spec fn email_index(ms: Seq<MemberV>, email: Seq<u8>) -> int {
    choose|i: int| 0 <= i < ms.len() && (#[trigger] ms[i]).email == email
}

/// Some member is stored under `member_id`.
pub open spec fn has_member_id(ms: Seq<MemberV>, member_id: Seq<u8>) -> bool {
    exists|i: int| 0 <= i < ms.len() && (#[trigger] ms[i]).member_id == member_id
}

/// The index of the member stored under `member_id`.
pub open spec fn member_id_index(ms: Seq<MemberV>, member_id: Seq<u8>) -> int {
    choose|i: int| 0 <= i < ms.len() && (#[trigger] ms[i]).member_id == member_id
}

/// A member record is well formed under the length bounds of `c`.
pub open spec fn valid_member(c: Config, m: MemberV) -> bool {
    &&& m.member_id.len() == 32
    &&& m.first_name.len() <= c.max_first_name_length
    &&& m.last_name.len() <= c.max_last_name_length
    &&& valid_date(m.date_of_birth)
    &&& valid_email(m.email)
    &&& m.email.len() <= c.max_email_length
    &&& m.address.len() <= c.max_address_length
    &&& valid_mobile(m.mobile)
    &&& m.mobile.len() <= c.max_mobile_length
    &&& (m.photo_hash matches Some(h) ==> h.len() == 32)
    &&& (m.kyc_hash matches Some(h) ==> h.len() == 32)
}

/// The member store is well formed: few enough members for the counter,
/// every record well formed, and identifiers, accounts and emails pairwise
/// distinct.
pub open spec fn members_ok(c: Config, ms: Seq<MemberV>) -> bool {
    &&& ms.len() <= u32::MAX
    &&& forall|i: int| 0 <= i < ms.len() ==> valid_member(c, #[trigger] ms[i])
    &&& forall|i: int, j: int|
        0 <= i < j < ms.len() ==> {
            &&& (#[trigger] ms[i]).member_id != (#[trigger] ms[j]).member_id
            &&& ms[i].created_by != ms[j].created_by
            &&& ms[i].email != ms[j].email
        }
}

/// The registry invariant.
pub open spec fn inv(rv: RegistryV) -> bool {
    members_ok(rv.config, rv.members)
}

/// Appending a well-formed record with a fresh identifier, account and
/// email keeps the store well formed.
pub proof fn lemma_members_ok_push(c: Config, ms: Seq<MemberV>, m: MemberV)
    requires
        members_ok(c, ms),
        ms.len() < u32::MAX,
        valid_member(c, m),
        !has_account(ms, m.created_by),
        !has_email(ms, m.email),
        !has_member_id(ms, m.member_id),
    ensures
        members_ok(c, ms.push(m)),
{
    let ms2 = ms.push(m);
    assert forall|i: int, j: int| 0 <= i < j < ms2.len() implies {
        &&& (#[trigger] ms2[i]).member_id != (#[trigger] ms2[j]).member_id
        &&& ms2[i].created_by != ms2[j].created_by
        &&& ms2[i].email != ms2[j].email
    } by {
        if j == ms.len() {
            assert(ms2[i] == ms[i]);
        }
    }
}

/// Replacing one record with a well-formed record that keeps its identifier
/// and owner, and whose email collides with no other member, keeps the
/// store well formed.
pub proof fn lemma_members_ok_update(c: Config, ms: Seq<MemberV>, i: int, m: MemberV)
    requires
        members_ok(c, ms),
        0 <= i < ms.len(),
        valid_member(c, m),
        m.member_id == ms[i].member_id,
        m.created_by == ms[i].created_by,
        m.email == ms[i].email || forall|j: int|
            0 <= j < ms.len() && j != i ==> (#[trigger] ms[j]).email != m.email,
    ensures
        members_ok(c, ms.update(i, m)),
{
    let ms2 = ms.update(i, m);
    assert forall|p: int, q: int| 0 <= p < q < ms2.len() implies {
        &&& (#[trigger] ms2[p]).member_id != (#[trigger] ms2[q]).member_id
        &&& ms2[p].created_by != ms2[q].created_by
        &&& ms2[p].email != ms2[q].email
    } by {
        assert(ms[p].member_id != ms[q].member_id);
        assert(ms[p].created_by != ms[q].created_by);
        assert(ms[p].email != ms[q].email);
    }
}

/// Outcome of registering a member: validates the caller, the formats and
/// the bounds, requires the account, the email and the derived identifier
/// to be unbound, and appends the new record.
pub open spec fn spec_register(
    rv: RegistryV,
    origin: Origin,
    member_type: MemberType,
    first_name: Seq<u8>,
    last_name: Seq<u8>,
    date_of_birth: Seq<u8>,
    email: Seq<u8>,
    address: Seq<u8>,
    mobile: Seq<u8>,
    now: u64,
) -> (Result<(), Error>, RegistryV) {
    match origin {
        Origin::Root => (Err(Error::BadOrigin), rv),
        Origin::Signed(who) => {
            if has_account(rv.members, who) {
                (Err(Error::MemberAlreadyExists), rv)
            } else if !valid_email(email) {
                (Err(Error::InvalidEmailFormat), rv)
            } else if !valid_mobile(mobile) {
                (Err(Error::InvalidMobileFormat), rv)
            } else if !valid_date(date_of_birth) {
                (Err(Error::InvalidDateFormat), rv)
            } else if first_name.len() > rv.config.max_first_name_length {
                (Err(Error::InvalidMemberData), rv)
            } else if last_name.len() > rv.config.max_last_name_length {
                (Err(Error::InvalidMemberData), rv)
            } else if email.len() > rv.config.max_email_length {
                (Err(Error::InvalidMemberData), rv)
            } else if address.len() > rv.config.max_address_length {
                (Err(Error::InvalidMemberData), rv)
            } else if mobile.len() > rv.config.max_mobile_length {
                (Err(Error::InvalidMemberData), rv)
            } else if has_email(rv.members, email) {
                (Err(Error::EmailAlreadyExists), rv)
            } else if has_member_id(rv.members, derived_member_id(who, now)) {
                (Err(Error::MemberAlreadyExists), rv)
            } else {
                let m = MemberV {
                    member_id: derived_member_id(who, now),
                    member_type,
                    first_name,
                    last_name,
                    date_of_birth,
                    email,
                    address,
                    mobile,
                    kyc_status: KycStatus::Unapproved,
                    photo_hash: None,
                    kyc_hash: None,
                    created_at: now,
                    updated_at: now,
                    created_by: who,
                };
                let ev = EventV::MemberRegistered { member_id: m.member_id, account: who, email };
                (
                    Ok(()),
                    RegistryV {
                        members: rv.members.push(m),
                        events: rv.events.push(ev),
                        ..rv
                    },
                )
            }
        },
    }
}

/// Outcome of one optional bounded field of an update: kept when absent or
/// unchanged, rejected when over the bound, applied otherwise.
pub open spec fn upd_bounded(
    cur: Seq<u8>,
    arg: Option<Seq<u8>>,
    max: u32,
) -> Result<(Seq<u8>, bool), Error> {
    match arg {
        None => Ok((cur, false)),
        Some(v) => {
            if v.len() > max {
                Err(Error::InvalidMemberData)
            } else if v == cur {
                Ok((cur, false))
            } else {
                Ok((v, true))
            }
        },
    }
}

/// Outcome of the optional date-of-birth field of an update.
pub open spec fn upd_date(cur: Seq<u8>, arg: Option<Seq<u8>>) -> Result<(Seq<u8>, bool), Error> {
    match arg {
        None => Ok((cur, false)),
        Some(v) => {
            if !valid_date(v) {
                Err(Error::InvalidDateFormat)
            } else if v == cur {
                Ok((cur, false))
            } else {
                Ok((v, true))
            }
        },
    }
}

/// Outcome of the optional email field of an update: a changed email must
/// be well formed, within bounds and held by no other member.
pub open spec fn upd_email(
    ms: Seq<MemberV>,
    idx: int,
    cur: Seq<u8>,
    arg: Option<Seq<u8>>,
    max: u32,
) -> Result<(Seq<u8>, bool), Error> {
    match arg {
        None => Ok((cur, false)),
        Some(v) => {
            if !valid_email(v) {
                Err(Error::InvalidEmailFormat)
            } else if v.len() > max {
                Err(Error::InvalidMemberData)
            } else if v == cur {
                Ok((cur, false))
            } else if exists|j: int|
                0 <= j < ms.len() && j != idx && (#[trigger] ms[j]).email == v {
                Err(Error::EmailAlreadyExists)
            } else {
                Ok((v, true))
            }
        },
    }
}

/// Outcome of the optional mobile field of an update.
pub open spec fn upd_mobile(
    cur: Seq<u8>,
    arg: Option<Seq<u8>>,
    max: u32,
) -> Result<(Seq<u8>, bool), Error> {
    match arg {
        None => Ok((cur, false)),
        Some(v) => {
            if !valid_mobile(v) {
                Err(Error::InvalidMobileFormat)
            } else if v.len() > max {
                Err(Error::InvalidMemberData)
            } else if v == cur {
                Ok((cur, false))
            } else {
                Ok((v, true))
            }
        },
    }
}

/// Outcome of the optional member-type field of an update.
pub open spec fn upd_member_type(cur: MemberType, arg: Option<MemberType>) -> (MemberType, bool) {
    match arg {
        None => (cur, false),
        Some(mt) => {
            if mt == cur {
                (cur, false)
            } else {
                (mt, true)
            }
        },
    }
}

/// Outcome of updating a member: the caller must own a profile; each
/// supplied field is validated and applied only when it differs; if any
/// field changed, the KYC status resets, the update time is bumped and an
/// update notification is appended; a no-op update changes nothing and
/// emits nothing.
pub open spec fn spec_update(
    rv: RegistryV,
    origin: Origin,
    member_type: Option<MemberType>,
    first_name: Option<Seq<u8>>,
    last_name: Option<Seq<u8>>,
    date_of_birth: Option<Seq<u8>>,
    email: Option<Seq<u8>>,
    address: Option<Seq<u8>>,
    mobile: Option<Seq<u8>>,
    now: u64,
) -> (Result<(), Error>, RegistryV) {
    match origin {
        Origin::Root => (Err(Error::BadOrigin), rv),
        Origin::Signed(who) => {
            if !has_account(rv.members, who) {
                (Err(Error::MemberNotFound), rv)
            } else {
                let i = account_index(rv.members, who);
                let m = rv.members[i];
                if m.created_by != who {
                    (Err(Error::NotMemberOwner), rv)
                } else {
                    let (mt, ch0) = upd_member_type(m.member_type, member_type);
                    match upd_bounded(m.first_name, first_name, rv.config.max_first_name_length) {
                        Err(e) => (Err(e), rv),
                        Ok((fname, ch1)) => match upd_bounded(
                            m.last_name,
                            last_name,
                            rv.config.max_last_name_length,
                        ) {
                            Err(e) => (Err(e), rv),
                            Ok((lname, ch2)) => match upd_date(m.date_of_birth, date_of_birth) {
                                Err(e) => (Err(e), rv),
                                Ok((dob, ch3)) => match upd_email(
                                    rv.members,
                                    i,
                                    m.email,
                                    email,
                                    rv.config.max_email_length,
                                ) {
                                    Err(e) => (Err(e), rv),
                                    Ok((em, ch4)) => match upd_bounded(
                                        m.address,
                                        address,
                                        rv.config.max_address_length,
                                    ) {
                                        Err(e) => (Err(e), rv),
                                        Ok((addr, ch5)) => match upd_mobile(
                                            m.mobile,
                                            mobile,
                                            rv.config.max_mobile_length,
                                        ) {
                                            Err(e) => (Err(e), rv),
                                            Ok((mob, ch6)) => {
                                                if !(ch0 || ch1 || ch2 || ch3 || ch4 || ch5
                                                    || ch6) {
                                                    (Ok(()), rv)
                                                } else {
                                                    let m2 = MemberV {
                                                        member_type: mt,
                                                        first_name: fname,
                                                        last_name: lname,
                                                        date_of_birth: dob,
                                                        email: em,
                                                        address: addr,
                                                        mobile: mob,
                                                        kyc_status: KycStatus::Unapproved,
                                                        updated_at: now,
                                                        ..m
                                                    };
                                                    let ev = EventV::MemberUpdated {
                                                        member_id: m.member_id,
                                                        updated_by: who,
                                                        previous_email: if ch4 {
                                                            Some(m.email)
                                                        } else {
                                                            None
                                                        },
                                                        new_email: em,
                                                    };
                                                    (
                                                        Ok(()),
                                                        RegistryV {
                                                            members: rv.members.update(i, m2),
                                                            events: rv.events.push(ev),
                                                            ..rv
                                                        },
                                                    )
                                                }
                                            },
                                        },
                                    },
                                },
                            },
                        },
                    }
                }
            }
        },
    }
}

/// Outcome of reading one's own profile: the state is unchanged but for a
/// notification carrying every field of the caller's record.
pub open spec fn spec_get_member(rv: RegistryV, origin: Origin) -> (Result<(), Error>, RegistryV) {
    match origin {
        Origin::Root => (Err(Error::BadOrigin), rv),
        Origin::Signed(who) => {
            if !has_account(rv.members, who) {
                (Err(Error::MemberNotFound), rv)
            } else {
                let i = account_index(rv.members, who);
                let m = rv.members[i];
                if m.created_by != who {
                    (Err(Error::NotMemberOwner), rv)
                } else {
                    let ev = EventV::MemberDataRetrieved {
                        member_id: m.member_id,
                        accessed_by: who,
                        member_type: m.member_type,
                        first_name: m.first_name,
                        last_name: m.last_name,
                        date_of_birth: m.date_of_birth,
                        email: m.email,
                        address: m.address,
                        mobile: m.mobile,
                        photo_hash: m.photo_hash,
                        kyc_status: m.kyc_status,
                        kyc_hash: m.kyc_hash,
                        created_at: m.created_at,
                        updated_at: m.updated_at,
                    };
                    (Ok(()), RegistryV { events: rv.events.push(ev), ..rv })
                }
            }
        },
    }
}

/// Outcome of submitting KYC documents: sets the KYC hash, sets the photo
/// hash only when supplied, bumps the update time, leaves the KYC status
/// alone.
pub open spec fn spec_submit_kyc(
    rv: RegistryV,
    origin: Origin,
    kyc_hash: Seq<u8>,
    photo_hash: Option<Seq<u8>>,
    now: u64,
) -> (Result<(), Error>, RegistryV) {
    match origin {
        Origin::Root => (Err(Error::BadOrigin), rv),
        Origin::Signed(who) => {
            if !has_account(rv.members, who) {
                (Err(Error::MemberNotFound), rv)
            } else {
                let i = account_index(rv.members, who);
                let m = rv.members[i];
                if m.created_by != who {
                    (Err(Error::NotMemberOwner), rv)
                } else {
                    let m2 = MemberV {
                        kyc_hash: Some(kyc_hash),
                        photo_hash: match photo_hash {
                            Some(p) => Some(p),
                            None => m.photo_hash,
                        },
                        updated_at: now,
                        ..m
                    };
                    let ev = EventV::KycSubmitted {
                        member_id: m.member_id,
                        submitted_by: who,
                        kyc_hash,
                    };
                    (
                        Ok(()),
                        RegistryV {
                            members: rv.members.update(i, m2),
                            events: rv.events.push(ev),
                            ..rv
                        },
                    )
                }
            }
        },
    }
}

/// Outcome of a signed KYC status change: any signed caller may set any
/// status; the notification reports the caller.
pub open spec fn spec_update_kyc_status(
    rv: RegistryV,
    origin: Origin,
    member_id: Seq<u8>,
    new_status: KycStatus,
    now: u64,
) -> (Result<(), Error>, RegistryV) {
    match origin {
        Origin::Root => (Err(Error::BadOrigin), rv),
        Origin::Signed(who) => {
            if !has_member_id(rv.members, member_id) {
                (Err(Error::MemberNotFound), rv)
            } else {
                let i = member_id_index(rv.members, member_id);
                let m = rv.members[i];
                let m2 = MemberV { kyc_status: new_status, updated_at: now, ..m };
                let ev = EventV::KycStatusUpdated {
                    member_id,
                    updated_by: who,
                    old_status: m.kyc_status,
                    new_status,
                };
                (
                    Ok(()),
                    RegistryV {
                        members: rv.members.update(i, m2),
                        events: rv.events.push(ev),
                        ..rv
                    },
                )
            }
        },
    }
}

/// Outcome of a privileged KYC status change: only the root origin is
/// accepted; the notification reports the member's own account.
pub open spec fn spec_admin_update_kyc_status(
    rv: RegistryV,
    origin: Origin,
    member_id: Seq<u8>,
    new_status: KycStatus,
    now: u64,
) -> (Result<(), Error>, RegistryV) {
    match origin {
        Origin::Signed(_) => (Err(Error::BadOrigin), rv),
        Origin::Root => {
            if !has_member_id(rv.members, member_id) {
                (Err(Error::MemberNotFound), rv)
            } else {
                let i = member_id_index(rv.members, member_id);
                let m = rv.members[i];
                let m2 = MemberV { kyc_status: new_status, updated_at: now, ..m };
                let ev = EventV::KycStatusUpdated {
                    member_id,
                    updated_by: m.created_by,
                    old_status: m.kyc_status,
                    new_status,
                };
                (
                    Ok(()),
                    RegistryV {
                        members: rv.members.update(i, m2),
                        events: rv.events.push(ev),
                        ..rv
                    },
                )
            }
        },
    }
}

/// Outcome of storing the example counter value.
pub open spec fn spec_do_something(rv: RegistryV, origin: Origin, something: u32) -> (
    Result<(), Error>,
    RegistryV,
) {
    match origin {
        Origin::Root => (Err(Error::BadOrigin), rv),
        Origin::Signed(who) => {
            let ev = EventV::SomethingStored { something, who };
            (
                Ok(()),
                RegistryV { something: Some(something), events: rv.events.push(ev), ..rv },
            )
        },
    }
}

/// Outcome of bumping the example counter value.
pub open spec fn spec_cause_error(rv: RegistryV, origin: Origin) -> (Result<(), Error>, RegistryV) {
    match origin {
        Origin::Root => (Err(Error::BadOrigin), rv),
        Origin::Signed(_) => match rv.something {
            None => (Err(Error::NoneValue), rv),
            Some(old_value) => {
                if old_value == u32::MAX {
                    (Err(Error::StorageOverflow), rv)
                } else {
                    (Ok(()), RegistryV { something: Some((old_value + 1) as u32), ..rv })
                }
            },
        },
    }
}

} // verus!
