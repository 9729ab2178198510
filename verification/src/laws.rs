//! Registry-wide laws, proved once and for all states.
//!
//! Each lemma states a property of the registry over the spec-level
//! transitions of `model`, so it holds of every executable run: the
//! operations' contracts say they agree with those transitions.

use vstd::prelude::*;

use crate::model::{
    account_index, email_index, has_account, has_email, inv, spec_admin_update_kyc_status,
    spec_cause_error, spec_do_something, spec_get_member, spec_register, spec_submit_kyc,
    spec_update, spec_update_kyc_status, RegistryV,
};
use crate::types::{AccountId, Error, KycStatus, MemberType, MemberV, Origin};

verus! {

/// Uniqueness: no two registered members ever share an identifier, an
/// owning account or an email.
pub proof fn lemma_members_unique(rv: RegistryV, i: int, j: int)
    requires
        inv(rv),
        0 <= i < rv.members.len(),
        0 <= j < rv.members.len(),
        i != j,
    ensures
        rv.members[i].member_id != rv.members[j].member_id,
        rv.members[i].created_by != rv.members[j].created_by,
        rv.members[i].email != rv.members[j].email,
{
    if i < j {
        assert(rv.members[i].member_id != rv.members[j].member_id);
    } else {
        assert(rv.members[j].member_id != rv.members[i].member_id);
    }
}

/// Ownership of reads: a profile read succeeds exactly for an account that
/// owns a profile, reads that caller's own record, and changes nothing but
/// the event log; a caller without a profile gets `MemberNotFound`.
pub proof fn lemma_get_member_owner_gated(rv: RegistryV, who: AccountId)
    requires
        inv(rv),
    ensures
        ({
            let (r, rv2) = spec_get_member(rv, Origin::Signed(who));
            &&& (r is Ok <==> has_account(rv.members, who))
            &&& r is Ok ==> rv.members[account_index(rv.members, who)].created_by == who
            &&& r is Ok ==> rv2 == RegistryV { events: rv2.events, ..rv }
            &&& !has_account(rv.members, who) ==> r == Err::<(), Error>(Error::MemberNotFound)
                && rv2 == rv
        }),
{
}

/// Ownership of updates: an update succeeds only for an account that owns
/// a profile, touches only that caller's own record, and a caller without
/// a profile gets `MemberNotFound`.
pub proof fn lemma_update_owner_gated(
    rv: RegistryV,
    who: AccountId,
    member_type: Option<MemberType>,
    first_name: Option<Seq<u8>>,
    last_name: Option<Seq<u8>>,
    date_of_birth: Option<Seq<u8>>,
    email: Option<Seq<u8>>,
    address: Option<Seq<u8>>,
    mobile: Option<Seq<u8>>,
    now: u64,
)
    requires
        inv(rv),
    ensures
        ({
            let (r, rv2) = spec_update(
                rv,
                Origin::Signed(who),
                member_type,
                first_name,
                last_name,
                date_of_birth,
                email,
                address,
                mobile,
                now,
            );
            &&& r is Ok ==> has_account(rv.members, who)
            &&& r is Ok ==> rv.members[account_index(rv.members, who)].created_by == who
            &&& r is Ok ==> rv2.members.len() == rv.members.len()
            &&& r is Ok ==> forall|t: int|
                0 <= t < rv.members.len() && t != account_index(rv.members, who)
                    ==> rv2.members[t] == rv.members[t]
            &&& !has_account(rv.members, who) ==> r == Err::<(), Error>(Error::MemberNotFound)
                && rv2 == rv
        }),
{
}

/// Ownership of KYC submission: a submission succeeds only for an account
/// that owns a profile and touches only that caller's own record.
pub proof fn lemma_submit_kyc_owner_gated(
    rv: RegistryV,
    who: AccountId,
    kyc_hash: Seq<u8>,
    photo_hash: Option<Seq<u8>>,
    now: u64,
)
    requires
        inv(rv),
    ensures
        ({
            let (r, rv2) = spec_submit_kyc(rv, Origin::Signed(who), kyc_hash, photo_hash, now);
            &&& (r is Ok <==> has_account(rv.members, who))
            &&& r is Ok ==> rv.members[account_index(rv.members, who)].created_by == who
            &&& r is Ok ==> forall|t: int|
                0 <= t < rv.members.len() && t != account_index(rv.members, who)
                    ==> rv2.members[t] == rv.members[t]
            &&& !has_account(rv.members, who) ==> r == Err::<(), Error>(Error::MemberNotFound)
                && rv2 == rv
        }),
{
}

/// KYC reset on edit: a successful update either changed nothing — then
/// the state, the update time and the KYC status are exactly as before and
/// no event fires — or changed at least one field, and then the edited
/// record is demoted to `Unapproved`, its update time is `now`, and one
/// update notification fires, whatever the KYC status was before.
pub proof fn lemma_update_resets_kyc(
    rv: RegistryV,
    who: AccountId,
    member_type: Option<MemberType>,
    first_name: Option<Seq<u8>>,
    last_name: Option<Seq<u8>>,
    date_of_birth: Option<Seq<u8>>,
    email: Option<Seq<u8>>,
    address: Option<Seq<u8>>,
    mobile: Option<Seq<u8>>,
    now: u64,
)
    requires
        inv(rv),
    ensures
        ({
            let (r, rv2) = spec_update(
                rv,
                Origin::Signed(who),
                member_type,
                first_name,
                last_name,
                date_of_birth,
                email,
                address,
                mobile,
                now,
            );
            let i = account_index(rv.members, who);
            &&& r is Ok ==> (rv2 == rv || {
                &&& rv2.members[i].kyc_status == KycStatus::Unapproved
                &&& rv2.members[i].updated_at == now
                &&& rv2.events.len() == rv.events.len() + 1
            })
            &&& (r is Ok && rv2.members =~= rv.members) ==> rv2 == rv
        }),
{
}

/// Idempotent re-submission: submitting the same KYC documents twice
/// leaves the stored KYC hash as one submission does, and neither
/// submission alters the KYC status.
pub proof fn lemma_submit_kyc_idempotent(
    rv: RegistryV,
    who: AccountId,
    kyc_hash: Seq<u8>,
    photo_hash: Option<Seq<u8>>,
    now1: u64,
    now2: u64,
)
    requires
        inv(rv),
    ensures
        ({
            let (r1, rv1) = spec_submit_kyc(rv, Origin::Signed(who), kyc_hash, photo_hash, now1);
            let (r2, rv2) = spec_submit_kyc(rv1, Origin::Signed(who), kyc_hash, photo_hash, now2);
            r1 is Ok ==> {
                let i = account_index(rv.members, who);
                &&& r2 is Ok
                &&& account_index(rv1.members, who) == i
                &&& rv1.members[i].kyc_hash == Some(kyc_hash)
                &&& rv2.members[i].kyc_hash == rv1.members[i].kyc_hash
                &&& rv1.members[i].kyc_status == rv.members[i].kyc_status
                &&& rv2.members[i].kyc_status == rv.members[i].kyc_status
            }
        }),
{
    let (r1, rv1) = spec_submit_kyc(rv, Origin::Signed(who), kyc_hash, photo_hash, now1);
    if r1 is Ok {
        let i = account_index(rv.members, who);
        assert(rv1.members[i].created_by == who);
        assert(has_account(rv1.members, who));
        let j = account_index(rv1.members, who);
        assert(rv1.members[j].created_by == who);
        if j != i {
            assert(rv1.members[j] == rv.members[j]);
            lemma_members_unique(rv, i, j);
        }
    }
}

/// Email index consistency: after a successful update that changed the
/// email, the old email resolves to no member and the new email resolves
/// to the member that was updated.
pub proof fn lemma_update_email_reindexed(
    rv: RegistryV,
    who: AccountId,
    member_type: Option<MemberType>,
    first_name: Option<Seq<u8>>,
    last_name: Option<Seq<u8>>,
    date_of_birth: Option<Seq<u8>>,
    new_email: Seq<u8>,
    address: Option<Seq<u8>>,
    mobile: Option<Seq<u8>>,
    now: u64,
)
    requires
        inv(rv),
        has_account(rv.members, who),
        new_email != rv.members[account_index(rv.members, who)].email,
    ensures
        ({
            let (r, rv2) = spec_update(
                rv,
                Origin::Signed(who),
                member_type,
                first_name,
                last_name,
                date_of_birth,
                Some(new_email),
                address,
                mobile,
                now,
            );
            let i = account_index(rv.members, who);
            r is Ok ==> {
                &&& !has_email(rv2.members, rv.members[i].email)
                &&& has_email(rv2.members, new_email)
                &&& email_index(rv2.members, new_email) == i
                &&& rv2.members[email_index(rv2.members, new_email)].member_id
                    == rv.members[i].member_id
            }
        }),
{
    let (r, rv2) = spec_update(
        rv,
        Origin::Signed(who),
        member_type,
        first_name,
        last_name,
        date_of_birth,
        Some(new_email),
        address,
        mobile,
        now,
    );
    let i = account_index(rv.members, who);
    if r is Ok {
        let old_email = rv.members[i].email;
        assert forall|t: int| 0 <= t < rv2.members.len() implies (#[trigger] rv2.members[t]).email
            != old_email by {
            if t != i {
                assert(rv2.members[t] == rv.members[t]);
                lemma_members_unique(rv, i, t);
            }
        }
        assert(rv2.members[i].email == new_email);
        assert(has_email(rv2.members, new_email));
        let j = email_index(rv2.members, new_email);
        assert(rv2.members[j].email == new_email);
        if j != i {
            assert(rv2.members[j] == rv.members[j]);
        }
    }
}

/// The two stores list the same members: equally many, and at each
/// position the identifier, the owning account and the creation time
/// agree.
pub open spec fn same_identities(ms1: Seq<MemberV>, ms2: Seq<MemberV>) -> bool {
    &&& ms1.len() == ms2.len()
    &&& forall|t: int|
        0 <= t < ms1.len() ==> {
            &&& (#[trigger] ms2[t]).member_id == ms1[t].member_id
            &&& ms2[t].created_by == ms1[t].created_by
            &&& ms2[t].created_at == ms1[t].created_at
        }
}

/// Permanence: profile updates, KYC submissions and KYC status changes
/// never remove a member and never change who a member is — the
/// identifier, the owning account, the creation time and the registration
/// order all stay as they were.
pub proof fn lemma_profiles_are_permanent(
    rv: RegistryV,
    origin: Origin,
    member_type: Option<MemberType>,
    first_name: Option<Seq<u8>>,
    last_name: Option<Seq<u8>>,
    date_of_birth: Option<Seq<u8>>,
    email: Option<Seq<u8>>,
    address: Option<Seq<u8>>,
    mobile: Option<Seq<u8>>,
    kyc_hash: Seq<u8>,
    photo_hash: Option<Seq<u8>>,
    member_id: Seq<u8>,
    new_status: KycStatus,
    now: u64,
)
    ensures
        same_identities(
            rv.members,
            spec_update(
                rv,
                origin,
                member_type,
                first_name,
                last_name,
                date_of_birth,
                email,
                address,
                mobile,
                now,
            ).1.members,
        ),
        same_identities(
            rv.members,
            spec_submit_kyc(rv, origin, kyc_hash, photo_hash, now).1.members,
        ),
        same_identities(
            rv.members,
            spec_update_kyc_status(rv, origin, member_id, new_status, now).1.members,
        ),
        same_identities(
            rv.members,
            spec_admin_update_kyc_status(rv, origin, member_id, new_status, now).1.members,
        ),
{
}

/// Atomicity: a call that fails leaves the whole state — records, counter
/// and event log — exactly as it was.
pub proof fn lemma_errors_change_nothing(
    rv: RegistryV,
    origin: Origin,
    member_type: MemberType,
    first_name: Seq<u8>,
    last_name: Seq<u8>,
    date_of_birth: Seq<u8>,
    email: Seq<u8>,
    address: Seq<u8>,
    mobile: Seq<u8>,
    opt_member_type: Option<MemberType>,
    opt_first_name: Option<Seq<u8>>,
    opt_last_name: Option<Seq<u8>>,
    opt_date_of_birth: Option<Seq<u8>>,
    opt_email: Option<Seq<u8>>,
    opt_address: Option<Seq<u8>>,
    opt_mobile: Option<Seq<u8>>,
    kyc_hash: Seq<u8>,
    photo_hash: Option<Seq<u8>>,
    member_id: Seq<u8>,
    new_status: KycStatus,
    something: u32,
    now: u64,
)
    ensures
        ({
            let (r, rv2) = spec_register(
                rv,
                origin,
                member_type,
                first_name,
                last_name,
                date_of_birth,
                email,
                address,
                mobile,
                now,
            );
            r is Err ==> rv2 == rv
        }),
        ({
            let (r, rv2) = spec_update(
                rv,
                origin,
                opt_member_type,
                opt_first_name,
                opt_last_name,
                opt_date_of_birth,
                opt_email,
                opt_address,
                opt_mobile,
                now,
            );
            r is Err ==> rv2 == rv
        }),
        ({
            let (r, rv2) = spec_get_member(rv, origin);
            r is Err ==> rv2 == rv
        }),
        ({
            let (r, rv2) = spec_submit_kyc(rv, origin, kyc_hash, photo_hash, now);
            r is Err ==> rv2 == rv
        }),
        ({
            let (r, rv2) = spec_update_kyc_status(rv, origin, member_id, new_status, now);
            r is Err ==> rv2 == rv
        }),
        ({
            let (r, rv2) = spec_admin_update_kyc_status(rv, origin, member_id, new_status, now);
            r is Err ==> rv2 == rv
        }),
        ({
            let (r, rv2) = spec_do_something(rv, origin, something);
            r is Err ==> rv2 == rv
        }),
        ({
            let (r, rv2) = spec_cause_error(rv, origin);
            r is Err ==> rv2 == rv
        }),
{
}

} // verus!
