//! The member registry: persistent state and its operations.
//!
//! One store of member records backs the four logical lookups — by
//! identifier, by owning account, by email and by registration order — so
//! the indexes cannot drift apart. Every operation is all-or-nothing: on an
//! error the state is exactly what it was.

use vstd::prelude::*;

use crate::model::{
    account_index, email_index, has_account, has_email, has_member_id, inv,
    lemma_members_ok_push, lemma_members_ok_update, member_id_index,
    spec_admin_update_kyc_status, spec_cause_error, spec_do_something, spec_get_member,
    spec_register, spec_submit_kyc, spec_update, spec_update_kyc_status, upd_bounded, upd_date,
    upd_email, upd_member_type, upd_mobile, RegistryV,
};
use crate::types::{AccountId, Config, Error, Event, Member, MemberUuid, MemberV, Origin, H256};
use crate::types::{view_opt_bytes, view_opt_hash, KycStatus, MemberType};
use crate::uuid::generate_member_uuid;
use crate::validate::{validate_date, validate_email, validate_mobile};

verus! {

/// View of a member store as a sequence of member views.
pub open spec fn members_view(ms: Seq<Member>) -> Seq<MemberV> {
    Seq::new(ms.len(), |i: int| ms[i]@)
}

/// View of an event log as a sequence of event views.
pub open spec fn events_view(es: Seq<Event>) -> Seq<crate::types::EventV> {
    Seq::new(es.len(), |i: int| es[i]@)
}

/// Appending a record appends its view.
proof fn lemma_members_view_push(ms: Seq<Member>, m: Member)
    ensures
        members_view(ms.push(m)) == members_view(ms).push(m@),
{
    assert(members_view(ms.push(m)) =~= members_view(ms).push(m@));
}

/// Replacing a record updates its view.
proof fn lemma_members_view_update(ms: Seq<Member>, i: int, m: Member)
    requires
        0 <= i < ms.len(),
    ensures
        members_view(ms.update(i, m)) == members_view(ms).update(i, m@),
{
    assert(members_view(ms.update(i, m)) =~= members_view(ms).update(i, m@));
}

/// Appending an event appends its view.
proof fn lemma_events_view_push(es: Seq<Event>, e: Event)
    ensures
        events_view(es.push(e)) == events_view(es).push(e@),
{
    assert(events_view(es.push(e)) =~= events_view(es).push(e@));
}

/// The registry state: configuration, member records in registration
/// order, the example counter, and the event log.
pub struct Registry {
    config: Config,
    members: Vec<Member>,
    something: Option<u32>,
    events: Vec<Event>,
}

impl View for Registry {
    type V = RegistryV;

    closed spec fn view(&self) -> RegistryV {
        RegistryV {
            config: self.config,
            members: members_view(self.members@),
            something: self.something,
            events: events_view(self.events@),
        }
    }
}

/// Copies a byte string.
fn clone_bytes(v: &Vec<u8>) -> (r: Vec<u8>)
    ensures
        r@ == v@,
{
    let mut r: Vec<u8> = Vec::new();
    let mut i: usize = 0;
    while i < v.len()
        invariant
            i <= v@.len(),
            r@.len() == i,
            forall|t: int| 0 <= t < i ==> r@[t] == v@[t],
        decreases v@.len() - i,
    {
        r.push(v[i]);
        i += 1;
    }
    proof {
        assert(r@ =~= v@);
    }
    r
}

/// Compares two byte strings.
fn bytes_eq(a: &Vec<u8>, b: &Vec<u8>) -> (r: bool)
    ensures
        r == (a@ == b@),
{
    if a.len() != b.len() {
        return false;
    }
    let mut i: usize = 0;
    while i < a.len()
        invariant
            i <= a@.len(),
            a@.len() == b@.len(),
            forall|t: int| 0 <= t < i ==> a@[t] == b@[t],
        decreases a@.len() - i,
    {
        if a[i] != b[i] {
            return false;
        }
        i += 1;
    }
    proof {
        assert(a@ =~= b@);
    }
    true
}

/// Compares two member identifiers.
fn uuid_eq(a: &MemberUuid, b: &MemberUuid) -> (r: bool)
    ensures
        r == (a@ == b@),
{
    let mut i: usize = 0;
    while i < 32
        invariant
            i <= 32,
            forall|t: int| 0 <= t < i ==> a@[t] == b@[t],
        decreases 32 - i,
    {
        if a[i] != b[i] {
            return false;
        }
        i += 1;
    }
    proof {
        assert(a@ =~= b@);
    }
    true
}

impl Registry {
    /// The registry invariant; see `members_ok`.
    pub open spec fn wf(self) -> bool {
        inv(self@)
    }

    /// An empty registry with the given length bounds.
    pub fn new(config: Config) -> (r: Registry)
        ensures
            r.wf(),
            r@.config == config,
            r@.members.len() == 0,
            r@.events.len() == 0,
            r@.something is None,
    {
        Registry { config, members: Vec::new(), something: None, events: Vec::new() }
    }

    /// The index of the member owned by `account`, if any.
    #[verifier::loop_isolation(false)]
    fn find_by_account(&self, account: AccountId) -> (r: Option<usize>)
        requires
            self.wf(),
        ensures
            match r {
                Some(i) => {
                    &&& i < self@.members.len()
                    &&& self@.members[i as int].created_by == account
                    &&& has_account(self@.members, account)
                    &&& account_index(self@.members, account) == i as int
                },
                None => !has_account(self@.members, account),
            },
    {
        let n = self.members.len();
        let mut i: usize = 0;
        while i < n
            invariant
                i <= n,
                forall|t: int| 0 <= t < i ==> (#[trigger] self@.members[t]).created_by != account,
            decreases n - i,
        {
            if self.members[i].created_by == account {
                proof {
                    assert(self@.members[i as int] == self.members@[i as int]@);
                    assert(has_account(self@.members, account));
                    let j = account_index(self@.members, account);
                    assert(self@.members[j].created_by == account);
                    if j != i as int {
                        crate::laws::lemma_members_unique(self@, i as int, j);
                    }
                }
                return Some(i);
            }
            i += 1;
        }
        None
    }

    /// The index of the member holding `email`, if any.
    #[verifier::loop_isolation(false)]
    fn find_by_email(&self, email: &Vec<u8>) -> (r: Option<usize>)
        requires
            self.wf(),
        ensures
            match r {
                Some(i) => {
                    &&& i < self@.members.len()
                    &&& self@.members[i as int].email == email@
                    &&& has_email(self@.members, email@)
                    &&& email_index(self@.members, email@) == i as int
                },
                None => !has_email(self@.members, email@),
            },
    {
        let n = self.members.len();
        let mut i: usize = 0;
        while i < n
            invariant
                i <= n,
                forall|t: int| 0 <= t < i ==> (#[trigger] self@.members[t]).email != email@,
            decreases n - i,
        {
            if bytes_eq(&self.members[i].email, email) {
                proof {
                    assert(self@.members[i as int] == self.members@[i as int]@);
                    assert(has_email(self@.members, email@));
                    let j = email_index(self@.members, email@);
                    assert(self@.members[j].email == email@);
                    if j != i as int {
                        crate::laws::lemma_members_unique(self@, i as int, j);
                    }
                }
                return Some(i);
            }
            i += 1;
        }
        None
    }

    /// The index of the member stored under `member_id`, if any.
    #[verifier::loop_isolation(false)]
    fn find_by_uuid(&self, member_id: &MemberUuid) -> (r: Option<usize>)
        requires
            self.wf(),
        ensures
            match r {
                Some(i) => {
                    &&& i < self@.members.len()
                    &&& self@.members[i as int].member_id == member_id@
                    &&& has_member_id(self@.members, member_id@)
                    &&& member_id_index(self@.members, member_id@) == i as int
                },
                None => !has_member_id(self@.members, member_id@),
            },
    {
        let n = self.members.len();
        let mut i: usize = 0;
        while i < n
            invariant
                i <= n,
                forall|t: int|
                    0 <= t < i ==> (#[trigger] self@.members[t]).member_id != member_id@,
            decreases n - i,
        {
            if uuid_eq(&self.members[i].member_id, member_id) {
                proof {
                    assert(self@.members[i as int] == self.members@[i as int]@);
                    assert(has_member_id(self@.members, member_id@));
                    let j = member_id_index(self@.members, member_id@);
                    assert(self@.members[j].member_id == member_id@);
                    if j != i as int {
                        crate::laws::lemma_members_unique(self@, i as int, j);
                    }
                }
                return Some(i);
            }
            i += 1;
        }
        None
    }

    /// Whether some member other than the one at `skip` holds `email`.
    #[verifier::loop_isolation(false)]
    fn email_taken_by_other(&self, skip: usize, email: &Vec<u8>) -> (r: bool)
        ensures
            r == exists|j: int|
                0 <= j < self@.members.len() && j != skip && (#[trigger] self@.members[j]).email
                    == email@,
    {
        let n = self.members.len();
        let mut i: usize = 0;
        while i < n
            invariant
                i <= n,
                forall|t: int|
                    0 <= t < i && t != skip ==> (#[trigger] self@.members[t]).email != email@,
            decreases n - i,
        {
            if i != skip && bytes_eq(&self.members[i].email, email) {
                proof {
                    assert(self@.members[i as int] == self.members@[i as int]@);
                }
                return true;
            }
            i += 1;
        }
        false
    }

    /// The caller's own profile; `None` unless `account` owns one.
    pub fn get_member_by_account(&self, account: AccountId) -> (r: Option<&Member>)
        requires
            self.wf(),
        ensures
            match r {
                Some(m) => {
                    &&& has_account(self@.members, account)
                    &&& m@ == self@.members[account_index(self@.members, account)]
                    &&& m@.created_by == account
                },
                None => !has_account(self@.members, account),
            },
    {
        match self.find_by_account(account) {
            Some(i) => Some(&self.members[i]),
            None => None,
        }
    }

    /// Whether `account` owns a member profile.
    pub fn has_member_profile(&self, account: AccountId) -> (r: bool)
        requires
            self.wf(),
        ensures
            r == has_account(self@.members, account),
    {
        self.find_by_account(account).is_some()
    }

    /// Whether some member holds `email`.
    pub fn is_email_registered(&self, email: &Vec<u8>) -> (r: bool)
        requires
            self.wf(),
        ensures
            r == has_email(self@.members, email@),
    {
        self.find_by_email(email).is_some()
    }

    /// The number of registered members.
    pub fn total_members(&self) -> (r: u32)
        requires
            self.wf(),
        ensures
            r == self@.members.len(),
    {
        self.members.len() as u32
    }

    /// The profile stored under `member_id`, an unrestricted read.
    pub fn get_member_by_uuid(&self, member_id: &MemberUuid) -> (r: Option<&Member>)
        requires
            self.wf(),
        ensures
            match r {
                Some(m) => {
                    &&& has_member_id(self@.members, member_id@)
                    &&& m@ == self@.members[member_id_index(self@.members, member_id@)]
                },
                None => !has_member_id(self@.members, member_id@),
            },
    {
        match self.find_by_uuid(member_id) {
            Some(i) => Some(&self.members[i]),
            None => None,
        }
    }

    /// The identifier of the member owned by `account`, if any.
    pub fn get_member_uuid_by_account(&self, account: AccountId) -> (r: Option<MemberUuid>)
        requires
            self.wf(),
        ensures
            match r {
                Some(id) => {
                    &&& has_account(self@.members, account)
                    &&& id@ == self@.members[account_index(self@.members, account)].member_id
                },
                None => !has_account(self@.members, account),
            },
    {
        match self.find_by_account(account) {
            Some(i) => Some(self.members[i].member_id),
            None => None,
        }
    }

    /// Registers a new member profile owned by the calling account.
    ///
    /// The caller must not already own a profile; email, mobile and date of
    /// birth must be well formed; every text field must fit its configured
    /// bound; the email and the derived identifier must be unbound. On
    /// success the record is appended and a registration notification is
    /// deposited.
    pub fn register_member(
        &mut self,
        origin: Origin,
        member_type: MemberType,
        first_name: Vec<u8>,
        last_name: Vec<u8>,
        date_of_birth: Vec<u8>,
        email: Vec<u8>,
        address: Vec<u8>,
        mobile: Vec<u8>,
        now: u64,
    ) -> (r: Result<(), Error>)
        requires
            old(self).wf(),
            old(self)@.members.len() < u32::MAX,
        ensures
            final(self).wf(),
            ({
                let (r2, rv2) = spec_register(
                    old(self)@,
                    origin,
                    member_type,
                    first_name@,
                    last_name@,
                    date_of_birth@,
                    email@,
                    address@,
                    mobile@,
                    now,
                );
                r == r2 && final(self)@ == rv2
            }),
    {
        let who = match origin {
            Origin::Signed(a) => a,
            Origin::Root => {
                return Err(Error::BadOrigin);
            },
        };
        if self.find_by_account(who).is_some() {
            return Err(Error::MemberAlreadyExists);
        }
        if let Err(e) = validate_email(&email) {
            return Err(e);
        }
        if let Err(e) = validate_mobile(&mobile) {
            return Err(e);
        }
        if let Err(e) = validate_date(&date_of_birth) {
            return Err(e);
        }
        if first_name.len() > self.config.max_first_name_length as usize {
            return Err(Error::InvalidMemberData);
        }
        if last_name.len() > self.config.max_last_name_length as usize {
            return Err(Error::InvalidMemberData);
        }
        if email.len() > self.config.max_email_length as usize {
            return Err(Error::InvalidMemberData);
        }
        if address.len() > self.config.max_address_length as usize {
            return Err(Error::InvalidMemberData);
        }
        if mobile.len() > self.config.max_mobile_length as usize {
            return Err(Error::InvalidMemberData);
        }
        if self.find_by_email(&email).is_some() {
            return Err(Error::EmailAlreadyExists);
        }
        let member_id = generate_member_uuid(who, now);
        if self.find_by_uuid(&member_id).is_some() {
            return Err(Error::MemberAlreadyExists);
        }
        let email_copy = clone_bytes(&email);
        let member = Member {
            member_id,
            member_type,
            first_name,
            last_name,
            date_of_birth,
            email,
            address,
            mobile,
            kyc_status: KycStatus::Unapproved,
            photo_hash: None,
            kyc_hash: None,
            created_at: now,
            updated_at: now,
            created_by: who,
        };
        self.members.push(member);
        let ev = Event::MemberRegistered { member_id, account: who, email: email_copy };
        self.events.push(ev);
        proof {
            lemma_members_view_push(old(self).members@, member);
            lemma_events_view_push(old(self).events@, ev);
            lemma_members_ok_push(old(self)@.config, old(self)@.members, member@);
            let (r2, rv2) = spec_register(
                old(self)@,
                origin,
                member_type,
                first_name@,
                last_name@,
                date_of_birth@,
                email@,
                address@,
                mobile@,
                now,
            );
            assert(self@ =~= rv2);
        }
        Ok(())
    }

    /// Stores the example counter value and notifies.
    pub fn do_something(&mut self, origin: Origin, something: u32) -> (r: Result<(), Error>)
        requires
            old(self).wf(),
        ensures
            final(self).wf(),
            ({
                let (r2, rv2) = spec_do_something(old(self)@, origin, something);
                r == r2 && final(self)@ == rv2
            }),
    {
        let who = match origin {
            Origin::Signed(a) => a,
            Origin::Root => {
                return Err(Error::BadOrigin);
            },
        };
        self.something = Some(something);
        let ev = Event::SomethingStored { something, who };
        self.events.push(ev);
        proof {
            lemma_events_view_push(old(self).events@, ev);
            let (r2, rv2) = spec_do_something(old(self)@, origin, something);
            assert(self@ =~= rv2);
        }
        Ok(())
    }

    /// Bumps the example counter value; fails when none was stored or the
    /// counter is full.
    pub fn cause_error(&mut self, origin: Origin) -> (r: Result<(), Error>)
        requires
            old(self).wf(),
        ensures
            final(self).wf(),
            ({
                let (r2, rv2) = spec_cause_error(old(self)@, origin);
                r == r2 && final(self)@ == rv2
            }),
    {
        let _who = match origin {
            Origin::Signed(a) => a,
            Origin::Root => {
                return Err(Error::BadOrigin);
            },
        };
        match self.something {
            None => Err(Error::NoneValue),
            Some(old_value) => match old_value.checked_add(1) {
                None => Err(Error::StorageOverflow),
                Some(new_value) => {
                    self.something = Some(new_value);
                    proof {
                        let (r2, rv2) = spec_cause_error(old(self)@, origin);
                        assert(self@ =~= rv2);
                    }
                    Ok(())
                },
            },
        }
    }

    /// Reads the caller's own profile, surfacing every field through a
    /// notification.
    pub fn get_member(&mut self, origin: Origin) -> (r: Result<(), Error>)
        requires
            old(self).wf(),
        ensures
            final(self).wf(),
            ({
                let (r2, rv2) = spec_get_member(old(self)@, origin);
                r == r2 && final(self)@ == rv2
            }),
    {
        let who = match origin {
            Origin::Signed(a) => a,
            Origin::Root => {
                return Err(Error::BadOrigin);
            },
        };
        let i = match self.find_by_account(who) {
            Some(i) => i,
            None => {
                return Err(Error::MemberNotFound);
            },
        };
        if self.members[i].created_by != who {
            return Err(Error::NotMemberOwner);
        }
        let m = &self.members[i];
        let ev = Event::MemberDataRetrieved {
            member_id: m.member_id,
            accessed_by: who,
            member_type: m.member_type,
            first_name: clone_bytes(&m.first_name),
            last_name: clone_bytes(&m.last_name),
            date_of_birth: clone_bytes(&m.date_of_birth),
            email: clone_bytes(&m.email),
            address: clone_bytes(&m.address),
            mobile: clone_bytes(&m.mobile),
            photo_hash: m.photo_hash,
            kyc_status: m.kyc_status,
            kyc_hash: m.kyc_hash,
            created_at: m.created_at,
            updated_at: m.updated_at,
        };
        proof {
            assert(self@.members[i as int] == self.members@[i as int]@);
        }
        self.events.push(ev);
        proof {
            lemma_events_view_push(old(self).events@, ev);
            let (r2, rv2) = spec_get_member(old(self)@, origin);
            assert(self@ =~= rv2);
        }
        Ok(())
    }

    /// Updates the caller's own profile.
    ///
    /// Every argument is independently optional; a supplied field is
    /// re-validated and counts as a change only when it differs from the
    /// current value. If any field changed, the KYC status resets to
    /// `Unapproved`, the update time is bumped and an update notification
    /// is deposited; otherwise the call succeeds without writing or
    /// notifying.
    #[verifier::rlimit(100)]
    #[verifier::spinoff_prover]
    pub fn update_member(
        &mut self,
        origin: Origin,
        member_type: Option<MemberType>,
        first_name: Option<Vec<u8>>,
        last_name: Option<Vec<u8>>,
        date_of_birth: Option<Vec<u8>>,
        email: Option<Vec<u8>>,
        address: Option<Vec<u8>>,
        mobile: Option<Vec<u8>>,
        now: u64,
    ) -> (r: Result<(), Error>)
        requires
            old(self).wf(),
        ensures
            final(self).wf(),
            ({
                let (r2, rv2) = spec_update(
                    old(self)@,
                    origin,
                    member_type,
                    view_opt_bytes(first_name),
                    view_opt_bytes(last_name),
                    view_opt_bytes(date_of_birth),
                    view_opt_bytes(email),
                    view_opt_bytes(address),
                    view_opt_bytes(mobile),
                    now,
                );
                r == r2 && final(self)@ == rv2
            }),
    {
        let who = match origin {
            Origin::Signed(a) => a,
            Origin::Root => {
                return Err(Error::BadOrigin);
            },
        };
        let idx = match self.find_by_account(who) {
            Some(i) => i,
            None => {
                return Err(Error::MemberNotFound);
            },
        };
        if self.members[idx].created_by != who {
            return Err(Error::NotMemberOwner);
        }
        let ghost m = self@.members[idx as int];
        proof {
            assert(self@.members[idx as int] == self.members@[idx as int]@);
        }
        let cfg = self.config;

        let cur_mt = self.members[idx].member_type;
        let pair_mt: (MemberType, bool) = match member_type {
            None => (cur_mt, false),
            Some(mt) => {
                if mt == cur_mt {
                    (cur_mt, false)
                } else {
                    (mt, true)
                }
            },
        };
        let (new_mt, ch0) = pair_mt;
        proof {
            assert(upd_member_type(m.member_type, member_type) == (new_mt, ch0));
        }

        let pair_first: (Vec<u8>, bool) = match first_name {
            None => (clone_bytes(&self.members[idx].first_name), false),
            Some(v) => {
                if v.len() > cfg.max_first_name_length as usize {
                    return Err(Error::InvalidMemberData);
                }
                let same = bytes_eq(&v, &self.members[idx].first_name);
                (v, !same)
            },
        };
        let (new_first, ch1) = pair_first;
        proof {
            assert(upd_bounded(m.first_name, view_opt_bytes(first_name), cfg.max_first_name_length)
                == Ok::<(Seq<u8>, bool), Error>((new_first@, ch1)));
        }

        let pair_last: (Vec<u8>, bool) = match last_name {
            None => (clone_bytes(&self.members[idx].last_name), false),
            Some(v) => {
                if v.len() > cfg.max_last_name_length as usize {
                    return Err(Error::InvalidMemberData);
                }
                let same = bytes_eq(&v, &self.members[idx].last_name);
                (v, !same)
            },
        };
        let (new_last, ch2) = pair_last;
        proof {
            assert(upd_bounded(m.last_name, view_opt_bytes(last_name), cfg.max_last_name_length)
                == Ok::<(Seq<u8>, bool), Error>((new_last@, ch2)));
        }

        let pair_dob: (Vec<u8>, bool) = match date_of_birth {
            None => (clone_bytes(&self.members[idx].date_of_birth), false),
            Some(v) => {
                if let Err(e) = validate_date(&v) {
                    return Err(e);
                }
                let same = bytes_eq(&v, &self.members[idx].date_of_birth);
                (v, !same)
            },
        };
        let (new_dob, ch3) = pair_dob;
        proof {
            assert(upd_date(m.date_of_birth, view_opt_bytes(date_of_birth)) == Ok::<
                (Seq<u8>, bool),
                Error,
            >((new_dob@, ch3)));
        }

        let pair_email: (Vec<u8>, bool) = match email {
            None => (clone_bytes(&self.members[idx].email), false),
            Some(v) => {
                if let Err(e) = validate_email(&v) {
                    return Err(e);
                }
                if v.len() > cfg.max_email_length as usize {
                    return Err(Error::InvalidMemberData);
                }
                let same = bytes_eq(&v, &self.members[idx].email);
                if !same && self.email_taken_by_other(idx, &v) {
                    return Err(Error::EmailAlreadyExists);
                }
                (v, !same)
            },
        };
        let (new_email, ch4) = pair_email;
        proof {
            assert(upd_email(
                old(self)@.members,
                idx as int,
                m.email,
                view_opt_bytes(email),
                cfg.max_email_length,
            ) == Ok::<(Seq<u8>, bool), Error>((new_email@, ch4)));
        }

        let pair_addr: (Vec<u8>, bool) = match address {
            None => (clone_bytes(&self.members[idx].address), false),
            Some(v) => {
                if v.len() > cfg.max_address_length as usize {
                    return Err(Error::InvalidMemberData);
                }
                let same = bytes_eq(&v, &self.members[idx].address);
                (v, !same)
            },
        };
        let (new_addr, ch5) = pair_addr;
        proof {
            assert(upd_bounded(m.address, view_opt_bytes(address), cfg.max_address_length)
                == Ok::<(Seq<u8>, bool), Error>((new_addr@, ch5)));
        }

        let pair_mob: (Vec<u8>, bool) = match mobile {
            None => (clone_bytes(&self.members[idx].mobile), false),
            Some(v) => {
                if let Err(e) = validate_mobile(&v) {
                    return Err(e);
                }
                if v.len() > cfg.max_mobile_length as usize {
                    return Err(Error::InvalidMemberData);
                }
                let same = bytes_eq(&v, &self.members[idx].mobile);
                (v, !same)
            },
        };
        let (new_mob, ch6) = pair_mob;
        proof {
            assert(upd_mobile(m.mobile, view_opt_bytes(mobile), cfg.max_mobile_length) == Ok::<
                (Seq<u8>, bool),
                Error,
            >((new_mob@, ch6)));
        }

        if !(ch0 || ch1 || ch2 || ch3 || ch4 || ch5 || ch6) {
            return Ok(());
        }

        let prev_email: Option<Vec<u8>> = if ch4 {
            Some(clone_bytes(&self.members[idx].email))
        } else {
            None
        };
        let new_email_copy = clone_bytes(&new_email);
        let member_id = self.members[idx].member_id;
        let created_at = self.members[idx].created_at;
        let created_by = self.members[idx].created_by;
        let photo_hash = self.members[idx].photo_hash;
        let kyc_hash = self.members[idx].kyc_hash;
        let new_member = Member {
            member_id,
            member_type: new_mt,
            first_name: new_first,
            last_name: new_last,
            date_of_birth: new_dob,
            email: new_email,
            address: new_addr,
            mobile: new_mob,
            kyc_status: KycStatus::Unapproved,
            photo_hash,
            kyc_hash,
            created_at,
            updated_at: now,
            created_by,
        };
        self.members[idx] = new_member;
        let ev = Event::MemberUpdated {
            member_id,
            updated_by: who,
            previous_email: prev_email,
            new_email: new_email_copy,
        };
        self.events.push(ev);
        proof {
            lemma_members_view_update(old(self).members@, idx as int, new_member);
            lemma_events_view_push(old(self).events@, ev);
            lemma_members_ok_update(old(self)@.config, old(self)@.members, idx as int, new_member@);
            let (r2, rv2) = spec_update(
                old(self)@,
                origin,
                member_type,
                view_opt_bytes(first_name),
                view_opt_bytes(last_name),
                view_opt_bytes(date_of_birth),
                view_opt_bytes(email),
                view_opt_bytes(address),
                view_opt_bytes(mobile),
                now,
            );
            assert(self@ =~= rv2);
        }
        Ok(())
    }

    /// Submits KYC documents for the caller's own profile: sets the KYC
    /// hash, sets the photo hash only when supplied, bumps the update time
    /// and leaves the KYC status alone.
    pub fn submit_kyc(
        &mut self,
        origin: Origin,
        kyc_hash: H256,
        photo_hash: Option<H256>,
        now: u64,
    ) -> (r: Result<(), Error>)
        requires
            old(self).wf(),
        ensures
            final(self).wf(),
            ({
                let (r2, rv2) = spec_submit_kyc(
                    old(self)@,
                    origin,
                    kyc_hash@,
                    view_opt_hash(photo_hash),
                    now,
                );
                r == r2 && final(self)@ == rv2
            }),
    {
        let who = match origin {
            Origin::Signed(a) => a,
            Origin::Root => {
                return Err(Error::BadOrigin);
            },
        };
        let i = match self.find_by_account(who) {
            Some(i) => i,
            None => {
                return Err(Error::MemberNotFound);
            },
        };
        if self.members[i].created_by != who {
            return Err(Error::NotMemberOwner);
        }
        let member_id = self.members[i].member_id;
        proof {
            assert(self@.members[i as int] == self.members@[i as int]@);
        }
        let mref = &mut self.members[i];
        mref.kyc_hash = Some(kyc_hash);
        if let Some(p) = photo_hash {
            mref.photo_hash = Some(p);
        }
        mref.updated_at = now;
        let ev = Event::KycSubmitted { member_id, submitted_by: who, kyc_hash };
        self.events.push(ev);
        proof {
            let ms0 = old(self).members@;
            let m2 = self.members@[i as int];
            lemma_members_view_update(ms0, i as int, m2);
            lemma_events_view_push(old(self).events@, ev);
            lemma_members_ok_update(old(self)@.config, old(self)@.members, i as int, m2@);
            let (r2, rv2) = spec_submit_kyc(
                old(self)@,
                origin,
                kyc_hash@,
                view_opt_hash(photo_hash),
                now,
            );
            assert(self@ =~= rv2);
        }
        Ok(())
    }

    /// Sets a member's KYC status; open to any signed caller. The
    /// notification reports the caller.
    pub fn update_kyc_status(
        &mut self,
        origin: Origin,
        member_id: MemberUuid,
        new_status: KycStatus,
        now: u64,
    ) -> (r: Result<(), Error>)
        requires
            old(self).wf(),
        ensures
            final(self).wf(),
            ({
                let (r2, rv2) = spec_update_kyc_status(
                    old(self)@,
                    origin,
                    member_id@,
                    new_status,
                    now,
                );
                r == r2 && final(self)@ == rv2
            }),
    {
        let who = match origin {
            Origin::Signed(a) => a,
            Origin::Root => {
                return Err(Error::BadOrigin);
            },
        };
        let i = match self.find_by_uuid(&member_id) {
            Some(i) => i,
            None => {
                return Err(Error::MemberNotFound);
            },
        };
        let old_status = self.members[i].kyc_status;
        proof {
            assert(self@.members[i as int] == self.members@[i as int]@);
        }
        let mref = &mut self.members[i];
        mref.kyc_status = new_status;
        mref.updated_at = now;
        let ev = Event::KycStatusUpdated { member_id, updated_by: who, old_status, new_status };
        self.events.push(ev);
        proof {
            let ms0 = old(self).members@;
            let m2 = self.members@[i as int];
            lemma_members_view_update(ms0, i as int, m2);
            lemma_events_view_push(old(self).events@, ev);
            lemma_members_ok_update(old(self)@.config, old(self)@.members, i as int, m2@);
            let (r2, rv2) = spec_update_kyc_status(old(self)@, origin, member_id@, new_status, now);
            assert(self@ =~= rv2);
        }
        Ok(())
    }

    /// Sets a member's KYC status from the privileged root origin. The
    /// notification reports the member's own account.
    pub fn admin_update_kyc_status(
        &mut self,
        origin: Origin,
        member_id: MemberUuid,
        new_status: KycStatus,
        now: u64,
    ) -> (r: Result<(), Error>)
        requires
            old(self).wf(),
        ensures
            final(self).wf(),
            ({
                let (r2, rv2) = spec_admin_update_kyc_status(
                    old(self)@,
                    origin,
                    member_id@,
                    new_status,
                    now,
                );
                r == r2 && final(self)@ == rv2
            }),
    {
        match origin {
            Origin::Signed(_) => {
                return Err(Error::BadOrigin);
            },
            Origin::Root => {},
        };
        let i = match self.find_by_uuid(&member_id) {
            Some(i) => i,
            None => {
                return Err(Error::MemberNotFound);
            },
        };
        let old_status = self.members[i].kyc_status;
        let owner = self.members[i].created_by;
        proof {
            assert(self@.members[i as int] == self.members@[i as int]@);
        }
        let mref = &mut self.members[i];
        mref.kyc_status = new_status;
        mref.updated_at = now;
        let ev = Event::KycStatusUpdated { member_id, updated_by: owner, old_status, new_status };
        self.events.push(ev);
        proof {
            let ms0 = old(self).members@;
            let m2 = self.members@[i as int];
            lemma_members_view_update(ms0, i as int, m2);
            lemma_events_view_push(old(self).events@, ev);
            lemma_members_ok_update(old(self)@.config, old(self)@.members, i as int, m2@);
            let (r2, rv2) = spec_admin_update_kyc_status(
                old(self)@,
                origin,
                member_id@,
                new_status,
                now,
            );
            assert(self@ =~= rv2);
        }
        Ok(())
    }

    /// The events deposited so far, oldest first.
    pub fn events(&self) -> (r: &Vec<Event>)
        ensures
            events_view(r@) == self@.events,
    {
        &self.events
    }

    /// The example counter value, if one was stored.
    pub fn something(&self) -> (r: Option<u32>)
        ensures
            r == self@.something,
    {
        self.something
    }
}

} // verus!
