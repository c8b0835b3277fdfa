use vstd::prelude::*;
use crate::account::{AccountId, PublicKey};
use crate::collections::{AccountSet, ApplicantMap};
use crate::error::{Role, WhitelistError};

verus! {

/// The abstract state of the registry.
pub struct WhitelistModel {
    /// The administrator's key, fixed at initialization.
    pub admin_pk: Seq<u8>,
    /// Accounts allowed to promote and revoke members.
    pub services: Set<Seq<char>>,
    /// Pending applicants and the keys they registered with.
    pub applicants: Map<Seq<char>, Seq<u8>>,
    /// Accounts that completed verification.
    pub whitelist: Set<Seq<char>>,
}

impl WhitelistModel {
    /// No account is both pending and whitelisted.
    pub open spec fn disjoint(self) -> bool {
        forall|a: Seq<char>| self.applicants.contains_key(a) ==> !self.whitelist.contains(a)
    }
}

/// The state right after initialization with the administrator key `admin_pk`.
pub open spec fn initial_model(admin_pk: Seq<u8>) -> WhitelistModel {
    WhitelistModel {
        admin_pk,
        services: Set::empty(),
        applicants: Map::empty(),
        whitelist: Set::empty(),
    }
}

/// Adding a service account: administrator only; reports whether the set changed.
pub open spec fn add_service_account_step(m: WhitelistModel, caller_pk: Seq<u8>, id: Seq<char>) -> (
    WhitelistModel,
    Result<bool, WhitelistError>,
) {
    if caller_pk != m.admin_pk {
        (m, Err(WhitelistError::Unauthorized(Role::Admin)))
    } else {
        (WhitelistModel { services: m.services.insert(id), ..m }, Ok(!m.services.contains(id)))
    }
}

/// Removing a service account: administrator only; reports whether it was present.
pub open spec fn remove_service_account_step(m: WhitelistModel, caller_pk: Seq<u8>, id: Seq<char>) -> (
    WhitelistModel,
    Result<bool, WhitelistError>,
) {
    if caller_pk != m.admin_pk {
        (m, Err(WhitelistError::Unauthorized(Role::Admin)))
    } else {
        (WhitelistModel { services: m.services.remove(id), ..m }, Ok(m.services.contains(id)))
    }
}

/// Self-registration of `signer` with key `signer_pk`. A pending registration is
/// reported before whitelisting.
pub open spec fn register_applicant_step(m: WhitelistModel, signer: Seq<char>, signer_pk: Seq<u8>) -> (
    WhitelistModel,
    Result<Option<Seq<u8>>, WhitelistError>,
) {
    if m.applicants.contains_key(signer) {
        (m, Err(WhitelistError::DuplicateRegistration))
    } else if m.whitelist.contains(signer) {
        (m, Err(WhitelistError::AlreadyWhitelisted))
    } else {
        (WhitelistModel { applicants: m.applicants.insert(signer, signer_pk), ..m }, Ok(None))
    }
}

/// Withdrawal of a pending application; returns the key it held.
pub open spec fn remove_applicant_step(m: WhitelistModel, id: Seq<char>) -> (
    WhitelistModel,
    Result<Option<Seq<u8>>, WhitelistError>,
) {
    if !m.applicants.contains_key(id) {
        (m, Err(WhitelistError::UnknownApplicant))
    } else {
        (WhitelistModel { applicants: m.applicants.remove(id), ..m }, Ok(Some(m.applicants[id])))
    }
}

/// Promotion of a pending applicant by a service account; reports whether the
/// whitelist changed.
pub open spec fn add_account_step(m: WhitelistModel, caller: Seq<char>, id: Seq<char>) -> (
    WhitelistModel,
    Result<bool, WhitelistError>,
) {
    if !m.services.contains(caller) {
        (m, Err(WhitelistError::Unauthorized(Role::Service)))
    } else if !m.applicants.contains_key(id) {
        (m, Err(WhitelistError::UnknownApplicant))
    } else {
        (
            WhitelistModel {
                applicants: m.applicants.remove(id),
                whitelist: m.whitelist.insert(id),
                ..m
            },
            Ok(!m.whitelist.contains(id)),
        )
    }
}

/// Revocation of membership by a service account; reports whether it was a member.
pub open spec fn remove_account_step(m: WhitelistModel, caller: Seq<char>, id: Seq<char>) -> (
    WhitelistModel,
    Result<bool, WhitelistError>,
) {
    if !m.services.contains(caller) {
        (m, Err(WhitelistError::Unauthorized(Role::Service)))
    } else {
        (WhitelistModel { whitelist: m.whitelist.remove(id), ..m }, Ok(m.whitelist.contains(id)))
    }
}

/// The abstract value of an operation's result that carries an optional key.
pub open spec fn key_result(r: Result<Option<PublicKey>, WhitelistError>) -> Result<
    Option<Seq<u8>>,
    WhitelistError,
> {
    match r {
        Ok(Some(k)) => Ok(Some(k@)),
        Ok(None) => Ok(None),
        Err(e) => Err(e),
    }
}

/// The registry: administrator key, service accounts, pending applicants and
/// whitelisted accounts.
pub struct SmartWhitelistContract {
    admin_pk: PublicKey,
    service_accounts: AccountSet,
    applicants: ApplicantMap,
    whitelist: AccountSet,
}

impl View for SmartWhitelistContract {
    type V = WhitelistModel;

    closed spec fn view(&self) -> WhitelistModel {
        WhitelistModel {
            admin_pk: self.admin_pk@,
            services: self.service_accounts@,
            applicants: self.applicants@,
            whitelist: self.whitelist@,
        }
    }
}

impl SmartWhitelistContract {
    /// Each collection is well formed and no account is both pending and whitelisted.
    pub closed spec fn wf(&self) -> bool {
        &&& self.service_accounts.wf()
        &&& self.applicants.wf()
        &&& self.whitelist.wf()
        &&& self@.disjoint()
    }

    /// A registry administered by the holder of `admin_pk`, with no accounts.
    pub fn new(admin_pk: PublicKey) -> (r: SmartWhitelistContract)
        ensures
            r.wf(),
            r@ == initial_model(admin_pk@),
    {
        SmartWhitelistContract {
            admin_pk,
            service_accounts: AccountSet::new(),
            applicants: ApplicantMap::new(),
            whitelist: AccountSet::new(),
        }
    }

    /// Whether `service_account_id` is a service account.
    pub fn is_service_account_whitelisted(&self, service_account_id: AccountId) -> (r: bool)
        requires
            self.wf(),
        ensures
            r == self@.services.contains(service_account_id@),
    {
        self.service_accounts.contains(&service_account_id)
    }

    /// The key that `applicant_account_id` registered with, while pending.
    pub fn get_applicant_pk(&self, applicant_account_id: AccountId) -> (r: Option<PublicKey>)
        requires
            self.wf(),
        ensures
            match r {
                Some(k) => self@.applicants.contains_key(applicant_account_id@)
                    && k@ == self@.applicants[applicant_account_id@],
                None => !self@.applicants.contains_key(applicant_account_id@),
            },
    {
        self.applicants.get(&applicant_account_id)
    }

    /// Whether `account_id` is whitelisted.
    pub fn is_whitelisted(&self, account_id: AccountId) -> (r: bool)
        requires
            self.wf(),
        ensures
            r == self@.whitelist.contains(account_id@),
    {
        self.whitelist.contains(&account_id)
    }

    /// Adds a service account; only the administrator key may do so.
    /// Returns whether the set of service accounts changed.
    pub fn add_service_account(&mut self, signer_account_pk: &PublicKey, service_account_id: AccountId) -> (r:
        Result<bool, WhitelistError>)
        requires
            old(self).wf(),
        ensures
            final(self).wf(),
            (final(self)@, r) == add_service_account_step(
                old(self)@,
                signer_account_pk@,
                service_account_id@,
            ),
    {
        self.assert_called_by_admin(signer_account_pk)?;
        let changed = self.service_accounts.insert(service_account_id);
        proof {
            assert(self@ == add_service_account_step(old(self)@, signer_account_pk@, service_account_id@).0);
        }
        Ok(changed)
    }

    /// Removes a service account; only the administrator key may do so.
    /// Returns whether it was a service account.
    pub fn remove_service_account(&mut self, signer_account_pk: &PublicKey, service_account_id: AccountId) -> (r:
        Result<bool, WhitelistError>)
        requires
            old(self).wf(),
        ensures
            final(self).wf(),
            (final(self)@, r) == remove_service_account_step(
                old(self)@,
                signer_account_pk@,
                service_account_id@,
            ),
    {
        self.assert_called_by_admin(signer_account_pk)?;
        let changed = self.service_accounts.remove(&service_account_id);
        proof {
            assert(self@ == remove_service_account_step(old(self)@, signer_account_pk@, service_account_id@).0);
        }
        Ok(changed)
    }

    /// Registers the signer as an applicant with the key it signed with.
    /// Returns the key stored before, which is always none on success.
    pub fn register_applicant(&mut self, signer_account_id: AccountId, signer_account_pk: PublicKey) -> (r:
        Result<Option<PublicKey>, WhitelistError>)
        requires
            old(self).wf(),
        ensures
            final(self).wf(),
            (final(self)@, key_result(r)) == register_applicant_step(
                old(self)@,
                signer_account_id@,
                signer_account_pk@,
            ),
    {
        if self.applicants.contains_key(&signer_account_id) {
            return Err(WhitelistError::DuplicateRegistration);
        }
        if self.whitelist.contains(&signer_account_id) {
            return Err(WhitelistError::AlreadyWhitelisted);
        }
        let prev = self.applicants.insert(signer_account_id, signer_account_pk);
        proof {
            assert(self@ == register_applicant_step(old(self)@, signer_account_id@, signer_account_pk@).0);
        }
        Ok(prev)
    }

    /// Withdraws the signer's pending application; returns the key it held.
    pub fn remove_applicant(&mut self, signer_account_id: AccountId) -> (r: Result<
        Option<PublicKey>,
        WhitelistError,
    >)
        requires
            old(self).wf(),
        ensures
            final(self).wf(),
            (final(self)@, key_result(r)) == remove_applicant_step(old(self)@, signer_account_id@),
    {
        self.internal_remove_applicant(&signer_account_id)
    }

    /// Promotes a pending applicant into the whitelist; only a service account may
    /// do so. Returns whether the whitelist changed.
    pub fn add_account(&mut self, predecessor_account_id: &AccountId, account_id: AccountId) -> (r: Result<
        bool,
        WhitelistError,
    >)
        requires
            old(self).wf(),
        ensures
            final(self).wf(),
            (final(self)@, r) == add_account_step(old(self)@, predecessor_account_id@, account_id@),
    {
        self.assert_called_by_service(predecessor_account_id)?;
        self.internal_remove_applicant(&account_id)?;
        let changed = self.whitelist.insert(account_id);
        proof {
            assert(self@ == add_account_step(old(self)@, predecessor_account_id@, account_id@).0);
        }
        Ok(changed)
    }

    /// Revokes whitelist membership; only a service account may do so. Returns
    /// whether the account was whitelisted.
    pub fn remove_account(&mut self, predecessor_account_id: &AccountId, account_id: AccountId) -> (r: Result<
        bool,
        WhitelistError,
    >)
        requires
            old(self).wf(),
        ensures
            final(self).wf(),
            (final(self)@, r) == remove_account_step(old(self)@, predecessor_account_id@, account_id@),
    {
        self.assert_called_by_service(predecessor_account_id)?;
        Ok(self.whitelist.remove(&account_id))
    }

    /// Deletes the pending application of `applicant_account_id`, which must exist.
    fn internal_remove_applicant(&mut self, applicant_account_id: &AccountId) -> (r: Result<
        Option<PublicKey>,
        WhitelistError,
    >)
        requires
            old(self).wf(),
        ensures
            final(self).wf(),
            (final(self)@, key_result(r)) == remove_applicant_step(old(self)@, applicant_account_id@),
    {
        if !self.applicants.contains_key(applicant_account_id) {
            return Err(WhitelistError::UnknownApplicant);
        }
        let prev = self.applicants.remove(applicant_account_id);
        proof {
            assert(self@ == remove_applicant_step(old(self)@, applicant_account_id@).0);
        }
        Ok(prev)
    }

    /// Succeeds exactly when `signer_account_pk` is the administrator key.
    fn assert_called_by_admin(&self, signer_account_pk: &PublicKey) -> (r: Result<(), WhitelistError>)
        ensures
            r == (if signer_account_pk@ == self@.admin_pk {
                Ok(())
            } else {
                Err(WhitelistError::Unauthorized(Role::Admin))
            }),
    {
        if !signer_account_pk.same_as(&self.admin_pk) {
            return Err(WhitelistError::Unauthorized(Role::Admin));
        }
        Ok(())
    }

    /// Succeeds exactly when `predecessor_account_id` is a service account.
    fn assert_called_by_service(&self, predecessor_account_id: &AccountId) -> (r: Result<(), WhitelistError>)
        requires
            self.wf(),
        ensures
            r == (if self@.services.contains(predecessor_account_id@) {
                Ok(())
            } else {
                Err(WhitelistError::Unauthorized(Role::Service))
            }),
    {
        if !self.service_accounts.contains(predecessor_account_id) {
            return Err(WhitelistError::Unauthorized(Role::Service));
        }
        Ok(())
    }
}

/// A well-formed registry never holds an account that is both pending and
/// whitelisted.
pub proof fn lemma_wf_disjoint(c: &SmartWhitelistContract)
    requires
        c.wf(),
    ensures
        c@.disjoint(),
{
}

} // verus!
