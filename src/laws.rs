use vstd::prelude::*;
use crate::contract::{
    add_account_step, add_service_account_step, initial_model, register_applicant_step,
    remove_account_step, remove_applicant_step, remove_service_account_step,
    WhitelistModel,
};
use crate::error::{Role, WhitelistError};

verus! {

/// The initial state holds no account that is both pending and whitelisted, and
/// every operation, whether it succeeds or fails, keeps it so.
pub proof fn lemma_steps_keep_disjoint(
    m: WhitelistModel,
    admin_pk: Seq<u8>,
    caller_pk: Seq<u8>,
    caller: Seq<char>,
    id: Seq<char>,
    key: Seq<u8>,
)
    requires
        m.disjoint(),
    ensures
        initial_model(admin_pk).disjoint(),
        add_service_account_step(m, caller_pk, id).0.disjoint(),
        remove_service_account_step(m, caller_pk, id).0.disjoint(),
        register_applicant_step(m, id, key).0.disjoint(),
        remove_applicant_step(m, id).0.disjoint(),
        add_account_step(m, caller, id).0.disjoint(),
        remove_account_step(m, caller, id).0.disjoint(),
{
}

/// Adding a service account and then removing it, both by the administrator,
/// leaves every other service account as it was and the account itself absent.
/// The first call reports whether the account was absent, the second that it was
/// present; an account that was absent at first leaves the registry exactly as
/// it was.
pub proof fn lemma_service_add_then_remove(m: WhitelistModel, admin_pk: Seq<u8>, id: Seq<char>)
    requires
        admin_pk == m.admin_pk,
    ensures
        ({
            let (m1, r1) = add_service_account_step(m, admin_pk, id);
            let (m2, r2) = remove_service_account_step(m1, admin_pk, id);
            &&& r1 == Ok::<bool, WhitelistError>(!m.services.contains(id))
            &&& r2 == Ok::<bool, WhitelistError>(true)
            &&& m2.services == m.services.remove(id)
            &&& m2.admin_pk == m.admin_pk
            &&& m2.applicants == m.applicants
            &&& m2.whitelist == m.whitelist
            &&& !m.services.contains(id) ==> m2 == m
        }),
{
    let m1 = add_service_account_step(m, admin_pk, id).0;
    assert(m1.services.remove(id) =~= m.services.remove(id));
    if !m.services.contains(id) {
        assert(m.services.remove(id) =~= m.services);
    }
}

/// Registering and then withdrawing by the same account hands back the key that
/// was stored and leaves no pending entry for it; after a successful
/// registration that key is the one registered and the state is as before.
pub proof fn lemma_register_then_withdraw(m: WhitelistModel, id: Seq<char>, key: Seq<u8>)
    requires
        !m.whitelist.contains(id),
    ensures
        ({
            let (m1, r1) = register_applicant_step(m, id, key);
            let (m2, r2) = remove_applicant_step(m1, id);
            &&& r2 == Ok::<Option<Seq<u8>>, WhitelistError>(Some(m1.applicants[id]))
            &&& !m2.applicants.contains_key(id)
            &&& r1 is Ok ==> {
                &&& r1 == Ok::<Option<Seq<u8>>, WhitelistError>(None)
                &&& r2 == Ok::<Option<Seq<u8>>, WhitelistError>(Some(key))
                &&& m2 == m
            }
        }),
{
    let (m1, r1) = register_applicant_step(m, id, key);
    if r1 is Ok {
        assert(m1.applicants.remove(id) =~= m.applicants);
    }
}

/// Registration followed by promotion through a service account leaves the
/// account whitelisted and no longer pending.
pub proof fn lemma_promotion_consumes_registration(
    m: WhitelistModel,
    id: Seq<char>,
    key: Seq<u8>,
    service: Seq<char>,
)
    requires
        m.disjoint(),
        m.services.contains(service),
    ensures
        ({
            let m1 = register_applicant_step(m, id, key).0;
            let m2 = add_account_step(m1, service, id).0;
            &&& !m2.applicants.contains_key(id)
            &&& m2.whitelist.contains(id)
        }),
{
}

/// A caller without the administrator key can neither add nor remove a service
/// account, and the state stays as it was.
pub proof fn lemma_only_admin_changes_services(m: WhitelistModel, caller_pk: Seq<u8>, id: Seq<char>)
    requires
        caller_pk != m.admin_pk,
    ensures
        add_service_account_step(m, caller_pk, id) == (
            m,
            Err::<bool, WhitelistError>(WhitelistError::Unauthorized(Role::Admin)),
        ),
        remove_service_account_step(m, caller_pk, id) == (
            m,
            Err::<bool, WhitelistError>(WhitelistError::Unauthorized(Role::Admin)),
        ),
{
}

} // verus!
