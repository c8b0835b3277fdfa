use smart_whitelist::{AccountId, AccountSet, ApplicantMap, PublicKey, Role, SmartWhitelistContract, WhitelistError};

fn id(s: &str) -> AccountId {
    AccountId::new(s.to_string())
}

fn key(b: &[u8]) -> PublicKey {
    PublicKey::from_bytes(b.to_vec())
}

fn bytes(k: &Option<PublicKey>) -> Option<Vec<u8>> {
    k.as_ref().map(|k| k.as_bytes().to_vec())
}

const ADMIN_KEY: [u8; 4] = [7, 7, 7, 7];

fn registry_with(service: &str) -> SmartWhitelistContract {
    let mut c = SmartWhitelistContract::new(key(&ADMIN_KEY));
    assert_eq!(c.add_service_account(&key(&ADMIN_KEY), id(service)), Ok(true));
    c
}

#[test]
fn admin_adds_service() {
    let mut c = SmartWhitelistContract::new(key(&ADMIN_KEY));
    assert!(!c.is_service_account_whitelisted(id("svc.near")));
    assert_eq!(c.add_service_account(&key(&ADMIN_KEY), id("svc.near")), Ok(true));
    assert!(c.is_service_account_whitelisted(id("svc.near")));
}

#[test]
fn user_registers() {
    let mut c = registry_with("svc.near");
    let r = c.register_applicant(id("u.near"), key(&[1, 2, 3]));
    assert_eq!(bytes(&r.unwrap()), None);
    assert_eq!(bytes(&c.get_applicant_pk(id("u.near"))), Some(vec![1, 2, 3]));
}

#[test]
fn service_promotes_user() {
    let mut c = registry_with("svc.near");
    assert!(c.register_applicant(id("u.near"), key(&[1, 2, 3])).is_ok());
    assert_eq!(c.add_account(&id("svc.near"), id("u.near")), Ok(true));
    assert!(c.get_applicant_pk(id("u.near")).is_none());
    assert!(c.is_whitelisted(id("u.near")));
}

#[test]
fn whitelisted_user_cannot_register() {
    let mut c = registry_with("svc.near");
    assert!(c.register_applicant(id("u.near"), key(&[1, 2, 3])).is_ok());
    assert_eq!(c.add_account(&id("svc.near"), id("u.near")), Ok(true));
    let r = c.register_applicant(id("u.near"), key(&[1, 2, 3]));
    assert_eq!(r.err(), Some(WhitelistError::AlreadyWhitelisted));
    assert!(c.get_applicant_pk(id("u.near")).is_none());
}

#[test]
fn non_service_cannot_promote() {
    let mut c = registry_with("svc.near");
    assert!(c.register_applicant(id("u.near"), key(&[1, 2, 3])).is_ok());
    assert_eq!(
        c.add_account(&id("v.near"), id("u.near")),
        Err(WhitelistError::Unauthorized(Role::Service))
    );
    assert!(!c.is_whitelisted(id("u.near")));
    assert_eq!(bytes(&c.get_applicant_pk(id("u.near"))), Some(vec![1, 2, 3]));
}

#[test]
fn unknown_applicant_cannot_be_promoted() {
    let mut c = registry_with("svc.near");
    assert_eq!(c.add_account(&id("svc.near"), id("w.near")), Err(WhitelistError::UnknownApplicant));
    assert!(!c.is_whitelisted(id("w.near")));
}

#[test]
fn pending_and_whitelisted_never_overlap() {
    let mut c = registry_with("svc.near");
    let names = ["a", "b", "c"];
    for n in names {
        assert!(c.register_applicant(id(n), key(n.as_bytes())).is_ok());
    }
    assert_eq!(c.add_account(&id("svc.near"), id("b")), Ok(true));
    assert_eq!(c.remove_account(&id("svc.near"), id("b")), Ok(true));
    assert!(c.register_applicant(id("b"), key(&[9])).is_ok());
    assert_eq!(c.add_account(&id("svc.near"), id("b")), Ok(true));
    for n in names {
        assert!(!(c.is_whitelisted(id(n)) && c.get_applicant_pk(id(n)).is_some()));
    }
}

#[test]
fn queries_do_not_change_state() {
    let mut c = registry_with("svc.near");
    assert!(c.register_applicant(id("u"), key(&[4])).is_ok());
    for _ in 0..3 {
        assert!(c.is_service_account_whitelisted(id("svc.near")));
        assert!(!c.is_whitelisted(id("u")));
        assert_eq!(bytes(&c.get_applicant_pk(id("u"))), Some(vec![4]));
    }
}

#[test]
fn service_add_then_remove_restores_membership() {
    let mut c = SmartWhitelistContract::new(key(&ADMIN_KEY));
    assert_eq!(c.add_service_account(&key(&ADMIN_KEY), id("s")), Ok(true));
    assert_eq!(c.remove_service_account(&key(&ADMIN_KEY), id("s")), Ok(true));
    assert!(!c.is_service_account_whitelisted(id("s")));
    assert_eq!(c.remove_service_account(&key(&ADMIN_KEY), id("s")), Ok(false));
}

#[test]
fn adding_a_service_twice_reports_no_change() {
    let mut c = registry_with("s");
    assert_eq!(c.add_service_account(&key(&ADMIN_KEY), id("s")), Ok(false));
    assert!(c.is_service_account_whitelisted(id("s")));
}

#[test]
fn register_then_withdraw_round_trip() {
    let mut c = registry_with("s");
    assert!(c.register_applicant(id("u"), key(&[5, 6])).is_ok());
    let r = c.remove_applicant(id("u")).unwrap();
    assert_eq!(bytes(&r), Some(vec![5, 6]));
    assert!(c.get_applicant_pk(id("u")).is_none());
    let again = c.remove_applicant(id("u"));
    assert_eq!(again.err(), Some(WhitelistError::UnknownApplicant));
}

#[test]
fn non_admin_cannot_change_services() {
    let mut c = registry_with("s");
    assert_eq!(
        c.add_service_account(&key(&[7, 7, 7]), id("t")),
        Err(WhitelistError::Unauthorized(Role::Admin))
    );
    assert_eq!(
        c.remove_service_account(&key(&[7, 7, 7, 8]), id("s")),
        Err(WhitelistError::Unauthorized(Role::Admin))
    );
    assert!(c.is_service_account_whitelisted(id("s")));
    assert!(!c.is_service_account_whitelisted(id("t")));
}

#[test]
fn removing_an_absent_member_reports_false() {
    let mut c = registry_with("s");
    assert_eq!(c.remove_account(&id("s"), id("nobody")), Ok(false));
    assert_eq!(
        c.remove_account(&id("nobody"), id("s")),
        Err(WhitelistError::Unauthorized(Role::Service))
    );
}

#[test]
fn revoked_member_is_not_pending_again() {
    let mut c = registry_with("s");
    assert!(c.register_applicant(id("u"), key(&[1])).is_ok());
    assert_eq!(c.add_account(&id("s"), id("u")), Ok(true));
    assert_eq!(c.remove_account(&id("s"), id("u")), Ok(true));
    assert!(c.get_applicant_pk(id("u")).is_none());
    assert!(!c.is_whitelisted(id("u")));
}

#[test]
fn identifiers_compare_by_characters() {
    assert!(id("alice.near").same_as(&id("alice.near")));
    assert!(!id("alice.near").same_as(&id("alice.nea")));
    assert!(!id("alice").same_as(&id("alicf")));
    assert_eq!(id("bob").duplicate().as_str(), "bob");
    assert!(key(&[1, 2]).same_as(&key(&[1, 2])));
    assert!(!key(&[1, 2]).same_as(&key(&[1, 3])));
    assert!(!key(&[]).same_as(&key(&[0])));
    assert_eq!(key(&[3, 4]).duplicate().as_bytes(), &[3, 4]);
}

#[test]
fn collections_track_membership() {
    let mut s = AccountSet::new();
    assert!(s.insert(id("x")));
    assert!(!s.insert(id("x")));
    assert!(s.insert(id("y")));
    assert!(s.remove(&id("x")));
    assert!(!s.contains(&id("x")));
    assert!(s.contains(&id("y")));
    assert!(!s.remove(&id("x")));

    let mut m = ApplicantMap::new();
    assert_eq!(bytes(&m.insert(id("x"), key(&[1]))), None);
    assert_eq!(bytes(&m.insert(id("x"), key(&[2]))), Some(vec![1]));
    assert_eq!(bytes(&m.get(&id("x"))), Some(vec![2]));
    assert!(m.contains_key(&id("x")));
    assert_eq!(bytes(&m.remove(&id("x"))), Some(vec![2]));
    assert!(!m.contains_key(&id("x")));
    assert_eq!(bytes(&m.remove(&id("x"))), None);
}
