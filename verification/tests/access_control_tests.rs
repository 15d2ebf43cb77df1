use fluxapay::access_control::{
    check_grant, check_renounce, check_require, check_revoke, check_transfer, AccessControl,
    AccessControlError,
};
use fluxapay::role::{role_admin, role_merchant, role_oracle, role_settlement_operator, Account, Role};

fn account(id: &str) -> Account {
    Account::new(id)
}

fn setup() -> (Account, AccessControl) {
    let admin = account("GADMIN");
    let mut ac = AccessControl::new();
    ac.initialize(admin.clone());
    (admin, ac)
}

#[test]
fn test_initialize_contract() {
    let admin = account("GADMIN");
    let mut ac = AccessControl::new();
    ac.initialize(admin.clone());

    assert_eq!(ac.get_admin(), Some(admin.clone()));
    assert!(ac.has_role(&role_admin(), &admin));
}

#[test]
fn test_grant_role() {
    let (admin, mut ac) = setup();
    let acct = account("GACCOUNT");
    let role = role_oracle();

    assert_eq!(ac.grant_role(admin, role.clone(), acct.clone()), Ok(()));
    assert!(ac.has_role(&role, &acct));
}

#[test]
fn test_transfer_admin() {
    let (current_admin, mut ac) = setup();
    let new_admin = account("GNEWADMIN");

    assert_eq!(ac.transfer_admin(current_admin.clone(), new_admin.clone()), Ok(()));

    assert!(ac.has_role(&role_admin(), &new_admin));
    assert_eq!(ac.get_admin(), Some(new_admin));
    assert!(!ac.has_role(&role_admin(), &current_admin));
}

#[test]
fn fresh_registry_holds_nothing() {
    let ac = AccessControl::new();
    assert_eq!(ac.get_admin(), None);
    assert!(!ac.has_role(&role_admin(), &account("GADMIN")));
    assert_eq!(
        ac.require_role(&role_oracle(), &account("GX")),
        Err(AccessControlError::Unauthorized)
    );
}

#[test]
fn grant_by_non_admin_is_unauthorized() {
    let (_admin, mut ac) = setup();
    let stranger = account("GSTRANGER");
    let acct = account("GACCOUNT");
    assert_eq!(
        ac.grant_role(stranger.clone(), role_oracle(), acct.clone()),
        Err(AccessControlError::Unauthorized)
    );
    assert!(!ac.has_role(&role_oracle(), &acct));
    assert_eq!(
        ac.grant_role(stranger.clone(), role_admin(), stranger.clone()),
        Err(AccessControlError::Unauthorized)
    );
    assert!(!ac.has_role(&role_admin(), &stranger));
}

#[test]
fn second_grant_is_refused() {
    let (admin, mut ac) = setup();
    let acct = account("GACCOUNT");
    assert_eq!(ac.grant_role(admin.clone(), role_merchant(), acct.clone()), Ok(()));
    assert_eq!(
        ac.grant_role(admin.clone(), role_merchant(), acct.clone()),
        Err(AccessControlError::RoleAlreadyGranted)
    );
    assert!(ac.has_role(&role_merchant(), &acct));
    assert_eq!(
        ac.grant_role(admin.clone(), role_admin(), admin.clone()),
        Err(AccessControlError::RoleAlreadyGranted)
    );
}

#[test]
fn grant_touches_only_its_pair() {
    let (admin, mut ac) = setup();
    let a = account("GA");
    let b = account("GB");
    assert_eq!(ac.grant_role(admin.clone(), role_oracle(), a.clone()), Ok(()));
    assert!(ac.has_role(&role_oracle(), &a));
    assert!(!ac.has_role(&role_oracle(), &b));
    assert!(!ac.has_role(&role_merchant(), &a));
    assert!(!ac.has_role(&role_admin(), &a));
    assert_eq!(ac.get_admin(), Some(admin));
}

#[test]
fn revoke_undoes_grant() {
    let (admin, mut ac) = setup();
    let acct = account("GACCOUNT");
    let operator = role_settlement_operator();
    assert_eq!(ac.grant_role(admin.clone(), operator.clone(), acct.clone()), Ok(()));
    assert_eq!(ac.revoke_role(admin.clone(), operator.clone(), acct.clone()), Ok(()));
    assert!(!ac.has_role(&operator, &acct));
    assert!(ac.has_role(&role_admin(), &admin));
    // granting again works, as on a registry that never held the pair
    assert_eq!(ac.grant_role(admin.clone(), operator.clone(), acct.clone()), Ok(()));
}

#[test]
fn grant_undoes_revoke() {
    let (admin, mut ac) = setup();
    let acct = account("GACCOUNT");
    assert_eq!(ac.grant_role(admin.clone(), role_oracle(), acct.clone()), Ok(()));
    assert_eq!(ac.revoke_role(admin.clone(), role_oracle(), acct.clone()), Ok(()));
    assert_eq!(ac.grant_role(admin.clone(), role_oracle(), acct.clone()), Ok(()));
    assert!(ac.has_role(&role_oracle(), &acct));
}

#[test]
fn admin_revoking_own_admin_role_cannot_grant_it_back() {
    let (admin, mut ac) = setup();
    assert_eq!(ac.revoke_role(admin.clone(), role_admin(), admin.clone()), Ok(()));
    assert!(!ac.has_role(&role_admin(), &admin));
    assert_eq!(
        ac.grant_role(admin.clone(), role_admin(), admin.clone()),
        Err(AccessControlError::Unauthorized)
    );
    // the recorded administrator is not touched by a revocation
    assert_eq!(ac.get_admin(), Some(admin));
}

#[test]
fn revoke_errors() {
    let (admin, mut ac) = setup();
    let acct = account("GACCOUNT");
    assert_eq!(
        ac.revoke_role(admin.clone(), role_oracle(), acct.clone()),
        Err(AccessControlError::RoleNotGranted)
    );
    assert_eq!(ac.grant_role(admin.clone(), role_oracle(), acct.clone()), Ok(()));
    assert_eq!(
        ac.revoke_role(acct.clone(), role_oracle(), acct.clone()),
        Err(AccessControlError::Unauthorized)
    );
    assert!(ac.has_role(&role_oracle(), &acct));
}

#[test]
fn renounce_rules() {
    let (admin, mut ac) = setup();
    let acct = account("GACCOUNT");
    assert_eq!(
        ac.renounce_role(admin.clone(), role_admin()),
        Err(AccessControlError::CannotRenounceAdmin)
    );
    assert!(ac.has_role(&role_admin(), &admin));
    assert_eq!(
        ac.renounce_role(acct.clone(), role_oracle()),
        Err(AccessControlError::RoleNotGranted)
    );
    assert_eq!(ac.grant_role(admin.clone(), role_oracle(), acct.clone()), Ok(()));
    assert_eq!(ac.renounce_role(acct.clone(), role_oracle()), Ok(()));
    assert!(!ac.has_role(&role_oracle(), &acct));
    // an account that does not hold ADMIN is refused the same way
    assert_eq!(
        ac.renounce_role(acct.clone(), role_admin()),
        Err(AccessControlError::CannotRenounceAdmin)
    );
}

#[test]
fn transfer_rules() {
    let (admin, mut ac) = setup();
    let stranger = account("GSTRANGER");
    assert_eq!(
        ac.transfer_admin(stranger.clone(), stranger.clone()),
        Err(AccessControlError::Unauthorized)
    );
    assert_eq!(ac.get_admin(), Some(admin.clone()));
    assert!(!ac.has_role(&role_admin(), &stranger));

    // handing administration to oneself keeps it
    assert_eq!(ac.transfer_admin(admin.clone(), admin.clone()), Ok(()));
    assert!(ac.has_role(&role_admin(), &admin));
    assert_eq!(ac.get_admin(), Some(admin.clone()));

    // other roles stay where they were
    let acct = account("GACCOUNT");
    assert_eq!(ac.grant_role(admin.clone(), role_oracle(), acct.clone()), Ok(()));
    assert_eq!(ac.transfer_admin(admin.clone(), acct.clone()), Ok(()));
    assert!(ac.has_role(&role_oracle(), &acct));
    assert!(ac.has_role(&role_admin(), &acct));
    assert!(!ac.has_role(&role_admin(), &admin));
    assert_eq!(
        ac.grant_role(admin.clone(), role_merchant(), admin.clone()),
        Err(AccessControlError::Unauthorized)
    );
}

#[test]
fn reinitialize_records_new_admin_and_keeps_old_role() {
    let (first, mut ac) = setup();
    let second = account("GSECOND");
    ac.initialize(second.clone());
    assert_eq!(ac.get_admin(), Some(second.clone()));
    assert!(ac.has_role(&role_admin(), &second));
    assert!(ac.has_role(&role_admin(), &first));
}

#[test]
fn require_role_matches_has_role() {
    let (admin, mut ac) = setup();
    let acct = account("GACCOUNT");
    assert_eq!(ac.require_role(&role_admin(), &admin), Ok(()));
    assert_eq!(
        ac.require_role(&role_oracle(), &acct),
        Err(AccessControlError::Unauthorized)
    );
    assert_eq!(ac.grant_role(admin, role_oracle(), acct.clone()), Ok(()));
    assert_eq!(ac.require_role(&role_oracle(), &acct), Ok(()));
    let custom = Role::new("CUSTOM_ROLE_1").unwrap();
    assert_eq!(
        ac.require_role(&custom, &acct),
        Err(AccessControlError::Unauthorized)
    );
}

#[test]
fn error_codes() {
    let all = [
        AccessControlError::Unauthorized,
        AccessControlError::RoleAlreadyGranted,
        AccessControlError::RoleNotGranted,
        AccessControlError::CannotRenounceAdmin,
        AccessControlError::InvalidAdmin,
    ];
    for (i, e) in all.iter().enumerate() {
        assert_eq!(e.code(), i as u32 + 1);
        assert_eq!(AccessControlError::from_code(i as u32 + 1), Some(*e));
    }
    assert_eq!(AccessControlError::from_code(0), None);
    assert_eq!(AccessControlError::from_code(6), None);
}

#[test]
fn decisions() {
    assert_eq!(check_grant(false, false), Err(AccessControlError::Unauthorized));
    assert_eq!(check_grant(false, true), Err(AccessControlError::Unauthorized));
    assert_eq!(check_grant(true, true), Err(AccessControlError::RoleAlreadyGranted));
    assert_eq!(check_grant(true, false), Ok(()));
    assert_eq!(check_revoke(false, true), Err(AccessControlError::Unauthorized));
    assert_eq!(check_revoke(true, false), Err(AccessControlError::RoleNotGranted));
    assert_eq!(check_revoke(true, true), Ok(()));
    assert_eq!(check_renounce(true, true), Err(AccessControlError::CannotRenounceAdmin));
    assert_eq!(check_renounce(false, false), Err(AccessControlError::RoleNotGranted));
    assert_eq!(check_renounce(false, true), Ok(()));
    assert_eq!(check_transfer(false), Err(AccessControlError::Unauthorized));
    assert_eq!(check_transfer(true), Ok(()));
    assert_eq!(check_require(false), Err(AccessControlError::Unauthorized));
    assert_eq!(check_require(true), Ok(()));
}
