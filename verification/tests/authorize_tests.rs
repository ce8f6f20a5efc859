use auth_core::authorize::authorize;
use auth_core::authorize::can_access_user;
use auth_core::authorize::removal_action;
use auth_core::authorize::role_update_action;
use auth_core::authorize::Action;
use auth_core::authorize::Decision;
use auth_core::authorize::DenyReason;
use auth_core::errors::AuthError;
use auth_core::identity::Identity;
use auth_core::roles::Role;

fn identity(subject: u128, role: Role) -> Identity {
    Identity { subject, role }
}

#[test]
fn master_is_allowed_on_every_action() {
    let master = identity(1, Role::AdminMaster);
    assert_eq!(authorize(&master, &Action::SelfScoped { owner: 2 }), Decision::Allow);
    assert_eq!(authorize(&master, &Action::AdminGeneral), Decision::Allow);
    assert_eq!(authorize(&master, &Action::MasterOnly), Decision::Allow);
}

#[test]
fn admin_is_denied_exactly_on_master_only_actions() {
    let admin = identity(2, Role::Admin);
    assert_eq!(authorize(&admin, &Action::SelfScoped { owner: 9 }), Decision::Allow);
    assert_eq!(authorize(&admin, &Action::AdminGeneral), Decision::Allow);
    assert_eq!(
        authorize(&admin, &Action::MasterOnly),
        Decision::Deny(DenyReason::MasterOnlyAction)
    );
}

#[test]
fn client_is_allowed_only_on_its_own_resources() {
    let client = identity(3, Role::Client);
    assert_eq!(authorize(&client, &Action::SelfScoped { owner: 3 }), Decision::Allow);
    assert_eq!(
        authorize(&client, &Action::SelfScoped { owner: 4 }),
        Decision::Deny(DenyReason::NotOwner)
    );
    assert_eq!(
        authorize(&client, &Action::AdminGeneral),
        Decision::Deny(DenyReason::AdminNamespace)
    );
    assert_eq!(
        authorize(&client, &Action::MasterOnly),
        Decision::Deny(DenyReason::AdminNamespace)
    );
}

#[test]
fn user_record_access_follows_ownership_and_role() {
    assert!(can_access_user(&identity(3, Role::Client), 3));
    assert!(!can_access_user(&identity(3, Role::Client), 4));
    assert!(can_access_user(&identity(2, Role::Admin), 4));
    assert!(can_access_user(&identity(1, Role::AdminMaster), 4));
}

#[test]
fn role_reassignments_touching_the_master_tier_are_master_only() {
    assert_eq!(role_update_action(Role::Client, Role::Admin), Action::AdminGeneral);
    assert_eq!(role_update_action(Role::Admin, Role::Client), Action::AdminGeneral);
    assert_eq!(role_update_action(Role::Client, Role::AdminMaster), Action::MasterOnly);
    assert_eq!(role_update_action(Role::AdminMaster, Role::Admin), Action::MasterOnly);
}

#[test]
fn removing_the_master_is_master_only() {
    assert_eq!(removal_action(Role::AdminMaster), Action::MasterOnly);
    assert_eq!(removal_action(Role::Admin), Action::AdminGeneral);
    assert_eq!(removal_action(Role::Client), Action::AdminGeneral);
    // So a secondary admin may never remove the master, while the master may
    // remove an admin.
    let admin = identity(2, Role::Admin);
    let master = identity(1, Role::AdminMaster);
    assert_ne!(authorize(&admin, &removal_action(Role::AdminMaster)), Decision::Allow);
    assert_eq!(authorize(&master, &removal_action(Role::Admin)), Decision::Allow);
}

#[test]
fn unknown_role_tags_fail_closed_at_the_boundary() {
    assert_eq!(Role::parse("client"), Some(Role::Client));
    assert_eq!(Role::parse("admin"), Some(Role::Admin));
    assert_eq!(Role::parse("admin_master"), Some(Role::AdminMaster));
    assert_eq!(Role::parse("superuser"), None);
    assert_eq!(Role::parse(""), None);
    assert_eq!(Role::parse("Admin"), None);
}

#[test]
fn role_tags_round_trip() {
    for role in [Role::Client, Role::Admin, Role::AdminMaster] {
        assert_eq!(Role::parse(&role.tag()), Some(role));
    }
}

#[test]
fn error_status_codes_match_the_taxonomy() {
    assert_eq!(AuthError::Unauthenticated.status_code(), 401);
    assert_eq!(AuthError::MissingToken.status_code(), 401);
    assert_eq!(AuthError::InvalidToken.status_code(), 401);
    assert_eq!(AuthError::TokenExpired.status_code(), 401);
    assert_eq!(AuthError::InvalidSubject.status_code(), 400);
    assert_eq!(AuthError::MalformedInput.status_code(), 400);
    assert_eq!(AuthError::Forbidden.status_code(), 403);
    assert_eq!(AuthError::Conflict.status_code(), 409);
    assert_eq!(AuthError::NotFound.status_code(), 404);
    assert_eq!(AuthError::Overloaded.status_code(), 429);
    assert_eq!(AuthError::Internal.status_code(), 500);
}
