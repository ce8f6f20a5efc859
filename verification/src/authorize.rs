//! The role/ownership enforcer.
//!
//! Authorization is a pure function from a validated identity and the
//! requested action to a decision, evaluated after token validation, with a
//! fixed precedence: the master administrator is allowed everything; a
//! secondary administrator is allowed everything except master-only
//! actions; a client is allowed only actions scoped to resources it owns,
//! where ownership is exact equality of subject identifiers, never role
//! membership.

use vstd::prelude::*;

use crate::identity::Identity;
use crate::roles::Role;

verus! {

/// The authorization-relevant classification of a requested action.
#[derive(Clone, Copy, Debug, PartialEq, Eq, Structural)]
pub enum Action {
    /// An action on a resource owned by one subject (reading, changing or
    /// deleting that subject's own records).
    SelfScoped {
        /// Subject identifier of the resource's owner.
        owner: u128,
    },
    /// A general administrative action (listing users, managing records of
    /// other subjects).
    AdminGeneral,
    /// An action reserved to the master administrator: creating or removing
    /// administrators, or reassigning roles to or from the master tier.
    MasterOnly,
}

/// Why an action was denied.
#[derive(Clone, Copy, Debug, PartialEq, Eq, Structural)]
pub enum DenyReason {
    /// A client requested an action in the administrative namespace.
    AdminNamespace,
    /// A client requested an action on a resource another subject owns.
    NotOwner,
    /// A secondary administrator requested a master-only action.
    MasterOnlyAction,
}

/// The enforcer's verdict.
#[derive(Clone, Copy, Debug, PartialEq, Eq, Structural)]
pub enum Decision {
    /// The request may proceed to the domain handler.
    Allow,
    /// The request is rejected with the given reason.
    Deny(DenyReason),
}

/// The authorization rule matrix.
pub open spec fn spec_authorize(identity: Identity, action: Action) -> Decision {
    match identity.role {
        Role::AdminMaster => Decision::Allow,
        Role::Admin => match action {
            Action::MasterOnly => Decision::Deny(DenyReason::MasterOnlyAction),
            _ => Decision::Allow,
        },
        Role::Client => match action {
            Action::SelfScoped { owner } => if owner == identity.subject {
                Decision::Allow
            } else {
                Decision::Deny(DenyReason::NotOwner)
            },
            _ => Decision::Deny(DenyReason::AdminNamespace),
        },
    }
}

/// Authorizes a validated identity against a requested action. Pure; the
/// result is exactly the rule matrix.
pub fn authorize(identity: &Identity, action: &Action) -> (decision: Decision)
    ensures
        decision == spec_authorize(*identity, *action),
{
    match identity.role {
        Role::AdminMaster => Decision::Allow,
        Role::Admin => match action {
            Action::MasterOnly => Decision::Deny(DenyReason::MasterOnlyAction),
            _ => Decision::Allow,
        },
        Role::Client => match action {
            Action::SelfScoped { owner } => {
                if *owner == identity.subject {
                    Decision::Allow
                } else {
                    Decision::Deny(DenyReason::NotOwner)
                }
            },
            _ => Decision::Deny(DenyReason::AdminNamespace),
        },
    }
}

/// Whether `identity` may read or modify the user record of `target_id`:
/// the record's owner always may, and so may both administrative tiers.
pub fn can_access_user(identity: &Identity, target_id: u128) -> (allowed: bool)
    ensures
        allowed == (spec_authorize(*identity, Action::SelfScoped { owner: target_id })
            is Allow),
{
    match authorize(identity, &Action::SelfScoped { owner: target_id }) {
        Decision::Allow => true,
        Decision::Deny(_) => false,
    }
}

/// The classification of a role reassignment: touching the master tier on
/// either side is master-only; every other reassignment is general
/// administration.
pub open spec fn spec_role_update_action(current: Role, new: Role) -> Action {
    if current is AdminMaster || new is AdminMaster {
        Action::MasterOnly
    } else {
        Action::AdminGeneral
    }
}

/// Classifies a role reassignment of a user currently holding `current` to
/// the tier `new`.
pub fn role_update_action(current: Role, new: Role) -> (action: Action)
    ensures
        action == spec_role_update_action(current, new),
{
    match (current, new) {
        (Role::AdminMaster, _) => Action::MasterOnly,
        (_, Role::AdminMaster) => Action::MasterOnly,
        _ => Action::AdminGeneral,
    }
}

/// The classification of removing a user: removing the master
/// administrator is master-only — so the master is never a valid removal
/// target of a non-master — while removing anyone else is general
/// administration.
pub fn removal_action(target_role: Role) -> (action: Action)
    ensures
        target_role is AdminMaster ==> action == Action::MasterOnly,
        !(target_role is AdminMaster) ==> action == Action::AdminGeneral,
{
    match target_role {
        Role::AdminMaster => Action::MasterOnly,
        _ => Action::AdminGeneral,
    }
}

/// The master administrator is allowed on every defined action,
/// unconditionally.
pub proof fn lemma_master_allowed_on_all(identity: Identity, action: Action)
    requires
        identity.role is AdminMaster,
    ensures
        spec_authorize(identity, action) == Decision::Allow,
{
}

/// A secondary administrator is denied exactly on master-only actions and
/// allowed on everything else.
pub proof fn lemma_admin_denied_exactly_master_only(identity: Identity, action: Action)
    requires
        identity.role is Admin,
    ensures
        spec_authorize(identity, action) is Deny <==> action is MasterOnly,
{
}

/// A client is denied on every action scoped to another subject's resource
/// and on every action in the administrative namespace; it is allowed only
/// on resources it owns itself.
pub proof fn lemma_client_only_own_resources(identity: Identity, action: Action)
    requires
        identity.role is Client,
    ensures
        spec_authorize(identity, action) == Decision::Allow <==> (action matches Action::SelfScoped {
            owner,
        } && owner == identity.subject),
{
}

} // verus!
