//! Role assignments and the rule on which actors may hold which permissions.
use crate::domain::{clone_opt_text, clone_permissions, ActorReference, ActorReferenceModel, ActorType, PermissionPrimitive};
use crate::text::concat3;
use vstd::prelude::*;

verus! {

/// A product-named bundle of permissions given to an actor in a workspace.
#[derive(Debug)]
pub struct RoleAssignment {
    pub id: String,
    pub workspace_id: String,
    pub actor_ref: ActorReference,
    pub role: String,
    pub permissions: Vec<PermissionPrimitive>,
    pub created_at: String,
    pub revoked_at: Option<String>,
}

pub struct RoleAssignmentModel {
    pub id: Seq<char>,
    pub workspace_id: Seq<char>,
    pub actor_ref: ActorReferenceModel,
    pub role: Seq<char>,
    pub permissions: Seq<PermissionPrimitive>,
    pub created_at: Seq<char>,
    pub revoked_at: Option<Seq<char>>,
}

impl DeepView for RoleAssignment {
    type V = RoleAssignmentModel;

    open spec fn deep_view(&self) -> RoleAssignmentModel {
        RoleAssignmentModel {
            id: self.id@,
            workspace_id: self.workspace_id@,
            actor_ref: self.actor_ref.deep_view(),
            role: self.role@,
            permissions: self.permissions@,
            created_at: self.created_at@,
            revoked_at: self.revoked_at.deep_view(),
        }
    }
}

impl Clone for RoleAssignment {
    fn clone(&self) -> (r: Self)
        ensures
            r.deep_view() == self.deep_view(),
    {
        RoleAssignment {
            id: self.id.clone(),
            workspace_id: self.workspace_id.clone(),
            actor_ref: self.actor_ref.clone(),
            role: self.role.clone(),
            permissions: clone_permissions(&self.permissions),
            created_at: self.created_at.clone(),
            revoked_at: clone_opt_text(&self.revoked_at),
        }
    }
}

/// Why a role assignment is refused.
#[derive(Debug)]
pub enum RoleValidationError {
    ApprovalForbiddenForActorType(String),
    EmptyPermissions,
}

/// The human-readable message of a role validation error.
pub open spec fn role_error_text(e: &RoleValidationError) -> Seq<char> {
    match e {
        RoleValidationError::ApprovalForbiddenForActorType(t) => "actor type "@ + t@
            + " cannot hold approval permission"@,
        RoleValidationError::EmptyPermissions => "permissions cannot be empty"@,
    }
}

impl RoleValidationError {
    /// The human-readable message of the error.
    pub fn message(&self) -> (m: String)
        ensures
            m@ == role_error_text(self),
    {
        match self {
            RoleValidationError::ApprovalForbiddenForActorType(t) => concat3(
                "actor type ",
                t.as_str(),
                " cannot hold approval permission",
            ),
            RoleValidationError::EmptyPermissions => "permissions cannot be empty".to_owned(),
        }
    }
}

/// Agents, services and external actors are not people: they may not approve or delegate.
pub open spec fn is_non_human(t: ActorType) -> bool {
    t == ActorType::Agent || t == ActorType::Service || t == ActorType::External
}

/// Permissions reserved for human actors.
pub open spec fn is_human_only(p: PermissionPrimitive) -> bool {
    p == PermissionPrimitive::Approve || p == PermissionPrimitive::Delegate
}

/// Some permission of the list is reserved for humans.
pub open spec fn holds_human_only(perms: Seq<PermissionPrimitive>) -> bool {
    exists|i: int| 0 <= i < perms.len() && is_human_only(#[trigger] perms[i])
}

/// The name under which an actor type is reported (its `Debug` form).
pub open spec fn actor_type_name(t: ActorType) -> Seq<char> {
    match t {
        ActorType::Human => seq!['H', 'u', 'm', 'a', 'n'],
        ActorType::Agent => seq!['A', 'g', 'e', 'n', 't'],
        ActorType::Service => seq!['S', 'e', 'r', 'v', 'i', 'c', 'e'],
        ActorType::External => seq!['E', 'x', 't', 'e', 'r', 'n', 'a', 'l'],
    }
}

fn actor_type_text(t: ActorType) -> (s: String)
    ensures
        s@ == actor_type_name(t),
{
    match t {
        ActorType::Human => {
            proof {
                reveal_strlit("Human");
            }
            "Human".to_owned()
        },
        ActorType::Agent => {
            proof {
                reveal_strlit("Agent");
            }
            "Agent".to_owned()
        },
        ActorType::Service => {
            proof {
                reveal_strlit("Service");
            }
            "Service".to_owned()
        },
        ActorType::External => {
            proof {
                reveal_strlit("External");
            }
            "External".to_owned()
        },
    }
}

/// Validates that an actor type can hold the assigned permissions: the list
/// must not be empty, and a non-human actor may hold neither `Approve` nor
/// `Delegate`.
pub fn validate_actor_permissions(role: &RoleAssignment) -> (r: Result<(), RoleValidationError>)
    ensures
        role.permissions@.len() == 0 ==> r matches Err(RoleValidationError::EmptyPermissions),
        role.permissions@.len() > 0 && is_non_human(role.actor_ref.actor_type)
            && holds_human_only(role.permissions@) ==> (r matches Err(
            RoleValidationError::ApprovalForbiddenForActorType(name),
        ) && name@ == actor_type_name(role.actor_ref.actor_type)),
        r is Ok <==> (role.permissions@.len() > 0 && !(is_non_human(role.actor_ref.actor_type)
            && holds_human_only(role.permissions@))),
{
    if role.permissions.len() == 0 {
        return Err(RoleValidationError::EmptyPermissions);
    }
    let t = role.actor_ref.actor_type;
    if t == ActorType::Agent || t == ActorType::Service || t == ActorType::External {
        let mut i: usize = 0;
        while i < role.permissions.len()
            invariant
                t == role.actor_ref.actor_type,
                is_non_human(t),
                i <= role.permissions@.len(),
                forall|j: int| 0 <= j < i ==> !is_human_only(#[trigger] role.permissions@[j]),
            decreases role.permissions.len() - i,
        {
            let p = role.permissions[i];
            if p == PermissionPrimitive::Approve || p == PermissionPrimitive::Delegate {
                assert(is_human_only(role.permissions@[i as int]));
                return Err(RoleValidationError::ApprovalForbiddenForActorType(actor_type_text(t)));
            }
            i = i + 1;
        }
    }
    Ok(())
}


/// Only human actors may approve or delegate: an agent, a service or an
/// external actor is refused exactly when its role holds `Approve` or
/// `Delegate`, and a human actor is never refused for its permissions.
pub proof fn lemma_only_humans_approve_or_delegate(t: ActorType, perms: Seq<PermissionPrimitive>)
    ensures
        (is_non_human(t) && holds_human_only(perms)) <==> (t != ActorType::Human && (perms.contains(
            PermissionPrimitive::Approve,
        ) || perms.contains(PermissionPrimitive::Delegate))),
{
    if perms.contains(PermissionPrimitive::Approve) {
        let i = choose|i: int| 0 <= i < perms.len() && perms[i] == PermissionPrimitive::Approve;
        assert(is_human_only(perms[i]));
    }
    if perms.contains(PermissionPrimitive::Delegate) {
        let i = choose|i: int| 0 <= i < perms.len() && perms[i] == PermissionPrimitive::Delegate;
        assert(is_human_only(perms[i]));
    }
    if holds_human_only(perms) {
        let i = choose|i: int| 0 <= i < perms.len() && is_human_only(#[trigger] perms[i]);
        assert(perms.contains(perms[i]));
    }
}

/// A refusal names the actor type as its variant is written: `Agent`,
/// `Service`, `External` (and `Human`).
pub proof fn lemma_actor_type_names(t: ActorType)
    ensures
        actor_type_name(t) == match t {
            ActorType::Human => "Human"@,
            ActorType::Agent => "Agent"@,
            ActorType::Service => "Service"@,
            ActorType::External => "External"@,
        },
{
    reveal_strlit("Human");
    reveal_strlit("Agent");
    reveal_strlit("Service");
    reveal_strlit("External");
    assert(actor_type_name(ActorType::Human) =~= "Human"@);
    assert(actor_type_name(ActorType::Agent) =~= "Agent"@);
    assert(actor_type_name(ActorType::Service) =~= "Service"@);
    assert(actor_type_name(ActorType::External) =~= "External"@);
}

} // verus!
