use rumble_canvas::json::JsonValue;
use rumble_canvas::domain::{sample_workspace, ActorReference, ActorType, PermissionPrimitive};
use rumble_canvas::role_assignment::{validate_actor_permissions, RoleAssignment, RoleValidationError};
use rumble_canvas::workspace_membership::{MembershipStatus, WorkspaceMembership};

#[test]
fn test_workspace_membership_active_status() {
    let member = WorkspaceMembership {
        id: "member:1".to_string(),
        workspace_id: "workspace:test".to_string(),
        actor_ref: ActorReference {
            actor_id: "actor:alice".to_string(),
            actor_type: ActorType::Human,
            display_name: Some("Alice".to_string()),
            source: Some("local".to_string()),
        },
        status: MembershipStatus::Active,
        joined_at: "2026-07-03T00:00:00Z".to_string(),
        revoked_at: None,
    };
    assert!(member.is_active());
}

#[test]
fn test_role_assignment_empty_permissions_fails() {
    let role = RoleAssignment {
        id: "role:invalid".to_string(),
        workspace_id: "workspace:test".to_string(),
        actor_ref: ActorReference {
            actor_id: "actor:bob".to_string(),
            actor_type: ActorType::Human,
            display_name: Some("Bob".to_string()),
            source: Some("local".to_string()),
        },
        role: "viewer".to_string(),
        permissions: vec![],
        created_at: "2026-07-03T00:00:00Z".to_string(),
        revoked_at: None,
    };
    let result = validate_actor_permissions(&role);
    assert!(result.is_err(), "Empty permissions should fail validation");
}

#[test]
fn test_service_actor_cannot_hold_approve_permission() {
    let service = ActorReference {
        actor_id: "actor:ci-bot".to_string(),
        actor_type: ActorType::Service,
        display_name: Some("CI Bot".to_string()),
        source: Some("automation".to_string()),
    };
    let invalid_role = RoleAssignment {
        id: "role:invalid".to_string(),
        workspace_id: "workspace:test".to_string(),
        actor_ref: service,
        role: "auditor".to_string(),
        permissions: vec![PermissionPrimitive::Approve],
        created_at: "2026-07-03T00:00:00Z".to_string(),
        revoked_at: None,
    };
    let result = validate_actor_permissions(&invalid_role);
    assert!(result.is_err(), "Service actors cannot hold Approve");
}

#[test]
fn test_human_actor_can_hold_all_permissions() {
    let human = ActorReference {
        actor_id: "actor:owner".to_string(),
        actor_type: ActorType::Human,
        display_name: Some("Owner".to_string()),
        source: Some("local".to_string()),
    };
    let valid_role = RoleAssignment {
        id: "role:owner".to_string(),
        workspace_id: "workspace:test".to_string(),
        actor_ref: human,
        role: "owner".to_string(),
        permissions: vec![
            PermissionPrimitive::Read,
            PermissionPrimitive::Write,
            PermissionPrimitive::Approve,
            PermissionPrimitive::Delegate,
        ],
        created_at: "2026-07-03T00:00:00Z".to_string(),
        revoked_at: None,
    };
    assert!(
        validate_actor_permissions(&valid_role).is_ok(),
        "Humans can hold all permissions"
    );
}

#[test]
fn test_sample_workspace_emits_tenant_id() {
    let workspace = sample_workspace();
    assert_eq!(workspace.tenant_id, "tenant:rumble-canvas-local");
    assert_eq!(
        workspace.workspace_identity().tenant_id,
        "tenant:rumble-canvas-local"
    );
}

#[test]
fn test_workspace_identity_serializes_contract_root() {
    let identity = sample_workspace().workspace_identity();
    assert_eq!(identity.workspace_id, "workspace:rumble-canvas-mvp");
    assert_eq!(identity.tenant_id, "tenant:rumble-canvas-local");
    assert!(!identity.memberships.is_empty());
    assert!(!identity.role_assignments.is_empty());
}

#[test]
fn workspace_identity_copies_members_and_assignments() {
    let workspace = sample_workspace();
    let identity = workspace.workspace_identity();
    assert_eq!(identity.memberships.len(), 2);
    assert_eq!(identity.memberships[0].id, "member:owner");
    assert_eq!(identity.memberships[1].actor_ref.actor_id, "actor:contributor");
    assert_eq!(identity.role_assignments.len(), 1);
    assert_eq!(identity.role_assignments[0].role, "owner");
    assert_eq!(
        identity.role_assignments[0].permissions,
        vec![
            PermissionPrimitive::Read,
            PermissionPrimitive::Write,
            PermissionPrimitive::Approve
        ]
    );
}

#[test]
fn sample_workspace_holds_the_fixture() {
    let w = sample_workspace();
    assert_eq!(w.id, "workspace:rumble-canvas-mvp");
    assert_eq!(w.status, "approved");
    assert_eq!(w.owner.actor_id, "actor:owner");
    assert_eq!(w.owner.display_name.as_deref(), Some("Canvas Owner"));
    assert_eq!(w.traceability_links.len(), 1);
    assert_eq!(w.traceability_links[0].relation_type, "implements");
    assert!(w.waivers.is_empty() && w.open_questions.is_empty() && w.risks.is_empty());
    assert_eq!(w.capability_candidates[0].proposed_owner_layer.as_deref(), Some("bolt"));
    assert_eq!(w.sections.len(), 1);
    let section = &w.sections[0];
    assert_eq!(section.key, "product-charter");
    assert_eq!(section.current_revision_id, "revision:product-charter:1");
    assert_eq!(section.approved_revision_id, "revision:product-charter:1");
    assert_eq!(section.revision.section_id, "section:charter");
    assert_eq!(
        section.revision.markdown_content.as_deref(),
        Some("# Product Charter\n\nSample approved section.")
    );
    assert!(section.required_for_package);
}

#[test]
fn sample_charter_section_holds_the_charter_as_json() {
    let w = sample_workspace();
    match &w.sections[0].revision.structured_content {
        JsonValue::Object(fields) => {
            let keys: Vec<&str> = fields.iter().map(|(k, _)| k.as_str()).collect();
            assert_eq!(keys, vec!["mission", "target_users", "jobs_to_be_done", "non_goals"]);
            match &fields[1].1 {
                JsonValue::Array(items) => {
                    assert_eq!(items.len(), 2);
                    assert!(matches!(&items[0], JsonValue::Text(t) if t == "Product builder"));
                }
                other => panic!("target_users is not an array: {other:?}"),
            }
        }
        other => panic!("charter content is not an object: {other:?}"),
    }
}

#[test]
fn role_errors_have_messages() {
    let agent = ActorReference {
        actor_id: "actor:bot".to_string(),
        actor_type: ActorType::Agent,
        display_name: None,
        source: None,
    };
    let role = RoleAssignment {
        id: "role:bot".to_string(),
        workspace_id: "workspace:test".to_string(),
        actor_ref: agent,
        role: "delegate".to_string(),
        permissions: vec![PermissionPrimitive::Read, PermissionPrimitive::Delegate],
        created_at: "2026-07-03T00:00:00Z".to_string(),
        revoked_at: None,
    };
    match validate_actor_permissions(&role) {
        Err(e @ RoleValidationError::ApprovalForbiddenForActorType(_)) => {
            assert_eq!(e.message(), "actor type Agent cannot hold approval permission");
        }
        other => panic!("unexpected {other:?}"),
    }
    assert_eq!(
        RoleValidationError::EmptyPermissions.message(),
        "permissions cannot be empty"
    );
}
