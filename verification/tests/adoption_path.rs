use rumble_canvas::domain::{ActorReference, ActorType, PermissionPrimitive};
use rumble_canvas::role_assignment::RoleAssignment;
use rumble_canvas::token_sealer::{
    seal_workspace_identity_token, verify_workspace_authorization, SealedToken, TokenSealerError,
};
use rumble_canvas::workspace_membership::{MembershipStatus, WorkspaceMembership};

#[test]
fn test_d11_adoption_path_canvas_to_handoff_authorization() {
    let tenant_id = "tenant:test";
    let workspace_id = "workspace:test";
    let key_material = b"test-key-32-bytes-long-12345678";

    let owner = ActorReference {
        actor_id: "actor:alice".to_string(),
        actor_type: ActorType::Human,
        display_name: Some("Alice Owner".to_string()),
        source: Some("local_profile".to_string()),
    };

    let _owner_membership = WorkspaceMembership {
        id: "member:alice".to_string(),
        workspace_id: workspace_id.to_string(),
        actor_ref: owner.clone(),
        status: MembershipStatus::Active,
        joined_at: "2026-07-03T00:00:00Z".to_string(),
        revoked_at: None,
    };

    let owner_role = RoleAssignment {
        id: "role:owner".to_string(),
        workspace_id: workspace_id.to_string(),
        actor_ref: owner,
        role: "owner".to_string(),
        permissions: vec![
            PermissionPrimitive::Read,
            PermissionPrimitive::Write,
            PermissionPrimitive::Approve,
        ],
        created_at: "2026-07-03T00:00:00Z".to_string(),
        revoked_at: None,
    };

    let owner_token =
        seal_workspace_identity_token(tenant_id, workspace_id, &owner_role, key_material)
            .expect("owner token seals");

    let result = verify_workspace_authorization(
        &owner_token,
        tenant_id,
        workspace_id,
        &PermissionPrimitive::Approve,
        key_material,
    );
    assert!(result, "Owner token grants Approve permission");

    let auditor = ActorReference {
        actor_id: "actor:bob".to_string(),
        actor_type: ActorType::Human,
        display_name: Some("Bob Auditor".to_string()),
        source: Some("local_profile".to_string()),
    };

    let _auditor_membership = WorkspaceMembership {
        id: "member:bob".to_string(),
        workspace_id: workspace_id.to_string(),
        actor_ref: auditor.clone(),
        status: MembershipStatus::Active,
        joined_at: "2026-07-03T00:00:00Z".to_string(),
        revoked_at: None,
    };

    let auditor_role = RoleAssignment {
        id: "role:auditor".to_string(),
        workspace_id: workspace_id.to_string(),
        actor_ref: auditor,
        role: "auditor".to_string(),
        permissions: vec![PermissionPrimitive::Read, PermissionPrimitive::Comment],
        created_at: "2026-07-03T00:00:00Z".to_string(),
        revoked_at: None,
    };

    let auditor_token =
        seal_workspace_identity_token(tenant_id, workspace_id, &auditor_role, key_material)
            .expect("auditor token seals");

    let result = verify_workspace_authorization(
        &auditor_token,
        tenant_id,
        workspace_id,
        &PermissionPrimitive::Approve,
        key_material,
    );
    assert!(!result, "Auditor token does NOT grant Approve permission");

    let result = verify_workspace_authorization(
        &auditor_token,
        tenant_id,
        workspace_id,
        &PermissionPrimitive::Read,
        key_material,
    );
    assert!(result, "Auditor token grants Read permission");

    let wrong_tenant = verify_workspace_authorization(
        &auditor_token,
        "tenant:other",
        workspace_id,
        &PermissionPrimitive::Read,
        key_material,
    );
    assert!(!wrong_tenant, "Token is tenant-bound");

    let wrong_workspace = verify_workspace_authorization(
        &auditor_token,
        tenant_id,
        "workspace:other",
        &PermissionPrimitive::Read,
        key_material,
    );
    assert!(!wrong_workspace, "Token is workspace-bound");

    let wrong_key = verify_workspace_authorization(
        &auditor_token,
        tenant_id,
        workspace_id,
        &PermissionPrimitive::Read,
        b"other-key-32-bytes-long-1234567",
    );
    assert!(!wrong_key, "Token is key-bound");

    let mismatched_role = RoleAssignment {
        workspace_id: "workspace:other".to_string(),
        ..auditor_role
    };
    assert!(
        seal_workspace_identity_token(tenant_id, workspace_id, &mismatched_role, key_material)
            .is_err(),
        "role workspace_id must match token workspace_id"
    );
}

fn role_with(permissions: Vec<PermissionPrimitive>) -> RoleAssignment {
    RoleAssignment {
        id: "role:x".to_string(),
        workspace_id: "workspace:test".to_string(),
        actor_ref: ActorReference {
            actor_id: "actor:x".to_string(),
            actor_type: ActorType::Human,
            display_name: None,
            source: None,
        },
        role: "editor".to_string(),
        permissions,
        created_at: "2026-07-03T00:00:00Z".to_string(),
        revoked_at: None,
    }
}

#[test]
fn sealing_refuses_blank_scope() {
    let role = role_with(vec![PermissionPrimitive::Read]);
    match seal_workspace_identity_token("  ", "workspace:test", &role, b"k") {
        Err(e @ TokenSealerError::SealingFailed(_)) => {
            assert_eq!(e.message(), "sealing failed: tenant_id is required")
        }
        Ok(_) => panic!("blank tenant must be refused"),
    }
    match seal_workspace_identity_token("tenant:test", "", &role, b"k") {
        Err(TokenSealerError::SealingFailed(m)) => assert_eq!(m, "workspace_id is required"),
        Ok(_) => panic!("blank workspace must be refused"),
    }
    match seal_workspace_identity_token("tenant:test", "workspace:other", &role, b"k") {
        Err(TokenSealerError::SealingFailed(m)) => {
            assert_eq!(m, "role workspace_id does not match token workspace_id")
        }
        Ok(_) => panic!("workspace mismatch must be refused"),
    }
}

#[test]
fn sealed_token_lists_exactly_the_role_permissions() {
    let role = role_with(vec![PermissionPrimitive::Write, PermissionPrimitive::Invite]);
    let token = seal_workspace_identity_token("tenant:test", "workspace:test", &role, b"key")
        .expect("seals");
    assert_eq!(token.algorithm, "mock");
    assert!(token.token_hex.ends_with("|write|invite"));
    let all = [
        PermissionPrimitive::Read,
        PermissionPrimitive::Comment,
        PermissionPrimitive::Write,
        PermissionPrimitive::Approve,
        PermissionPrimitive::Invite,
        PermissionPrimitive::Administer,
        PermissionPrimitive::Delegate,
    ];
    for p in all.iter() {
        let granted = verify_workspace_authorization(&token, "tenant:test", "workspace:test", p, b"key");
        let expected = matches!(p, PermissionPrimitive::Write | PermissionPrimitive::Invite);
        assert_eq!(granted, expected, "{p:?}");
    }
}

#[test]
fn sealing_is_deterministic_and_scope_dependent() {
    let role = role_with(vec![PermissionPrimitive::Read]);
    let a = seal_workspace_identity_token("tenant:test", "workspace:test", &role, b"key").unwrap();
    let b = seal_workspace_identity_token("tenant:test", "workspace:test", &role, b"key").unwrap();
    assert_eq!(a.token_hex, b.token_hex);
    let c = seal_workspace_identity_token("tenant:test", "workspace:test", &role, b"other").unwrap();
    assert_ne!(a.token_hex, c.token_hex);
}

#[test]
fn a_token_of_another_algorithm_grants_nothing() {
    let role = role_with(vec![PermissionPrimitive::Read]);
    let token = seal_workspace_identity_token("tenant:test", "workspace:test", &role, b"key").unwrap();
    let forged = SealedToken { token_hex: token.token_hex.clone(), algorithm: "biscuit".to_string() };
    assert!(!verify_workspace_authorization(&forged, "tenant:test", "workspace:test", &PermissionPrimitive::Read, b"key"));
}

#[test]
fn ids_holding_the_separator_seal_but_never_verify() {
    let mut role = role_with(vec![PermissionPrimitive::Read]);
    role.workspace_id = "c".to_string();
    let token = seal_workspace_identity_token("a|b", "c", &role, b"key").expect("seals");
    assert!(!verify_workspace_authorization(&token, "a|b", "c", &PermissionPrimitive::Read, b"key"));
    assert!(!verify_workspace_authorization(&token, "a", "b|c", &PermissionPrimitive::Read, b"key"));
    assert!(!verify_workspace_authorization(&token, "a", "b", &PermissionPrimitive::Read, b"key"));

    role.workspace_id = "workspace:test".to_string();
    let token = seal_workspace_identity_token("tenant:test", "workspace:test", &role, b"key").unwrap();
    assert!(verify_workspace_authorization(&token, "tenant:test", "workspace:test", &PermissionPrimitive::Read, b"key"));
    assert!(!verify_workspace_authorization(&token, "tenant:test|x", "workspace:test", &PermissionPrimitive::Read, b"key"));
    assert!(!verify_workspace_authorization(&token, "tenant:test", "workspace:test|x", &PermissionPrimitive::Read, b"key"));
}
