use rumble_canvas::domain::{sample_workspace, OpenQuestion, RiskFlag, SpecWorkspace, Waiver};
use rumble_canvas::handoff::{
    build_handoff, payload_hash, ExecutionPolicy, HandoffError, ImplementationHandoff,
};
use rumble_canvas::package::{build_package, SpecPackage};
use rumble_canvas::SAMPLE_TS;

fn encode_package(p: &SpecPackage) -> Vec<u8> {
    let items: Vec<&str> = p.items.iter().map(|i| i.id.as_str()).collect();
    format!(
        "{}|{}|{}|{}|{:?}|{:?}|{}|{}",
        p.package_id,
        p.workspace_id,
        p.version,
        p.status,
        p.approved_by,
        p.approved_at,
        items.join(","),
        p.readiness.traceability_links
    )
    .into_bytes()
}

fn encode_handoff(h: &ImplementationHandoff) -> Vec<u8> {
    format!(
        "{}|{}|{}|{}|{}|{:?}|{}|{}|{}|{}|{:?}",
        h.format,
        h.kind,
        h.source.workspace_id,
        h.package.package_hash,
        h.traceability_links.len(),
        h.execution_policy,
        h.active_waivers.len(),
        h.open_questions.len(),
        h.risks.len(),
        h.requested_outputs.join(","),
        h.payload_hash
    )
    .into_bytes()
}

fn handoff_for(mut workspace: SpecWorkspace) -> Result<ImplementationHandoff, HandoffError> {
    let package = match build_package(&workspace, &encode_package) {
        Ok(p) => p,
        Err(_) => {
            workspace.traceability_links = sample_workspace().traceability_links;
            build_package(&workspace, &encode_package).unwrap()
        }
    };
    build_handoff(&workspace, &package, &encode_handoff)
}

#[test]
fn generates_valid_handoff() {
    let workspace = sample_workspace();
    let package = build_package(&workspace, &encode_package).unwrap();
    let handoff = build_handoff(&workspace, &package, &encode_handoff).unwrap();
    assert_eq!(handoff.format, "canvas.bolt_handoff.v0.1");
    assert!(!handoff.execution_policy.allow_execution);
    assert!(handoff.payload_hash.unwrap().starts_with("sha256:"));
}

#[test]
fn refuses_allow_execution_true() {
    let workspace = sample_workspace();
    let package = build_package(&workspace, &encode_package).unwrap();
    let handoff = build_handoff(&workspace, &package, &encode_handoff)
        .unwrap()
        .with_execution_policy(
            ExecutionPolicy {
                allow_execution: true,
                ..ExecutionPolicy::default()
            },
            &encode_handoff,
        );
    assert_eq!(
        handoff.validate_canvas_rules().unwrap_err(),
        HandoffError::ExecutionForbidden
    );
}

#[test]
fn refuses_missing_traceability() {
    let mut workspace = sample_workspace();
    workspace.traceability_links.clear();
    let package = build_package(&sample_workspace(), &encode_package).unwrap();
    assert_eq!(
        build_handoff(&workspace, &package, &encode_handoff).unwrap_err(),
        HandoffError::MissingTraceability
    );
}

#[test]
fn refuses_blocking_question_without_waiver() {
    let mut workspace = sample_workspace();
    workspace.open_questions.push(OpenQuestion {
        id: "q".into(),
        question: "Who approves?".into(),
        impact: "blocking".into(),
        status: "open".into(),
    });
    assert_eq!(
        handoff_for(workspace).unwrap_err(),
        HandoffError::BlockingQuestionWithoutWaiver
    );
}

#[test]
fn refuses_high_risk_without_waiver() {
    let mut workspace = sample_workspace();
    workspace.risks.push(RiskFlag {
        id: "r".into(),
        category: "security".into(),
        severity: "high".into(),
        description: "Unsafe execution".into(),
        status: "open".into(),
    });
    assert_eq!(
        handoff_for(workspace).unwrap_err(),
        HandoffError::HighRiskWithoutWaiver
    );
}

fn waiver(workspace: &SpecWorkspace, status: &str, expires_at: Option<&str>) -> Waiver {
    Waiver {
        id: "w".into(),
        workspace_id: workspace.id.clone(),
        target_type: "risk_flag".into(),
        target_id: "r".into(),
        status: status.into(),
        reason: "temporary".into(),
        risk_level: "low".into(),
        risk_category: "quality".into(),
        owner_id: "actor:owner".into(),
        approver_id: "actor:auditor".into(),
        expires_at: expires_at.map(|s| s.to_string()),
        created_at: SAMPLE_TS.into(),
        decided_at: Some(SAMPLE_TS.into()),
    }
}

#[test]
fn refuses_expired_waiver() {
    let mut workspace = sample_workspace();
    let w = waiver(&workspace, "accepted", Some("2026-06-29T00:00:00Z"));
    workspace.waivers.push(w);
    assert_eq!(
        handoff_for(workspace).unwrap_err(),
        HandoffError::ExpiredWaiver
    );
}

#[test]
fn capability_without_owner_warns_but_is_non_blocking_locally() {
    let mut workspace = sample_workspace();
    workspace.capability_candidates[0].proposed_owner_layer = None;
    let handoff = handoff_for(workspace).unwrap();
    assert_eq!(handoff.canvas_warnings(), vec!["capability_owner_missing"]);
}

#[test]
fn accepted_waiver_lets_blocking_question_and_high_risk_through() {
    let mut workspace = sample_workspace();
    workspace.open_questions.push(OpenQuestion {
        id: "q".into(),
        question: "Who approves?".into(),
        impact: "blocking".into(),
        status: "open".into(),
    });
    workspace.risks.push(RiskFlag {
        id: "r".into(),
        category: "security".into(),
        severity: "critical".into(),
        description: "Unsafe execution".into(),
        status: "open".into(),
    });
    let w = waiver(&workspace, "active", Some("2026-07-01T00:00:00Z"));
    workspace.waivers.push(w);
    let handoff = handoff_for(workspace).unwrap();
    assert_eq!(handoff.validate_canvas_rules(), Ok(()));
}

#[test]
fn resolved_questions_and_low_risks_do_not_block() {
    let mut workspace = sample_workspace();
    workspace.open_questions.push(OpenQuestion {
        id: "q".into(),
        question: "Closed?".into(),
        impact: "blocking".into(),
        status: "resolved".into(),
    });
    workspace.risks.push(RiskFlag {
        id: "r".into(),
        category: "quality".into(),
        severity: "medium".into(),
        description: "Minor".into(),
        status: "open".into(),
    });
    assert!(handoff_for(workspace).is_ok());
}

#[test]
fn expired_waiver_is_checked_before_blocking_questions() {
    let mut workspace = sample_workspace();
    workspace.open_questions.push(OpenQuestion {
        id: "q".into(),
        question: "Who approves?".into(),
        impact: "blocking".into(),
        status: "open".into(),
    });
    let w = waiver(&workspace, "proposed", Some("2026-01-01T00:00:00Z"));
    workspace.waivers.push(w);
    assert_eq!(handoff_for(workspace).unwrap_err(), HandoffError::ExpiredWaiver);
}

#[test]
fn every_forbidden_policy_is_refused() {
    let workspace = sample_workspace();
    let package = build_package(&workspace, &encode_package).unwrap();
    let policies = [
        ExecutionPolicy { planning_only: false, ..ExecutionPolicy::default() },
        ExecutionPolicy { allow_execution: true, ..ExecutionPolicy::default() },
        ExecutionPolicy { requires_human_approval_for_execution: false, ..ExecutionPolicy::default() },
    ];
    for policy in policies {
        let handoff = build_handoff(&workspace, &package, &encode_handoff)
            .unwrap()
            .with_execution_policy(policy, &encode_handoff);
        assert_eq!(handoff.validate_canvas_rules(), Err(HandoffError::ExecutionForbidden));
    }
}

#[test]
fn built_handoff_carries_the_plan_request() {
    let workspace = sample_workspace();
    let package = build_package(&workspace, &encode_package).unwrap();
    let handoff = build_handoff(&workspace, &package, &encode_handoff).unwrap();
    assert_eq!(handoff.kind, "planning_request");
    assert_eq!(handoff.bolt_target, "cos-matic");
    assert_eq!(handoff.source.handoff_id, "handoff:rumble-canvas-mvp:0.1.0");
    assert_eq!(handoff.source.created_by, "actor:owner");
    assert_eq!(handoff.package.package_hash, package.package_hash);
    assert_eq!(handoff.spec_context.domain_entities.len(), 10);
    assert_eq!(handoff.requested_outputs[4], "shared_capability_extraction_review");
    assert_eq!(handoff.execution_policy, ExecutionPolicy::default());
    assert!(handoff.canvas_warnings().is_empty());
}

#[test]
fn payload_hash_ignores_the_stored_hash() {
    let workspace = sample_workspace();
    let package = build_package(&workspace, &encode_package).unwrap();
    let handoff = build_handoff(&workspace, &package, &encode_handoff).unwrap();
    let sealed = handoff.payload_hash.clone().unwrap();
    assert_eq!(payload_hash(&handoff, &encode_handoff), sealed);
    let mut copy = handoff;
    copy.payload_hash = Some("sha256:other".to_string());
    assert_eq!(payload_hash(&copy, &encode_handoff), sealed);
    let expected = rumble_canvas::digest::sha256_tag(&encode_handoff(&ImplementationHandoff {
        payload_hash: None,
        ..copy
    }));
    assert_eq!(expected, sealed);
}

#[test]
fn resealing_changes_the_hash_with_the_policy() {
    let workspace = sample_workspace();
    let package = build_package(&workspace, &encode_package).unwrap();
    let handoff = build_handoff(&workspace, &package, &encode_handoff).unwrap();
    let before = handoff.payload_hash.clone().unwrap();
    let resealed = handoff.with_execution_policy(
        ExecutionPolicy { allow_execution: true, ..ExecutionPolicy::default() },
        &encode_handoff,
    );
    assert_ne!(resealed.payload_hash.unwrap(), before);
}

#[test]
fn blank_owner_layer_warns_too() {
    let mut workspace = sample_workspace();
    workspace.capability_candidates[0].proposed_owner_layer = Some(" \t".to_string());
    let mut second = workspace.capability_candidates[0].clone();
    second.proposed_owner_layer = Some("gear".to_string());
    workspace.capability_candidates.push(second);
    let handoff = handoff_for(workspace).unwrap();
    assert_eq!(handoff.canvas_warnings(), vec!["capability_owner_missing"]);
}

#[test]
fn handoff_errors_have_messages() {
    assert_eq!(HandoffError::ExecutionForbidden.message(), "execution is forbidden from Canvas MVP");
    assert_eq!(HandoffError::MissingTraceability.message(), "traceability is required before handoff");
    assert_eq!(
        HandoffError::BlockingQuestionWithoutWaiver.message(),
        "blocking question requires an accepted waiver"
    );
    assert_eq!(HandoffError::HighRiskWithoutWaiver.message(), "high risk requires an accepted waiver");
    assert_eq!(HandoffError::ExpiredWaiver.message(), "waiver expired");
}
