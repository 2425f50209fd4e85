//! The sample workspace that the local MVP ships with: one owner, one role,
//! one journey, screen and action, one traceability link, one capability and
//! one approved charter section.
use crate::domain::{
    charter_json, ActionDefinition, ActionDefinitionModel, ActorReference, ActorReferenceModel,
    ActorType, CapabilityCandidate, CapabilityCandidateModel, JourneyDefinition,
    JourneyDefinitionModel, PermissionPrimitive, ProductCharter, ProductCharterModel,
    RoleDefinition, RoleDefinitionModel, ScreenDefinition, ScreenDefinitionModel,
    SpecSection, SpecSectionModel, SpecSectionRevision, SpecSectionRevisionModel, SpecWorkspace,
    SpecWorkspaceModel, TraceabilityLink, TraceabilityLinkModel,
};
use crate::handoff::{handoff_violation, planned_handoff};
use crate::json::{JsonModel, JsonValue};
use crate::package::SpecPackage;
use crate::role_assignment::{RoleAssignment, RoleAssignmentModel};
use crate::text::{owned_texts, push_text};
use crate::workspace_membership::{MembershipStatus, WorkspaceMembership, WorkspaceMembershipModel};
use crate::SAMPLE_TS;
use vstd::prelude::*;

verus! {

// ------------------------------------------------------------ the sample, as content

/// The owner of the sample workspace.
pub open spec fn sample_actor_model() -> ActorReferenceModel {
    ActorReferenceModel {
        actor_id: "actor:owner"@,
        actor_type: ActorType::Human,
        display_name: Some("Canvas Owner"@),
        source: Some("local_profile"@),
    }
}

pub open spec fn sample_charter_model() -> ProductCharterModel {
    ProductCharterModel {
        mission: "Produce a planning-only implementation handoff from a structured spec package"@,
        target_users: seq!["Product builder"@, "Tech lead"@],
        jobs_to_be_done: seq!["Validate product intent before agentic implementation"@],
        non_goals: seq!["Execute implementation work from Canvas"@],
    }
}

pub open spec fn sample_role_model() -> RoleDefinitionModel {
    RoleDefinitionModel {
        id: "role:owner"@,
        name: "Owner"@,
        actor_type: "human"@,
        permissions: seq![
            PermissionPrimitive::Read,
            PermissionPrimitive::Write,
            PermissionPrimitive::Approve,
        ],
    }
}

pub open spec fn sample_journey_model() -> JourneyDefinitionModel {
    JourneyDefinitionModel {
        id: "journey:package-to-handoff"@,
        name: "Approve package and request Bolt planning"@,
        primary_actor_role_id: "role:owner"@,
        trigger: "A spec slice is ready for implementation planning"@,
        happy_path: seq![
            "Approve immutable package"@,
            "Generate handoff"@,
            "Validate via cosmatic"@,
        ],
        acceptance_criteria: seq!["Validation succeeds without allowing execution"@],
    }
}

pub open spec fn sample_screen_model() -> ScreenDefinitionModel {
    ScreenDefinitionModel {
        id: "screen:handoff"@,
        name: "Handoff Review"@,
        route_or_entry: "/handoff"@,
        purpose: "Review package readiness and produce a planning-only handoff"@,
        allowed_role_ids: seq!["role:owner"@],
        acceptance_criteria: seq!["Findings and dry-run plan are visible to the owner"@],
    }
}

pub open spec fn sample_action_model() -> ActionDefinitionModel {
    ActionDefinitionModel {
        id: "action:validate-handoff"@,
        screen_id: "screen:handoff"@,
        name: "Validate handoff"@,
        actor_role_id: "role:owner"@,
        intent: "Ask Bolt to validate the handoff payload without execution"@,
        business_rules: seq!["execution_policy.allow_execution must be false"@],
        acceptance_criteria: seq!["cosmatic handoff validate --json returns no errors"@],
        audit_required: true,
        destructive: false,
    }
}

pub open spec fn sample_link_model() -> TraceabilityLinkModel {
    TraceabilityLinkModel {
        id: "trace:journey-action"@,
        workspace_id: "workspace:rumble-canvas-mvp"@,
        source_type: "journey"@,
        source_id: "journey:package-to-handoff"@,
        target_type: "action"@,
        target_id: "action:validate-handoff"@,
        relation_type: "implements"@,
        rationale: Some("The action implements the package-to-handoff journey"@),
        confidence: "manual"@,
        status: "active"@,
        created_by: "actor:owner"@,
        created_at: SAMPLE_TS@,
    }
}

pub open spec fn sample_capability_model() -> CapabilityCandidateModel {
    CapabilityCandidateModel {
        id: "cap:implementation-handoff"@,
        name: "ImplementationHandoff"@,
        description: "Planning-only Rumble-to-Bolt boundary object"@,
        needed_by: seq!["rumble-canvas"@, "cos-matic"@],
        proposed_owner_layer: Some("bolt"@),
        status: "accepted"@,
        rationale: "Needed to connect product packages to harness planning safely"@,
    }
}

pub open spec fn sample_memberships_model() -> Seq<WorkspaceMembershipModel> {
    seq![
        WorkspaceMembershipModel {
            id: "member:owner"@,
            workspace_id: "workspace:rumble-canvas-mvp"@,
            actor_ref: sample_actor_model(),
            status: MembershipStatus::Active,
            joined_at: SAMPLE_TS@,
            revoked_at: None,
        },
        WorkspaceMembershipModel {
            id: "member:contributor"@,
            workspace_id: "workspace:rumble-canvas-mvp"@,
            actor_ref: ActorReferenceModel {
                actor_id: "actor:contributor"@,
                actor_type: ActorType::Human,
                display_name: Some("Contributor Alice"@),
                source: Some("local_profile"@),
            },
            status: MembershipStatus::Active,
            joined_at: SAMPLE_TS@,
            revoked_at: None,
        },
    ]
}

pub open spec fn sample_assignment_model() -> RoleAssignmentModel {
    RoleAssignmentModel {
        id: "role_assignment:owner"@,
        workspace_id: "workspace:rumble-canvas-mvp"@,
        actor_ref: sample_actor_model(),
        role: "owner"@,
        permissions: sample_role_model().permissions,
        created_at: SAMPLE_TS@,
        revoked_at: None,
    }
}

/// The identifier of the first revision of the section with key `key`.
pub open spec fn first_revision_id(key: Seq<char>) -> Seq<char> {
    "revision:"@ + key + ":1"@
}

/// An approved, package-required section of the sample workspace whose first
/// revision holds `content` and a one-line Markdown body under `title`.
pub open spec fn section_model(
    id: Seq<char>,
    key: Seq<char>,
    title: Seq<char>,
    content: JsonModel,
    actor: ActorReferenceModel,
) -> SpecSectionModel {
    SpecSectionModel {
        id,
        workspace_id: "workspace:rumble-canvas-mvp"@,
        key,
        title,
        status: "approved"@,
        current_revision_id: first_revision_id(key),
        approved_revision_id: first_revision_id(key),
        required_for_package: true,
        revision: SpecSectionRevisionModel {
            id: first_revision_id(key),
            section_id: id,
            revision_number: 1,
            content_format: "dual"@,
            structured_content: content,
            markdown_content: Some("# "@ + title + "\n\nSample approved section."@),
            created_by: actor,
            created_at: SAMPLE_TS@,
        },
        created_at: SAMPLE_TS@,
        updated_at: SAMPLE_TS@,
    }
}

/// The whole sample workspace.
pub open spec fn sample_workspace_model() -> SpecWorkspaceModel {
    SpecWorkspaceModel {
        id: "workspace:rumble-canvas-mvp"@,
        tenant_id: "tenant:rumble-canvas-local"@,
        name: "Rumble Canvas MVP"@,
        slug: "rumble-canvas-mvp"@,
        status: "approved"@,
        owner: sample_actor_model(),
        created_at: SAMPLE_TS@,
        updated_at: SAMPLE_TS@,
        charter: sample_charter_model(),
        roles: seq![sample_role_model()],
        journeys: seq![sample_journey_model()],
        screens: seq![sample_screen_model()],
        actions: seq![sample_action_model()],
        acceptance_criteria: seq![
            "Given a valid package, handoff validation succeeds"@,
            "Given allow_execution true, handoff validation fails"@,
        ],
        traceability_links: seq![sample_link_model()],
        waivers: Seq::empty(),
        open_questions: Seq::empty(),
        risks: Seq::empty(),
        capability_candidates: seq![sample_capability_model()],
        memberships: sample_memberships_model(),
        role_assignments: seq![sample_assignment_model()],
        sections: seq![
            section_model(
                "section:charter"@,
                "product-charter"@,
                "Product Charter"@,
                charter_json(sample_charter_model()),
                sample_actor_model(),
            ),
        ],
    }
}

/// The sample workspace is ready for a handoff: whatever package it is paired
/// with, the planned handoff breaks none of the Canvas rules, and the workspace
/// has the traceability that building a package needs.
pub proof fn lemma_sample_workspace_is_handoff_ready(ws: &SpecWorkspace, pkg: &SpecPackage)
    requires
        ws.deep_view() == sample_workspace_model(),
    ensures
        handoff_violation(planned_handoff(ws, pkg)) is None,
        ws.traceability_links@.len() > 0,
{
    let h = planned_handoff(ws, pkg);
    assert(ws.traceability_links.deep_view().len() == 1);
    assert(h.active_waivers.len() == 0);
    assert(h.open_questions.len() == 0);
    assert(h.risks.len() == 0);
}

// ------------------------------------------------------------ building the sample

/// The owner of the sample workspace.
pub fn sample_actor() -> (a: ActorReference)
    ensures
        a.deep_view() == sample_actor_model(),
{
    ActorReference {
        actor_id: "actor:owner".to_owned(),
        actor_type: ActorType::Human,
        display_name: Some("Canvas Owner".to_owned()),
        source: Some("local_profile".to_owned()),
    }
}

fn sample_charter() -> (c: ProductCharter)
    ensures
        c.deep_view() == sample_charter_model(),
{
    let c = ProductCharter {
        mission: "Produce a planning-only implementation handoff from a structured spec package".to_owned(),
        target_users: owned_texts(&["Product builder", "Tech lead"]),
        jobs_to_be_done: owned_texts(&["Validate product intent before agentic implementation"]),
        non_goals: owned_texts(&["Execute implementation work from Canvas"]),
    };
    assert(c.target_users.deep_view() =~= sample_charter_model().target_users);
    assert(c.jobs_to_be_done.deep_view() =~= sample_charter_model().jobs_to_be_done);
    assert(c.non_goals.deep_view() =~= sample_charter_model().non_goals);
    c
}

fn sample_role() -> (r: RoleDefinition)
    ensures
        r.deep_view() == sample_role_model(),
{
    let mut permissions: Vec<PermissionPrimitive> = Vec::new();
    permissions.push(PermissionPrimitive::Read);
    permissions.push(PermissionPrimitive::Write);
    permissions.push(PermissionPrimitive::Approve);
    let r = RoleDefinition {
        id: "role:owner".to_owned(),
        name: "Owner".to_owned(),
        actor_type: "human".to_owned(),
        permissions,
    };
    assert(r.permissions@ =~= sample_role_model().permissions);
    r
}

fn sample_journey() -> (j: JourneyDefinition)
    ensures
        j.deep_view() == sample_journey_model(),
{
    let j = JourneyDefinition {
        id: "journey:package-to-handoff".to_owned(),
        name: "Approve package and request Bolt planning".to_owned(),
        primary_actor_role_id: "role:owner".to_owned(),
        trigger: "A spec slice is ready for implementation planning".to_owned(),
        happy_path: owned_texts(
            &["Approve immutable package", "Generate handoff", "Validate via cosmatic"],
        ),
        acceptance_criteria: owned_texts(&["Validation succeeds without allowing execution"]),
    };
    assert(j.happy_path.deep_view() =~= sample_journey_model().happy_path);
    assert(j.acceptance_criteria.deep_view() =~= sample_journey_model().acceptance_criteria);
    j
}

fn sample_screen() -> (s: ScreenDefinition)
    ensures
        s.deep_view() == sample_screen_model(),
{
    let s = ScreenDefinition {
        id: "screen:handoff".to_owned(),
        name: "Handoff Review".to_owned(),
        route_or_entry: "/handoff".to_owned(),
        purpose: "Review package readiness and produce a planning-only handoff".to_owned(),
        allowed_role_ids: owned_texts(&["role:owner"]),
        acceptance_criteria: owned_texts(&["Findings and dry-run plan are visible to the owner"]),
    };
    assert(s.allowed_role_ids.deep_view() =~= sample_screen_model().allowed_role_ids);
    assert(s.acceptance_criteria.deep_view() =~= sample_screen_model().acceptance_criteria);
    s
}

fn sample_action() -> (a: ActionDefinition)
    ensures
        a.deep_view() == sample_action_model(),
{
    let a = ActionDefinition {
        id: "action:validate-handoff".to_owned(),
        screen_id: "screen:handoff".to_owned(),
        name: "Validate handoff".to_owned(),
        actor_role_id: "role:owner".to_owned(),
        intent: "Ask Bolt to validate the handoff payload without execution".to_owned(),
        business_rules: owned_texts(&["execution_policy.allow_execution must be false"]),
        acceptance_criteria: owned_texts(&["cosmatic handoff validate --json returns no errors"]),
        audit_required: true,
        destructive: false,
    };
    assert(a.business_rules.deep_view() =~= sample_action_model().business_rules);
    assert(a.acceptance_criteria.deep_view() =~= sample_action_model().acceptance_criteria);
    a
}

fn sample_link() -> (l: TraceabilityLink)
    ensures
        l.deep_view() == sample_link_model(),
{
    TraceabilityLink {
        id: "trace:journey-action".to_owned(),
        workspace_id: "workspace:rumble-canvas-mvp".to_owned(),
        source_type: "journey".to_owned(),
        source_id: "journey:package-to-handoff".to_owned(),
        target_type: "action".to_owned(),
        target_id: "action:validate-handoff".to_owned(),
        relation_type: "implements".to_owned(),
        rationale: Some("The action implements the package-to-handoff journey".to_owned()),
        confidence: "manual".to_owned(),
        status: "active".to_owned(),
        created_by: "actor:owner".to_owned(),
        created_at: SAMPLE_TS.to_owned(),
    }
}

fn sample_capability() -> (c: CapabilityCandidate)
    ensures
        c.deep_view() == sample_capability_model(),
{
    let c = CapabilityCandidate {
        id: "cap:implementation-handoff".to_owned(),
        name: "ImplementationHandoff".to_owned(),
        description: "Planning-only Rumble-to-Bolt boundary object".to_owned(),
        needed_by: owned_texts(&["rumble-canvas", "cos-matic"]),
        proposed_owner_layer: Some("bolt".to_owned()),
        status: "accepted".to_owned(),
        rationale: "Needed to connect product packages to harness planning safely".to_owned(),
    };
    assert(c.needed_by.deep_view() =~= sample_capability_model().needed_by);
    c
}

fn sample_memberships() -> (m: Vec<WorkspaceMembership>)
    ensures
        m.deep_view() == sample_memberships_model(),
{
    let mut m: Vec<WorkspaceMembership> = Vec::new();
    m.push(
        WorkspaceMembership {
            id: "member:owner".to_owned(),
            workspace_id: "workspace:rumble-canvas-mvp".to_owned(),
            actor_ref: sample_actor(),
            status: MembershipStatus::Active,
            joined_at: SAMPLE_TS.to_owned(),
            revoked_at: None,
        },
    );
    m.push(
        WorkspaceMembership {
            id: "member:contributor".to_owned(),
            workspace_id: "workspace:rumble-canvas-mvp".to_owned(),
            actor_ref: ActorReference {
                actor_id: "actor:contributor".to_owned(),
                actor_type: ActorType::Human,
                display_name: Some("Contributor Alice".to_owned()),
                source: Some("local_profile".to_owned()),
            },
            status: MembershipStatus::Active,
            joined_at: SAMPLE_TS.to_owned(),
            revoked_at: None,
        },
    );
    assert(m.deep_view() =~= sample_memberships_model());
    m
}

fn sample_assignment() -> (a: RoleAssignment)
    ensures
        a.deep_view() == sample_assignment_model(),
{
    let role = sample_role();
    RoleAssignment {
        id: "role_assignment:owner".to_owned(),
        workspace_id: "workspace:rumble-canvas-mvp".to_owned(),
        actor_ref: sample_actor(),
        role: "owner".to_owned(),
        permissions: role.permissions,
        created_at: SAMPLE_TS.to_owned(),
        revoked_at: None,
    }
}

/// An approved section of the sample workspace, with its first revision.
fn section(
    id: &str,
    key: &str,
    title: &str,
    structured_content: JsonValue,
    actor: &ActorReference,
) -> (s: SpecSection)
    ensures
        s.deep_view() == section_model(
            id@,
            key@,
            title@,
            structured_content.model(),
            actor.deep_view(),
        ),
{
    let mut revision_id = String::new();
    push_text(&mut revision_id, "revision:");
    push_text(&mut revision_id, key);
    push_text(&mut revision_id, ":1");
    let mut markdown = String::new();
    push_text(&mut markdown, "# ");
    push_text(&mut markdown, title);
    push_text(&mut markdown, "\n\nSample approved section.");
    SpecSection {
        id: id.to_owned(),
        workspace_id: "workspace:rumble-canvas-mvp".to_owned(),
        key: key.to_owned(),
        title: title.to_owned(),
        status: "approved".to_owned(),
        current_revision_id: revision_id.clone(),
        approved_revision_id: revision_id.clone(),
        required_for_package: true,
        revision: SpecSectionRevision {
            id: revision_id,
            section_id: id.to_owned(),
            revision_number: 1,
            content_format: "dual".to_owned(),
            structured_content,
            markdown_content: Some(markdown),
            created_by: actor.clone(),
            created_at: SAMPLE_TS.to_owned(),
        },
        created_at: SAMPLE_TS.to_owned(),
        updated_at: SAMPLE_TS.to_owned(),
    }
}

/// The sample workspace: approved, owned by `actor:owner`, with one role,
/// journey, screen and action, one traceability link, no waivers, questions or
/// risks, one capability owned by `bolt`, two active members, one owner role
/// assignment and the approved charter section.
pub fn sample_workspace() -> (w: SpecWorkspace)
    ensures
        w.deep_view() == sample_workspace_model(),
{
    let actor = sample_actor();
    let charter = sample_charter();
    let charter_value = charter.to_json();
    let sec = section("section:charter", "product-charter", "Product Charter", charter_value, &actor);
    let mut roles: Vec<RoleDefinition> = Vec::new();
    roles.push(sample_role());
    let mut journeys: Vec<JourneyDefinition> = Vec::new();
    journeys.push(sample_journey());
    let mut screens: Vec<ScreenDefinition> = Vec::new();
    screens.push(sample_screen());
    let mut actions: Vec<ActionDefinition> = Vec::new();
    actions.push(sample_action());
    let mut links: Vec<TraceabilityLink> = Vec::new();
    links.push(sample_link());
    let mut capabilities: Vec<CapabilityCandidate> = Vec::new();
    capabilities.push(sample_capability());
    let mut assignments: Vec<RoleAssignment> = Vec::new();
    assignments.push(sample_assignment());
    let mut sections: Vec<SpecSection> = Vec::new();
    sections.push(sec);
    let w = SpecWorkspace {
        id: "workspace:rumble-canvas-mvp".to_owned(),
        tenant_id: "tenant:rumble-canvas-local".to_owned(),
        name: "Rumble Canvas MVP".to_owned(),
        slug: "rumble-canvas-mvp".to_owned(),
        status: "approved".to_owned(),
        owner: actor,
        created_at: SAMPLE_TS.to_owned(),
        updated_at: SAMPLE_TS.to_owned(),
        charter,
        roles,
        journeys,
        screens,
        actions,
        acceptance_criteria: owned_texts(
            &[
                "Given a valid package, handoff validation succeeds",
                "Given allow_execution true, handoff validation fails",
            ],
        ),
        traceability_links: links,
        waivers: Vec::new(),
        open_questions: Vec::new(),
        risks: Vec::new(),
        capability_candidates: capabilities,
        memberships: sample_memberships(),
        role_assignments: assignments,
        sections,
    };
    let ghost m = sample_workspace_model();
    assert(w.roles.deep_view() =~= m.roles);
    assert(w.journeys.deep_view() =~= m.journeys);
    assert(w.screens.deep_view() =~= m.screens);
    assert(w.actions.deep_view() =~= m.actions);
    assert(w.acceptance_criteria.deep_view() =~= m.acceptance_criteria);
    assert(w.traceability_links.deep_view() =~= m.traceability_links);
    assert(w.waivers.deep_view() =~= m.waivers);
    assert(w.open_questions.deep_view() =~= m.open_questions);
    assert(w.risks.deep_view() =~= m.risks);
    assert(w.capability_candidates.deep_view() =~= m.capability_candidates);
    assert(w.role_assignments.deep_view() =~= m.role_assignments);
    assert(w.sections.deep_view() =~= m.sections);
    w
}

} // verus!
