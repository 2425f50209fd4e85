//! The spec workspace: actors, permissions, product charter, roles, journeys,
//! screens, actions, traceability, waivers, risks, questions and sections.
use crate::json::{text_array, texts_json, JsonModel, JsonValue};
use crate::role_assignment::{RoleAssignment, RoleAssignmentModel};
use crate::text::text_equal;
use crate::workspace_membership::{WorkspaceMembership, WorkspaceMembershipModel};
pub use crate::sample::{sample_actor, sample_workspace};
use vstd::prelude::*;

verus! {

/// The kind of actor that a reference points at.
#[derive(Clone, Copy, Debug, PartialEq, Eq, Structural)]
pub enum ActorType {
    Human,
    Agent,
    Service,
    External,
}

/// The closed vocabulary of permissions.
#[derive(Clone, Copy, Debug, PartialEq, Eq, Structural)]
pub enum PermissionPrimitive {
    Read,
    Comment,
    Write,
    Approve,
    Invite,
    Administer,
    Delegate,
}

/// Copies a list of texts.
pub fn clone_texts(v: &Vec<String>) -> (r: Vec<String>)
    ensures
        r.deep_view() == v.deep_view(),
{
    let r = v.clone();
    assert(r.deep_view() =~= v.deep_view());
    r
}

/// Copies a list whose elements copy to values of the same content.
pub fn clone_all<T: Clone + DeepView>(v: &Vec<T>) -> (r: Vec<T>)
    requires
        forall|a: T, b: T| #[trigger] cloned::<T>(a, b) ==> a.deep_view() == b.deep_view(),
    ensures
        r.deep_view() == v.deep_view(),
{
    let r = v.clone();
    assert(r.deep_view() =~= v.deep_view());
    r
}

/// Copies a list of permissions.
pub fn clone_permissions(v: &Vec<PermissionPrimitive>) -> (r: Vec<PermissionPrimitive>)
    ensures
        r@ == v@,
{
    let mut r: Vec<PermissionPrimitive> = Vec::new();
    let mut i: usize = 0;
    while i < v.len()
        invariant
            i <= v@.len(),
            r@ == v@.subrange(0, i as int),
        decreases v.len() - i,
    {
        r.push(v[i]);
        i = i + 1;
        assert(r@ =~= v@.subrange(0, i as int));
    }
    assert(r@ =~= v@);
    r
}

/// Copies an optional text.
pub fn clone_opt_text(v: &Option<String>) -> (r: Option<String>)
    ensures
        r.deep_view() == v.deep_view(),
{
    match v {
        Some(s) => Some(s.clone()),
        None => None,
    }
}

// ------------------------------------------------------------ actor reference

/// Who did something.
#[derive(Debug)]
pub struct ActorReference {
    pub actor_id: String,
    pub actor_type: ActorType,
    pub display_name: Option<String>,
    pub source: Option<String>,
}

pub struct ActorReferenceModel {
    pub actor_id: Seq<char>,
    pub actor_type: ActorType,
    pub display_name: Option<Seq<char>>,
    pub source: Option<Seq<char>>,
}

impl DeepView for ActorReference {
    type V = ActorReferenceModel;

    open spec fn deep_view(&self) -> ActorReferenceModel {
        ActorReferenceModel {
            actor_id: self.actor_id@,
            actor_type: self.actor_type,
            display_name: self.display_name.deep_view(),
            source: self.source.deep_view(),
        }
    }
}

impl Clone for ActorReference {
    fn clone(&self) -> (r: Self)
        ensures
            r.deep_view() == self.deep_view(),
    {
        ActorReference {
            actor_id: self.actor_id.clone(),
            actor_type: self.actor_type,
            display_name: clone_opt_text(&self.display_name),
            source: clone_opt_text(&self.source),
        }
    }
}

/// The identity facts of a workspace: its tenant, members and role assignments.
#[derive(Debug)]
pub struct WorkspaceIdentity {
    pub workspace_id: String,
    pub tenant_id: String,
    pub memberships: Vec<WorkspaceMembership>,
    pub role_assignments: Vec<RoleAssignment>,
}

pub struct WorkspaceIdentityModel {
    pub workspace_id: Seq<char>,
    pub tenant_id: Seq<char>,
    pub memberships: Seq<WorkspaceMembershipModel>,
    pub role_assignments: Seq<RoleAssignmentModel>,
}

impl DeepView for WorkspaceIdentity {
    type V = WorkspaceIdentityModel;

    open spec fn deep_view(&self) -> WorkspaceIdentityModel {
        WorkspaceIdentityModel {
            workspace_id: self.workspace_id@,
            tenant_id: self.tenant_id@,
            memberships: self.memberships.deep_view(),
            role_assignments: self.role_assignments.deep_view(),
        }
    }
}

// ------------------------------------------------------------ sections

/// One revision of a spec section.
#[derive(Debug)]
pub struct SpecSectionRevision {
    pub id: String,
    pub section_id: String,
    pub revision_number: u32,
    pub content_format: String,
    pub structured_content: JsonValue,
    pub markdown_content: Option<String>,
    pub created_by: ActorReference,
    pub created_at: String,
}

/// A section of the specification.
#[derive(Debug)]
pub struct SpecSection {
    pub id: String,
    pub workspace_id: String,
    pub key: String,
    pub title: String,
    pub status: String,
    pub current_revision_id: String,
    pub approved_revision_id: String,
    pub required_for_package: bool,
    pub revision: SpecSectionRevision,
    pub created_at: String,
    pub updated_at: String,
}

pub struct SpecSectionRevisionModel {
    pub id: Seq<char>,
    pub section_id: Seq<char>,
    pub revision_number: u32,
    pub content_format: Seq<char>,
    pub structured_content: JsonModel,
    pub markdown_content: Option<Seq<char>>,
    pub created_by: ActorReferenceModel,
    pub created_at: Seq<char>,
}

impl DeepView for SpecSectionRevision {
    type V = SpecSectionRevisionModel;

    open spec fn deep_view(&self) -> SpecSectionRevisionModel {
        SpecSectionRevisionModel {
            id: self.id@,
            section_id: self.section_id@,
            revision_number: self.revision_number,
            content_format: self.content_format@,
            structured_content: self.structured_content.model(),
            markdown_content: self.markdown_content.deep_view(),
            created_by: self.created_by.deep_view(),
            created_at: self.created_at@,
        }
    }
}

pub struct SpecSectionModel {
    pub id: Seq<char>,
    pub workspace_id: Seq<char>,
    pub key: Seq<char>,
    pub title: Seq<char>,
    pub status: Seq<char>,
    pub current_revision_id: Seq<char>,
    pub approved_revision_id: Seq<char>,
    pub required_for_package: bool,
    pub revision: SpecSectionRevisionModel,
    pub created_at: Seq<char>,
    pub updated_at: Seq<char>,
}

impl DeepView for SpecSection {
    type V = SpecSectionModel;

    open spec fn deep_view(&self) -> SpecSectionModel {
        SpecSectionModel {
            id: self.id@,
            workspace_id: self.workspace_id@,
            key: self.key@,
            title: self.title@,
            status: self.status@,
            current_revision_id: self.current_revision_id@,
            approved_revision_id: self.approved_revision_id@,
            required_for_package: self.required_for_package,
            revision: self.revision.deep_view(),
            created_at: self.created_at@,
            updated_at: self.updated_at@,
        }
    }
}

// ------------------------------------------------------------ traceability

/// A link between two objects of the workspace.
#[derive(Debug)]
pub struct TraceabilityLink {
    pub id: String,
    pub workspace_id: String,
    pub source_type: String,
    pub source_id: String,
    pub target_type: String,
    pub target_id: String,
    pub relation_type: String,
    pub rationale: Option<String>,
    pub confidence: String,
    pub status: String,
    pub created_by: String,
    pub created_at: String,
}

pub struct TraceabilityLinkModel {
    pub id: Seq<char>,
    pub workspace_id: Seq<char>,
    pub source_type: Seq<char>,
    pub source_id: Seq<char>,
    pub target_type: Seq<char>,
    pub target_id: Seq<char>,
    pub relation_type: Seq<char>,
    pub rationale: Option<Seq<char>>,
    pub confidence: Seq<char>,
    pub status: Seq<char>,
    pub created_by: Seq<char>,
    pub created_at: Seq<char>,
}

impl DeepView for TraceabilityLink {
    type V = TraceabilityLinkModel;

    open spec fn deep_view(&self) -> TraceabilityLinkModel {
        TraceabilityLinkModel {
            id: self.id@,
            workspace_id: self.workspace_id@,
            source_type: self.source_type@,
            source_id: self.source_id@,
            target_type: self.target_type@,
            target_id: self.target_id@,
            relation_type: self.relation_type@,
            rationale: self.rationale.deep_view(),
            confidence: self.confidence@,
            status: self.status@,
            created_by: self.created_by@,
            created_at: self.created_at@,
        }
    }
}

impl Clone for TraceabilityLink {
    fn clone(&self) -> (r: Self)
        ensures
            r.deep_view() == self.deep_view(),
    {
        TraceabilityLink {
            id: self.id.clone(),
            workspace_id: self.workspace_id.clone(),
            source_type: self.source_type.clone(),
            source_id: self.source_id.clone(),
            target_type: self.target_type.clone(),
            target_id: self.target_id.clone(),
            relation_type: self.relation_type.clone(),
            rationale: clone_opt_text(&self.rationale),
            confidence: self.confidence.clone(),
            status: self.status.clone(),
            created_by: self.created_by.clone(),
            created_at: self.created_at.clone(),
        }
    }
}

// ------------------------------------------------------------ waivers

/// An accepted (or pending) exception to a rule.
#[derive(Debug)]
pub struct Waiver {
    pub id: String,
    pub workspace_id: String,
    pub target_type: String,
    pub target_id: String,
    pub status: String,
    pub reason: String,
    pub risk_level: String,
    pub risk_category: String,
    pub owner_id: String,
    pub approver_id: String,
    pub expires_at: Option<String>,
    pub created_at: String,
    pub decided_at: Option<String>,
}

pub struct WaiverModel {
    pub id: Seq<char>,
    pub workspace_id: Seq<char>,
    pub target_type: Seq<char>,
    pub target_id: Seq<char>,
    pub status: Seq<char>,
    pub reason: Seq<char>,
    pub risk_level: Seq<char>,
    pub risk_category: Seq<char>,
    pub owner_id: Seq<char>,
    pub approver_id: Seq<char>,
    pub expires_at: Option<Seq<char>>,
    pub created_at: Seq<char>,
    pub decided_at: Option<Seq<char>>,
}

impl DeepView for Waiver {
    type V = WaiverModel;

    open spec fn deep_view(&self) -> WaiverModel {
        WaiverModel {
            id: self.id@,
            workspace_id: self.workspace_id@,
            target_type: self.target_type@,
            target_id: self.target_id@,
            status: self.status@,
            reason: self.reason@,
            risk_level: self.risk_level@,
            risk_category: self.risk_category@,
            owner_id: self.owner_id@,
            approver_id: self.approver_id@,
            expires_at: self.expires_at.deep_view(),
            created_at: self.created_at@,
            decided_at: self.decided_at.deep_view(),
        }
    }
}

impl Clone for Waiver {
    fn clone(&self) -> (r: Self)
        ensures
            r.deep_view() == self.deep_view(),
    {
        Waiver {
            id: self.id.clone(),
            workspace_id: self.workspace_id.clone(),
            target_type: self.target_type.clone(),
            target_id: self.target_id.clone(),
            status: self.status.clone(),
            reason: self.reason.clone(),
            risk_level: self.risk_level.clone(),
            risk_category: self.risk_category.clone(),
            owner_id: self.owner_id.clone(),
            approver_id: self.approver_id.clone(),
            expires_at: clone_opt_text(&self.expires_at),
            created_at: self.created_at.clone(),
            decided_at: clone_opt_text(&self.decided_at),
        }
    }
}

// ------------------------------------------------------------ charter

/// What the product is for.
#[derive(Debug)]
pub struct ProductCharter {
    pub mission: String,
    pub target_users: Vec<String>,
    pub jobs_to_be_done: Vec<String>,
    pub non_goals: Vec<String>,
}

pub struct ProductCharterModel {
    pub mission: Seq<char>,
    pub target_users: Seq<Seq<char>>,
    pub jobs_to_be_done: Seq<Seq<char>>,
    pub non_goals: Seq<Seq<char>>,
}

impl DeepView for ProductCharter {
    type V = ProductCharterModel;

    open spec fn deep_view(&self) -> ProductCharterModel {
        ProductCharterModel {
            mission: self.mission@,
            target_users: self.target_users.deep_view(),
            jobs_to_be_done: self.jobs_to_be_done.deep_view(),
            non_goals: self.non_goals.deep_view(),
        }
    }
}

impl Clone for ProductCharter {
    fn clone(&self) -> (r: Self)
        ensures
            r.deep_view() == self.deep_view(),
    {
        ProductCharter {
            mission: self.mission.clone(),
            target_users: clone_texts(&self.target_users),
            jobs_to_be_done: clone_texts(&self.jobs_to_be_done),
            non_goals: clone_texts(&self.non_goals),
        }
    }
}

/// The JSON form of a charter: an object with its four fields.
pub open spec fn charter_json(c: ProductCharterModel) -> JsonModel {
    JsonModel::Object(
        seq![
            ("mission"@, JsonModel::Text(c.mission)),
            ("target_users"@, texts_json(c.target_users)),
            ("jobs_to_be_done"@, texts_json(c.jobs_to_be_done)),
            ("non_goals"@, texts_json(c.non_goals)),
        ],
    )
}

impl ProductCharter {
    /// The charter as a JSON object with its four fields, in declaration order.
    pub fn to_json(&self) -> (v: JsonValue)
        ensures
            v.model() == charter_json(self.deep_view()),
    {
        let users = text_array(&self.target_users);
        let jobs = text_array(&self.jobs_to_be_done);
        let non_goals = text_array(&self.non_goals);
        let mut fields: Vec<(String, JsonValue)> = Vec::new();
        fields.push(("mission".to_owned(), JsonValue::Text(self.mission.clone())));
        fields.push(("target_users".to_owned(), users));
        fields.push(("jobs_to_be_done".to_owned(), jobs));
        fields.push(("non_goals".to_owned(), non_goals));
        let v = JsonValue::Object(fields);
        proof {
            let target = charter_json(self.deep_view())->Object_0;
            let got = v.model()->Object_0;
            assert(got.len() == 4);
            assert forall|i: int| 0 <= i < 4 implies got[i] == target[i] by {
                assert(got[i] == (fields@[i].0@, fields@[i].1.model()));
            }
            assert(got =~= target);
        }
        v
    }
}

// ------------------------------------------------------------ roles, journeys, screens, actions

/// A product role and the permissions it carries.
#[derive(Debug)]
pub struct RoleDefinition {
    pub id: String,
    pub name: String,
    pub actor_type: String,
    pub permissions: Vec<PermissionPrimitive>,
}

pub struct RoleDefinitionModel {
    pub id: Seq<char>,
    pub name: Seq<char>,
    pub actor_type: Seq<char>,
    pub permissions: Seq<PermissionPrimitive>,
}

impl DeepView for RoleDefinition {
    type V = RoleDefinitionModel;

    open spec fn deep_view(&self) -> RoleDefinitionModel {
        RoleDefinitionModel {
            id: self.id@,
            name: self.name@,
            actor_type: self.actor_type@,
            permissions: self.permissions@,
        }
    }
}

impl Clone for RoleDefinition {
    fn clone(&self) -> (r: Self)
        ensures
            r.deep_view() == self.deep_view(),
    {
        RoleDefinition {
            id: self.id.clone(),
            name: self.name.clone(),
            actor_type: self.actor_type.clone(),
            permissions: clone_permissions(&self.permissions),
        }
    }
}

/// A user journey.
#[derive(Debug)]
pub struct JourneyDefinition {
    pub id: String,
    pub name: String,
    pub primary_actor_role_id: String,
    pub trigger: String,
    pub happy_path: Vec<String>,
    pub acceptance_criteria: Vec<String>,
}

pub struct JourneyDefinitionModel {
    pub id: Seq<char>,
    pub name: Seq<char>,
    pub primary_actor_role_id: Seq<char>,
    pub trigger: Seq<char>,
    pub happy_path: Seq<Seq<char>>,
    pub acceptance_criteria: Seq<Seq<char>>,
}

impl DeepView for JourneyDefinition {
    type V = JourneyDefinitionModel;

    open spec fn deep_view(&self) -> JourneyDefinitionModel {
        JourneyDefinitionModel {
            id: self.id@,
            name: self.name@,
            primary_actor_role_id: self.primary_actor_role_id@,
            trigger: self.trigger@,
            happy_path: self.happy_path.deep_view(),
            acceptance_criteria: self.acceptance_criteria.deep_view(),
        }
    }
}

impl Clone for JourneyDefinition {
    fn clone(&self) -> (r: Self)
        ensures
            r.deep_view() == self.deep_view(),
    {
        JourneyDefinition {
            id: self.id.clone(),
            name: self.name.clone(),
            primary_actor_role_id: self.primary_actor_role_id.clone(),
            trigger: self.trigger.clone(),
            happy_path: clone_texts(&self.happy_path),
            acceptance_criteria: clone_texts(&self.acceptance_criteria),
        }
    }
}

/// A screen of the product.
#[derive(Debug)]
pub struct ScreenDefinition {
    pub id: String,
    pub name: String,
    pub route_or_entry: String,
    pub purpose: String,
    pub allowed_role_ids: Vec<String>,
    pub acceptance_criteria: Vec<String>,
}

pub struct ScreenDefinitionModel {
    pub id: Seq<char>,
    pub name: Seq<char>,
    pub route_or_entry: Seq<char>,
    pub purpose: Seq<char>,
    pub allowed_role_ids: Seq<Seq<char>>,
    pub acceptance_criteria: Seq<Seq<char>>,
}

impl DeepView for ScreenDefinition {
    type V = ScreenDefinitionModel;

    open spec fn deep_view(&self) -> ScreenDefinitionModel {
        ScreenDefinitionModel {
            id: self.id@,
            name: self.name@,
            route_or_entry: self.route_or_entry@,
            purpose: self.purpose@,
            allowed_role_ids: self.allowed_role_ids.deep_view(),
            acceptance_criteria: self.acceptance_criteria.deep_view(),
        }
    }
}

impl Clone for ScreenDefinition {
    fn clone(&self) -> (r: Self)
        ensures
            r.deep_view() == self.deep_view(),
    {
        ScreenDefinition {
            id: self.id.clone(),
            name: self.name.clone(),
            route_or_entry: self.route_or_entry.clone(),
            purpose: self.purpose.clone(),
            allowed_role_ids: clone_texts(&self.allowed_role_ids),
            acceptance_criteria: clone_texts(&self.acceptance_criteria),
        }
    }
}

/// An action that a role takes on a screen.
#[derive(Debug)]
pub struct ActionDefinition {
    pub id: String,
    pub screen_id: String,
    pub name: String,
    pub actor_role_id: String,
    pub intent: String,
    pub business_rules: Vec<String>,
    pub acceptance_criteria: Vec<String>,
    pub audit_required: bool,
    pub destructive: bool,
}

pub struct ActionDefinitionModel {
    pub id: Seq<char>,
    pub screen_id: Seq<char>,
    pub name: Seq<char>,
    pub actor_role_id: Seq<char>,
    pub intent: Seq<char>,
    pub business_rules: Seq<Seq<char>>,
    pub acceptance_criteria: Seq<Seq<char>>,
    pub audit_required: bool,
    pub destructive: bool,
}

impl DeepView for ActionDefinition {
    type V = ActionDefinitionModel;

    open spec fn deep_view(&self) -> ActionDefinitionModel {
        ActionDefinitionModel {
            id: self.id@,
            screen_id: self.screen_id@,
            name: self.name@,
            actor_role_id: self.actor_role_id@,
            intent: self.intent@,
            business_rules: self.business_rules.deep_view(),
            acceptance_criteria: self.acceptance_criteria.deep_view(),
            audit_required: self.audit_required,
            destructive: self.destructive,
        }
    }
}

impl Clone for ActionDefinition {
    fn clone(&self) -> (r: Self)
        ensures
            r.deep_view() == self.deep_view(),
    {
        ActionDefinition {
            id: self.id.clone(),
            screen_id: self.screen_id.clone(),
            name: self.name.clone(),
            actor_role_id: self.actor_role_id.clone(),
            intent: self.intent.clone(),
            business_rules: clone_texts(&self.business_rules),
            acceptance_criteria: clone_texts(&self.acceptance_criteria),
            audit_required: self.audit_required,
            destructive: self.destructive,
        }
    }
}

// ------------------------------------------------------------ capabilities, risks, questions

/// A capability that might belong to a shared layer.
#[derive(Debug)]
pub struct CapabilityCandidate {
    pub id: String,
    pub name: String,
    pub description: String,
    pub needed_by: Vec<String>,
    pub proposed_owner_layer: Option<String>,
    pub status: String,
    pub rationale: String,
}

pub struct CapabilityCandidateModel {
    pub id: Seq<char>,
    pub name: Seq<char>,
    pub description: Seq<char>,
    pub needed_by: Seq<Seq<char>>,
    pub proposed_owner_layer: Option<Seq<char>>,
    pub status: Seq<char>,
    pub rationale: Seq<char>,
}

impl DeepView for CapabilityCandidate {
    type V = CapabilityCandidateModel;

    open spec fn deep_view(&self) -> CapabilityCandidateModel {
        CapabilityCandidateModel {
            id: self.id@,
            name: self.name@,
            description: self.description@,
            needed_by: self.needed_by.deep_view(),
            proposed_owner_layer: self.proposed_owner_layer.deep_view(),
            status: self.status@,
            rationale: self.rationale@,
        }
    }
}

impl Clone for CapabilityCandidate {
    fn clone(&self) -> (r: Self)
        ensures
            r.deep_view() == self.deep_view(),
    {
        CapabilityCandidate {
            id: self.id.clone(),
            name: self.name.clone(),
            description: self.description.clone(),
            needed_by: clone_texts(&self.needed_by),
            proposed_owner_layer: clone_opt_text(&self.proposed_owner_layer),
            status: self.status.clone(),
            rationale: self.rationale.clone(),
        }
    }
}

/// A risk raised on the workspace.
#[derive(Debug)]
pub struct RiskFlag {
    pub id: String,
    pub category: String,
    pub severity: String,
    pub description: String,
    pub status: String,
}

pub struct RiskFlagModel {
    pub id: Seq<char>,
    pub category: Seq<char>,
    pub severity: Seq<char>,
    pub description: Seq<char>,
    pub status: Seq<char>,
}

impl DeepView for RiskFlag {
    type V = RiskFlagModel;

    open spec fn deep_view(&self) -> RiskFlagModel {
        RiskFlagModel {
            id: self.id@,
            category: self.category@,
            severity: self.severity@,
            description: self.description@,
            status: self.status@,
        }
    }
}

impl Clone for RiskFlag {
    fn clone(&self) -> (r: Self)
        ensures
            r.deep_view() == self.deep_view(),
    {
        RiskFlag {
            id: self.id.clone(),
            category: self.category.clone(),
            severity: self.severity.clone(),
            description: self.description.clone(),
            status: self.status.clone(),
        }
    }
}

/// A question that is still open.
#[derive(Debug)]
pub struct OpenQuestion {
    pub id: String,
    pub question: String,
    pub impact: String,
    pub status: String,
}

pub struct OpenQuestionModel {
    pub id: Seq<char>,
    pub question: Seq<char>,
    pub impact: Seq<char>,
    pub status: Seq<char>,
}

impl DeepView for OpenQuestion {
    type V = OpenQuestionModel;

    open spec fn deep_view(&self) -> OpenQuestionModel {
        OpenQuestionModel {
            id: self.id@,
            question: self.question@,
            impact: self.impact@,
            status: self.status@,
        }
    }
}

impl Clone for OpenQuestion {
    fn clone(&self) -> (r: Self)
        ensures
            r.deep_view() == self.deep_view(),
    {
        OpenQuestion {
            id: self.id.clone(),
            question: self.question.clone(),
            impact: self.impact.clone(),
            status: self.status.clone(),
        }
    }
}

// ------------------------------------------------------------ blocking questions and high risks

/// An open question of blocking impact.
pub open spec fn question_is_blocking(q: OpenQuestionModel) -> bool {
    q.impact == "blocking"@ && q.status == "open"@
}

/// An open risk of high, critical or blocking severity.
pub open spec fn risk_is_high(r: RiskFlagModel) -> bool {
    (r.severity == "high"@ || r.severity == "critical"@ || r.severity == "blocking"@) && r.status
        == "open"@
}

/// How many questions are blocking.
pub open spec fn count_blocking_questions(qs: Seq<OpenQuestionModel>) -> nat
    decreases qs.len(),
{
    if qs.len() == 0 {
        0
    } else {
        count_blocking_questions(qs.drop_last()) + if question_is_blocking(qs.last()) {
            1nat
        } else {
            0nat
        }
    }
}

/// How many risks are high.
pub open spec fn count_high_risks(rs: Seq<RiskFlagModel>) -> nat
    decreases rs.len(),
{
    if rs.len() == 0 {
        0
    } else {
        count_high_risks(rs.drop_last()) + if risk_is_high(rs.last()) {
            1nat
        } else {
            0nat
        }
    }
}

/// The risks that count as high, counted one by one: exactly those that are
/// open and of severity high, critical or blocking; a resolved or otherwise
/// non-open risk never counts, whatever its severity.
pub proof fn lemma_high_risks_counted(rs: Seq<RiskFlagModel>)
    ensures
        count_high_risks(rs) == rs.filter(
            |r: RiskFlagModel|
                (r.severity == "high"@ || r.severity == "critical"@ || r.severity == "blocking"@)
                    && r.status == "open"@,
        ).len(),
        count_high_risks(rs) <= rs.len(),
        (forall|i: int| 0 <= i < rs.len() ==> (#[trigger] rs[i]).status != "open"@)
            ==> count_high_risks(rs) == 0,
        count_high_risks(rs) > 0 <==> exists|i: int|
            0 <= i < rs.len() && ((#[trigger] rs[i]).severity == "high"@ || rs[i].severity
                == "critical"@ || rs[i].severity == "blocking"@) && rs[i].status == "open"@,
    decreases rs.len(),
{
    reveal(Seq::filter);
    if rs.len() > 0 {
        let p = rs.drop_last();
        lemma_high_risks_counted(p);
        assert forall|i: int| 0 <= i < p.len() implies p[i] == rs[i] by {}
        if count_high_risks(p) > 0 {
            let i = choose|i: int|
                0 <= i < p.len() && ((#[trigger] p[i]).severity == "high"@ || p[i].severity
                    == "critical"@ || p[i].severity == "blocking"@) && p[i].status == "open"@;
            assert(rs[i] == p[i]);
        }
        if exists|i: int|
            0 <= i < rs.len() && ((#[trigger] rs[i]).severity == "high"@ || rs[i].severity
                == "critical"@ || rs[i].severity == "blocking"@) && rs[i].status == "open"@ {
            let i = choose|i: int|
                0 <= i < rs.len() && ((#[trigger] rs[i]).severity == "high"@ || rs[i].severity
                    == "critical"@ || rs[i].severity == "blocking"@) && rs[i].status == "open"@;
            if i < rs.len() - 1 {
                assert(p[i] == rs[i]);
            }
        }
        if forall|i: int| 0 <= i < rs.len() ==> (#[trigger] rs[i]).status != "open"@ {
            assert(rs[rs.len() - 1].status != "open"@);
            assert forall|i: int| 0 <= i < p.len() implies (#[trigger] p[i]).status != "open"@ by {
                assert(p[i] == rs[i]);
            }
        }
    }
}

/// The questions that count as blocking, counted one by one: exactly those that
/// are open and of blocking impact; a non-open question never counts.
pub proof fn lemma_blocking_questions_counted(qs: Seq<OpenQuestionModel>)
    ensures
        count_blocking_questions(qs) == qs.filter(
            |q: OpenQuestionModel| q.impact == "blocking"@ && q.status == "open"@,
        ).len(),
        count_blocking_questions(qs) <= qs.len(),
        (forall|i: int| 0 <= i < qs.len() ==> (#[trigger] qs[i]).status != "open"@)
            ==> count_blocking_questions(qs) == 0,
        count_blocking_questions(qs) > 0 <==> exists|i: int|
            0 <= i < qs.len() && (#[trigger] qs[i]).impact == "blocking"@ && qs[i].status
                == "open"@,
    decreases qs.len(),
{
    reveal(Seq::filter);
    if qs.len() > 0 {
        let p = qs.drop_last();
        lemma_blocking_questions_counted(p);
        if count_blocking_questions(p) > 0 {
            let i = choose|i: int|
                0 <= i < p.len() && (#[trigger] p[i]).impact == "blocking"@ && p[i].status
                    == "open"@;
            assert(qs[i] == p[i]);
        }
        if exists|i: int|
            0 <= i < qs.len() && (#[trigger] qs[i]).impact == "blocking"@ && qs[i].status
                == "open"@ {
            let i = choose|i: int|
                0 <= i < qs.len() && (#[trigger] qs[i]).impact == "blocking"@ && qs[i].status
                    == "open"@;
            if i < qs.len() - 1 {
                assert(p[i] == qs[i]);
            }
        }
        if forall|i: int| 0 <= i < qs.len() ==> (#[trigger] qs[i]).status != "open"@ {
            assert(qs[qs.len() - 1].status != "open"@);
            assert forall|i: int| 0 <= i < p.len() implies (#[trigger] p[i]).status != "open"@ by {
                assert(p[i] == qs[i]);
            }
        }
    }
}

/// Whether a question is open and of blocking impact.
pub fn question_blocks(q: &OpenQuestion) -> (r: bool)
    ensures
        r == question_is_blocking(q.deep_view()),
{
    text_equal(q.impact.as_str(), "blocking") && text_equal(q.status.as_str(), "open")
}

/// Whether a risk is open and of high, critical or blocking severity.
pub fn risk_is_high_open(r: &RiskFlag) -> (b: bool)
    ensures
        b == risk_is_high(r.deep_view()),
{
    (text_equal(r.severity.as_str(), "high") || text_equal(r.severity.as_str(), "critical")
        || text_equal(r.severity.as_str(), "blocking")) && text_equal(r.status.as_str(), "open")
}

/// The number of blocking questions.
pub fn blocking_questions_count(qs: &Vec<OpenQuestion>) -> (n: usize)
    ensures
        n == count_blocking_questions(qs.deep_view()),
{
    let mut n: usize = 0;
    let mut i: usize = 0;
    while i < qs.len()
        invariant
            i <= qs@.len(),
            n <= i,
            n == count_blocking_questions(qs.deep_view().subrange(0, i as int)),
        decreases qs.len() - i,
    {
        proof {
            let next = qs.deep_view().subrange(0, i + 1);
            assert(next.drop_last() =~= qs.deep_view().subrange(0, i as int));
        }
        if question_blocks(&qs[i]) {
            n = n + 1;
        }
        i = i + 1;
    }
    assert(qs.deep_view().subrange(0, qs@.len() as int) =~= qs.deep_view());
    n
}

/// The number of high risks.
pub fn high_risks_count(rs: &Vec<RiskFlag>) -> (n: usize)
    ensures
        n == count_high_risks(rs.deep_view()),
{
    let mut n: usize = 0;
    let mut i: usize = 0;
    while i < rs.len()
        invariant
            i <= rs@.len(),
            n <= i,
            n == count_high_risks(rs.deep_view().subrange(0, i as int)),
        decreases rs.len() - i,
    {
        proof {
            let next = rs.deep_view().subrange(0, i + 1);
            assert(next.drop_last() =~= rs.deep_view().subrange(0, i as int));
        }
        if risk_is_high_open(&rs[i]) {
            n = n + 1;
        }
        i = i + 1;
    }
    assert(rs.deep_view().subrange(0, rs@.len() as int) =~= rs.deep_view());
    n
}

// ------------------------------------------------------------ workspace

/// The whole product-conception workspace.
#[derive(Debug)]
pub struct SpecWorkspace {
    pub id: String,
    pub tenant_id: String,
    pub name: String,
    pub slug: String,
    pub status: String,
    pub owner: ActorReference,
    pub created_at: String,
    pub updated_at: String,
    pub charter: ProductCharter,
    pub roles: Vec<RoleDefinition>,
    pub journeys: Vec<JourneyDefinition>,
    pub screens: Vec<ScreenDefinition>,
    pub actions: Vec<ActionDefinition>,
    pub acceptance_criteria: Vec<String>,
    pub traceability_links: Vec<TraceabilityLink>,
    pub waivers: Vec<Waiver>,
    pub open_questions: Vec<OpenQuestion>,
    pub risks: Vec<RiskFlag>,
    pub capability_candidates: Vec<CapabilityCandidate>,
    pub memberships: Vec<WorkspaceMembership>,
    pub role_assignments: Vec<RoleAssignment>,
    pub sections: Vec<SpecSection>,
}

pub struct SpecWorkspaceModel {
    pub id: Seq<char>,
    pub tenant_id: Seq<char>,
    pub name: Seq<char>,
    pub slug: Seq<char>,
    pub status: Seq<char>,
    pub owner: ActorReferenceModel,
    pub created_at: Seq<char>,
    pub updated_at: Seq<char>,
    pub charter: ProductCharterModel,
    pub roles: Seq<RoleDefinitionModel>,
    pub journeys: Seq<JourneyDefinitionModel>,
    pub screens: Seq<ScreenDefinitionModel>,
    pub actions: Seq<ActionDefinitionModel>,
    pub acceptance_criteria: Seq<Seq<char>>,
    pub traceability_links: Seq<TraceabilityLinkModel>,
    pub waivers: Seq<WaiverModel>,
    pub open_questions: Seq<OpenQuestionModel>,
    pub risks: Seq<RiskFlagModel>,
    pub capability_candidates: Seq<CapabilityCandidateModel>,
    pub memberships: Seq<WorkspaceMembershipModel>,
    pub role_assignments: Seq<RoleAssignmentModel>,
    pub sections: Seq<SpecSectionModel>,
}

impl DeepView for SpecWorkspace {
    type V = SpecWorkspaceModel;

    open spec fn deep_view(&self) -> SpecWorkspaceModel {
        SpecWorkspaceModel {
            id: self.id@,
            tenant_id: self.tenant_id@,
            name: self.name@,
            slug: self.slug@,
            status: self.status@,
            owner: self.owner.deep_view(),
            created_at: self.created_at@,
            updated_at: self.updated_at@,
            charter: self.charter.deep_view(),
            roles: self.roles.deep_view(),
            journeys: self.journeys.deep_view(),
            screens: self.screens.deep_view(),
            actions: self.actions.deep_view(),
            acceptance_criteria: self.acceptance_criteria.deep_view(),
            traceability_links: self.traceability_links.deep_view(),
            waivers: self.waivers.deep_view(),
            open_questions: self.open_questions.deep_view(),
            risks: self.risks.deep_view(),
            capability_candidates: self.capability_candidates.deep_view(),
            memberships: self.memberships.deep_view(),
            role_assignments: self.role_assignments.deep_view(),
            sections: self.sections.deep_view(),
        }
    }
}

/// The identity facts of a workspace's content.
pub open spec fn identity_of(w: SpecWorkspaceModel) -> WorkspaceIdentityModel {
    WorkspaceIdentityModel {
        workspace_id: w.id,
        tenant_id: w.tenant_id,
        memberships: w.memberships,
        role_assignments: w.role_assignments,
    }
}

impl SpecWorkspace {
    /// The workspace's identity facts: its id, tenant, members and role assignments.
    pub fn workspace_identity(&self) -> (i: WorkspaceIdentity)
        ensures
            i.deep_view() == identity_of(self.deep_view()),
    {
        WorkspaceIdentity {
            workspace_id: self.id.clone(),
            tenant_id: self.tenant_id.clone(),
            memberships: clone_all(&self.memberships),
            role_assignments: clone_all(&self.role_assignments),
        }
    }
}

} // verus!
