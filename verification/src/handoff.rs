//! The planning-only implementation handoff (`canvas.bolt_handoff.v0.1`) and
//! the Canvas-side rules that every handoff must satisfy before it leaves.
use crate::digest::{is_tagged_digest, sha256_tag, tagged_sha256};
use crate::domain::{
    clone_all, clone_opt_text, clone_texts, question_blocks, question_is_blocking, risk_is_high,
    risk_is_high_open, ActionDefinition, ActionDefinitionModel, CapabilityCandidate,
    CapabilityCandidateModel, JourneyDefinition, JourneyDefinitionModel, OpenQuestion,
    OpenQuestionModel, ProductCharter, ProductCharterModel, RiskFlag, RiskFlagModel,
    RoleDefinition, RoleDefinitionModel, ScreenDefinition, ScreenDefinitionModel, SpecWorkspace,
    TraceabilityLink, TraceabilityLinkModel, Waiver, WaiverModel,
};
use crate::package::{SpecPackage, SpecPackageItem, SpecPackageItemModel};
use crate::text::{bytes_less, is_blank, is_white_space, owned_texts, text_equal, text_is_blank, text_less};
use crate::SAMPLE_TS;
use vstd::prelude::*;
use vstd::utf8::encode_utf8;

verus! {

/// Why Canvas refuses a handoff.
#[derive(Clone, Copy, Debug, PartialEq, Eq, Structural)]
pub enum HandoffError {
    ExecutionForbidden,
    MissingTraceability,
    BlockingQuestionWithoutWaiver,
    HighRiskWithoutWaiver,
    ExpiredWaiver,
}

/// The human-readable message of a handoff error.
pub open spec fn handoff_error_text(e: HandoffError) -> Seq<char> {
    match e {
        HandoffError::ExecutionForbidden => "execution is forbidden from Canvas MVP"@,
        HandoffError::MissingTraceability => "traceability is required before handoff"@,
        HandoffError::BlockingQuestionWithoutWaiver => "blocking question requires an accepted waiver"@,
        HandoffError::HighRiskWithoutWaiver => "high risk requires an accepted waiver"@,
        HandoffError::ExpiredWaiver => "waiver expired"@,
    }
}

impl HandoffError {
    /// The human-readable message of the error.
    pub fn message(&self) -> (m: &'static str)
        ensures
            m@ == handoff_error_text(*self),
    {
        match self {
            HandoffError::ExecutionForbidden => "execution is forbidden from Canvas MVP",
            HandoffError::MissingTraceability => "traceability is required before handoff",
            HandoffError::BlockingQuestionWithoutWaiver => "blocking question requires an accepted waiver",
            HandoffError::HighRiskWithoutWaiver => "high risk requires an accepted waiver",
            HandoffError::ExpiredWaiver => "waiver expired",
        }
    }
}

/// What the receiver of a handoff may do with it.
#[derive(Clone, Copy, Debug, PartialEq, Eq, Structural)]
pub struct ExecutionPolicy {
    pub planning_only: bool,
    pub allow_execution: bool,
    pub requires_human_approval_for_execution: bool,
}

/// The only policy Canvas emits: planning only, no execution, human approval required.
pub open spec fn planning_only_policy() -> ExecutionPolicy {
    ExecutionPolicy {
        planning_only: true,
        allow_execution: false,
        requires_human_approval_for_execution: true,
    }
}

impl Default for ExecutionPolicy {
    fn default() -> (r: Self)
        ensures
            r == planning_only_policy(),
    {
        ExecutionPolicy {
            planning_only: true,
            allow_execution: false,
            requires_human_approval_for_execution: true,
        }
    }
}

// ---------------------------------------------------------------- handoff parts

/// Where the handoff comes from.
#[derive(Debug)]
pub struct HandoffSource {
    pub product: String,
    pub workspace_id: String,
    pub handoff_id: String,
    pub created_by: String,
    pub created_at: String,
}

pub struct HandoffSourceModel {
    pub product: Seq<char>,
    pub workspace_id: Seq<char>,
    pub handoff_id: Seq<char>,
    pub created_by: Seq<char>,
    pub created_at: Seq<char>,
}

impl DeepView for HandoffSource {
    type V = HandoffSourceModel;

    open spec fn deep_view(&self) -> HandoffSourceModel {
        HandoffSourceModel {
            product: self.product@,
            workspace_id: self.workspace_id@,
            handoff_id: self.handoff_id@,
            created_by: self.created_by@,
            created_at: self.created_at@,
        }
    }
}

impl Clone for HandoffSource {
    fn clone(&self) -> (r: Self)
        ensures
            r.deep_view() == self.deep_view(),
    {
        HandoffSource {
            product: self.product.clone(),
            workspace_id: self.workspace_id.clone(),
            handoff_id: self.handoff_id.clone(),
            created_by: self.created_by.clone(),
            created_at: self.created_at.clone(),
        }
    }
}

/// The package that the handoff refers to.
#[derive(Debug)]
pub struct HandoffPackage {
    pub package_id: String,
    pub version: String,
    pub package_hash: String,
    pub artifact_reference_id: Option<String>,
    pub items: Vec<SpecPackageItem>,
}

pub struct HandoffPackageModel {
    pub package_id: Seq<char>,
    pub version: Seq<char>,
    pub package_hash: Seq<char>,
    pub artifact_reference_id: Option<Seq<char>>,
    pub items: Seq<SpecPackageItemModel>,
}

impl DeepView for HandoffPackage {
    type V = HandoffPackageModel;

    open spec fn deep_view(&self) -> HandoffPackageModel {
        HandoffPackageModel {
            package_id: self.package_id@,
            version: self.version@,
            package_hash: self.package_hash@,
            artifact_reference_id: self.artifact_reference_id.deep_view(),
            items: self.items.deep_view(),
        }
    }
}

impl Clone for HandoffPackage {
    fn clone(&self) -> (r: Self)
        ensures
            r.deep_view() == self.deep_view(),
    {
        HandoffPackage {
            package_id: self.package_id.clone(),
            version: self.version.clone(),
            package_hash: self.package_hash.clone(),
            artifact_reference_id: clone_opt_text(&self.artifact_reference_id),
            items: clone_all(&self.items),
        }
    }
}

/// What the planner is asked to plan.
#[derive(Debug)]
pub struct PlanningScope {
    pub mode: String,
    pub target_objects: Vec<String>,
    pub excluded_objects: Vec<String>,
    pub goal: String,
}

pub struct PlanningScopeModel {
    pub mode: Seq<char>,
    pub target_objects: Seq<Seq<char>>,
    pub excluded_objects: Seq<Seq<char>>,
    pub goal: Seq<char>,
}

impl DeepView for PlanningScope {
    type V = PlanningScopeModel;

    open spec fn deep_view(&self) -> PlanningScopeModel {
        PlanningScopeModel {
            mode: self.mode@,
            target_objects: self.target_objects.deep_view(),
            excluded_objects: self.excluded_objects.deep_view(),
            goal: self.goal@,
        }
    }
}

impl Clone for PlanningScope {
    fn clone(&self) -> (r: Self)
        ensures
            r.deep_view() == self.deep_view(),
    {
        PlanningScope {
            mode: self.mode.clone(),
            target_objects: clone_texts(&self.target_objects),
            excluded_objects: clone_texts(&self.excluded_objects),
            goal: self.goal.clone(),
        }
    }
}

/// The parts of the specification that the planner needs.
#[derive(Debug)]
pub struct SpecContext {
    pub charter_summary: ProductCharter,
    pub roles: Vec<RoleDefinition>,
    pub journeys: Vec<JourneyDefinition>,
    pub screens: Vec<ScreenDefinition>,
    pub actions: Vec<ActionDefinition>,
    pub domain_entities: Vec<String>,
    pub acceptance_criteria: Vec<String>,
}

pub struct SpecContextModel {
    pub charter_summary: ProductCharterModel,
    pub roles: Seq<RoleDefinitionModel>,
    pub journeys: Seq<JourneyDefinitionModel>,
    pub screens: Seq<ScreenDefinitionModel>,
    pub actions: Seq<ActionDefinitionModel>,
    pub domain_entities: Seq<Seq<char>>,
    pub acceptance_criteria: Seq<Seq<char>>,
}

impl DeepView for SpecContext {
    type V = SpecContextModel;

    open spec fn deep_view(&self) -> SpecContextModel {
        SpecContextModel {
            charter_summary: self.charter_summary.deep_view(),
            roles: self.roles.deep_view(),
            journeys: self.journeys.deep_view(),
            screens: self.screens.deep_view(),
            actions: self.actions.deep_view(),
            domain_entities: self.domain_entities.deep_view(),
            acceptance_criteria: self.acceptance_criteria.deep_view(),
        }
    }
}

impl Clone for SpecContext {
    fn clone(&self) -> (r: Self)
        ensures
            r.deep_view() == self.deep_view(),
    {
        SpecContext {
            charter_summary: self.charter_summary.clone(),
            roles: clone_all(&self.roles),
            journeys: clone_all(&self.journeys),
            screens: clone_all(&self.screens),
            actions: clone_all(&self.actions),
            domain_entities: clone_texts(&self.domain_entities),
            acceptance_criteria: clone_texts(&self.acceptance_criteria),
        }
    }
}

/// Constraints that the plan must respect.
#[derive(Debug)]
pub struct HandoffConstraints {
    pub sovereignty: String,
    pub data_residency: String,
    pub non_goals: Vec<String>,
}

pub struct HandoffConstraintsModel {
    pub sovereignty: Seq<char>,
    pub data_residency: Seq<char>,
    pub non_goals: Seq<Seq<char>>,
}

impl DeepView for HandoffConstraints {
    type V = HandoffConstraintsModel;

    open spec fn deep_view(&self) -> HandoffConstraintsModel {
        HandoffConstraintsModel {
            sovereignty: self.sovereignty@,
            data_residency: self.data_residency@,
            non_goals: self.non_goals.deep_view(),
        }
    }
}

impl Clone for HandoffConstraints {
    fn clone(&self) -> (r: Self)
        ensures
            r.deep_view() == self.deep_view(),
    {
        HandoffConstraints {
            sovereignty: self.sovereignty.clone(),
            data_residency: self.data_residency.clone(),
            non_goals: clone_texts(&self.non_goals),
        }
    }
}

// ---------------------------------------------------------------- the handoff

/// A planning request from Canvas to the planner.
#[derive(Debug)]
pub struct ImplementationHandoff {
    pub format: String,
    pub kind: String,
    pub bolt_target: String,
    pub source: HandoffSource,
    pub package: HandoffPackage,
    pub planning_scope: PlanningScope,
    pub spec_context: SpecContext,
    pub traceability_links: Vec<TraceabilityLink>,
    pub active_waivers: Vec<Waiver>,
    pub open_questions: Vec<OpenQuestion>,
    pub risks: Vec<RiskFlag>,
    pub capability_candidates: Vec<CapabilityCandidate>,
    pub constraints: HandoffConstraints,
    pub requested_outputs: Vec<String>,
    pub execution_policy: ExecutionPolicy,
    pub payload_hash: Option<String>,
}

pub struct ImplementationHandoffModel {
    pub format: Seq<char>,
    pub kind: Seq<char>,
    pub bolt_target: Seq<char>,
    pub source: HandoffSourceModel,
    pub package: HandoffPackageModel,
    pub planning_scope: PlanningScopeModel,
    pub spec_context: SpecContextModel,
    pub traceability_links: Seq<TraceabilityLinkModel>,
    pub active_waivers: Seq<WaiverModel>,
    pub open_questions: Seq<OpenQuestionModel>,
    pub risks: Seq<RiskFlagModel>,
    pub capability_candidates: Seq<CapabilityCandidateModel>,
    pub constraints: HandoffConstraintsModel,
    pub requested_outputs: Seq<Seq<char>>,
    pub execution_policy: ExecutionPolicy,
    pub payload_hash: Option<Seq<char>>,
}

impl DeepView for ImplementationHandoff {
    type V = ImplementationHandoffModel;

    open spec fn deep_view(&self) -> ImplementationHandoffModel {
        ImplementationHandoffModel {
            format: self.format@,
            kind: self.kind@,
            bolt_target: self.bolt_target@,
            source: self.source.deep_view(),
            package: self.package.deep_view(),
            planning_scope: self.planning_scope.deep_view(),
            spec_context: self.spec_context.deep_view(),
            traceability_links: self.traceability_links.deep_view(),
            active_waivers: self.active_waivers.deep_view(),
            open_questions: self.open_questions.deep_view(),
            risks: self.risks.deep_view(),
            capability_candidates: self.capability_candidates.deep_view(),
            constraints: self.constraints.deep_view(),
            requested_outputs: self.requested_outputs.deep_view(),
            execution_policy: self.execution_policy,
            payload_hash: self.payload_hash.deep_view(),
        }
    }
}

impl Clone for ImplementationHandoff {
    fn clone(&self) -> (r: Self)
        ensures
            r.deep_view() == self.deep_view(),
    {
        ImplementationHandoff {
            format: self.format.clone(),
            kind: self.kind.clone(),
            bolt_target: self.bolt_target.clone(),
            source: self.source.clone(),
            package: self.package.clone(),
            planning_scope: self.planning_scope.clone(),
            spec_context: self.spec_context.clone(),
            traceability_links: clone_all(&self.traceability_links),
            active_waivers: clone_all(&self.active_waivers),
            open_questions: clone_all(&self.open_questions),
            risks: clone_all(&self.risks),
            capability_candidates: clone_all(&self.capability_candidates),
            constraints: self.constraints.clone(),
            requested_outputs: clone_texts(&self.requested_outputs),
            execution_policy: self.execution_policy,
            payload_hash: clone_opt_text(&self.payload_hash),
        }
    }
}

// ---------------------------------------------------------------- Canvas rules

/// A policy that would let the receiver execute, or skip planning or approval.
pub open spec fn policy_forbidden(p: ExecutionPolicy) -> bool {
    !p.planning_only || p.allow_execution || !p.requires_human_approval_for_execution
}

/// A waiver that is accepted or active.
pub open spec fn waiver_is_accepted(w: WaiverModel) -> bool {
    w.status == "accepted"@ || w.status == "active"@
}

/// A waiver whose expiry comes before the reference time.
pub open spec fn waiver_is_expired(w: WaiverModel) -> bool {
    match w.expires_at {
        Some(ts) => bytes_less(encode_utf8(ts), encode_utf8(SAMPLE_TS@)),
        None => false,
    }
}

pub open spec fn any_accepted_waiver(ws: Seq<WaiverModel>) -> bool {
    exists|i: int| 0 <= i < ws.len() && waiver_is_accepted(#[trigger] ws[i])
}

pub open spec fn any_expired_waiver(ws: Seq<WaiverModel>) -> bool {
    exists|i: int| 0 <= i < ws.len() && waiver_is_expired(#[trigger] ws[i])
}

pub open spec fn any_blocking_question(qs: Seq<OpenQuestionModel>) -> bool {
    exists|i: int| 0 <= i < qs.len() && question_is_blocking(#[trigger] qs[i])
}

pub open spec fn any_high_risk(rs: Seq<RiskFlagModel>) -> bool {
    exists|i: int| 0 <= i < rs.len() && risk_is_high(#[trigger] rs[i])
}

/// The first Canvas rule that a handoff breaks, checking in this order:
/// execution policy, traceability, expired waivers, blocking questions without
/// an accepted waiver, high risks without an accepted waiver.
pub open spec fn rule_violation(
    policy: ExecutionPolicy,
    links: nat,
    waivers: Seq<WaiverModel>,
    questions: Seq<OpenQuestionModel>,
    risks: Seq<RiskFlagModel>,
) -> Option<HandoffError> {
    if policy_forbidden(policy) {
        Some(HandoffError::ExecutionForbidden)
    } else if links == 0 {
        Some(HandoffError::MissingTraceability)
    } else if any_expired_waiver(waivers) {
        Some(HandoffError::ExpiredWaiver)
    } else if any_blocking_question(questions) && !any_accepted_waiver(waivers) {
        Some(HandoffError::BlockingQuestionWithoutWaiver)
    } else if any_high_risk(risks) && !any_accepted_waiver(waivers) {
        Some(HandoffError::HighRiskWithoutWaiver)
    } else {
        None
    }
}

/// The rule that a handoff's content breaks, if any.
pub open spec fn handoff_violation(h: ImplementationHandoffModel) -> Option<HandoffError> {
    rule_violation(
        h.execution_policy,
        h.traceability_links.len(),
        h.active_waivers,
        h.open_questions,
        h.risks,
    )
}

/// The outcome that a violation gives.
pub open spec fn outcome(v: Option<HandoffError>) -> Result<(), HandoffError> {
    match v {
        Some(e) => Err(e),
        None => Ok(()),
    }
}

/// A capability whose proposed owner layer is missing or blank.
pub open spec fn owner_missing(c: CapabilityCandidateModel) -> bool {
    match c.proposed_owner_layer {
        Some(layer) => is_blank(layer),
        None => true,
    }
}

/// How many capabilities lack an owner layer.
pub open spec fn count_owner_missing(cs: Seq<CapabilityCandidateModel>) -> nat
    decreases cs.len(),
{
    if cs.len() == 0 {
        0
    } else {
        count_owner_missing(cs.drop_last()) + if owner_missing(cs.last()) {
            1nat
        } else {
            0nat
        }
    }
}

fn has_accepted_waiver(waivers: &Vec<Waiver>) -> (r: bool)
    ensures
        r == any_accepted_waiver(waivers.deep_view()),
{
    let mut i: usize = 0;
    while i < waivers.len()
        invariant
            i <= waivers@.len(),
            forall|j: int| 0 <= j < i ==> !waiver_is_accepted(#[trigger] waivers.deep_view()[j]),
        decreases waivers.len() - i,
    {
        let s = waivers[i].status.as_str();
        if text_equal(s, "accepted") || text_equal(s, "active") {
            assert(waiver_is_accepted(waivers.deep_view()[i as int]));
            return true;
        }
        i = i + 1;
    }
    false
}

fn has_expired_waiver(waivers: &Vec<Waiver>) -> (r: bool)
    ensures
        r == any_expired_waiver(waivers.deep_view()),
{
    let mut i: usize = 0;
    while i < waivers.len()
        invariant
            i <= waivers@.len(),
            forall|j: int| 0 <= j < i ==> !waiver_is_expired(#[trigger] waivers.deep_view()[j]),
        decreases waivers.len() - i,
    {
        let expired = match &waivers[i].expires_at {
            Some(ts) => text_less(ts.as_str(), SAMPLE_TS),
            None => false,
        };
        assert(expired == waiver_is_expired(waivers.deep_view()[i as int]));
        if expired {
            return true;
        }
        i = i + 1;
    }
    false
}

fn has_blocking_question(questions: &Vec<OpenQuestion>) -> (r: bool)
    ensures
        r == any_blocking_question(questions.deep_view()),
{
    let mut i: usize = 0;
    while i < questions.len()
        invariant
            i <= questions@.len(),
            forall|j: int|
                0 <= j < i ==> !question_is_blocking(#[trigger] questions.deep_view()[j]),
        decreases questions.len() - i,
    {
        if question_blocks(&questions[i]) {
            assert(question_is_blocking(questions.deep_view()[i as int]));
            return true;
        }
        i = i + 1;
    }
    false
}

fn has_high_risk(risks: &Vec<RiskFlag>) -> (r: bool)
    ensures
        r == any_high_risk(risks.deep_view()),
{
    let mut i: usize = 0;
    while i < risks.len()
        invariant
            i <= risks@.len(),
            forall|j: int| 0 <= j < i ==> !risk_is_high(#[trigger] risks.deep_view()[j]),
        decreases risks.len() - i,
    {
        if risk_is_high_open(&risks[i]) {
            assert(risk_is_high(risks.deep_view()[i as int]));
            return true;
        }
        i = i + 1;
    }
    false
}

/// `hash` is the tagged SHA-256 digest of bytes that `encode` gave for a
/// handoff whose content is `content`.
pub open spec fn handoff_hash_of_encoding<F: Fn(&ImplementationHandoff) -> Vec<u8>>(
    encode: F,
    content: ImplementationHandoffModel,
    hash: Seq<char>,
) -> bool {
    exists|h: ImplementationHandoff, b: Vec<u8>|
        #![trigger call_ensures(encode, (&h,), b)]
        h.deep_view() == content && call_ensures(encode, (&h,), b) && hash == tagged_sha256(b@)
}

/// `encode` can be called on every handoff.
pub open spec fn encodes_every_handoff<F: Fn(&ImplementationHandoff) -> Vec<u8>>(encode: F) -> bool {
    forall|h: &ImplementationHandoff| #[trigger] call_requires(encode, (h,))
}

/// The content `h` with no payload hash.
pub open spec fn unsealed(h: ImplementationHandoffModel) -> ImplementationHandoffModel {
    ImplementationHandoffModel { payload_hash: None, ..h }
}

/// `h` is `content` sealed with the hash of its encoding.
pub open spec fn sealed_from<F: Fn(&ImplementationHandoff) -> Vec<u8>>(
    h: ImplementationHandoffModel,
    content: ImplementationHandoffModel,
    encode: F,
) -> bool {
    &&& h.payload_hash is Some
    &&& unsealed(h) == unsealed(content)
    &&& handoff_hash_of_encoding(encode, unsealed(content), h.payload_hash->Some_0)
}

/// The payload hash of a handoff: `sha256:` and the hexadecimal SHA-256 digest
/// of the canonical encoding, which `encode` renders, of the handoff without
/// its payload hash.
pub fn payload_hash<F: Fn(&ImplementationHandoff) -> Vec<u8>>(
    handoff: &ImplementationHandoff,
    encode: &F,
) -> (h: String)
    requires
        encodes_every_handoff(*encode),
    ensures
        handoff_hash_of_encoding(*encode, unsealed(handoff.deep_view()), h@),
        is_tagged_digest(h@),
{
    let mut copy = handoff.clone();
    copy.payload_hash = None;
    let bytes = encode(&copy);
    assert(call_ensures(*encode, (&copy,), bytes));
    sha256_tag(bytes.as_slice())
}

impl ImplementationHandoff {
    /// One warning per capability candidate whose proposed owner layer is missing or blank.
    pub fn canvas_warnings(&self) -> (w: Vec<&'static str>)
        ensures
            w@.len() == count_owner_missing(self.capability_candidates.deep_view()),
            forall|i: int| 0 <= i < w@.len() ==> (#[trigger] w@[i])@ == "capability_owner_missing"@,
    {
        let mut w: Vec<&'static str> = Vec::new();
        let mut i: usize = 0;
        while i < self.capability_candidates.len()
            invariant
                i <= self.capability_candidates@.len(),
                w@.len() == count_owner_missing(
                    self.capability_candidates.deep_view().subrange(0, i as int),
                ),
                w@.len() <= i,
                forall|k: int| 0 <= k < w@.len() ==> (#[trigger] w@[k])@ == "capability_owner_missing"@,
            decreases self.capability_candidates.len() - i,
        {
            let missing = match &self.capability_candidates[i].proposed_owner_layer {
                Some(layer) => text_is_blank(layer.as_str()),
                None => true,
            };
            proof {
                let cs = self.capability_candidates.deep_view();
                assert(cs.subrange(0, i + 1).drop_last() =~= cs.subrange(0, i as int));
                assert(missing == owner_missing(cs[i as int]));
            }
            if missing {
                w.push("capability_owner_missing");
            }
            i = i + 1;
        }
        assert(self.capability_candidates.deep_view().subrange(
            0,
            self.capability_candidates@.len() as int,
        ) =~= self.capability_candidates.deep_view());
        w
    }

    /// Checks the Canvas-side rules: planning-only policy, traceability present,
    /// no expired waiver, and no blocking question or high risk without an
    /// accepted waiver.
    pub fn validate_canvas_rules(&self) -> (r: Result<(), HandoffError>)
        ensures
            r == outcome(handoff_violation(self.deep_view())),
    {
        if !self.execution_policy.planning_only || self.execution_policy.allow_execution
            || !self.execution_policy.requires_human_approval_for_execution {
            return Err(HandoffError::ExecutionForbidden);
        }
        if self.traceability_links.len() == 0 {
            return Err(HandoffError::MissingTraceability);
        }
        if has_expired_waiver(&self.active_waivers) {
            return Err(HandoffError::ExpiredWaiver);
        }
        let has_waiver = has_accepted_waiver(&self.active_waivers);
        if has_blocking_question(&self.open_questions) && !has_waiver {
            return Err(HandoffError::BlockingQuestionWithoutWaiver);
        }
        if has_high_risk(&self.risks) && !has_waiver {
            return Err(HandoffError::HighRiskWithoutWaiver);
        }
        Ok(())
    }

    /// Replaces the execution policy and reseals the handoff.
    pub fn with_execution_policy<F: Fn(&ImplementationHandoff) -> Vec<u8>>(
        self,
        execution_policy: ExecutionPolicy,
        encode: &F,
    ) -> (r: Self)
        requires
            encodes_every_handoff(*encode),
        ensures
            sealed_from(r.deep_view(), with_policy(self.deep_view(), execution_policy), *encode),
            r.payload_hash matches Some(ph) && is_tagged_digest(ph@),
    {
        let mut h = self;
        h.execution_policy = execution_policy;
        let hash = payload_hash(&h, encode);
        h.payload_hash = Some(hash);
        h
    }
}

/// The content `h` under another execution policy.
pub open spec fn with_policy(h: ImplementationHandoffModel, p: ExecutionPolicy) -> ImplementationHandoffModel {
    ImplementationHandoffModel { execution_policy: p, ..h }
}

// ---------------------------------------------------------------- building

/// The names of the domain entities that a handoff declares.
pub open spec fn domain_entity_names() -> Seq<Seq<char>> {
    seq![
        "SpecWorkspace"@,
        "SpecSection"@,
        "SpecSectionRevision"@,
        "TraceabilityLink"@,
        "Waiver"@,
        "SpecPackage"@,
        "SpecPackageItem"@,
        "PackageReadinessSnapshot"@,
        "ImplementationHandoff"@,
        "ActorReference"@,
    ]
}

/// The outputs that a handoff requests.
pub open spec fn requested_output_names() -> Seq<Seq<char>> {
    seq![
        "implementation_plan"@,
        "task_breakdown"@,
        "risk_review"@,
        "test_plan"@,
        "shared_capability_extraction_review"@,
    ]
}

/// The handoff that Canvas plans for a workspace and package, before sealing.
pub open spec fn planned_handoff(ws: &SpecWorkspace, pkg: &SpecPackage) -> ImplementationHandoffModel {
    ImplementationHandoffModel {
        format: "canvas.bolt_handoff.v0.1"@,
        kind: "planning_request"@,
        bolt_target: "cos-matic"@,
        source: HandoffSourceModel {
            product: "rumble-canvas"@,
            workspace_id: ws.id@,
            handoff_id: "handoff:rumble-canvas-mvp:0.1.0"@,
            created_by: ws.owner.actor_id@,
            created_at: SAMPLE_TS@,
        },
        package: HandoffPackageModel {
            package_id: pkg.package_id@,
            version: pkg.version@,
            package_hash: pkg.package_hash@,
            artifact_reference_id: pkg.artifact_reference_id.deep_view(),
            items: pkg.items.deep_view(),
        },
        planning_scope: PlanningScopeModel {
            mode: "full_package"@,
            target_objects: Seq::empty(),
            excluded_objects: Seq::empty(),
            goal: "Produce a planning-only implementation plan for the Canvas package/handoff MVP"@,
        },
        spec_context: SpecContextModel {
            charter_summary: ws.charter.deep_view(),
            roles: ws.roles.deep_view(),
            journeys: ws.journeys.deep_view(),
            screens: ws.screens.deep_view(),
            actions: ws.actions.deep_view(),
            domain_entities: domain_entity_names(),
            acceptance_criteria: ws.acceptance_criteria.deep_view(),
        },
        traceability_links: ws.traceability_links.deep_view(),
        active_waivers: ws.waivers.deep_view(),
        open_questions: ws.open_questions.deep_view(),
        risks: ws.risks.deep_view(),
        capability_candidates: ws.capability_candidates.deep_view(),
        constraints: HandoffConstraintsModel {
            sovereignty: "self-hostable; no hidden external dependency"@,
            data_residency: "EU/local-first where applicable"@,
            non_goals: seq![
                "No implementation execution from Canvas"@,
                "No provider AI dependency"@,
            ],
        },
        requested_outputs: requested_output_names(),
        execution_policy: planning_only_policy(),
        payload_hash: None,
    }
}

/// Builds the planning-only handoff of a workspace and its package, checks it
/// against the Canvas rules, and seals it with the hash of its encoding.
pub fn build_handoff<F: Fn(&ImplementationHandoff) -> Vec<u8>>(
    workspace: &SpecWorkspace,
    package: &SpecPackage,
    encode: &F,
) -> (r: Result<ImplementationHandoff, HandoffError>)
    requires
        encodes_every_handoff(*encode),
    ensures
        r.is_err() <==> handoff_violation(planned_handoff(workspace, package)) is Some,
        r matches Err(e) ==> handoff_violation(planned_handoff(workspace, package)) == Some(e),
        r matches Ok(h) ==> sealed_from(h.deep_view(), planned_handoff(workspace, package), *encode),
        r matches Ok(h) ==> (h.payload_hash matches Some(ph) && is_tagged_digest(ph@)),
{
    let entities = owned_texts(
        &[
            "SpecWorkspace",
            "SpecSection",
            "SpecSectionRevision",
            "TraceabilityLink",
            "Waiver",
            "SpecPackage",
            "SpecPackageItem",
            "PackageReadinessSnapshot",
            "ImplementationHandoff",
            "ActorReference",
        ],
    );
    let outputs = owned_texts(
        &[
            "implementation_plan",
            "task_breakdown",
            "risk_review",
            "test_plan",
            "shared_capability_extraction_review",
        ],
    );
    let non_goals = owned_texts(
        &["No implementation execution from Canvas", "No provider AI dependency"],
    );
    let mut handoff = ImplementationHandoff {
        format: "canvas.bolt_handoff.v0.1".to_owned(),
        kind: "planning_request".to_owned(),
        bolt_target: "cos-matic".to_owned(),
        source: HandoffSource {
            product: "rumble-canvas".to_owned(),
            workspace_id: workspace.id.clone(),
            handoff_id: "handoff:rumble-canvas-mvp:0.1.0".to_owned(),
            created_by: workspace.owner.actor_id.clone(),
            created_at: SAMPLE_TS.to_owned(),
        },
        package: HandoffPackage {
            package_id: package.package_id.clone(),
            version: package.version.clone(),
            package_hash: package.package_hash.clone(),
            artifact_reference_id: clone_opt_text(&package.artifact_reference_id),
            items: clone_all(&package.items),
        },
        planning_scope: PlanningScope {
            mode: "full_package".to_owned(),
            target_objects: Vec::new(),
            excluded_objects: Vec::new(),
            goal: "Produce a planning-only implementation plan for the Canvas package/handoff MVP".to_owned(),
        },
        spec_context: SpecContext {
            charter_summary: workspace.charter.clone(),
            roles: clone_all(&workspace.roles),
            journeys: clone_all(&workspace.journeys),
            screens: clone_all(&workspace.screens),
            actions: clone_all(&workspace.actions),
            domain_entities: entities,
            acceptance_criteria: clone_texts(&workspace.acceptance_criteria),
        },
        traceability_links: clone_all(&workspace.traceability_links),
        active_waivers: clone_all(&workspace.waivers),
        open_questions: clone_all(&workspace.open_questions),
        risks: clone_all(&workspace.risks),
        capability_candidates: clone_all(&workspace.capability_candidates),
        constraints: HandoffConstraints {
            sovereignty: "self-hostable; no hidden external dependency".to_owned(),
            data_residency: "EU/local-first where applicable".to_owned(),
            non_goals,
        },
        requested_outputs: outputs,
        execution_policy: ExecutionPolicy::default(),
        payload_hash: None,
    };
    assert(handoff.planning_scope.target_objects.deep_view() =~= Seq::<Seq<char>>::empty());
    assert(handoff.planning_scope.excluded_objects.deep_view() =~= Seq::<Seq<char>>::empty());
    assert(handoff.spec_context.domain_entities.deep_view() =~= domain_entity_names());
    assert(handoff.requested_outputs.deep_view() =~= requested_output_names());
    assert(handoff.constraints.non_goals.deep_view() =~= seq![
        "No implementation execution from Canvas"@,
        "No provider AI dependency"@,
    ]);
    assert(handoff.deep_view() == planned_handoff(workspace, package));
    match handoff.validate_canvas_rules() {
        Err(e) => {
            return Err(e);
        },
        Ok(()) => {},
    }
    let bytes = encode(&handoff);
    assert(call_ensures(*encode, (&handoff,), bytes));
    let hash = sha256_tag(bytes.as_slice());
    handoff.payload_hash = Some(hash);
    Ok(handoff)
}

// ---------------------------------------------------------------- laws

/// `encode` renders handoffs to bytes by their content alone.
pub open spec fn encodes_handoffs_by_content<F: Fn(&ImplementationHandoff) -> Vec<u8>>(encode: F) -> bool {
    forall|a: ImplementationHandoff, b: ImplementationHandoff, x: Vec<u8>, y: Vec<u8>|
        #![trigger call_ensures(encode, (&a,), x), call_ensures(encode, (&b,), y)]
        a.deep_view() == b.deep_view() && call_ensures(encode, (&a,), x) && call_ensures(
            encode,
            (&b,),
            y,
        ) ==> x@ == y@
}

/// The payload hash does not depend on the hash that a handoff already
/// carries: two handoffs that differ at most in their payload hash are given
/// the same one, as long as the encoding depends on content alone.
pub proof fn lemma_payload_hash_ignores_seal<F: Fn(&ImplementationHandoff) -> Vec<u8>>(
    encode: F,
    a: ImplementationHandoffModel,
    b: ImplementationHandoffModel,
    ha: Seq<char>,
    hb: Seq<char>,
)
    requires
        encodes_handoffs_by_content(encode),
        unsealed(a) == unsealed(b),
        handoff_hash_of_encoding(encode, unsealed(a), ha),
        handoff_hash_of_encoding(encode, unsealed(b), hb),
    ensures
        ha == hb,
{
    let (p, x) = choose|h: ImplementationHandoff, bytes: Vec<u8>|
        #![trigger call_ensures(encode, (&h,), bytes)]
        h.deep_view() == unsealed(a) && call_ensures(encode, (&h,), bytes) && ha == tagged_sha256(
            bytes@,
        );
    let (q, y) = choose|h: ImplementationHandoff, bytes: Vec<u8>|
        #![trigger call_ensures(encode, (&h,), bytes)]
        h.deep_view() == unsealed(b) && call_ensures(encode, (&h,), bytes) && hb == tagged_sha256(
            bytes@,
        );
    assert(x@ == y@);
}

/// Execution is always refused: under a policy that allows execution, skips
/// planning or waives human approval, the Canvas rules answer
/// `ExecutionForbidden`, whatever else the handoff holds.
pub proof fn lemma_execution_is_always_refused(
    policy: ExecutionPolicy,
    links: nat,
    waivers: Seq<WaiverModel>,
    questions: Seq<OpenQuestionModel>,
    risks: Seq<RiskFlagModel>,
)
    requires
        !policy.planning_only || policy.allow_execution
            || !policy.requires_human_approval_for_execution,
    ensures
        rule_violation(policy, links, waivers, questions, risks) == Some(
            HandoffError::ExecutionForbidden,
        ),
{
}

/// A handoff that passes the Canvas rules is planning-only, forbids
/// execution, requires human approval, and carries traceability.
pub proof fn lemma_accepted_handoff_is_planning_only(h: ImplementationHandoffModel)
    requires
        handoff_violation(h) is None,
    ensures
        h.execution_policy.planning_only,
        !h.execution_policy.allow_execution,
        h.execution_policy.requires_human_approval_for_execution,
        h.traceability_links.len() > 0,
{
}

/// A handoff that Canvas builds passes its own rules, and keeps passing them
/// after resealing under the same policy.
pub proof fn lemma_built_handoff_passes_rules<F: Fn(&ImplementationHandoff) -> Vec<u8>>(
    ws: &SpecWorkspace,
    pkg: &SpecPackage,
    h: ImplementationHandoffModel,
    encode: F,
)
    requires
        handoff_violation(planned_handoff(ws, pkg)) is None,
        sealed_from(h, planned_handoff(ws, pkg), encode),
    ensures
        handoff_violation(h) is None,
        h.execution_policy == planning_only_policy(),
{
    assert(h.execution_policy == unsealed(h).execution_policy);
    assert(h.traceability_links == unsealed(h).traceability_links);
    assert(h.active_waivers == unsealed(h).active_waivers);
    assert(h.open_questions == unsealed(h).open_questions);
    assert(h.risks == unsealed(h).risks);
}

/// Resealing a handoff under a policy that permits execution always yields a
/// handoff that the Canvas rules refuse with `ExecutionForbidden`.
pub proof fn lemma_resealed_with_execution_is_refused<F: Fn(&ImplementationHandoff) -> Vec<u8>>(
    h: ImplementationHandoffModel,
    policy: ExecutionPolicy,
    r: ImplementationHandoffModel,
    encode: F,
)
    requires
        policy_forbidden(policy),
        sealed_from(r, with_policy(h, policy), encode),
    ensures
        handoff_violation(r) == Some(HandoffError::ExecutionForbidden),
{
    assert(r.execution_policy == unsealed(r).execution_policy);
}


/// The policy that lets a handoff through: planning only, no execution, human
/// approval required.
pub open spec fn policy_is_planning_only(p: ExecutionPolicy) -> bool {
    p.planning_only && !p.allow_execution && p.requires_human_approval_for_execution
}

/// No waiver of `ws` expires before the reference time.
pub open spec fn none_expired(ws: Seq<WaiverModel>) -> bool {
    forall|j: int|
        0 <= j < ws.len() ==> ((#[trigger] ws[j]).expires_at matches Some(ts) ==> !bytes_less(
            encode_utf8(ts),
            encode_utf8(SAMPLE_TS@),
        ))
}

/// Some waiver of `ws` has status `accepted` or `active`.
pub open spec fn some_waiver_accepted(ws: Seq<WaiverModel>) -> bool {
    exists|j: int|
        0 <= j < ws.len() && ((#[trigger] ws[j]).status == "accepted"@ || ws[j].status
            == "active"@)
}

/// The Canvas rules let a handoff through exactly when its policy is planning
/// only, it has a traceability link, none of its waivers has expired, and
/// either one of its waivers has status `accepted` or `active`, or it has no
/// open blocking question and no open high, critical or blocking risk.
pub proof fn lemma_rules_pass_exactly_when(h: ImplementationHandoffModel)
    ensures
        handoff_violation(h) is None <==> {
            &&& policy_is_planning_only(h.execution_policy)
            &&& h.traceability_links.len() > 0
            &&& none_expired(h.active_waivers)
            &&& (some_waiver_accepted(h.active_waivers) || ((forall|i: int|
                0 <= i < h.open_questions.len() ==> !((#[trigger] h.open_questions[i]).impact
                    == "blocking"@ && h.open_questions[i].status == "open"@)) && (forall|i: int|
                0 <= i < h.risks.len() ==> !(((#[trigger] h.risks[i]).severity == "high"@
                    || h.risks[i].severity == "critical"@ || h.risks[i].severity == "blocking"@)
                    && h.risks[i].status == "open"@))))
        },
{
    let ws = h.active_waivers;
    assert(none_expired(ws) <==> !any_expired_waiver(ws)) by {
        if !none_expired(ws) {
            let j = choose|j: int|
                0 <= j < ws.len() && !((#[trigger] ws[j]).expires_at matches Some(ts)
                    ==> !bytes_less(encode_utf8(ts), encode_utf8(SAMPLE_TS@)));
            assert(waiver_is_expired(ws[j]));
        }
        if any_expired_waiver(ws) {
            let j = choose|j: int| 0 <= j < ws.len() && waiver_is_expired(#[trigger] ws[j]);
            assert(!(ws[j].expires_at matches Some(ts) ==> !bytes_less(
                encode_utf8(ts),
                encode_utf8(SAMPLE_TS@),
            )));
        }
    }
    assert(some_waiver_accepted(ws) <==> any_accepted_waiver(ws)) by {
        if some_waiver_accepted(ws) {
            let j = choose|j: int|
                0 <= j < ws.len() && ((#[trigger] ws[j]).status == "accepted"@ || ws[j].status
                    == "active"@);
            assert(waiver_is_accepted(ws[j]));
        }
        if any_accepted_waiver(ws) {
            let j = choose|j: int| 0 <= j < ws.len() && waiver_is_accepted(#[trigger] ws[j]);
            assert(ws[j].status == "accepted"@ || ws[j].status == "active"@);
        }
    }
    let qs = h.open_questions;
    if any_blocking_question(qs) {
        let i = choose|i: int| 0 <= i < qs.len() && question_is_blocking(#[trigger] qs[i]);
        assert(qs[i].impact == "blocking"@ && qs[i].status == "open"@);
    }
    let rs = h.risks;
    if any_high_risk(rs) {
        let i = choose|i: int| 0 <= i < rs.len() && risk_is_high(#[trigger] rs[i]);
        assert((rs[i].severity == "high"@ || rs[i].severity == "critical"@ || rs[i].severity
            == "blocking"@) && rs[i].status == "open"@);
    }
}

/// A waiver with status `accepted` counts as much as one with status `active`:
/// with a planning-only policy, a traceability link and no expired waiver, a
/// handoff holding a waiver of either status passes the Canvas rules, whatever
/// its open questions and risks.
pub proof fn lemma_accepted_waiver_lets_handoff_through(h: ImplementationHandoffModel, i: int)
    requires
        policy_is_planning_only(h.execution_policy),
        h.traceability_links.len() > 0,
        none_expired(h.active_waivers),
        0 <= i < h.active_waivers.len(),
        h.active_waivers[i].status == "accepted"@ || h.active_waivers[i].status == "active"@,
    ensures
        handoff_violation(h) is None,
{
    lemma_rules_pass_exactly_when(h);
    assert(some_waiver_accepted(h.active_waivers));
}

/// A handoff without a traceability link is refused for that, unless its
/// policy is refused first.
pub proof fn lemma_missing_traceability_is_refused(h: ImplementationHandoffModel)
    requires
        policy_is_planning_only(h.execution_policy),
        h.traceability_links.len() == 0,
    ensures
        handoff_violation(h) == Some(HandoffError::MissingTraceability),
{
}

/// A waiver that expired before the reference time refuses the handoff, even
/// when it is accepted, once policy and traceability are in order.
pub proof fn lemma_expired_waiver_is_refused(h: ImplementationHandoffModel, i: int, ts: Seq<char>)
    requires
        policy_is_planning_only(h.execution_policy),
        h.traceability_links.len() > 0,
        0 <= i < h.active_waivers.len(),
        h.active_waivers[i].expires_at == Some(ts),
        bytes_less(encode_utf8(ts), encode_utf8(SAMPLE_TS@)),
    ensures
        handoff_violation(h) == Some(HandoffError::ExpiredWaiver),
{
    assert(waiver_is_expired(h.active_waivers[i]));
}

/// An open blocking question without any accepted or active waiver refuses
/// the handoff with `BlockingQuestionWithoutWaiver`, once policy, traceability
/// and expiry are in order.
pub proof fn lemma_blocking_question_needs_waiver(h: ImplementationHandoffModel, i: int)
    requires
        policy_is_planning_only(h.execution_policy),
        h.traceability_links.len() > 0,
        none_expired(h.active_waivers),
        !some_waiver_accepted(h.active_waivers),
        0 <= i < h.open_questions.len(),
        h.open_questions[i].impact == "blocking"@,
        h.open_questions[i].status == "open"@,
    ensures
        handoff_violation(h) == Some(HandoffError::BlockingQuestionWithoutWaiver),
{
    lemma_rules_pass_exactly_when(h);
    assert(question_is_blocking(h.open_questions[i]));
    if any_accepted_waiver(h.active_waivers) {
        let j = choose|j: int|
            0 <= j < h.active_waivers.len() && waiver_is_accepted(#[trigger] h.active_waivers[j]);
        assert(h.active_waivers[j].status == "accepted"@ || h.active_waivers[j].status
            == "active"@);
    }
    if any_expired_waiver(h.active_waivers) {
        let j = choose|j: int|
            0 <= j < h.active_waivers.len() && waiver_is_expired(#[trigger] h.active_waivers[j]);
        assert(!(h.active_waivers[j].expires_at matches Some(ts) ==> !bytes_less(
            encode_utf8(ts),
            encode_utf8(SAMPLE_TS@),
        )));
    }
}

/// An open high, critical or blocking risk without any accepted or active
/// waiver refuses the handoff with `HighRiskWithoutWaiver`, once policy,
/// traceability and expiry are in order and no open blocking question is left.
pub proof fn lemma_high_risk_needs_waiver(h: ImplementationHandoffModel, i: int)
    requires
        policy_is_planning_only(h.execution_policy),
        h.traceability_links.len() > 0,
        none_expired(h.active_waivers),
        !some_waiver_accepted(h.active_waivers),
        forall|j: int|
            0 <= j < h.open_questions.len() ==> !((#[trigger] h.open_questions[j]).impact
                == "blocking"@ && h.open_questions[j].status == "open"@),
        0 <= i < h.risks.len(),
        h.risks[i].severity == "high"@ || h.risks[i].severity == "critical"@
            || h.risks[i].severity == "blocking"@,
        h.risks[i].status == "open"@,
    ensures
        handoff_violation(h) == Some(HandoffError::HighRiskWithoutWaiver),
{
    lemma_rules_pass_exactly_when(h);
    assert(risk_is_high(h.risks[i]));
    if any_accepted_waiver(h.active_waivers) {
        let j = choose|j: int|
            0 <= j < h.active_waivers.len() && waiver_is_accepted(#[trigger] h.active_waivers[j]);
        assert(h.active_waivers[j].status == "accepted"@ || h.active_waivers[j].status
            == "active"@);
    }
    if any_expired_waiver(h.active_waivers) {
        let j = choose|j: int|
            0 <= j < h.active_waivers.len() && waiver_is_expired(#[trigger] h.active_waivers[j]);
        assert(!(h.active_waivers[j].expires_at matches Some(ts) ==> !bytes_less(
            encode_utf8(ts),
            encode_utf8(SAMPLE_TS@),
        )));
    }
    if any_blocking_question(h.open_questions) {
        let j = choose|j: int|
            0 <= j < h.open_questions.len() && question_is_blocking(#[trigger] h.open_questions[j]);
        assert(h.open_questions[j].impact == "blocking"@ && h.open_questions[j].status == "open"@);
    }
}

/// A built handoff carries its workspace and package unchanged: the
/// workspace's charter, roles, journeys, screens, actions and acceptance
/// criteria in its spec context; the workspace's traceability links, waivers,
/// open questions, risks and capability candidates; the workspace id and owner
/// in its source; the package's id, version, hash, artifact and items; and it
/// is a planning request for `cos-matic` under the planning-only policy, sealed
/// with a payload hash.
pub proof fn lemma_built_handoff_carries_workspace<F: Fn(&ImplementationHandoff) -> Vec<u8>>(
    ws: &SpecWorkspace,
    pkg: &SpecPackage,
    h: ImplementationHandoffModel,
    encode: F,
)
    requires
        sealed_from(h, planned_handoff(ws, pkg), encode),
    ensures
        h.format == "canvas.bolt_handoff.v0.1"@,
        h.kind == "planning_request"@,
        h.bolt_target == "cos-matic"@,
        h.source.workspace_id == ws.id@,
        h.source.created_by == ws.owner.actor_id@,
        h.source.created_at == SAMPLE_TS@,
        h.package.package_id == pkg.package_id@,
        h.package.version == pkg.version@,
        h.package.package_hash == pkg.package_hash@,
        h.package.artifact_reference_id == pkg.artifact_reference_id.deep_view(),
        h.package.items == pkg.items.deep_view(),
        h.spec_context.charter_summary == ws.charter.deep_view(),
        h.spec_context.roles == ws.roles.deep_view(),
        h.spec_context.journeys == ws.journeys.deep_view(),
        h.spec_context.screens == ws.screens.deep_view(),
        h.spec_context.actions == ws.actions.deep_view(),
        h.spec_context.acceptance_criteria == ws.acceptance_criteria.deep_view(),
        h.traceability_links == ws.traceability_links.deep_view(),
        h.active_waivers == ws.waivers.deep_view(),
        h.open_questions == ws.open_questions.deep_view(),
        h.risks == ws.risks.deep_view(),
        h.capability_candidates == ws.capability_candidates.deep_view(),
        h.execution_policy.planning_only,
        !h.execution_policy.allow_execution,
        h.execution_policy.requires_human_approval_for_execution,
        h.payload_hash is Some,
{
    assert(h.format == unsealed(h).format);
    assert(h.kind == unsealed(h).kind);
    assert(h.bolt_target == unsealed(h).bolt_target);
    assert(h.source == unsealed(h).source);
    assert(h.package == unsealed(h).package);
    assert(h.spec_context == unsealed(h).spec_context);
    assert(h.traceability_links == unsealed(h).traceability_links);
    assert(h.active_waivers == unsealed(h).active_waivers);
    assert(h.open_questions == unsealed(h).open_questions);
    assert(h.risks == unsealed(h).risks);
    assert(h.capability_candidates == unsealed(h).capability_candidates);
    assert(h.execution_policy == unsealed(h).execution_policy);
}


/// One warning is given per capability candidate whose proposed owner layer is
/// missing, or present but made of white space only; the others give none.
pub proof fn lemma_warnings_count_ownerless_capabilities(cs: Seq<CapabilityCandidateModel>)
    ensures
        count_owner_missing(cs) == cs.filter(
            |c: CapabilityCandidateModel|
                c.proposed_owner_layer is None || (c.proposed_owner_layer matches Some(l) && forall|
                    i: int,
                | 0 <= i < l.len() ==> is_white_space(#[trigger] l[i])),
        ).len(),
    decreases cs.len(),
{
    reveal(Seq::filter);
    if cs.len() > 0 {
        lemma_warnings_count_ownerless_capabilities(cs.drop_last());
    }
}
} // verus!
