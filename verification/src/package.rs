//! Spec packages: an approved, hashed and thereafter immutable snapshot of the
//! workspace's sections, with its readiness figures.
use crate::digest::{is_tagged_digest, sha256_tag, tagged_sha256};
use crate::domain::{
    blocking_questions_count, clone_all, clone_opt_text, clone_texts, count_blocking_questions,
    count_high_risks, high_risks_count, lemma_blocking_questions_counted, lemma_high_risks_counted,
    OpenQuestionModel, RiskFlagModel, SpecSection, SpecWorkspace,
};
use crate::text::{push_text, text_equal};
use crate::SAMPLE_TS;
use vstd::prelude::*;

verus! {

/// Why a package operation is refused.
#[derive(Clone, Copy, Debug, PartialEq, Eq, Structural)]
pub enum PackageError {
    ImmutableAfterApproval,
    MissingTraceability,
}

/// The human-readable message of a package error.
pub open spec fn package_error_text(e: PackageError) -> Seq<char> {
    match e {
        PackageError::ImmutableAfterApproval => "approved package is immutable"@,
        PackageError::MissingTraceability => "package requires at least one traceability link"@,
    }
}

impl PackageError {
    /// The human-readable message of the error.
    pub fn message(&self) -> (m: &'static str)
        ensures
            m@ == package_error_text(*self),
    {
        match self {
            PackageError::ImmutableAfterApproval => "approved package is immutable",
            PackageError::MissingTraceability => "package requires at least one traceability link",
        }
    }
}

/// One section revision included in a package.
#[derive(Debug)]
pub struct SpecPackageItem {
    pub id: String,
    pub package_id: String,
    pub section_id: String,
    pub revision_id: String,
    pub section_key: String,
    pub required: bool,
}

pub struct SpecPackageItemModel {
    pub id: Seq<char>,
    pub package_id: Seq<char>,
    pub section_id: Seq<char>,
    pub revision_id: Seq<char>,
    pub section_key: Seq<char>,
    pub required: bool,
}

impl DeepView for SpecPackageItem {
    type V = SpecPackageItemModel;

    open spec fn deep_view(&self) -> SpecPackageItemModel {
        SpecPackageItemModel {
            id: self.id@,
            package_id: self.package_id@,
            section_id: self.section_id@,
            revision_id: self.revision_id@,
            section_key: self.section_key@,
            required: self.required,
        }
    }
}

impl Clone for SpecPackageItem {
    fn clone(&self) -> (r: Self)
        ensures
            r.deep_view() == self.deep_view(),
    {
        SpecPackageItem {
            id: self.id.clone(),
            package_id: self.package_id.clone(),
            section_id: self.section_id.clone(),
            revision_id: self.revision_id.clone(),
            section_key: self.section_key.clone(),
            required: self.required,
        }
    }
}

/// Readiness figures taken when the package was built.
#[derive(Debug)]
pub struct PackageReadinessSnapshot {
    pub status: String,
    pub traceability_links: usize,
    pub blocking_questions: usize,
    pub high_risks: usize,
    pub created_at: String,
}

pub struct PackageReadinessSnapshotModel {
    pub status: Seq<char>,
    pub traceability_links: usize,
    pub blocking_questions: usize,
    pub high_risks: usize,
    pub created_at: Seq<char>,
}

impl DeepView for PackageReadinessSnapshot {
    type V = PackageReadinessSnapshotModel;

    open spec fn deep_view(&self) -> PackageReadinessSnapshotModel {
        PackageReadinessSnapshotModel {
            status: self.status@,
            traceability_links: self.traceability_links,
            blocking_questions: self.blocking_questions,
            high_risks: self.high_risks,
            created_at: self.created_at@,
        }
    }
}

impl Clone for PackageReadinessSnapshot {
    fn clone(&self) -> (r: Self)
        ensures
            r.deep_view() == self.deep_view(),
    {
        PackageReadinessSnapshot {
            status: self.status.clone(),
            traceability_links: self.traceability_links,
            blocking_questions: self.blocking_questions,
            high_risks: self.high_risks,
            created_at: self.created_at.clone(),
        }
    }
}

/// Who made the package and how it is labelled.
#[derive(Debug)]
pub struct PackageMetadata {
    pub created_by: String,
    pub created_at: String,
    pub updated_at: String,
    pub description: Option<String>,
    pub tags: Vec<String>,
}

pub struct PackageMetadataModel {
    pub created_by: Seq<char>,
    pub created_at: Seq<char>,
    pub updated_at: Seq<char>,
    pub description: Option<Seq<char>>,
    pub tags: Seq<Seq<char>>,
}

impl DeepView for PackageMetadata {
    type V = PackageMetadataModel;

    open spec fn deep_view(&self) -> PackageMetadataModel {
        PackageMetadataModel {
            created_by: self.created_by@,
            created_at: self.created_at@,
            updated_at: self.updated_at@,
            description: self.description.deep_view(),
            tags: self.tags.deep_view(),
        }
    }
}

impl Clone for PackageMetadata {
    fn clone(&self) -> (r: Self)
        ensures
            r.deep_view() == self.deep_view(),
    {
        PackageMetadata {
            created_by: self.created_by.clone(),
            created_at: self.created_at.clone(),
            updated_at: self.updated_at.clone(),
            description: clone_opt_text(&self.description),
            tags: clone_texts(&self.tags),
        }
    }
}

/// One approval given to a package.
#[derive(Debug)]
pub struct ApprovalRecord {
    pub approved_by: String,
    pub approved_at: String,
    pub approval_type: String,
    pub comment: Option<String>,
}

pub struct ApprovalRecordModel {
    pub approved_by: Seq<char>,
    pub approved_at: Seq<char>,
    pub approval_type: Seq<char>,
    pub comment: Option<Seq<char>>,
}

impl DeepView for ApprovalRecord {
    type V = ApprovalRecordModel;

    open spec fn deep_view(&self) -> ApprovalRecordModel {
        ApprovalRecordModel {
            approved_by: self.approved_by@,
            approved_at: self.approved_at@,
            approval_type: self.approval_type@,
            comment: self.comment.deep_view(),
        }
    }
}

impl Clone for ApprovalRecord {
    fn clone(&self) -> (r: Self)
        ensures
            r.deep_view() == self.deep_view(),
    {
        ApprovalRecord {
            approved_by: self.approved_by.clone(),
            approved_at: self.approved_at.clone(),
            approval_type: self.approval_type.clone(),
            comment: clone_opt_text(&self.comment),
        }
    }
}

/// Readiness details. The traceability density, a binary64 floating-point
/// number, is held as its IEEE 754 bit pattern (`f64::to_bits`).
#[derive(Clone, Copy, Debug, PartialEq, Eq, Structural)]
pub struct PackageReadinessDetails {
    pub required_sections_complete: bool,
    pub all_sections_approved: bool,
    pub traceability_density_bits: u64,
    pub blocking_risks_resolved: bool,
    pub validation_passed: bool,
}

/// The bit pattern of the binary64 number `1.0`.
pub const DENSITY_ONE_BITS: u64 = 0x3ff0_0000_0000_0000u64;

/// Where the package is meant to go.
#[derive(Debug)]
pub struct DeliveryTarget {
    pub handoff_format: String,
    pub bolt_target: String,
    pub expected_consumer: String,
}

pub struct DeliveryTargetModel {
    pub handoff_format: Seq<char>,
    pub bolt_target: Seq<char>,
    pub expected_consumer: Seq<char>,
}

impl DeepView for DeliveryTarget {
    type V = DeliveryTargetModel;

    open spec fn deep_view(&self) -> DeliveryTargetModel {
        DeliveryTargetModel {
            handoff_format: self.handoff_format@,
            bolt_target: self.bolt_target@,
            expected_consumer: self.expected_consumer@,
        }
    }
}

impl Clone for DeliveryTarget {
    fn clone(&self) -> (r: Self)
        ensures
            r.deep_view() == self.deep_view(),
    {
        DeliveryTarget {
            handoff_format: self.handoff_format.clone(),
            bolt_target: self.bolt_target.clone(),
            expected_consumer: self.expected_consumer.clone(),
        }
    }
}

/// A spec package.
#[derive(Debug)]
pub struct SpecPackage {
    pub package_id: String,
    pub workspace_id: String,
    pub version: String,
    pub status: String,
    pub approved_by: Option<String>,
    pub approved_at: Option<String>,
    pub package_hash: String,
    pub artifact_reference_id: Option<String>,
    pub metadata: PackageMetadata,
    pub approval_chain: Vec<ApprovalRecord>,
    pub package_readiness_details: PackageReadinessDetails,
    pub delivery_target: DeliveryTarget,
    pub items: Vec<SpecPackageItem>,
    pub readiness: PackageReadinessSnapshot,
}

pub struct SpecPackageModel {
    pub package_id: Seq<char>,
    pub workspace_id: Seq<char>,
    pub version: Seq<char>,
    pub status: Seq<char>,
    pub approved_by: Option<Seq<char>>,
    pub approved_at: Option<Seq<char>>,
    pub package_hash: Seq<char>,
    pub artifact_reference_id: Option<Seq<char>>,
    pub metadata: PackageMetadataModel,
    pub approval_chain: Seq<ApprovalRecordModel>,
    pub package_readiness_details: PackageReadinessDetails,
    pub delivery_target: DeliveryTargetModel,
    pub items: Seq<SpecPackageItemModel>,
    pub readiness: PackageReadinessSnapshotModel,
}

impl DeepView for SpecPackage {
    type V = SpecPackageModel;

    open spec fn deep_view(&self) -> SpecPackageModel {
        SpecPackageModel {
            package_id: self.package_id@,
            workspace_id: self.workspace_id@,
            version: self.version@,
            status: self.status@,
            approved_by: self.approved_by.deep_view(),
            approved_at: self.approved_at.deep_view(),
            package_hash: self.package_hash@,
            artifact_reference_id: self.artifact_reference_id.deep_view(),
            metadata: self.metadata.deep_view(),
            approval_chain: self.approval_chain.deep_view(),
            package_readiness_details: self.package_readiness_details,
            delivery_target: self.delivery_target.deep_view(),
            items: self.items.deep_view(),
            readiness: self.readiness.deep_view(),
        }
    }
}

impl Clone for SpecPackage {
    fn clone(&self) -> (r: Self)
        ensures
            r.deep_view() == self.deep_view(),
    {
        SpecPackage {
            package_id: self.package_id.clone(),
            workspace_id: self.workspace_id.clone(),
            version: self.version.clone(),
            status: self.status.clone(),
            approved_by: clone_opt_text(&self.approved_by),
            approved_at: clone_opt_text(&self.approved_at),
            package_hash: self.package_hash.clone(),
            artifact_reference_id: clone_opt_text(&self.artifact_reference_id),
            metadata: self.metadata.clone(),
            approval_chain: clone_all(&self.approval_chain),
            package_readiness_details: self.package_readiness_details,
            delivery_target: self.delivery_target.clone(),
            items: clone_all(&self.items),
            readiness: self.readiness.clone(),
        }
    }
}

// ---------------------------------------------------------------- hashing

/// `encode` renders packages to bytes by their content alone: two packages with
/// the same content are given the same bytes.
pub open spec fn encodes_by_content<F: Fn(&SpecPackage) -> Vec<u8>>(encode: F) -> bool {
    forall|a: SpecPackage, b: SpecPackage, x: Vec<u8>, y: Vec<u8>|
        #![trigger call_ensures(encode, (&a,), x), call_ensures(encode, (&b,), y)]
        a.deep_view() == b.deep_view() && call_ensures(encode, (&a,), x) && call_ensures(
            encode,
            (&b,),
            y,
        ) ==> x@ == y@
}

/// `encode` can be called on every package.
pub open spec fn encodes_every_package<F: Fn(&SpecPackage) -> Vec<u8>>(encode: F) -> bool {
    forall|p: &SpecPackage| #[trigger] call_requires(encode, (p,))
}

/// `hash` is the tagged SHA-256 digest of bytes that `encode` gave for a package
/// whose content is `content`.
pub open spec fn hash_of_encoding<F: Fn(&SpecPackage) -> Vec<u8>>(
    encode: F,
    content: SpecPackageModel,
    hash: Seq<char>,
) -> bool {
    exists|p: SpecPackage, b: Vec<u8>|
        #![trigger call_ensures(encode, (&p,), b)]
        p.deep_view() == content && call_ensures(encode, (&p,), b) && hash == tagged_sha256(b@)
}

/// The content `p` without a package hash: what the package hash covers.
pub open spec fn unhashed(p: SpecPackageModel) -> SpecPackageModel {
    SpecPackageModel { package_hash: Seq::empty(), ..p }
}

/// `p` carries the hash of its own content: its package hash is the hash of
/// the encoding of `p` without its package hash.
pub open spec fn carries_own_hash<F: Fn(&SpecPackage) -> Vec<u8>>(encode: F, p: SpecPackageModel) -> bool {
    hash_of_encoding(encode, unhashed(p), p.package_hash)
}

/// The package hash: `sha256:` and the hexadecimal SHA-256 digest of the
/// canonical encoding, which `encode` renders, of the package without its own
/// package hash.
pub fn compute_package_hash<F: Fn(&SpecPackage) -> Vec<u8>>(package: &SpecPackage, encode: &F) -> (h: String)
    requires
        encodes_every_package(*encode),
    ensures
        hash_of_encoding(*encode, unhashed(package.deep_view()), h@),
        is_tagged_digest(h@),
{
    let mut copy = package.clone();
    copy.package_hash = String::new();
    assert(copy.deep_view() == unhashed(package.deep_view()));
    let bytes = encode(&copy);
    let h = sha256_tag(bytes.as_slice());
    assert(call_ensures(*encode, (&copy,), bytes));
    h
}

// ---------------------------------------------------------------- statuses

/// The statuses after which a package may no longer change.
pub open spec fn is_frozen_status(status: Seq<char>) -> bool {
    status == "approved"@ || status == "exported"@ || status == "handoff_submitted"@
}

/// The content of a package once approved by `actor`, its hash aside.
pub open spec fn approved_content(p: SpecPackageModel, actor: Seq<char>) -> SpecPackageModel {
    SpecPackageModel {
        status: "approved"@,
        approved_by: Some(actor),
        approved_at: Some(SAMPLE_TS@),
        ..p
    }
}

/// The content `p` with `item` appended to its items.
pub open spec fn with_item(p: SpecPackageModel, item: SpecPackageItemModel) -> SpecPackageModel {
    SpecPackageModel { items: p.items.push(item), ..p }
}

/// The content `p` with the package hash `h`.
pub open spec fn with_hash(p: SpecPackageModel, h: Seq<char>) -> SpecPackageModel {
    SpecPackageModel { package_hash: h, ..p }
}

impl SpecPackage {
    /// Adds an item to a package that is not yet frozen and rehashes it.
    pub fn add_item<F: Fn(&SpecPackage) -> Vec<u8>>(
        &mut self,
        item: SpecPackageItem,
        encode: &F,
    ) -> (r: Result<(), PackageError>)
        requires
            encodes_every_package(*encode),
        ensures
            is_frozen_status(old(self).status@) ==> (r == Err::<(), PackageError>(
                PackageError::ImmutableAfterApproval,
            ) && *final(self) == *old(self)),
            !is_frozen_status(old(self).status@) ==> (r is Ok && hash_of_encoding(
                *encode,
                unhashed(with_item(old(self).deep_view(), item.deep_view())),
                final(self).package_hash@,
            ) && carries_own_hash(*encode, final(self).deep_view()) && is_tagged_digest(
                final(self).package_hash@,
            ) && final(self).deep_view()
                == with_hash(
                with_item(old(self).deep_view(), item.deep_view()),
                final(self).package_hash@,
            )),
    {
        if text_equal(self.status.as_str(), "approved") || text_equal(self.status.as_str(), "exported")
            || text_equal(self.status.as_str(), "handoff_submitted") {
            return Err(PackageError::ImmutableAfterApproval);
        }
        let ghost before = self.deep_view();
        self.items.push(item);
        assert(self.items.deep_view() =~= before.items.push(item.deep_view()));
        let h = compute_package_hash(self, encode);
        self.package_hash = h;
        assert(unhashed(self.deep_view()) == unhashed(with_item(before, item.deep_view())));
        Ok(())
    }

    /// Approves the package on behalf of `actor_id` and rehashes it.
    pub fn approve<F: Fn(&SpecPackage) -> Vec<u8>>(self, actor_id: &str, encode: &F) -> (r: Self)
        requires
            encodes_every_package(*encode),
        ensures
            hash_of_encoding(
                *encode,
                unhashed(approved_content(self.deep_view(), actor_id@)),
                r.package_hash@,
            ),
            carries_own_hash(*encode, r.deep_view()),
            is_tagged_digest(r.package_hash@),
            r.deep_view() == with_hash(
                approved_content(self.deep_view(), actor_id@),
                r.package_hash@,
            ),
    {
        let mut p = self;
        p.status = "approved".to_owned();
        p.approved_by = Some(actor_id.to_owned());
        p.approved_at = Some(SAMPLE_TS.to_owned());
        assert(p.deep_view() == approved_content(self.deep_view(), actor_id@));
        let h = compute_package_hash(&p, encode);
        p.package_hash = h;
        assert(unhashed(p.deep_view()) == unhashed(approved_content(self.deep_view(), actor_id@)));
        p
    }
}

// ---------------------------------------------------------------- building

/// The item that a section contributes to the package.
pub open spec fn item_for(s: SpecSection) -> SpecPackageItemModel {
    SpecPackageItemModel {
        id: "pkgitem:"@ + s.key@,
        package_id: "package:rumble-canvas-mvp:0.1.0"@,
        section_id: s.id@,
        revision_id: s.approved_revision_id@,
        section_key: s.key@,
        required: s.required_for_package,
    }
}

/// The content of a freshly built package, before it is hashed and approved.
pub open spec fn draft_content(ws: &SpecWorkspace) -> SpecPackageModel {
    SpecPackageModel {
        package_id: "package:rumble-canvas-mvp:0.1.0"@,
        workspace_id: ws.id@,
        version: "0.1.0"@,
        status: "draft"@,
        approved_by: None,
        approved_at: None,
        package_hash: Seq::empty(),
        artifact_reference_id: Some("artifact:sample-package"@),
        metadata: PackageMetadataModel {
            created_by: ws.owner.actor_id@,
            created_at: SAMPLE_TS@,
            updated_at: SAMPLE_TS@,
            description: Some("Canvas MVP package — specification handoff"@),
            tags: seq!["canvas"@, "mvp"@],
        },
        approval_chain: Seq::empty(),
        package_readiness_details: PackageReadinessDetails {
            required_sections_complete: true,
            all_sections_approved: false,
            traceability_density_bits: DENSITY_ONE_BITS,
            blocking_risks_resolved: true,
            validation_passed: false,
        },
        delivery_target: DeliveryTargetModel {
            handoff_format: "canvas.bolt_handoff.v0.1"@,
            bolt_target: "cos-matic"@,
            expected_consumer: "cos-matic"@,
        },
        items: ws.sections@.map_values(|s: SpecSection| item_for(s)),
        readiness: PackageReadinessSnapshotModel {
            status: "ready"@,
            traceability_links: ws.traceability_links@.len() as usize,
            blocking_questions: count_blocking_questions(ws.open_questions.deep_view()) as usize,
            high_risks: count_high_risks(ws.risks.deep_view()) as usize,
            created_at: SAMPLE_TS@,
        },
    }
}

/// The content of a package built from `ws`: the draft, approved by the
/// workspace owner, its hash aside.
pub open spec fn built_content(ws: &SpecWorkspace) -> SpecPackageModel {
    approved_content(draft_content(ws), ws.owner.actor_id@)
}

/// `p` is what building a package from `ws` with `encode` gives: the approved
/// draft, carrying the hash of its own content.
pub open spec fn built_from<F: Fn(&SpecPackage) -> Vec<u8>>(p: SpecPackageModel, ws: &SpecWorkspace, encode: F) -> bool {
    &&& p == with_hash(built_content(ws), p.package_hash)
    &&& hash_of_encoding(encode, built_content(ws), p.package_hash)
}

fn package_item(section: &SpecSection) -> (item: SpecPackageItem)
    ensures
        item.deep_view() == item_for(*section),
{
    let mut id = String::new();
    push_text(&mut id, "pkgitem:");
    push_text(&mut id, section.key.as_str());
    SpecPackageItem {
        id,
        package_id: "package:rumble-canvas-mvp:0.1.0".to_owned(),
        section_id: section.id.clone(),
        revision_id: section.approved_revision_id.clone(),
        section_key: section.key.clone(),
        required: section.required_for_package,
    }
}

fn package_items(sections: &Vec<SpecSection>) -> (items: Vec<SpecPackageItem>)
    ensures
        items.deep_view() == sections@.map_values(|s: SpecSection| item_for(s)),
{
    let mut items: Vec<SpecPackageItem> = Vec::new();
    let mut i: usize = 0;
    while i < sections.len()
        invariant
            i <= sections@.len(),
            items.deep_view() == sections@.subrange(0, i as int).map_values(
                |s: SpecSection| item_for(s),
            ),
        decreases sections.len() - i,
    {
        let item = package_item(&sections[i]);
        let ghost before = items.deep_view();
        items.push(item);
        assert(items.deep_view() =~= before.push(item_for(sections@[i as int])));
        assert(sections@.subrange(0, i + 1).drop_last() =~= sections@.subrange(0, i as int));
        i = i + 1;
        assert(items.deep_view() =~= sections@.subrange(0, i as int).map_values(
            |s: SpecSection| item_for(s),
        ));
    }
    assert(sections@.subrange(0, sections@.len() as int) =~= sections@);
    items
}

/// Builds the package of a workspace: it requires at least one traceability
/// link, takes one item per section, records readiness figures, and is returned
/// approved by the workspace owner, hashed with `encode`.
pub fn build_package<F: Fn(&SpecPackage) -> Vec<u8>>(workspace: &SpecWorkspace, encode: &F) -> (r: Result<SpecPackage, PackageError>)
    requires
        encodes_every_package(*encode),
    ensures
        workspace.traceability_links@.len() == 0 <==> r == Err::<SpecPackage, PackageError>(
            PackageError::MissingTraceability,
        ),
        workspace.traceability_links@.len() > 0 <==> r is Ok,
        r matches Ok(p) ==> built_from(p.deep_view(), workspace, *encode),
        r matches Ok(p) ==> carries_own_hash(*encode, p.deep_view()) && is_tagged_digest(
            p.package_hash@,
        ),
{
    if workspace.traceability_links.len() == 0 {
        return Err(PackageError::MissingTraceability);
    }
    let blocking = blocking_questions_count(&workspace.open_questions);
    let high = high_risks_count(&workspace.risks);
    let mut tags: Vec<String> = Vec::new();
    tags.push("canvas".to_owned());
    tags.push("mvp".to_owned());
    let mut package = SpecPackage {
        package_id: "package:rumble-canvas-mvp:0.1.0".to_owned(),
        workspace_id: workspace.id.clone(),
        version: "0.1.0".to_owned(),
        status: "draft".to_owned(),
        approved_by: None,
        approved_at: None,
        package_hash: String::new(),
        artifact_reference_id: Some("artifact:sample-package".to_owned()),
        metadata: PackageMetadata {
            created_by: workspace.owner.actor_id.clone(),
            created_at: SAMPLE_TS.to_owned(),
            updated_at: SAMPLE_TS.to_owned(),
            description: Some("Canvas MVP package — specification handoff".to_owned()),
            tags,
        },
        approval_chain: Vec::new(),
        package_readiness_details: PackageReadinessDetails {
            required_sections_complete: true,
            all_sections_approved: false,
            traceability_density_bits: DENSITY_ONE_BITS,
            blocking_risks_resolved: true,
            validation_passed: false,
        },
        delivery_target: DeliveryTarget {
            handoff_format: "canvas.bolt_handoff.v0.1".to_owned(),
            bolt_target: "cos-matic".to_owned(),
            expected_consumer: "cos-matic".to_owned(),
        },
        items: package_items(&workspace.sections),
        readiness: PackageReadinessSnapshot {
            status: "ready".to_owned(),
            traceability_links: workspace.traceability_links.len(),
            blocking_questions: blocking,
            high_risks: high,
            created_at: SAMPLE_TS.to_owned(),
        },
    };
    assert(package.metadata.tags.deep_view() =~= seq!["canvas"@, "mvp"@]);
    assert(package.approval_chain.deep_view() =~= Seq::<ApprovalRecordModel>::empty());
    assert(package.deep_view() == draft_content(workspace));
    let first = compute_package_hash(&package, encode);
    package.package_hash = first;
    let ghost drafted = package.deep_view();
    let approved = package.approve(workspace.owner.actor_id.as_str(), encode);
    assert(unhashed(approved_content(drafted, workspace.owner.actor_id@)) == built_content(
        workspace,
    ));
    Ok(approved)
}

// ---------------------------------------------------------------- laws

/// Approval freezes a package: whatever its hash, a package approved by
/// `actor` has a status under which `add_item` refuses every item and leaves
/// the package as it was.
pub proof fn lemma_approved_package_is_frozen(p: SpecPackageModel, actor: Seq<char>, h: Seq<char>)
    ensures
        is_frozen_status(with_hash(approved_content(p, actor), h).status),
        with_hash(approved_content(p, actor), h).status == "approved"@,
        forall|s: Seq<char>|
            #![trigger is_frozen_status(s)]
            is_frozen_status(s) <==> (s == "approved"@ || s == "exported"@ || s
                == "handoff_submitted"@),
{
}

/// A built package records its workspace: it belongs to the workspace, is
/// approved by the workspace owner at the reference time, has one item per
/// section in order, each pointing at the section's approved revision, and its
/// readiness counts the traceability links, the open blocking questions and
/// the open high, critical or blocking risks of the workspace.
pub proof fn lemma_built_package_reflects_workspace<F: Fn(&SpecPackage) -> Vec<u8>>(
    p: SpecPackageModel,
    ws: &SpecWorkspace,
    encode: F,
)
    requires
        built_from(p, ws, encode),
    ensures
        p.package_id == "package:rumble-canvas-mvp:0.1.0"@,
        p.workspace_id == ws.id@,
        p.status == "approved"@,
        p.approved_by == Some(ws.owner.actor_id@),
        p.approved_at == Some(SAMPLE_TS@),
        p.metadata.created_by == ws.owner.actor_id@,
        p.delivery_target.handoff_format == "canvas.bolt_handoff.v0.1"@,
        p.items.len() == ws.sections@.len(),
        forall|i: int|
            0 <= i < p.items.len() ==> {
                let s = #[trigger] ws.sections@[i];
                &&& p.items[i].id == "pkgitem:"@ + s.key@
                &&& p.items[i].package_id == p.package_id
                &&& p.items[i].section_id == s.id@
                &&& p.items[i].revision_id == s.approved_revision_id@
                &&& p.items[i].section_key == s.key@
                &&& p.items[i].required == s.required_for_package
            },
        p.readiness.traceability_links == ws.traceability_links@.len(),
        p.readiness.blocking_questions == ws.open_questions.deep_view().filter(
            |q: OpenQuestionModel| q.impact == "blocking"@ && q.status == "open"@,
        ).len(),
        p.readiness.high_risks == ws.risks.deep_view().filter(
            |r: RiskFlagModel|
                (r.severity == "high"@ || r.severity == "critical"@ || r.severity == "blocking"@)
                    && r.status == "open"@,
        ).len(),
{
    assert(ws.traceability_links.len() == ws.traceability_links@.len());
    assert(ws.open_questions.len() == ws.open_questions@.len());
    assert(ws.risks.len() == ws.risks@.len());
    lemma_blocking_questions_counted(ws.open_questions.deep_view());
    lemma_high_risks_counted(ws.risks.deep_view());
    assert forall|i: int| 0 <= i < p.items.len() implies {
        let s = #[trigger] ws.sections@[i];
        &&& p.items[i].id == "pkgitem:"@ + s.key@
        &&& p.items[i].package_id == p.package_id
        &&& p.items[i].section_id == s.id@
        &&& p.items[i].revision_id == s.approved_revision_id@
        &&& p.items[i].section_key == s.key@
        &&& p.items[i].required == s.required_for_package
    } by {
        assert(p.items[i] == item_for(ws.sections@[i]));
    }
}

/// Package hashes are stable: two workspaces that agree on everything a package
/// is built from give packages with the same content and the same hash, as long
/// as the encoding depends on a package's content alone.
pub proof fn lemma_package_hash_is_stable<F: Fn(&SpecPackage) -> Vec<u8>>(
    w1: &SpecWorkspace,
    w2: &SpecWorkspace,
    encode: F,
    p1: SpecPackageModel,
    p2: SpecPackageModel,
)
    requires
        encodes_by_content(encode),
        draft_content(w1) == draft_content(w2),
        w1.owner.actor_id@ == w2.owner.actor_id@,
        built_from(p1, w1, encode),
        built_from(p2, w2, encode),
    ensures
        p1 == p2,
        p1.package_hash == p2.package_hash,
{
    lemma_same_content_same_hash(encode, built_content(w1), p1.package_hash, p2.package_hash);
}

/// The package hash never covers its own field: two packages that differ at
/// most in their package hash are given the same hash, as long as the encoding
/// depends on a package's content alone.
pub proof fn lemma_hash_ignores_own_field<F: Fn(&SpecPackage) -> Vec<u8>>(
    encode: F,
    a: SpecPackageModel,
    b: SpecPackageModel,
    ha: Seq<char>,
    hb: Seq<char>,
)
    requires
        encodes_by_content(encode),
        unhashed(a) == unhashed(b),
        hash_of_encoding(encode, unhashed(a), ha),
        hash_of_encoding(encode, unhashed(b), hb),
    ensures
        ha == hb,
{
    lemma_same_content_same_hash(encode, unhashed(a), ha, hb);
}

/// A package that carries the hash of its own content, as every package built,
/// approved or extended does, keeps it under recomputation: hashing it again
/// gives the hash it carries, as long as the encoding depends on content alone.
pub proof fn lemma_carried_hash_is_recomputed<F: Fn(&SpecPackage) -> Vec<u8>>(
    encode: F,
    p: SpecPackageModel,
    h: Seq<char>,
)
    requires
        encodes_by_content(encode),
        carries_own_hash(encode, p),
        hash_of_encoding(encode, unhashed(p), h),
    ensures
        h == p.package_hash,
{
    lemma_same_content_same_hash(encode, unhashed(p), h, p.package_hash);
}

/// Two hashes of encodings of the same content agree when the encoding depends
/// on content alone.
pub proof fn lemma_same_content_same_hash<F: Fn(&SpecPackage) -> Vec<u8>>(
    encode: F,
    content: SpecPackageModel,
    h1: Seq<char>,
    h2: Seq<char>,
)
    requires
        encodes_by_content(encode),
        hash_of_encoding(encode, content, h1),
        hash_of_encoding(encode, content, h2),
    ensures
        h1 == h2,
{
    let (p, x) = choose|p: SpecPackage, b: Vec<u8>|
        #![trigger call_ensures(encode, (&p,), b)]
        p.deep_view() == content && call_ensures(encode, (&p,), b) && h1 == tagged_sha256(b@);
    let (q, y) = choose|p: SpecPackage, b: Vec<u8>|
        #![trigger call_ensures(encode, (&p,), b)]
        p.deep_view() == content && call_ensures(encode, (&p,), b) && h2 == tagged_sha256(b@);
    assert(x@ == y@);
}

} // verus!
