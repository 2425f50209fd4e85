//! Validation of a spec package against the canonical package schema.
use crate::domain::SpecWorkspace;
use crate::package::{built_from, SpecPackage, DENSITY_ONE_BITS};
use crate::SAMPLE_TS;
use crate::text::{concat2, text_equal};
use vstd::prelude::*;

verus! {

/// Why a package does not conform to the schema.
#[derive(Debug, PartialEq, Eq)]
pub enum SchemaError {
    MissingField(String),
    InvalidValue(String),
    Validation(String),
}

/// The human-readable message of a schema error.
pub open spec fn schema_error_text(e: &SchemaError) -> Seq<char> {
    match e {
        SchemaError::MissingField(f) => "required field missing: "@ + f@,
        SchemaError::InvalidValue(f) => "invalid field value: "@ + f@,
        SchemaError::Validation(m) => "schema validation failed: "@ + m@,
    }
}

impl SchemaError {
    /// The human-readable message of the error.
    pub fn message(&self) -> (m: String)
        ensures
            m@ == schema_error_text(self),
    {
        match self {
            SchemaError::MissingField(f) => concat2("required field missing: ", f.as_str()),
            SchemaError::InvalidValue(f) => concat2("invalid field value: ", f.as_str()),
            SchemaError::Validation(m) => concat2("schema validation failed: ", m.as_str()),
        }
    }
}

/// What the schema finds wrong with a package, as a message.
pub enum SchemaProblem {
    Missing(Seq<char>),
    Invalid(Seq<char>),
}

/// Whether the binary64 number with bit pattern `bits` lies outside the unit
/// interval `0.0..=1.0`: it is below `0.0`, above `1.0`, or NaN, which is no
/// number in it. `-0.0` equals `0.0` and lies inside.
pub open spec fn density_out_of_unit_range(bits: u64) -> bool {
    let negative = bits >= 0x8000_0000_0000_0000u64;
    let magnitude = bits % 0x8000_0000_0000_0000u64;
    let nan = magnitude > 0x7ff0_0000_0000_0000u64;
    nan || (negative && magnitude != 0) || (!negative && bits > 0x3ff0_0000_0000_0000u64)
}

/// The first problem that the schema finds, checking in this order: package
/// id, workspace id, items, creator, creation time, traceability density,
/// handoff format.
pub open spec fn schema_problem(p: &SpecPackage) -> Option<SchemaProblem> {
    if p.package_id@.len() == 0 {
        Some(SchemaProblem::Missing("package_id"@))
    } else if p.workspace_id@.len() == 0 {
        Some(SchemaProblem::Missing("workspace_id"@))
    } else if p.items@.len() == 0 {
        Some(SchemaProblem::Missing("items (must have ≥1 item)"@))
    } else if p.metadata.created_by@.len() == 0 {
        Some(SchemaProblem::Missing("metadata.created_by"@))
    } else if p.metadata.created_at@.len() == 0 {
        Some(SchemaProblem::Missing("metadata.created_at"@))
    } else if density_out_of_unit_range(p.package_readiness_details.traceability_density_bits) {
        Some(SchemaProblem::Invalid("traceability_density must be 0.0–1.0"@))
    } else if p.delivery_target.handoff_format@ != "canvas.bolt_handoff.v0.1"@ {
        Some(SchemaProblem::Invalid("handoff_format must be \"canvas.bolt_handoff.v0.1\""@))
    } else {
        None
    }
}

/// Whether the traceability density lies outside `0.0..=1.0` (NaN included).
pub fn density_is_out_of_range(bits: u64) -> (r: bool)
    ensures
        r == density_out_of_unit_range(bits),
{
    let negative = bits >= 0x8000_0000_0000_0000u64;
    let magnitude = bits % 0x8000_0000_0000_0000u64;
    let nan = magnitude > 0x7ff0_0000_0000_0000u64;
    nan || (negative && magnitude != 0) || (!negative && bits > 0x3ff0_0000_0000_0000u64)
}

/// Every package that `build_package` makes from a workspace with an id, an
/// owner and at least one section conforms to the schema.
pub proof fn lemma_built_package_is_schema_valid<F: Fn(&SpecPackage) -> Vec<u8>>(
    p: &SpecPackage,
    ws: &SpecWorkspace,
    encode: F,
)
    requires
        built_from(p.deep_view(), ws, encode),
        ws.id@.len() > 0,
        ws.owner.actor_id@.len() > 0,
        ws.sections@.len() > 0,
    ensures
        schema_problem(p) is None,
{
    reveal_strlit("package:rumble-canvas-mvp:0.1.0");
    reveal_strlit("2026-06-30T00:00:00Z");
    assert(p.package_id@ == "package:rumble-canvas-mvp:0.1.0"@);
    assert(p.items.deep_view().len() == ws.sections@.len());
    assert(p.metadata.created_at@ == SAMPLE_TS@);
    assert(p.package_readiness_details.traceability_density_bits == DENSITY_ONE_BITS);
    assert(!density_out_of_unit_range(DENSITY_ONE_BITS));
}

/// The schema accepts a package exactly when its package id, workspace id,
/// items, creator and creation time are all present, its traceability density
/// is a number from `0.0` to `1.0` (bit patterns `0` to that of `1.0`, or that
/// of `-0.0`; never NaN), and its handoff format is `canvas.bolt_handoff.v0.1`.
/// Missing fields are reported in that order, each by its own name.
pub proof fn lemma_schema_accepts_exactly(p: &SpecPackage)
    ensures
        schema_problem(p) is None <==> {
            &&& p.package_id@.len() > 0
            &&& p.workspace_id@.len() > 0
            &&& p.items@.len() > 0
            &&& p.metadata.created_by@.len() > 0
            &&& p.metadata.created_at@.len() > 0
            &&& (p.package_readiness_details.traceability_density_bits <= 0x3ff0_0000_0000_0000u64
                || p.package_readiness_details.traceability_density_bits
                == 0x8000_0000_0000_0000u64)
            &&& p.delivery_target.handoff_format@ == "canvas.bolt_handoff.v0.1"@
        },
        p.package_id@.len() == 0 ==> schema_problem(p) == Some(
            SchemaProblem::Missing("package_id"@),
        ),
        p.package_id@.len() > 0 && p.workspace_id@.len() == 0 ==> schema_problem(p) == Some(
            SchemaProblem::Missing("workspace_id"@),
        ),
        p.package_id@.len() > 0 && p.workspace_id@.len() > 0 && p.items@.len() == 0
            ==> schema_problem(p) == Some(SchemaProblem::Missing("items (must have ≥1 item)"@)),
        p.package_id@.len() > 0 && p.workspace_id@.len() > 0 && p.items@.len() > 0
            && p.metadata.created_by@.len() == 0 ==> schema_problem(p) == Some(
            SchemaProblem::Missing("metadata.created_by"@),
        ),
        p.package_id@.len() > 0 && p.workspace_id@.len() > 0 && p.items@.len() > 0
            && p.metadata.created_by@.len() > 0 && p.metadata.created_at@.len() == 0
            ==> schema_problem(p) == Some(SchemaProblem::Missing("metadata.created_at"@)),
{
    let bits = p.package_readiness_details.traceability_density_bits;
    assert(!density_out_of_unit_range(bits) <==> (bits <= 0x3ff0_0000_0000_0000u64 || bits
        == 0x8000_0000_0000_0000u64)) by (bit_vector);
}

/// Validates a package against the canonical schema.
pub fn validate_package(package: &SpecPackage) -> (r: Result<(), SchemaError>)
    ensures
        r is Ok <==> schema_problem(package) is None,
        r matches Err(SchemaError::MissingField(m)) ==> schema_problem(package) == Some(
            SchemaProblem::Missing(m@),
        ),
        r matches Err(SchemaError::InvalidValue(m)) ==> schema_problem(package) == Some(
            SchemaProblem::Invalid(m@),
        ),
        !(r is Err && r->Err_0 is Validation),
{
    if package.package_id.as_str().is_empty() {
        return Err(SchemaError::MissingField("package_id".to_owned()));
    }
    if package.workspace_id.as_str().is_empty() {
        return Err(SchemaError::MissingField("workspace_id".to_owned()));
    }
    if package.items.len() == 0 {
        return Err(SchemaError::MissingField("items (must have ≥1 item)".to_owned()));
    }
    if package.metadata.created_by.as_str().is_empty() {
        return Err(SchemaError::MissingField("metadata.created_by".to_owned()));
    }
    if package.metadata.created_at.as_str().is_empty() {
        return Err(SchemaError::MissingField("metadata.created_at".to_owned()));
    }
    if density_is_out_of_range(package.package_readiness_details.traceability_density_bits) {
        return Err(SchemaError::InvalidValue("traceability_density must be 0.0–1.0".to_owned()));
    }
    if !text_equal(package.delivery_target.handoff_format.as_str(), "canvas.bolt_handoff.v0.1") {
        return Err(
            SchemaError::InvalidValue(
                "handoff_format must be \"canvas.bolt_handoff.v0.1\"".to_owned(),
            ),
        );
    }
    Ok(())
}

} // verus!
