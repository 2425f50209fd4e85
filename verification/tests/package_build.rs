use rumble_canvas::digest::{sha256_hex, sha256_tag};
use rumble_canvas::domain::sample_workspace;
use rumble_canvas::package::{build_package, compute_package_hash, PackageError, SpecPackage};
use rumble_canvas::schema::{validate_package, SchemaError};

fn encode_package(p: &SpecPackage) -> Vec<u8> {
    let items: Vec<&str> = p.items.iter().map(|i| i.id.as_str()).collect();
    format!(
        "{}|{}|{}|{}|{:?}|{:?}|{}|{}|{}|{}",
        p.package_id,
        p.workspace_id,
        p.version,
        p.status,
        p.approved_by,
        p.approved_at,
        items.join(","),
        p.readiness.traceability_links,
        p.metadata.created_by,
        p.delivery_target.handoff_format
    )
    .into_bytes()
}

#[test]
fn package_hash_is_stable_for_identical_workspace() {
    let a = build_package(&sample_workspace(), &encode_package).unwrap();
    let b = build_package(&sample_workspace(), &encode_package).unwrap();
    assert_eq!(a.package_hash, b.package_hash);
}

#[test]
fn package_requires_traceability() {
    let mut workspace = sample_workspace();
    workspace.traceability_links.clear();
    assert_eq!(
        build_package(&workspace, &encode_package).unwrap_err(),
        PackageError::MissingTraceability
    );
}

#[test]
fn approved_package_is_immutable() {
    let mut package = build_package(&sample_workspace(), &encode_package).unwrap();
    let item = package.items[0].clone();
    assert_eq!(
        package.add_item(item, &encode_package).unwrap_err(),
        PackageError::ImmutableAfterApproval
    );
}

#[test]
fn sha256_hash_format_regression_golden() {
    let payload = b"golden test payload";
    let result = sha256_tag(payload);
    assert_eq!(
        result,
        "sha256:68f2e7eb43975fb21deeee23a698c5c2ec1d9f6989b904344c9920da42538650"
    );
}

#[test]
fn test_sample_package_passes_schema_validation() {
    let workspace = sample_workspace();
    let package = build_package(&workspace, &encode_package).expect("package builds");

    validate_package(&package).expect("sample package passes schema validation");
}

#[test]
fn test_package_schema_requires_metadata() {
    let workspace = sample_workspace();
    let mut package = build_package(&workspace, &encode_package).expect("package builds");

    package.metadata.created_by.clear();

    let result = validate_package(&package);
    assert!(
        result.is_err(),
        "Schema validation fails when metadata.created_by is missing"
    );
}

#[test]
fn test_package_schema_requires_delivery_target() {
    let workspace = sample_workspace();
    let mut package = build_package(&workspace, &encode_package).expect("package builds");

    package.delivery_target.handoff_format = "wrong-format".to_string();

    let result = validate_package(&package);
    assert!(
        result.is_err(),
        "Schema validation fails when handoff_format is incorrect"
    );
}

#[test]
fn test_package_schema_requires_valid_traceability_density() {
    let workspace = sample_workspace();
    let mut package = build_package(&workspace, &encode_package).expect("package builds");

    package.package_readiness_details.traceability_density_bits = 1.5f64.to_bits();

    let result = validate_package(&package);
    assert!(
        result.is_err(),
        "Schema validation fails when traceability_density is > 1.0"
    );
}

#[test]
fn built_package_is_approved_by_the_owner() {
    let workspace = sample_workspace();
    let package = build_package(&workspace, &encode_package).unwrap();
    assert_eq!(package.package_id, "package:rumble-canvas-mvp:0.1.0");
    assert_eq!(package.status, "approved");
    assert_eq!(package.approved_by.as_deref(), Some("actor:owner"));
    assert_eq!(package.approved_at.as_deref(), Some("2026-06-30T00:00:00Z"));
    assert_eq!(package.items.len(), 1);
    assert_eq!(package.items[0].id, "pkgitem:product-charter");
    assert_eq!(package.items[0].revision_id, "revision:product-charter:1");
    assert_eq!(package.readiness.traceability_links, 1);
    assert_eq!(package.readiness.blocking_questions, 0);
    assert_eq!(package.readiness.high_risks, 0);
    assert_eq!(package.package_readiness_details.traceability_density_bits, 1.0f64.to_bits());
    assert_eq!(package.package_hash, compute_package_hash(&package, &encode_package));
}

#[test]
fn package_hash_is_the_tagged_digest_of_the_encoding() {
    let package = build_package(&sample_workspace(), &encode_package).unwrap();
    let hash = compute_package_hash(&package, &encode_package);
    assert_eq!(hash, format!("sha256:{}", sha256_hex(&encode_package(&package))));
    assert_eq!(hash.len(), "sha256:".len() + 64);
}

#[test]
fn draft_package_accepts_items_and_rehashes() {
    let mut package = build_package(&sample_workspace(), &encode_package).unwrap();
    package.status = "draft".to_string();
    let before = compute_package_hash(&package, &encode_package);
    let mut item = package.items[0].clone();
    item.id = "pkgitem:extra".to_string();
    assert_eq!(package.add_item(item, &encode_package), Ok(()));
    assert_eq!(package.items.len(), 2);
    assert_ne!(package.package_hash, before);
    assert_eq!(package.package_hash, compute_package_hash(&package, &encode_package));
}

#[test]
fn exported_and_submitted_packages_are_frozen_too() {
    for status in ["exported", "handoff_submitted"] {
        let mut package = build_package(&sample_workspace(), &encode_package).unwrap();
        package.status = status.to_string();
        let item = package.items[0].clone();
        assert_eq!(package.add_item(item, &encode_package), Err(PackageError::ImmutableAfterApproval));
        assert_eq!(package.items.len(), 1);
    }
}

#[test]
fn schema_errors_name_the_field() {
    let mut package = build_package(&sample_workspace(), &encode_package).unwrap();
    package.metadata.created_by.clear();
    let e = validate_package(&package).unwrap_err();
    assert_eq!(e, SchemaError::MissingField("metadata.created_by".to_string()));
    assert_eq!(e.message(), "required field missing: metadata.created_by");

    let mut package = build_package(&sample_workspace(), &encode_package).unwrap();
    package.items.clear();
    assert_eq!(
        validate_package(&package).unwrap_err(),
        SchemaError::MissingField("items (must have ≥1 item)".to_string())
    );

    let mut package = build_package(&sample_workspace(), &encode_package).unwrap();
    package.package_readiness_details.traceability_density_bits = (-0.25f64).to_bits();
    let e = validate_package(&package).unwrap_err();
    assert_eq!(e, SchemaError::InvalidValue("traceability_density must be 0.0–1.0".to_string()));
    assert_eq!(e.message(), "invalid field value: traceability_density must be 0.0–1.0");
}

#[test]
fn schema_accepts_density_edges() {
    for density in [0.0f64, -0.0f64, 1.0f64, 0.5f64] {
        let mut package = build_package(&sample_workspace(), &encode_package).unwrap();
        package.package_readiness_details.traceability_density_bits = density.to_bits();
        assert_eq!(validate_package(&package), Ok(()), "{density}");
    }
}

#[test]
fn schema_refuses_nan_and_infinite_density() {
    for density in [f64::NAN, -f64::NAN, f64::INFINITY, f64::NEG_INFINITY, 1.0000001f64] {
        let mut package = build_package(&sample_workspace(), &encode_package).unwrap();
        package.package_readiness_details.traceability_density_bits = density.to_bits();
        assert_eq!(
            validate_package(&package),
            Err(SchemaError::InvalidValue("traceability_density must be 0.0–1.0".to_string())),
            "{density}"
        );
    }
}

#[test]
fn package_errors_have_messages() {
    assert_eq!(PackageError::ImmutableAfterApproval.message(), "approved package is immutable");
    assert_eq!(
        PackageError::MissingTraceability.message(),
        "package requires at least one traceability link"
    );
}

fn encode_with_hash_field(p: &SpecPackage) -> Vec<u8> {
    format!("{}|{}|{}", p.package_id, p.status, p.package_hash).into_bytes()
}

#[test]
fn package_hash_never_covers_its_own_field() {
    let a = build_package(&sample_workspace(), &encode_with_hash_field).unwrap();
    let mut b = build_package(&sample_workspace(), &encode_with_hash_field).unwrap();
    b.package_hash = "sha256:something-else".to_string();
    assert_eq!(
        compute_package_hash(&a, &encode_with_hash_field),
        compute_package_hash(&b, &encode_with_hash_field)
    );
    assert_eq!(a.package_hash, compute_package_hash(&a, &encode_with_hash_field));
    let expected = sha256_tag(b"package:rumble-canvas-mvp:0.1.0|approved|");
    assert_eq!(a.package_hash, expected);
}

#[test]
fn extended_package_carries_its_recomputed_hash() {
    let mut package = build_package(&sample_workspace(), &encode_with_hash_field).unwrap();
    package.status = "draft".to_string();
    let item = package.items[0].clone();
    package.add_item(item, &encode_with_hash_field).unwrap();
    assert_eq!(package.package_hash, compute_package_hash(&package, &encode_with_hash_field));
}
