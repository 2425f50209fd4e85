use rumble_canvas::cli::{
    cosmatic_args, cosmatic_report, payload_source, store_report, wants_json, PayloadSource,
};
use rumble_canvas::domain::sample_workspace;
use rumble_canvas::handoff::{build_handoff, ImplementationHandoff};
use rumble_canvas::json::JsonValue;
use rumble_canvas::package::{build_package, SpecPackage};
use rumble_canvas::store::CanvasStore;

fn encode_package(p: &SpecPackage) -> Vec<u8> {
    format!("{}|{}|{}", p.package_id, p.version, p.status).into_bytes()
}

fn encode_handoff(h: &ImplementationHandoff) -> Vec<u8> {
    format!("{}|{:?}", h.format, h.execution_policy).into_bytes()
}

#[test]
fn plan_always_runs_dry() {
    assert_eq!(
        cosmatic_args(&["handoff", "plan"], "target/handoff.json", false),
        vec!["handoff", "plan", "target/handoff.json", "--dry-run"]
    );
    assert_eq!(
        cosmatic_args(&["handoff", "plan"], "h.json", true),
        vec!["handoff", "plan", "h.json", "--dry-run", "--json"]
    );
}

#[test]
fn validate_does_not_run_dry() {
    assert_eq!(
        cosmatic_args(&["handoff", "validate"], "h.json", true),
        vec!["handoff", "validate", "h.json", "--json"]
    );
    assert_eq!(
        cosmatic_args(&["handoff", "validate"], "h.json", false),
        vec!["handoff", "validate", "h.json"]
    );
    assert_eq!(
        cosmatic_args(&["handoff", "plan", "extra"], "h.json", false),
        vec!["handoff", "plan", "extra", "h.json"]
    );
}

#[test]
fn storing_asks_for_json() {
    assert!(wants_json(false, true));
    assert!(wants_json(true, false));
    assert!(!wants_json(false, false));
}

#[test]
fn payload_comes_from_the_command_line_first() {
    assert!(matches!(payload_source(Some("p.json".to_string()), true), PayloadSource::Given(p) if p == "p.json"));
    assert!(matches!(payload_source(None, true), PayloadSource::LatestHandoff));
    assert!(matches!(payload_source(None, false), PayloadSource::Missing));
}

#[test]
fn reports_are_numbered_and_filed_by_command() {
    let mut store = CanvasStore::new(sample_workspace());
    let r1 = cosmatic_report(&store, &["handoff", "validate"], "h.json", true, JsonValue::Bool(true));
    assert_eq!(r1.id, "report:validate:1");
    assert_eq!(r1.handoff_id, "<external-payload>");
    assert_eq!(r1.created_at, "2026-06-30T00:00:00Z");
    assert_eq!(r1.source_command, vec!["handoff", "validate", "h.json", "--json"]);
    store_report(&mut store, &["handoff", "validate"], r1);
    assert_eq!(store.validation_reports.len(), 1);

    let package = build_package(&store.workspace, &encode_package).unwrap();
    let handoff = build_handoff(&store.workspace, &package, &encode_handoff).unwrap();
    store.upsert_handoff(handoff);
    let r2 = cosmatic_report(&store, &["handoff", "plan"], "h.json", true, JsonValue::Null);
    assert_eq!(r2.id, "report:plan:2");
    assert_eq!(r2.handoff_id, "handoff:rumble-canvas-mvp:0.1.0");
    assert_eq!(r2.source_command, vec!["handoff", "plan", "h.json", "--dry-run", "--json"]);
    store_report(&mut store, &["handoff", "plan"], r2);
    assert_eq!(store.validation_reports.len(), 1);
    assert_eq!(store.dry_run_plans.len(), 1);
    assert!(matches!(store.validation_reports[0].payload, JsonValue::Bool(true)));
}

#[test]
fn report_numbers_reach_two_digits() {
    let mut store = CanvasStore::new(sample_workspace());
    for _ in 0..11 {
        let r = cosmatic_report(&store, &["handoff", "plan"], "h.json", false, JsonValue::Null);
        store_report(&mut store, &["handoff", "plan"], r);
    }
    assert_eq!(store.dry_run_plans[10].id, "report:plan:11");
    assert_eq!(store.dry_run_plans[9].id, "report:plan:10");
}

#[test]
fn handoff_package_is_the_latest_or_a_fresh_one() {
    let mut store = CanvasStore::new(sample_workspace());
    let fresh = rumble_canvas::cli::package_for_handoff(&mut store, &encode_package).unwrap();
    assert_eq!(store.packages.len(), 1);
    assert_eq!(store.packages[0].package_hash, fresh.package_hash);

    let mut other = fresh.clone();
    other.package_id = "package:other".to_string();
    store.upsert_package(other);
    let latest = rumble_canvas::cli::package_for_handoff(&mut store, &encode_package).unwrap();
    assert_eq!(latest.package_id, "package:other");
    assert_eq!(store.packages.len(), 2);
}

#[test]
fn handoff_package_needs_traceability_when_none_is_stored() {
    let mut workspace = sample_workspace();
    workspace.traceability_links.clear();
    let mut store = CanvasStore::new(workspace);
    assert_eq!(
        rumble_canvas::cli::package_for_handoff(&mut store, &encode_package).unwrap_err(),
        rumble_canvas::package::PackageError::MissingTraceability
    );
    assert!(store.packages.is_empty());
}
