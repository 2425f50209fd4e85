use rumble_canvas::domain::sample_workspace;
use rumble_canvas::handoff::{build_handoff, ImplementationHandoff};
use rumble_canvas::json::JsonValue;
use rumble_canvas::package::{build_package, SpecPackage};
use rumble_canvas::store::{
    handoff_id, upsert_by, CanvasStore, JsonFileStore, StoreError, StoredReport, STORE_VERSION,
};

fn encode_package(p: &SpecPackage) -> Vec<u8> {
    format!("{}|{}|{}|{:?}", p.package_id, p.version, p.status, p.approved_by).into_bytes()
}

fn encode_handoff(h: &ImplementationHandoff) -> Vec<u8> {
    format!("{}|{}|{:?}", h.format, h.package.package_hash, h.execution_policy).into_bytes()
}

fn report(id: &str) -> StoredReport {
    StoredReport {
        id: id.to_string(),
        handoff_id: "handoff:x".to_string(),
        created_at: "2026-06-30T00:00:00Z".to_string(),
        source_command: vec!["handoff".to_string()],
        payload: JsonValue::Null,
    }
}

#[test]
fn new_store_holds_only_the_workspace() {
    let store = CanvasStore::new(sample_workspace());
    assert_eq!(store.version, STORE_VERSION);
    assert_eq!(store.version, 1);
    assert_eq!(store.workspace.id, "workspace:rumble-canvas-mvp");
    assert!(store.packages.is_empty());
    assert!(store.handoffs.is_empty());
    assert!(store.validation_reports.is_empty());
    assert!(store.dry_run_plans.is_empty());
    assert!(store.latest_handoff().is_none());
}

#[test]
fn upserting_a_package_twice_keeps_one() {
    let mut store = CanvasStore::new(sample_workspace());
    let a = build_package(&store.workspace, &encode_package).unwrap();
    let b = build_package(&store.workspace, &encode_package).unwrap();
    store.upsert_package(a);
    store.upsert_package(b);
    assert_eq!(store.packages.len(), 1);
}

#[test]
fn upserting_a_package_with_a_new_id_appends_it() {
    let mut store = CanvasStore::new(sample_workspace());
    let a = build_package(&store.workspace, &encode_package).unwrap();
    let mut b = build_package(&store.workspace, &encode_package).unwrap();
    b.package_id = "package:other".to_string();
    store.upsert_package(a);
    store.upsert_package(b);
    assert_eq!(store.packages.len(), 2);
    assert_eq!(store.packages[1].package_id, "package:other");
}

#[test]
fn upsert_replaces_in_place_and_leaves_the_rest() {
    let mut store = CanvasStore::new(sample_workspace());
    let mut first = build_package(&store.workspace, &encode_package).unwrap();
    first.package_id = "package:first".to_string();
    let second = build_package(&store.workspace, &encode_package).unwrap();
    store.upsert_package(first);
    store.upsert_package(second);
    let mut replacement = build_package(&store.workspace, &encode_package).unwrap();
    replacement.version = "0.2.0".to_string();
    store.upsert_package(replacement);
    assert_eq!(store.packages.len(), 2);
    assert_eq!(store.packages[0].package_id, "package:first");
    assert_eq!(store.packages[0].version, "0.1.0");
    assert_eq!(store.packages[1].version, "0.2.0");
}

#[test]
fn upserting_a_handoff_replaces_the_one_with_the_same_id() {
    let mut store = CanvasStore::new(sample_workspace());
    let package = build_package(&store.workspace, &encode_package).unwrap();
    let h1 = build_handoff(&store.workspace, &package, &encode_handoff).unwrap();
    let mut h2 = build_handoff(&store.workspace, &package, &encode_handoff).unwrap();
    h2.kind = "second".to_string();
    store.upsert_handoff(h1);
    store.upsert_handoff(h2);
    assert_eq!(store.handoffs.len(), 1);
    assert_eq!(store.latest_handoff().unwrap().kind, "second");
    assert_eq!(
        handoff_id(store.latest_handoff().unwrap()).as_deref(),
        Some("handoff:rumble-canvas-mvp:0.1.0")
    );
}

#[test]
fn latest_handoff_is_the_last_one() {
    let mut store = CanvasStore::new(sample_workspace());
    let package = build_package(&store.workspace, &encode_package).unwrap();
    let h1 = build_handoff(&store.workspace, &package, &encode_handoff).unwrap();
    let mut h2 = build_handoff(&store.workspace, &package, &encode_handoff).unwrap();
    h2.source.handoff_id = "handoff:second".to_string();
    store.upsert_handoff(h1);
    store.upsert_handoff(h2);
    assert_eq!(store.handoffs.len(), 2);
    assert_eq!(store.latest_handoff().unwrap().source.handoff_id, "handoff:second");
}

#[test]
fn reports_are_appended_to_their_list() {
    let mut store = CanvasStore::new(sample_workspace());
    store.push_validation_report(report("report:validate:1"));
    store.push_dry_run_plan(report("report:plan:2"));
    store.push_validation_report(report("report:validate:3"));
    assert_eq!(store.validation_reports.len(), 2);
    assert_eq!(store.validation_reports[1].id, "report:validate:3");
    assert_eq!(store.dry_run_plans.len(), 1);
    assert_eq!(store.dry_run_plans[0].id, "report:plan:2");
}

#[test]
fn upsert_by_on_a_plain_list() {
    let mut packages: Vec<SpecPackage> = Vec::new();
    let p = build_package(&sample_workspace(), &encode_package).unwrap();
    upsert_by(&mut packages, p);
    let mut q = build_package(&sample_workspace(), &encode_package).unwrap();
    q.status = "exported".to_string();
    upsert_by(&mut packages, q);
    assert_eq!(packages.len(), 1);
    assert_eq!(packages[0].status, "exported");
}

#[test]
fn store_of_another_version_is_refused() {
    let mut store = CanvasStore::new(sample_workspace());
    store.version = 2;
    match store.check_version() {
        Err(StoreError::UnsupportedVersion { found, expected }) => {
            assert_eq!(found, 2);
            assert_eq!(expected, 1);
        }
        other => panic!("unexpected {other:?}"),
    }
    let store = CanvasStore::new(sample_workspace());
    assert!(store.check_version().is_ok());
}

#[test]
fn json_file_store_keeps_its_path() {
    let file = JsonFileStore::new("target/canvas.json".to_string());
    assert_eq!(file.path(), "target/canvas.json");
}
