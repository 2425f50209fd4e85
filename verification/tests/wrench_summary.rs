use rumble_canvas::domain::sample_workspace;
use rumble_canvas::handoff::ImplementationHandoff;
use rumble_canvas::package::{build_package, SpecPackage};
use rumble_canvas::wrench::{
    check_package_completeness, empty_output_error, summarize_report,
    wrench_verdict, WrenchError, WrenchFinding, WrenchReport, WrenchSummary, WrenchVerdict,
};

fn encode_package(p: &SpecPackage) -> Vec<u8> {
    format!("{}|{}", p.package_id, p.status).into_bytes()
}

fn encode_handoff(h: &ImplementationHandoff) -> Vec<u8> {
    format!("{}|{:?}", h.format, h.execution_policy).into_bytes()
}

fn finding(severity: &str, code: &str) -> WrenchFinding {
    WrenchFinding {
        severity: severity.to_string(),
        code: code.to_string(),
        path: "$.traceability_links".to_string(),
        message: "missing link".to_string(),
        recommendation: "add one".to_string(),
    }
}

fn report(valid: bool, findings: Vec<WrenchFinding>) -> WrenchReport {
    WrenchReport {
        valid,
        summary: WrenchSummary { errors: 0, warnings: 0, infos: 0 },
        findings,
        next_actions: vec![],
    }
}

#[test]
fn summary_skips_infos_and_formats_findings() {
    let r = report(
        false,
        vec![finding("error", "E1"), finding("info", "I1"), finding("warning", "W1")],
    );
    let (passed, messages) = summarize_report(&r);
    assert!(!passed);
    assert_eq!(
        messages,
        vec![
            "ERROR E1 at $.traceability_links: missing link (add one)",
            "WARNING W1 at $.traceability_links: missing link (add one)",
        ]
    );
}

#[test]
fn severity_is_upper_cased_beyond_ascii() {
    let r = report(true, vec![finding("straße", "X")]);
    let (passed, messages) = summarize_report(&r);
    assert!(passed);
    assert_eq!(messages, vec!["STRASSE X at $.traceability_links: missing link (add one)"]);
}

#[test]
fn verdicts_follow_the_outcome() {
    assert!(matches!(wrench_verdict(None), WrenchVerdict::NoPackage));
    assert!(matches!(
        wrench_verdict(Some(Ok(report(true, vec![finding("info", "I")])))),
        WrenchVerdict::Passed(m) if m.is_empty()
    ));
    assert!(matches!(
        wrench_verdict(Some(Ok(report(false, vec![finding("error", "E")])))),
        WrenchVerdict::Failed(m) if m.len() == 1
    ));
    assert!(matches!(wrench_verdict(Some(Err(WrenchError::NotFound))), WrenchVerdict::Skipped));
    assert!(matches!(
        wrench_verdict(Some(Err(WrenchError::CheckFailed("file not found".to_string())))),
        WrenchVerdict::Broken(WrenchError::CheckFailed(m)) if m == "file not found"
    ));
    assert!(matches!(
        wrench_verdict(Some(Err(WrenchError::ParseError("bad json".to_string())))),
        WrenchVerdict::Broken(WrenchError::ParseError(m)) if m == "bad json"
    ));
}

#[test]
fn wrench_errors_have_messages() {
    assert_eq!(WrenchError::NotFound.message(), "wrench-inspect not found in PATH");
    assert_eq!(WrenchError::CheckFailed("x".to_string()).message(), "wrench check failed: x");
    assert_eq!(WrenchError::ParseError("y".to_string()).message(), "wrench output parsing failed: y");
    assert_eq!(WrenchError::HandoffBuild("z".to_string()).message(), "handoff build failed: z");
}

#[test]
fn empty_output_is_a_failed_check() {
    match empty_output_error(b"", "boom".to_string()) {
        Some(WrenchError::CheckFailed(m)) => assert_eq!(m, "boom"),
        other => panic!("unexpected {other:?}"),
    }
    assert!(empty_output_error(b"{}", "boom".to_string()).is_none());
}

#[test]
fn completeness_check_inspects_the_built_handoff() {
    let workspace = sample_workspace();
    let package = build_package(&workspace, &encode_package).unwrap();
    let inspect = |h: &ImplementationHandoff| -> Result<WrenchReport, WrenchError> {
        assert_eq!(h.format, "canvas.bolt_handoff.v0.1");
        assert!(h.payload_hash.is_some());
        Ok(report(true, vec![]))
    };
    let r = check_package_completeness(&workspace, &package, &encode_handoff, &inspect).unwrap();
    assert!(r.valid);
}

#[test]
fn completeness_check_reports_a_refused_handoff() {
    let mut workspace = sample_workspace();
    let package = build_package(&workspace, &encode_package).unwrap();
    workspace.traceability_links.clear();
    let inspect = |_: &ImplementationHandoff| -> Result<WrenchReport, WrenchError> {
        panic!("a refused handoff is never inspected")
    };
    match check_package_completeness(&workspace, &package, &encode_handoff, &inspect) {
        Err(WrenchError::HandoffBuild(m)) => assert_eq!(m, "traceability is required before handoff"),
        other => panic!("unexpected {other:?}"),
    }
}
