//! Completeness checks of handoffs by the inspection tool: the report it
//! returns, how a report is summarised, and what the `wrench check` command
//! concludes. Running the tool itself is left to the program around the
//! library, which hands its result in.
use crate::domain::SpecWorkspace;
use crate::handoff::{
    build_handoff, encodes_every_handoff, handoff_error_text, handoff_violation, planned_handoff,
    sealed_from, ImplementationHandoff,
};
use crate::package::SpecPackage;
use crate::text::{concat2, push_text, text_equal};
use vstd::prelude::*;

verus! {

/// Why an inspection could not produce a report.
#[derive(Debug)]
pub enum WrenchError {
    NotFound,
    CheckFailed(String),
    ParseError(String),
    HandoffBuild(String),
}

/// The human-readable message of an inspection error.
pub open spec fn wrench_error_text(e: &WrenchError) -> Seq<char> {
    match e {
        WrenchError::NotFound => "wrench-inspect not found in PATH"@,
        WrenchError::CheckFailed(m) => "wrench check failed: "@ + m@,
        WrenchError::ParseError(m) => "wrench output parsing failed: "@ + m@,
        WrenchError::HandoffBuild(m) => "handoff build failed: "@ + m@,
    }
}

impl WrenchError {
    /// The human-readable message of the error.
    pub fn message(&self) -> (m: String)
        ensures
            m@ == wrench_error_text(self),
    {
        match self {
            WrenchError::NotFound => "wrench-inspect not found in PATH".to_owned(),
            WrenchError::CheckFailed(m) => concat2("wrench check failed: ", m.as_str()),
            WrenchError::ParseError(m) => concat2("wrench output parsing failed: ", m.as_str()),
            WrenchError::HandoffBuild(m) => concat2("handoff build failed: ", m.as_str()),
        }
    }
}

/// The counts of findings by severity.
#[derive(Debug)]
pub struct WrenchSummary {
    pub errors: usize,
    pub warnings: usize,
    pub infos: usize,
}

/// One finding of the inspection tool.
#[derive(Debug)]
pub struct WrenchFinding {
    /// `error`, `warning` or `info`.
    pub severity: String,
    pub code: String,
    pub path: String,
    pub message: String,
    pub recommendation: String,
}

pub struct WrenchFindingModel {
    pub severity: Seq<char>,
    pub code: Seq<char>,
    pub path: Seq<char>,
    pub message: Seq<char>,
    pub recommendation: Seq<char>,
}

impl DeepView for WrenchFinding {
    type V = WrenchFindingModel;

    open spec fn deep_view(&self) -> WrenchFindingModel {
        WrenchFindingModel {
            severity: self.severity@,
            code: self.code@,
            path: self.path@,
            message: self.message@,
            recommendation: self.recommendation@,
        }
    }
}

/// The report of an inspection of a handoff.
#[derive(Debug)]
pub struct WrenchReport {
    pub valid: bool,
    pub summary: WrenchSummary,
    pub findings: Vec<WrenchFinding>,
    pub next_actions: Vec<String>,
}

/// The text `s` in upper case, as `str::to_uppercase` gives it.
pub uninterp spec fn uppercase_of(s: Seq<char>) -> Seq<char>;

/// Calls `str::to_uppercase`: the result is the upper-case text that
/// `uppercase_of` names for the argument. Upper-casing follows the Unicode
/// tables of the standard library, which are not restated here.
#[verifier::external_body]
fn to_uppercase(s: &str) -> (u: String)
    ensures
        u@ == uppercase_of(s@),
{
    s.to_uppercase()
}

/// The message of one finding: its severity in upper case, its code, where it
/// was found, what it says, and the recommendation in brackets.
pub open spec fn finding_message(f: WrenchFindingModel) -> Seq<char> {
    uppercase_of(f.severity) + " "@ + f.code + " at "@ + f.path + ": "@ + f.message + " ("@
        + f.recommendation + ")"@
}

/// One message per finding that is not informational, in order.
pub open spec fn finding_messages(fs: Seq<WrenchFindingModel>) -> Seq<Seq<char>>
    decreases fs.len(),
{
    if fs.len() == 0 {
        Seq::empty()
    } else {
        let rest = finding_messages(fs.drop_last());
        if fs.last().severity == "info"@ {
            rest
        } else {
            rest.push(finding_message(fs.last()))
        }
    }
}

fn finding_text(f: &WrenchFinding) -> (m: String)
    ensures
        m@ == finding_message(f.deep_view()),
{
    let mut out = to_uppercase(f.severity.as_str());
    push_text(&mut out, " ");
    push_text(&mut out, f.code.as_str());
    push_text(&mut out, " at ");
    push_text(&mut out, f.path.as_str());
    push_text(&mut out, ": ");
    push_text(&mut out, f.message.as_str());
    push_text(&mut out, " (");
    push_text(&mut out, f.recommendation.as_str());
    push_text(&mut out, ")");
    out
}

/// Summarises a report: whether it passed, and one message per finding that
/// is not informational.
pub fn summarize_report(report: &WrenchReport) -> (r: (bool, Vec<String>))
    ensures
        r.0 == report.valid,
        r.1.deep_view() == finding_messages(report.findings.deep_view()),
{
    let mut messages: Vec<String> = Vec::new();
    let mut i: usize = 0;
    while i < report.findings.len()
        invariant
            i <= report.findings@.len(),
            messages.deep_view() == finding_messages(
                report.findings.deep_view().subrange(0, i as int),
            ),
        decreases report.findings.len() - i,
    {
        let f = &report.findings[i];
        let ghost fs = report.findings.deep_view();
        proof {
            assert(fs.subrange(0, i + 1).drop_last() =~= fs.subrange(0, i as int));
            assert(fs.subrange(0, i + 1).last() == fs[i as int]);
        }
        if !text_equal(f.severity.as_str(), "info") {
            let ghost before = messages.deep_view();
            messages.push(finding_text(f));
            assert(messages.deep_view() =~= before.push(finding_message(fs[i as int])));
        }
        i = i + 1;
    }
    assert(report.findings.deep_view().subrange(0, report.findings@.len() as int)
        =~= report.findings.deep_view());
    (report.valid, messages)
}

/// What an inspection run says when its standard output is empty: the tool
/// prints its report there even for an invalid handoff, so an empty output is
/// a failed check that carries what the tool wrote on its standard error.
pub fn empty_output_error(stdout: &[u8], stderr_text: String) -> (r: Option<WrenchError>)
    ensures
        stdout@.len() == 0 ==> (r matches Some(WrenchError::CheckFailed(m)) && m@
            == stderr_text@),
        stdout@.len() > 0 ==> r is None,
{
    if stdout.len() == 0 {
        Some(WrenchError::CheckFailed(stderr_text))
    } else {
        None
    }
}

/// `inspect` can be called on every handoff.
pub open spec fn inspects_every_handoff<G: Fn(&ImplementationHandoff) -> Result<
    WrenchReport,
    WrenchError,
>>(inspect: G) -> bool {
    forall|h: &ImplementationHandoff| #[trigger] call_requires(inspect, (h,))
}

/// Checks a package for completeness: builds its planning handoff, and hands
/// that to `inspect`, which runs the inspection tool. A handoff that Canvas
/// refuses to build is an error that carries the refusal's message.
pub fn check_package_completeness<
    F: Fn(&ImplementationHandoff) -> Vec<u8>,
    G: Fn(&ImplementationHandoff) -> Result<WrenchReport, WrenchError>,
>(workspace: &SpecWorkspace, package: &SpecPackage, encode: &F, inspect: &G) -> (r: Result<
    WrenchReport,
    WrenchError,
>)
    requires
        encodes_every_handoff(*encode),
        inspects_every_handoff(*inspect),
    ensures
        handoff_violation(planned_handoff(workspace, package)) matches Some(e) ==> (r matches Err(
            WrenchError::HandoffBuild(m),
        ) && m@ == handoff_error_text(e)),
        handoff_violation(planned_handoff(workspace, package)) is None ==> exists|
            h: ImplementationHandoff,
        |
            #![trigger call_ensures(*inspect, (&h,), r)]
            sealed_from(h.deep_view(), planned_handoff(workspace, package), *encode)
                && call_ensures(*inspect, (&h,), r),
{
    match build_handoff(workspace, package, encode) {
        Err(e) => Err(WrenchError::HandoffBuild(e.message().to_owned())),
        Ok(handoff) => {
            let r = inspect(&handoff);
            assert(call_ensures(*inspect, (&handoff,), r));
            r
        },
    }
}

/// What `wrench check` concludes.
#[derive(Debug)]
pub enum WrenchVerdict {
    /// The store holds no package to check.
    NoPackage,
    /// The checks passed; the messages are shown.
    Passed(Vec<String>),
    /// The checks failed; the messages are shown.
    Failed(Vec<String>),
    /// The inspection tool is not installed: the checks are skipped.
    Skipped,
    /// The inspection could not run.
    Broken(WrenchError),
}

/// What `wrench check` concludes from the inspection of the store's latest
/// package (`None` when the store holds no package): a report passes or fails
/// as it says, with its messages; when the inspection tool is not installed the
/// checks are skipped (with a warning, never as a pass); any other error is
/// passed on.
pub fn wrench_verdict(outcome: Option<Result<WrenchReport, WrenchError>>) -> (v: WrenchVerdict)
    ensures
        outcome is None ==> v is NoPackage,
        outcome matches Some(Ok(report)) ==> (report.valid ==> (v matches WrenchVerdict::Passed(
            ms,
        ) && ms.deep_view() == finding_messages(report.findings.deep_view()))),
        outcome matches Some(Ok(report)) ==> (!report.valid ==> (v matches WrenchVerdict::Failed(
            ms,
        ) && ms.deep_view() == finding_messages(report.findings.deep_view()))),
        outcome matches Some(Err(e)) ==> (v is Skipped <==> e is NotFound),
        outcome matches Some(Err(e)) ==> (!(e is NotFound) ==> v == WrenchVerdict::Broken(e)),
{
    match outcome {
        None => WrenchVerdict::NoPackage,
        Some(Ok(report)) => {
            let (passed, messages) = summarize_report(&report);
            if passed {
                WrenchVerdict::Passed(messages)
            } else {
                WrenchVerdict::Failed(messages)
            }
        },
        Some(Err(WrenchError::NotFound)) => WrenchVerdict::Skipped,
        Some(Err(e)) => WrenchVerdict::Broken(e),
    }
}


/// A summary has one message per finding that is not informational, in the
/// findings' order, each reading `SEVERITY code at path: message
/// (recommendation)` with the severity in upper case.
pub proof fn lemma_finding_messages_are_the_non_info_findings(fs: Seq<WrenchFindingModel>)
    ensures
        finding_messages(fs) == fs.filter(|f: WrenchFindingModel| f.severity != "info"@).map_values(
            |f: WrenchFindingModel|
                uppercase_of(f.severity) + " "@ + f.code + " at "@ + f.path + ": "@ + f.message
                    + " ("@ + f.recommendation + ")"@,
        ),
    decreases fs.len(),
{
    reveal(Seq::filter);
    if fs.len() > 0 {
        lemma_finding_messages_are_the_non_info_findings(fs.drop_last());
        let m = |f: WrenchFindingModel|
            uppercase_of(f.severity) + " "@ + f.code + " at "@ + f.path + ": "@ + f.message + " ("@
                + f.recommendation + ")"@;
        let rest = fs.drop_last().filter(|f: WrenchFindingModel| f.severity != "info"@);
        if fs.last().severity != "info"@ {
            assert(rest.push(fs.last()).map_values(m) =~= rest.map_values(m).push(m(fs.last())));
        }
    }
}

} // verus!
