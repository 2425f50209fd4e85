//! What the command line decides: the arguments handed to the planning tool,
//! where the payload comes from, and how a returned report is filed in the
//! store. Running the tool and touching files is left to the program.
use crate::handoff::ImplementationHandoff;
use crate::json::JsonValue;
use crate::package::{build_package, built_from, encodes_every_package, PackageError, SpecPackage};
use crate::store::{has_key, CanvasStore, Keyed, StoredReport};
use crate::text::{decimal_text, owned_texts, push_decimal, push_text, text_equal};
use crate::SAMPLE_TS;
use vstd::prelude::*;

verus! {

/// The subcommands of `wrench`.
#[derive(Debug)]
pub enum WrenchCommand {
    /// Run completeness checks on the latest package of a store.
    Check { store: String },
}

/// The texts of a command prefix.
pub open spec fn texts_of(prefix: Seq<&str>) -> Seq<Seq<char>> {
    prefix.map_values(|s: &str| s@)
}

/// The prefix of the planning command.
pub open spec fn is_plan_prefix(prefix: Seq<Seq<char>>) -> bool {
    prefix == seq!["handoff"@, "plan"@]
}

/// The prefix of the validation command.
pub open spec fn is_validate_prefix(prefix: Seq<Seq<char>>) -> bool {
    prefix == seq!["handoff"@, "validate"@]
}

/// The arguments for the planning tool: the command prefix, the payload path,
/// `--dry-run` for the planning command, and `--json` when asked.
pub open spec fn cosmatic_command(prefix: Seq<Seq<char>>, payload: Seq<char>, json: bool) -> Seq<
    Seq<char>,
> {
    prefix.push(payload) + (if is_plan_prefix(prefix) {
        seq!["--dry-run"@]
    } else {
        Seq::empty()
    }) + (if json {
        seq!["--json"@]
    } else {
        Seq::empty()
    })
}

/// Whether `prefix` is exactly `[first, second]`.
fn prefix_is(prefix: &[&str], first: &str, second: &str) -> (r: bool)
    ensures
        r == (texts_of(prefix@) == seq![first@, second@]),
{
    if prefix.len() != 2 {
        proof {
            assert(texts_of(prefix@).len() != 2);
        }
        return false;
    }
    let r = text_equal(prefix[0], first) && text_equal(prefix[1], second);
    proof {
        let t = texts_of(prefix@);
        assert(t[0] == prefix@[0]@);
        assert(t[1] == prefix@[1]@);
        if r {
            assert(t =~= seq![first@, second@]);
        }
    }
    r
}

/// The arguments for the planning tool. The planning command always runs dry.
pub fn cosmatic_args(prefix: &[&str], payload: &str, json: bool) -> (args: Vec<String>)
    ensures
        args.deep_view() == cosmatic_command(texts_of(prefix@), payload@, json),
{
    let mut args = owned_texts(prefix);
    let ghost start = args.deep_view();
    args.push(payload.to_owned());
    assert(args.deep_view() =~= start.push(payload@));
    let ghost with_payload = args.deep_view();
    if prefix_is(prefix, "handoff", "plan") {
        args.push("--dry-run".to_owned());
        assert(args.deep_view() =~= with_payload + seq!["--dry-run"@]);
    } else {
        assert(args.deep_view() =~= with_payload + Seq::<Seq<char>>::empty());
    }
    let ghost with_mode = args.deep_view();
    if json {
        args.push("--json".to_owned());
        assert(args.deep_view() =~= with_mode + seq!["--json"@]);
    } else {
        assert(args.deep_view() =~= with_mode + Seq::<Seq<char>>::empty());
    }
    args
}

/// Whether the planning tool is asked for JSON: when the caller asks, or when
/// the report is to be stored.
pub fn wants_json(json: bool, storing: bool) -> (r: bool)
    ensures
        r == (json || storing),
{
    json || storing
}

/// Where the handoff payload for the planning tool comes from.
#[derive(Debug)]
pub enum PayloadSource {
    /// A payload file named on the command line.
    Given(String),
    /// The latest handoff of the store, written out first.
    LatestHandoff,
    /// Neither a payload nor a store was named.
    Missing,
}

/// A named payload wins; otherwise the store's latest handoff is used.
pub fn payload_source(payload: Option<String>, has_store: bool) -> (s: PayloadSource)
    ensures
        payload matches Some(p) ==> (s matches PayloadSource::Given(q) && q == p),
        payload is None && has_store ==> s is LatestHandoff,
        payload is None && !has_store ==> s is Missing,
{
    match payload {
        Some(p) => PayloadSource::Given(p),
        None => if has_store {
            PayloadSource::LatestHandoff
        } else {
            PayloadSource::Missing
        },
    }
}

/// The package that a handoff is built from: the store's latest package, or,
/// when the store has none, a package freshly built from its workspace, which
/// is then filed in the store too.
pub fn package_for_handoff<F: Fn(&SpecPackage) -> Vec<u8>>(store: &mut CanvasStore, encode: &F) -> (r:
    Result<SpecPackage, PackageError>)
    requires
        encodes_every_package(*encode),
    ensures
        old(store).packages@.len() > 0 ==> (r matches Ok(p) && p.deep_view()
            == old(store).packages@.last().deep_view()),
        old(store).packages@.len() > 0 || r is Err ==> *final(store) == *old(store),
        old(store).packages@.len() == 0 ==> (r is Err
            <==> old(store).workspace.traceability_links@.len() == 0),
        old(store).packages@.len() == 0 ==> (r is Err ==> r == Err::<SpecPackage, PackageError>(
            PackageError::MissingTraceability,
        )),
        old(store).packages@.len() == 0 ==> (r matches Ok(p) ==> built_from(
            p.deep_view(),
            &old(store).workspace,
            *encode,
        ) && final(store).packages@.len() == 1 && final(store).packages@[0].deep_view()
            == p.deep_view() && final(store).workspace == old(store).workspace
            && final(store).handoffs@ == old(store).handoffs@),
{
    let n = store.packages.len();
    if n > 0 {
        return Ok(store.packages[n - 1].clone());
    }
    let package = match build_package(&store.workspace, encode) {
        Ok(p) => p,
        Err(e) => {
            return Err(e);
        },
    };
    let filed = package.clone();
    store.upsert_package(filed);
    proof {
        assert(!has_key(old(store).packages@, filed.key_of()));
        assert(store.packages@ =~= seq![filed]);
    }
    Ok(package)
}

/// The identifier of the `n`th report of the given kind.
pub open spec fn report_id(kind: Seq<char>, n: nat) -> Seq<char> {
    "report:"@ + kind + ":"@ + decimal_text(n)
}

/// The handoff a report is about: the store's latest handoff, or a marker for
/// a payload from outside the store.
pub open spec fn report_handoff_id(store: &CanvasStore) -> Seq<char> {
    if store.handoffs@.len() > 0 {
        store.handoffs@.last().source.handoff_id@
    } else {
        "<external-payload>"@
    }
}

/// How many reports a store holds.
pub open spec fn report_count(store: &CanvasStore) -> nat {
    store.validation_reports@.len() + store.dry_run_plans@.len()
}

/// The report filed for what the planning tool returned: numbered after the
/// reports already stored, tied to the store's latest handoff, stamped with the
/// reference time, and recording the command that produced it.
pub fn cosmatic_report(
    store: &CanvasStore,
    prefix: &[&str],
    payload_path: &str,
    json: bool,
    payload: JsonValue,
) -> (r: StoredReport)
    requires
        prefix@.len() >= 2,
        report_count(store) + 1 <= usize::MAX,
    ensures
        r.id@ == report_id(prefix@[1]@, report_count(store) + 1),
        r.handoff_id@ == report_handoff_id(store),
        r.created_at@ == SAMPLE_TS@,
        r.source_command.deep_view() == cosmatic_command(texts_of(prefix@), payload_path@, json),
        r.payload == payload,
{
    let n = store.validation_reports.len() + store.dry_run_plans.len() + 1;
    let mut id = String::new();
    push_text(&mut id, "report:");
    push_text(&mut id, prefix[1]);
    push_text(&mut id, ":");
    push_decimal(&mut id, n);
    let handoff_id = match store.latest_handoff() {
        Some(h) => latest_id(h),
        None => "<external-payload>".to_owned(),
    };
    StoredReport {
        id,
        handoff_id,
        created_at: SAMPLE_TS.to_owned(),
        source_command: cosmatic_args(prefix, payload_path, json),
        payload,
    }
}

fn latest_id(h: &ImplementationHandoff) -> (id: String)
    ensures
        id@ == h.source.handoff_id@,
{
    h.source.handoff_id.clone()
}

/// Files a report: validation reports under validation, everything else under
/// dry-run plans.
pub fn store_report(store: &mut CanvasStore, prefix: &[&str], report: StoredReport)
    ensures
        is_validate_prefix(texts_of(prefix@)) ==> final(store).validation_reports@ == old(
            store,
        ).validation_reports@.push(report) && final(store).dry_run_plans@ == old(
            store,
        ).dry_run_plans@,
        !is_validate_prefix(texts_of(prefix@)) ==> final(store).dry_run_plans@ == old(
            store,
        ).dry_run_plans@.push(report) && final(store).validation_reports@ == old(
            store,
        ).validation_reports@,
        report_count(final(store)) == report_count(old(store)) + 1,
        final(store).version == old(store).version,
        final(store).workspace == old(store).workspace,
        final(store).packages@ == old(store).packages@,
        final(store).handoffs@ == old(store).handoffs@,
{
    if prefix_is(prefix, "handoff", "validate") {
        store.push_validation_report(report);
    } else {
        store.push_dry_run_plan(report);
    }
}

// ------------------------------------------------------------ laws

/// The planning command always runs dry: whatever the payload and output
/// format, its arguments carry `--dry-run` right after the payload path.
pub proof fn lemma_plan_is_always_dry_run(payload: Seq<char>, json: bool)
    ensures
        cosmatic_command(seq!["handoff"@, "plan"@], payload, json)[3] == "--dry-run"@,
        cosmatic_command(seq!["handoff"@, "plan"@], payload, json).contains("--dry-run"@),
{
    let c = cosmatic_command(seq!["handoff"@, "plan"@], payload, json);
    assert(c[3] == "--dry-run"@);
}


/// The arguments for the planning tool are the command prefix, then the
/// payload path, then `--dry-run` exactly for the planning command
/// `handoff plan`, then `--json` exactly when asked for; validation is never
/// run dry.
pub proof fn lemma_cosmatic_command_shape(prefix: Seq<Seq<char>>, payload: Seq<char>, json: bool)
    ensures
        ({
            let c = cosmatic_command(prefix, payload, json);
            let dry: int = if prefix == seq!["handoff"@, "plan"@] { 1 } else { 0 };
            &&& c.len() == prefix.len() + 1 + dry + (if json { 1int } else { 0int })
            &&& c.subrange(0, prefix.len() as int) == prefix
            &&& c[prefix.len() as int] == payload
            &&& (dry == 1 ==> c[prefix.len() + 1int] == "--dry-run"@)
            &&& (json ==> c[c.len() - 1] == "--json"@)
        }),
        is_validate_prefix(seq!["handoff"@, "validate"@]),
        !is_validate_prefix(seq!["handoff"@, "plan"@]),
{
    let c = cosmatic_command(prefix, payload, json);
    assert(c.subrange(0, prefix.len() as int) =~= prefix);
    reveal_strlit("plan");
    reveal_strlit("validate");
    assert(seq!["handoff"@, "plan"@] != seq!["handoff"@, "validate"@]) by {
        assert("plan"@[0] != "validate"@[0]);
    }
}
} // verus!
