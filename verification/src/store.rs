//! The local JSON store: one workspace with its packages, handoffs,
//! validation reports and dry-run plans. Reading and writing the file is left
//! to the program around the library; what a store holds, and how packages and
//! handoffs are inserted or replaced, is here.
use crate::domain::SpecWorkspace;
use crate::handoff::ImplementationHandoff;
use crate::json::JsonValue;
use crate::package::SpecPackage;
use crate::text::text_equal;
use vstd::prelude::*;

verus! {

/// The store format version that this library reads and writes.
pub const STORE_VERSION: u32 = 1;

/// `std::io::Error`, carried by a store error.
#[verifier::external_type_specification]
#[verifier::external_body]
pub struct ExIoError(std::io::Error);

/// `serde_json::Error`, carried by a store error.
#[verifier::external_type_specification]
#[verifier::external_body]
pub struct ExJsonError(serde_json::Error);

/// Why a store could not be read or written.
#[allow(inconsistent_fields)]
#[derive(Debug)]
pub enum StoreError {
    Io { path: String, source: std::io::Error },
    Json { path: String, source: serde_json::Error },
    UnsupportedVersion { found: u32, expected: u32 },
}

/// A report that the planning tool returned, kept in the store.
#[derive(Debug)]
pub struct StoredReport {
    pub id: String,
    pub handoff_id: String,
    pub created_at: String,
    pub source_command: Vec<String>,
    pub payload: JsonValue,
}

/// Everything the local MVP keeps.
#[derive(Debug)]
pub struct CanvasStore {
    pub version: u32,
    pub workspace: SpecWorkspace,
    pub packages: Vec<SpecPackage>,
    pub handoffs: Vec<ImplementationHandoff>,
    pub validation_reports: Vec<StoredReport>,
    pub dry_run_plans: Vec<StoredReport>,
}

// ------------------------------------------------------------ keyed upsert

/// A value that the store files under a text key.
pub trait Keyed {
    /// The key of the value.
    spec fn key_of(&self) -> Seq<char>;

    /// The key of the value.
    fn key(&self) -> (k: &str)
        ensures
            k@ == self.key_of(),
    ;
}

impl Keyed for SpecPackage {
    open spec fn key_of(&self) -> Seq<char> {
        self.package_id@
    }

    fn key(&self) -> (k: &str) {
        self.package_id.as_str()
    }
}

impl Keyed for ImplementationHandoff {
    open spec fn key_of(&self) -> Seq<char> {
        self.source.handoff_id@
    }

    fn key(&self) -> (k: &str) {
        self.source.handoff_id.as_str()
    }
}

/// Some element of `s` has key `k`.
pub open spec fn has_key<T: Keyed>(s: Seq<T>, k: Seq<char>) -> bool {
    exists|i: int| 0 <= i < s.len() && (#[trigger] s[i]).key_of() == k
}

/// `i` is the first position of `s` whose element has key `k`.
pub open spec fn is_first_with_key<T: Keyed>(s: Seq<T>, k: Seq<char>, i: int) -> bool {
    &&& 0 <= i < s.len()
    &&& s[i].key_of() == k
    &&& forall|j: int| 0 <= j < i ==> (#[trigger] s[j]).key_of() != k
}

/// The first position of `s` whose element has key `k`.
pub open spec fn first_with_key<T: Keyed>(s: Seq<T>, k: Seq<char>) -> int {
    choose|i: int| is_first_with_key(s, k, i)
}

/// `s` after an upsert of `item`: the first element with the item's key is
/// replaced by it; without such an element the item is appended.
pub open spec fn upserted<T: Keyed>(s: Seq<T>, item: T) -> Seq<T> {
    if has_key(s, item.key_of()) {
        s.update(first_with_key(s, item.key_of()), item)
    } else {
        s.push(item)
    }
}

/// No two elements of `s` share a key.
pub open spec fn keys_distinct<T: Keyed>(s: Seq<T>) -> bool {
    forall|i: int, j: int|
        0 <= i < s.len() && 0 <= j < s.len() && i != j ==> (#[trigger] s[i]).key_of() != (
        #[trigger] s[j]).key_of()
}

/// Where an element with key `k` exists, the first such position is one.
pub proof fn lemma_first_with_key<T: Keyed>(s: Seq<T>, k: Seq<char>)
    requires
        has_key(s, k),
    ensures
        is_first_with_key(s, k, first_with_key(s, k)),
    decreases s.len(),
{
    if s[0].key_of() == k {
        assert(is_first_with_key(s, k, 0));
    } else {
        let w = choose|i: int| 0 <= i < s.len() && (#[trigger] s[i]).key_of() == k;
        let t = s.drop_first();
        assert(t[w - 1] == s[w]);
        lemma_first_with_key(t, k);
        let f = first_with_key(t, k);
        assert forall|j: int| 0 <= j < f + 1 implies (#[trigger] s[j]).key_of() != k by {
            if j > 0 {
                assert(s[j] == t[j - 1]);
            }
        }
        assert(is_first_with_key(s, k, f + 1));
    }
}

/// The first position with a key is unique.
proof fn lemma_first_unique<T: Keyed>(s: Seq<T>, k: Seq<char>, i: int, j: int)
    requires
        is_first_with_key(s, k, i),
        is_first_with_key(s, k, j),
    ensures
        i == j,
{
    if i < j {
        assert(s[i].key_of() != k);
    } else if j < i {
        assert(s[j].key_of() != k);
    }
}

/// Replaces the first element with the item's key, or appends the item.
pub fn upsert_by<T: Keyed>(items: &mut Vec<T>, item: T)
    ensures
        final(items)@ == upserted(old(items)@, item),
{
    let ghost k = item.key_of();
    let id = item.key().to_owned();
    let mut i: usize = 0;
    while i < items.len()
        invariant
            i <= items@.len(),
            items@ == old(items)@,
            id@ == k,
            k == item.key_of(),
            forall|j: int| 0 <= j < i ==> (#[trigger] items@[j]).key_of() != k,
        decreases items.len() - i,
    {
        if text_equal(items[i].key(), id.as_str()) {
            proof {
                assert(is_first_with_key(old(items)@, k, i as int));
                assert(has_key(old(items)@, k));
                lemma_first_with_key(old(items)@, k);
                lemma_first_unique(old(items)@, k, i as int, first_with_key(old(items)@, k));
            }
            items.set(i, item);
            return;
        }
        i = i + 1;
    }
    assert(!has_key(old(items)@, k));
    items.push(item);
}

// ------------------------------------------------------------ the store

/// The identifier that a handoff is filed under.
pub fn handoff_id(handoff: &ImplementationHandoff) -> (id: Option<String>)
    ensures
        id matches Some(s) && s@ == handoff.source.handoff_id@,
{
    Some(handoff.source.handoff_id.clone())
}

impl CanvasStore {
    /// A store of the current version holding `workspace` and nothing else.
    pub fn new(workspace: SpecWorkspace) -> (s: Self)
        ensures
            s.version == STORE_VERSION,
            s.workspace == workspace,
            s.packages@ == Seq::<SpecPackage>::empty(),
            s.handoffs@ == Seq::<ImplementationHandoff>::empty(),
            s.validation_reports@ == Seq::<StoredReport>::empty(),
            s.dry_run_plans@ == Seq::<StoredReport>::empty(),
    {
        CanvasStore {
            version: STORE_VERSION,
            workspace,
            packages: Vec::new(),
            handoffs: Vec::new(),
            validation_reports: Vec::new(),
            dry_run_plans: Vec::new(),
        }
    }

    /// Replaces the package with the same id, or adds the package.
    pub fn upsert_package(&mut self, package: SpecPackage)
        ensures
            final(self).packages@ == upserted(old(self).packages@, package),
            final(self).version == old(self).version,
            final(self).workspace == old(self).workspace,
            final(self).handoffs@ == old(self).handoffs@,
            final(self).validation_reports@ == old(self).validation_reports@,
            final(self).dry_run_plans@ == old(self).dry_run_plans@,
    {
        upsert_by(&mut self.packages, package);
    }

    /// Replaces the handoff with the same handoff id, or adds the handoff.
    pub fn upsert_handoff(&mut self, handoff: ImplementationHandoff)
        ensures
            final(self).handoffs@ == upserted(old(self).handoffs@, handoff),
            final(self).version == old(self).version,
            final(self).workspace == old(self).workspace,
            final(self).packages@ == old(self).packages@,
            final(self).validation_reports@ == old(self).validation_reports@,
            final(self).dry_run_plans@ == old(self).dry_run_plans@,
    {
        upsert_by(&mut self.handoffs, handoff);
    }

    /// The handoff added last, if any.
    pub fn latest_handoff(&self) -> (h: Option<&ImplementationHandoff>)
        ensures
            self.handoffs@.len() == 0 ==> h is None,
            self.handoffs@.len() > 0 ==> (h matches Some(x) && *x == self.handoffs@.last()),
    {
        let n = self.handoffs.len();
        if n == 0 {
            None
        } else {
            Some(&self.handoffs[n - 1])
        }
    }

    /// Appends a validation report.
    pub fn push_validation_report(&mut self, report: StoredReport)
        ensures
            final(self).validation_reports@ == old(self).validation_reports@.push(report),
            final(self).version == old(self).version,
            final(self).workspace == old(self).workspace,
            final(self).packages@ == old(self).packages@,
            final(self).handoffs@ == old(self).handoffs@,
            final(self).dry_run_plans@ == old(self).dry_run_plans@,
    {
        self.validation_reports.push(report);
    }

    /// Appends a dry-run plan.
    pub fn push_dry_run_plan(&mut self, report: StoredReport)
        ensures
            final(self).dry_run_plans@ == old(self).dry_run_plans@.push(report),
            final(self).version == old(self).version,
            final(self).workspace == old(self).workspace,
            final(self).packages@ == old(self).packages@,
            final(self).handoffs@ == old(self).handoffs@,
            final(self).validation_reports@ == old(self).validation_reports@,
    {
        self.dry_run_plans.push(report);
    }

    /// Accepts a store read from disk only if it has the current version.
    pub fn check_version(self) -> (r: Result<CanvasStore, StoreError>)
        ensures
            self.version == STORE_VERSION ==> (r matches Ok(s) && s == self),
            self.version != STORE_VERSION ==> (r matches Err(StoreError::UnsupportedVersion {
                found,
                expected,
            }) && found == self.version && expected == STORE_VERSION),
    {
        if self.version != STORE_VERSION {
            return Err(
                StoreError::UnsupportedVersion { found: self.version, expected: STORE_VERSION },
            );
        }
        Ok(self)
    }
}

/// Where the store lives on disk.
#[derive(Debug)]
pub struct JsonFileStore {
    path: String,
}

impl JsonFileStore {
    /// A store file at `path`.
    pub fn new(path: String) -> (s: Self)
        ensures
            s.path_view() == path@,
    {
        JsonFileStore { path }
    }

    /// The path of the store file.
    pub closed spec fn path_view(&self) -> Seq<char> {
        self.path@
    }

    /// The path of the store file.
    pub fn path(&self) -> (p: &str)
        ensures
            p@ == self.path_view(),
    {
        self.path.as_str()
    }
}

// ------------------------------------------------------------ laws

/// After an upsert the item is in the list, at the first position with its key.
pub proof fn lemma_upsert_holds_item<T: Keyed>(s: Seq<T>, item: T)
    ensures
        upserted(s, item).contains(item),
        is_first_with_key(upserted(s, item), item.key_of(), first_with_key(upserted(s, item), item.key_of())),
        upserted(s, item)[first_with_key(upserted(s, item), item.key_of())] == item,
{
    let k = item.key_of();
    let r = upserted(s, item);
    if has_key(s, k) {
        lemma_first_with_key(s, k);
        let f = first_with_key(s, k);
        assert(r[f] == item);
        assert(is_first_with_key(r, k, f));
        assert(has_key(r, k));
        lemma_first_with_key(r, k);
        lemma_first_unique(r, k, f, first_with_key(r, k));
    } else {
        let n = s.len() as int;
        assert(r[n] == item);
        assert forall|j: int| 0 <= j < n implies (#[trigger] r[j]).key_of() != k by {
            assert(r[j] == s[j]);
        }
        assert(is_first_with_key(r, k, n));
        assert(has_key(r, k));
        lemma_first_with_key(r, k);
        lemma_first_unique(r, k, n, first_with_key(r, k));
    }
}

/// An upsert replaces at most one element and appends only an item with a new
/// key: the list grows by one exactly when no element had the item's key, and
/// every element with another key stays where it was.
pub proof fn lemma_upsert_keeps_others<T: Keyed>(s: Seq<T>, item: T)
    ensures
        upserted(s, item).len() == if has_key(s, item.key_of()) {
            s.len()
        } else {
            s.len() + 1
        },
        forall|i: int|
            0 <= i < s.len() && (#[trigger] s[i]).key_of() != item.key_of() ==> upserted(
                s,
                item,
            )[i] == s[i],
{
    if has_key(s, item.key_of()) {
        lemma_first_with_key(s, item.key_of());
    }
}

/// Upserting the same item twice is the same as upserting it once.
pub proof fn lemma_upsert_idempotent<T: Keyed>(s: Seq<T>, item: T)
    ensures
        upserted(upserted(s, item), item) == upserted(s, item),
{
    let k = item.key_of();
    let r = upserted(s, item);
    lemma_upsert_holds_item(s, item);
    assert(has_key(r, k));
    let f = first_with_key(r, k);
    assert(r.update(f, item) =~= r);
}

/// Upserts keep the keys of a list distinct.
pub proof fn lemma_upsert_keeps_keys_distinct<T: Keyed>(s: Seq<T>, item: T)
    requires
        keys_distinct(s),
    ensures
        keys_distinct(upserted(s, item)),
{
    let k = item.key_of();
    let r = upserted(s, item);
    if has_key(s, k) {
        lemma_first_with_key(s, k);
        let f = first_with_key(s, k);
        assert forall|i: int, j: int|
            0 <= i < r.len() && 0 <= j < r.len() && i != j implies (#[trigger] r[i]).key_of() != (
            #[trigger] r[j]).key_of() by {
            if i == f {
                assert(s[f].key_of() == k);
                assert(s[j].key_of() != s[f].key_of());
            } else if j == f {
                assert(s[f].key_of() == k);
                assert(s[i].key_of() != s[f].key_of());
            } else {
                assert(s[i].key_of() != s[j].key_of());
            }
        }
    } else {
        assert forall|i: int, j: int|
            0 <= i < r.len() && 0 <= j < r.len() && i != j implies (#[trigger] r[i]).key_of() != (
            #[trigger] r[j]).key_of() by {
            if i == s.len() {
                assert(r[j] == s[j]);
            } else if j == s.len() {
                assert(r[i] == s[i]);
            } else {
                assert(r[i] == s[i]);
                assert(r[j] == s[j]);
            }
        }
    }
}

} // verus!
