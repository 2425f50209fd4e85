//! A deterministic fixture token over workspace identity facts: sealing binds
//! the token to tenant, workspace and key material and lists the role's
//! permissions; verification fails closed on any scope mismatch.
use crate::digest::{sha256_hex, sha256_of};
use crate::domain::PermissionPrimitive;
use crate::role_assignment::RoleAssignment;
use crate::text::{
    chars_equal, chars_of, concat2, free_of, hex_text, join_with, lemma_hex_free, lemma_hex_injective,
    lemma_split_around_sep, lemma_split_free, lemma_split_join, lemma_split_nonempty,
    lemma_split_single_free, push_hex, push_text,
    split_chars, split_on, text_equal, text_free_of, text_is_blank, is_blank,
};
use vstd::prelude::*;
use vstd::string::*;
use vstd::utf8::*;

verus! {

/// Why a token could not be sealed.
#[derive(Debug)]
pub enum TokenSealerError {
    SealingFailed(String),
}

/// The human-readable message of a sealing error.
pub open spec fn sealer_error_text(e: &TokenSealerError) -> Seq<char> {
    match e {
        TokenSealerError::SealingFailed(m) => "sealing failed: "@ + m@,
    }
}

impl TokenSealerError {
    /// The human-readable message of the error.
    pub fn message(&self) -> (m: String)
        ensures
            m@ == sealer_error_text(self),
    {
        match self {
            TokenSealerError::SealingFailed(m) => concat2("sealing failed: ", m.as_str()),
        }
    }
}

/// A sealed fixture token.
#[derive(Debug)]
pub struct SealedToken {
    pub token_hex: String,
    pub algorithm: String,
}

impl Clone for SealedToken {
    fn clone(&self) -> (r: Self)
        ensures
            r.token_hex@ == self.token_hex@,
            r.algorithm@ == self.algorithm@,
    {
        SealedToken { token_hex: self.token_hex.clone(), algorithm: self.algorithm.clone() }
    }
}

/// The separator between the fields of a token.
pub open spec fn bar() -> char {
    '|'
}

/// The algorithm name of fixture tokens.
pub open spec fn mock_algorithm() -> Seq<char> {
    seq!['m', 'o', 'c', 'k']
}

/// The wire name of a permission.
pub open spec fn permission_text(p: PermissionPrimitive) -> Seq<char> {
    match p {
        PermissionPrimitive::Read => seq!['r', 'e', 'a', 'd'],
        PermissionPrimitive::Comment => seq!['c', 'o', 'm', 'm', 'e', 'n', 't'],
        PermissionPrimitive::Write => seq!['w', 'r', 'i', 't', 'e'],
        PermissionPrimitive::Approve => seq!['a', 'p', 'p', 'r', 'o', 'v', 'e'],
        PermissionPrimitive::Invite => seq!['i', 'n', 'v', 'i', 't', 'e'],
        PermissionPrimitive::Administer => seq!['a', 'd', 'm', 'i', 'n', 'i', 's', 't', 'e', 'r'],
        PermissionPrimitive::Delegate => seq!['d', 'e', 'l', 'e', 'g', 'a', 't', 'e'],
    }
}

/// The facts that bind a token to its scope: `tenant|workspace|hex(key)`.
pub open spec fn scope_facts(tenant: Seq<char>, workspace: Seq<char>, key: Seq<u8>) -> Seq<char> {
    tenant + seq![bar()] + workspace + seq![bar()] + hex_text(key)
}

/// The hexadecimal SHA-256 digest of the UTF-8 bytes of a text.
pub open spec fn digest_text(facts: Seq<char>) -> Seq<char> {
    hex_text(sha256_of(encode_utf8(facts)))
}

/// The scope digest of a token.
pub open spec fn scope_digest(tenant: Seq<char>, workspace: Seq<char>, key: Seq<u8>) -> Seq<char> {
    digest_text(scope_facts(tenant, workspace, key))
}

/// The actor digest of a token: the digest of `actor_id|role`.
pub open spec fn actor_digest(actor_id: Seq<char>, role: Seq<char>) -> Seq<char> {
    digest_text(actor_id + seq![bar()] + role)
}

/// The permissions of a token: their wire names joined with `|`.
pub open spec fn permissions_text(perms: Seq<PermissionPrimitive>) -> Seq<char> {
    join_with(perms.map_values(|p: PermissionPrimitive| permission_text(p)), bar())
}

/// The text of a sealed token: `scope_digest|actor_digest|permissions`.
pub open spec fn token_text(
    tenant: Seq<char>,
    workspace: Seq<char>,
    actor_id: Seq<char>,
    role: Seq<char>,
    perms: Seq<PermissionPrimitive>,
    key: Seq<u8>,
) -> Seq<char> {
    scope_digest(tenant, workspace, key) + seq![bar()] + actor_digest(actor_id, role) + seq![bar()]
        + permissions_text(perms)
}

/// The message with which sealing is refused, if it is.
pub open spec fn seal_refusal(tenant: Seq<char>, workspace: Seq<char>, role_workspace: Seq<char>) -> Option<Seq<char>> {
    if is_blank(tenant) {
        Some("tenant_id is required"@)
    } else if is_blank(workspace) {
        Some("workspace_id is required"@)
    } else if role_workspace != workspace {
        Some("role workspace_id does not match token workspace_id"@)
    } else {
        None
    }
}

/// Whether a token, presented for the given scope, grants `required`: the
/// tenant and workspace ids are free of `|`, it is a fixture token, it has at
/// least three `|`-separated fields, the first is the
/// scope digest of the presented tenant, workspace and key, and one of the
/// fields from the third on is the required permission's name.
pub open spec fn authorizes(
    token_hex: Seq<char>,
    algorithm: Seq<char>,
    tenant: Seq<char>,
    workspace: Seq<char>,
    required: PermissionPrimitive,
    key: Seq<u8>,
) -> bool {
    let parts = split_on(token_hex, bar());
    &&& free_of(tenant, bar())
    &&& free_of(workspace, bar())
    &&& algorithm == mock_algorithm()
    &&& token_hex.len() > 0
    &&& parts.len() >= 3
    &&& parts[0] == scope_digest(tenant, workspace, key)
    &&& exists|j: int| 2 <= j < parts.len() && #[trigger] parts[j] == permission_text(required)
}

/// The wire name of a permission.
fn perm_to_string(perm: &PermissionPrimitive) -> (s: &'static str)
    ensures
        s@ == permission_text(*perm),
{
    match perm {
        PermissionPrimitive::Read => {
            proof {
                reveal_strlit("read");
            }
            assert("read"@ =~= permission_text(*perm));
            "read"
        },
        PermissionPrimitive::Comment => {
            proof {
                reveal_strlit("comment");
            }
            assert("comment"@ =~= permission_text(*perm));
            "comment"
        },
        PermissionPrimitive::Write => {
            proof {
                reveal_strlit("write");
            }
            assert("write"@ =~= permission_text(*perm));
            "write"
        },
        PermissionPrimitive::Approve => {
            proof {
                reveal_strlit("approve");
            }
            assert("approve"@ =~= permission_text(*perm));
            "approve"
        },
        PermissionPrimitive::Invite => {
            proof {
                reveal_strlit("invite");
            }
            assert("invite"@ =~= permission_text(*perm));
            "invite"
        },
        PermissionPrimitive::Administer => {
            proof {
                reveal_strlit("administer");
            }
            assert("administer"@ =~= permission_text(*perm));
            "administer"
        },
        PermissionPrimitive::Delegate => {
            proof {
                reveal_strlit("delegate");
            }
            assert("delegate"@ =~= permission_text(*perm));
            "delegate"
        },
    }
}

/// The hexadecimal digest of the UTF-8 bytes of a text.
fn digest_of_text(facts: &String) -> (s: String)
    ensures
        s@ == digest_text(facts@),
{
    let bytes = facts.as_str().as_bytes();
    sha256_hex(bytes)
}

/// The scope digest of tenant, workspace and key material.
fn mock_scope_hash(tenant_id: &str, workspace_id: &str, key_material: &[u8]) -> (s: String)
    ensures
        s@ == scope_digest(tenant_id@, workspace_id@, key_material@),
{
    proof {
        reveal_strlit("|");
    }
    let mut facts = String::new();
    push_text(&mut facts, tenant_id);
    push_text(&mut facts, "|");
    push_text(&mut facts, workspace_id);
    push_text(&mut facts, "|");
    push_hex(&mut facts, key_material);
    assert(facts@ =~= scope_facts(tenant_id@, workspace_id@, key_material@));
    digest_of_text(&facts)
}

/// The actor digest of an actor id and role name.
fn mock_actor_hash(actor_id: &str, role: &str) -> (s: String)
    ensures
        s@ == actor_digest(actor_id@, role@),
{
    proof {
        reveal_strlit("|");
    }
    let mut facts = String::new();
    push_text(&mut facts, actor_id);
    push_text(&mut facts, "|");
    push_text(&mut facts, role);
    assert(facts@ =~= actor_id@ + seq![bar()] + role@);
    digest_of_text(&facts)
}

/// Builds the fixture token of a role in a scope.
fn seal_with_mock(tenant_id: &str, workspace_id: &str, role: &RoleAssignment, key_material: &[u8]) -> (t: SealedToken)
    ensures
        t.token_hex@ == token_text(
            tenant_id@,
            workspace_id@,
            role.actor_ref.actor_id@,
            role.role@,
            role.permissions@,
            key_material@,
        ),
        t.algorithm@ == mock_algorithm(),
{
    let scope_hash = mock_scope_hash(tenant_id, workspace_id, key_material);
    let actor_hash = mock_actor_hash(role.actor_ref.actor_id.as_str(), role.role.as_str());
    proof {
        reveal_strlit("|");
    }
    let mut out = String::new();
    push_text(&mut out, scope_hash.as_str());
    push_text(&mut out, "|");
    push_text(&mut out, actor_hash.as_str());
    push_text(&mut out, "|");
    let ghost head = out@;
    let ghost names = role.permissions@.map_values(|p: PermissionPrimitive| permission_text(p));
    let mut i: usize = 0;
    assert(names.subrange(0, 0) =~= Seq::<Seq<char>>::empty());
    while i < role.permissions.len()
        invariant
            i <= role.permissions@.len(),
            names == role.permissions@.map_values(|p: PermissionPrimitive| permission_text(p)),
            out@ == head + join_with(names.subrange(0, i as int), bar()),
        decreases role.permissions.len() - i,
    {
        proof {
            reveal_strlit("|");
        }
        if i > 0 {
            push_text(&mut out, "|");
        }
        let name = perm_to_string(&role.permissions[i]);
        push_text(&mut out, name);
        proof {
            let next = names.subrange(0, i + 1);
            assert(next.drop_last() =~= names.subrange(0, i as int));
            assert(next.last() == names[i as int]);
            if i == 0 {
                assert(next =~= seq![names[0]]);
            }
        }
        i = i + 1;
        assert(out@ =~= head + join_with(names.subrange(0, i as int), bar()));
    }
    assert(names.subrange(0, role.permissions@.len() as int) =~= names);
    assert(out@ =~= token_text(
        tenant_id@,
        workspace_id@,
        role.actor_ref.actor_id@,
        role.role@,
        role.permissions@,
        key_material@,
    ));
    proof {
        reveal_strlit("mock");
    }
    let algorithm = "mock".to_owned();
    assert(algorithm@ =~= mock_algorithm());
    SealedToken { token_hex: out, algorithm }
}

/// Seals a workspace identity fact set into a deterministic fixture token.
///
/// Sealing is refused when the tenant or workspace id is blank or when the role
/// belongs to another workspace.
pub fn seal_workspace_identity_token(
    tenant_id: &str,
    workspace_id: &str,
    role: &RoleAssignment,
    key_material: &[u8],
) -> (r: Result<SealedToken, TokenSealerError>)
    ensures
        r is Ok <==> seal_refusal(tenant_id@, workspace_id@, role.workspace_id@) is None,
        r matches Err(TokenSealerError::SealingFailed(m)) ==> seal_refusal(
            tenant_id@,
            workspace_id@,
            role.workspace_id@,
        ) == Some(m@),
        r matches Ok(t) ==> t.token_hex@ == token_text(
            tenant_id@,
            workspace_id@,
            role.actor_ref.actor_id@,
            role.role@,
            role.permissions@,
            key_material@,
        ) && t.algorithm@ == mock_algorithm(),
{
    if text_is_blank(tenant_id) {
        return Err(TokenSealerError::SealingFailed("tenant_id is required".to_owned()));
    }
    if text_is_blank(workspace_id) {
        return Err(TokenSealerError::SealingFailed("workspace_id is required".to_owned()));
    }

    if !text_equal(role.workspace_id.as_str(), workspace_id) {
        return Err(
            TokenSealerError::SealingFailed(
                "role workspace_id does not match token workspace_id".to_owned(),
            ),
        );
    }
    Ok(seal_with_mock(tenant_id, workspace_id, role, key_material))
}

/// Verifies a fixture token for a scope and checks that it grants the required
/// permission. It fails closed on a tenant, workspace or key mismatch before
/// looking at permissions. A tenant or workspace id holding `|`, the separator
/// of a token's scope facts, is always denied: with it, two different scopes
/// could share their facts.
pub fn verify_workspace_authorization(
    token: &SealedToken,
    tenant_id: &str,
    workspace_id: &str,
    required_permission: &PermissionPrimitive,
    key_material: &[u8],
) -> (r: bool)
    ensures
        r == authorizes(
            token.token_hex@,
            token.algorithm@,
            tenant_id@,
            workspace_id@,
            *required_permission,
            key_material@,
        ),
{
    proof {
        reveal_strlit("mock");
    }
    assert("mock"@ =~= mock_algorithm());
    if !text_free_of(tenant_id, '|') || !text_free_of(workspace_id, '|') {
        return false;
    }
    if !text_equal(token.algorithm.as_str(), "mock") || token.token_hex.as_str().is_empty() {
        return false;
    }
    let cs = chars_of(token.token_hex.as_str());
    let parts = split_chars(&cs, '|');
    if parts.len() < 3 {
        return false;
    }
    let expected = mock_scope_hash(tenant_id, workspace_id, key_material);
    let expected_chars = chars_of(expected.as_str());
    if !chars_equal(&parts[0], &expected_chars) {
        return false;
    }
    let required = chars_of(perm_to_string(required_permission));
    let ghost ps = split_on(token.token_hex@, bar());
    assert(parts@[0]@ == ps[0]);
    let mut j: usize = 2;
    while j < parts.len()
        invariant
            2 <= j <= parts@.len(),
            parts@.len() == ps.len(),
            forall|k: int| 0 <= k < parts@.len() ==> #[trigger] parts@[k]@ == ps[k],
            required@ == permission_text(*required_permission),
            token.algorithm@ == mock_algorithm(),
            token.token_hex@.len() > 0,
            free_of(tenant_id@, bar()),
            free_of(workspace_id@, bar()),
            ps == split_on(token.token_hex@, bar()),
            ps[0] == scope_digest(tenant_id@, workspace_id@, key_material@),
            forall|k: int| 2 <= k < j ==> ps[k] != permission_text(*required_permission),
        decreases parts.len() - j,
    {
        if chars_equal(&parts[j], &required) {
            assert(ps[j as int] == permission_text(*required_permission));
            return true;
        }
        j = j + 1;
    }
    false
}

// ---------------------------------------------------------------- laws

proof fn lemma_permission_text_facts(p: PermissionPrimitive)
    ensures
        permission_text(p).len() > 0,
        free_of(permission_text(p), bar()),
{
    let t = permission_text(p);
    assert forall|i: int| 0 <= i < t.len() implies #[trigger] t[i] != bar() by {
        match p {
            PermissionPrimitive::Read => {},
            PermissionPrimitive::Comment => {},
            PermissionPrimitive::Write => {},
            PermissionPrimitive::Approve => {},
            PermissionPrimitive::Invite => {},
            PermissionPrimitive::Administer => {},
            PermissionPrimitive::Delegate => {},
        }
    }
}

proof fn lemma_permission_text_injective(a: PermissionPrimitive, b: PermissionPrimitive)
    requires
        permission_text(a) == permission_text(b),
    ensures
        a == b,
{
    let ta = permission_text(a);
    let tb = permission_text(b);
    assert(ta.len() == tb.len());
    assert(ta[0] == tb[0]);
    if ta.len() == 7 {
        assert(ta[1] == tb[1]);
    }
}

proof fn lemma_token_parts(
    tenant: Seq<char>,
    workspace: Seq<char>,
    actor_id: Seq<char>,
    role: Seq<char>,
    perms: Seq<PermissionPrimitive>,
    key: Seq<u8>,
)
    ensures
        ({
            let names = perms.map_values(|p: PermissionPrimitive| permission_text(p));
            let parts = split_on(token_text(tenant, workspace, actor_id, role, perms, key), bar());
            let rest = if perms.len() == 0 { seq![Seq::<char>::empty()] } else { names };
            parts == seq![scope_digest(tenant, workspace, key), actor_digest(actor_id, role)] + rest
        }),
{
    let s = scope_digest(tenant, workspace, key);
    let a = actor_digest(actor_id, role);
    let names = perms.map_values(|p: PermissionPrimitive| permission_text(p));
    let j = permissions_text(perms);
    lemma_hex_free(sha256_of(encode_utf8(scope_facts(tenant, workspace, key))), bar());
    lemma_hex_free(sha256_of(encode_utf8(actor_id + seq![bar()] + role)), bar());
    assert(token_text(tenant, workspace, actor_id, role, perms, key) =~= s + seq![bar()] + (a
        + seq![bar()] + j));
    lemma_split_around_sep(s, a + seq![bar()] + j, bar());
    lemma_split_around_sep(a, j, bar());
    lemma_split_free(s, bar());
    lemma_split_free(a, bar());
    if perms.len() == 0 {
        assert(names =~= Seq::<Seq<char>>::empty());
        assert(j =~= Seq::<char>::empty());
        assert(free_of(j, bar()));
        lemma_split_free(j, bar());
    } else {
        assert forall|i: int| 0 <= i < names.len() implies free_of(#[trigger] names[i], bar()) by {
            lemma_permission_text_facts(perms[i]);
        }
        lemma_split_join(names, bar());
    }
    assert(split_on(token_text(tenant, workspace, actor_id, role, perms, key), bar()) =~= seq![
        s,
        a,
    ] + (if perms.len() == 0 {
        seq![Seq::<char>::empty()]
    } else {
        names
    }));
}

/// A sealed token, presented for the scope it was sealed for, grants exactly the
/// permissions of the role it was sealed over, when the tenant and workspace
/// ids are free of `|` (a scope whose ids hold `|` is always denied).
pub proof fn lemma_sealed_token_grants_exactly_role_permissions(
    tenant: Seq<char>,
    workspace: Seq<char>,
    actor_id: Seq<char>,
    role: Seq<char>,
    perms: Seq<PermissionPrimitive>,
    key: Seq<u8>,
    required: PermissionPrimitive,
)
    requires
        free_of(tenant, bar()),
        free_of(workspace, bar()),
    ensures
        authorizes(
            token_text(tenant, workspace, actor_id, role, perms, key),
            mock_algorithm(),
            tenant,
            workspace,
            required,
            key,
        ) == perms.contains(required),
{
    lemma_token_parts(tenant, workspace, actor_id, role, perms, key);
    let token = token_text(tenant, workspace, actor_id, role, perms, key);
    let parts = split_on(token, bar());
    let names = perms.map_values(|p: PermissionPrimitive| permission_text(p));
    lemma_permission_text_facts(required);
    assert(token.len() > 0) by {
        assert(token[scope_digest(tenant, workspace, key).len() as int] == bar());
    }
    if perms.contains(required) {
        let i = choose|i: int| 0 <= i < perms.len() && perms[i] == required;
        assert(parts[i + 2] == names[i]);
        assert(parts[i + 2] == permission_text(required));
    }
    if exists|j: int| 2 <= j < parts.len() && #[trigger] parts[j] == permission_text(required) {
        let j = choose|j: int| 2 <= j < parts.len() && #[trigger] parts[j] == permission_text(required);
        if perms.len() == 0 {
            assert(parts[j] == Seq::<char>::empty());
        } else {
            assert(parts[j] == names[j - 2]);
            lemma_permission_text_injective(perms[j - 2], required);
            assert(perms.contains(required));
        }
    }
}

/// Verification fails closed on every other scope: a token that sealing made
/// for one tenant, workspace and key material, whatever its ids hold, is
/// accepted for a different tenant, workspace or key only if the two scopes'
/// distinct fact strings have the same SHA-256 digest, that is, only through a
/// SHA-256 collision.
pub proof fn lemma_sealed_token_is_scope_bound(
    tenant: Seq<char>,
    workspace: Seq<char>,
    actor_id: Seq<char>,
    role: Seq<char>,
    perms: Seq<PermissionPrimitive>,
    key: Seq<u8>,
    other_tenant: Seq<char>,
    other_workspace: Seq<char>,
    other_key: Seq<u8>,
    required: PermissionPrimitive,
)
    requires
        tenant != other_tenant || workspace != other_workspace || key != other_key,
        authorizes(
            token_text(tenant, workspace, actor_id, role, perms, key),
            mock_algorithm(),
            other_tenant,
            other_workspace,
            required,
            other_key,
        ),
    ensures
        encode_utf8(scope_facts(other_tenant, other_workspace, other_key)) != encode_utf8(
            scope_facts(tenant, workspace, key),
        ),
        sha256_of(encode_utf8(scope_facts(other_tenant, other_workspace, other_key))) == sha256_of(
            encode_utf8(scope_facts(tenant, workspace, key)),
        ),
{
    lemma_token_parts(tenant, workspace, actor_id, role, perms, key);
    lemma_hex_injective(
        sha256_of(encode_utf8(scope_facts(other_tenant, other_workspace, other_key))),
        sha256_of(encode_utf8(scope_facts(tenant, workspace, key))),
    );
    let f1 = scope_facts(tenant, workspace, key);
    let f2 = scope_facts(other_tenant, other_workspace, other_key);
    if encode_utf8(f2) == encode_utf8(f1) {
        encode_utf8_decode_utf8(f1);
        encode_utf8_decode_utf8(f2);
        assert(f1 == f2);
        lemma_facts_ids_free(tenant, workspace, key, other_tenant, other_workspace, other_key);
        lemma_scope_facts_injective(tenant, workspace, key, other_tenant, other_workspace, other_key);
    }
}

/// Fact strings equal to those of ids free of `|` come from ids free of `|`.
proof fn lemma_facts_ids_free(
    t1: Seq<char>,
    w1: Seq<char>,
    k1: Seq<u8>,
    t2: Seq<char>,
    w2: Seq<char>,
    k2: Seq<u8>,
)
    requires
        free_of(t2, bar()),
        free_of(w2, bar()),
        scope_facts(t1, w1, k1) == scope_facts(t2, w2, k2),
    ensures
        free_of(t1, bar()),
        free_of(w1, bar()),
{
    lemma_hex_free(k1, bar());
    lemma_hex_free(k2, bar());
    assert(scope_facts(t1, w1, k1) =~= t1 + seq![bar()] + (w1 + seq![bar()] + hex_text(k1)));
    assert(scope_facts(t2, w2, k2) =~= t2 + seq![bar()] + (w2 + seq![bar()] + hex_text(k2)));
    lemma_split_around_sep(t1, w1 + seq![bar()] + hex_text(k1), bar());
    lemma_split_around_sep(t2, w2 + seq![bar()] + hex_text(k2), bar());
    lemma_split_around_sep(w1, hex_text(k1), bar());
    lemma_split_around_sep(w2, hex_text(k2), bar());
    lemma_split_free(t2, bar());
    lemma_split_free(w2, bar());
    lemma_split_free(hex_text(k2), bar());
    lemma_split_nonempty(t1, bar());
    lemma_split_nonempty(w1, bar());
    lemma_split_nonempty(hex_text(k1), bar());
    let a1 = t1 + seq![bar()] + (w1 + seq![bar()] + hex_text(k1));
    let a2 = t2 + seq![bar()] + (w2 + seq![bar()] + hex_text(k2));
    assert(a1 == a2);
    assert(split_on(a2, bar()).len() == 3);
    assert(split_on(a1, bar()).len() == split_on(t1, bar()).len() + split_on(
        w1 + seq![bar()] + hex_text(k1),
        bar(),
    ).len());
    assert(split_on(w1 + seq![bar()] + hex_text(k1), bar()).len() == split_on(w1, bar()).len()
        + split_on(hex_text(k1), bar()).len());
    lemma_split_single_free(t1, bar());
    lemma_split_single_free(w1, bar());
}

proof fn lemma_scope_facts_injective(
    t1: Seq<char>,
    w1: Seq<char>,
    k1: Seq<u8>,
    t2: Seq<char>,
    w2: Seq<char>,
    k2: Seq<u8>,
)
    requires
        free_of(t1, bar()),
        free_of(w1, bar()),
        free_of(t2, bar()),
        free_of(w2, bar()),
        scope_facts(t1, w1, k1) == scope_facts(t2, w2, k2),
    ensures
        t1 == t2 && w1 == w2 && k1 == k2,
{
    let f = scope_facts(t1, w1, k1);
    lemma_hex_free(k1, bar());
    lemma_hex_free(k2, bar());
    assert(scope_facts(t1, w1, k1) =~= t1 + seq![bar()] + (w1 + seq![bar()] + hex_text(k1)));
    assert(scope_facts(t2, w2, k2) =~= t2 + seq![bar()] + (w2 + seq![bar()] + hex_text(k2)));
    lemma_split_around_sep(t1, w1 + seq![bar()] + hex_text(k1), bar());
    lemma_split_around_sep(t2, w2 + seq![bar()] + hex_text(k2), bar());
    lemma_split_around_sep(w1, hex_text(k1), bar());
    lemma_split_around_sep(w2, hex_text(k2), bar());
    lemma_split_free(t1, bar());
    lemma_split_free(t2, bar());
    lemma_split_free(w1, bar());
    lemma_split_free(w2, bar());
    lemma_split_free(hex_text(k1), bar());
    lemma_split_free(hex_text(k2), bar());
    let p = split_on(f, bar());
    assert(p =~= seq![t1, w1, hex_text(k1)]);
    assert(p =~= seq![t2, w2, hex_text(k2)]);
    assert(p[0] == t1 && p[0] == t2);
    assert(p[1] == w1 && p[1] == w2);
    assert(p[2] == hex_text(k1) && p[2] == hex_text(k2));
    lemma_hex_injective(k1, k2);
}

} // verus!
