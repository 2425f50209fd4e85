# rumble_canvas

Rumble Canvas turns a product-conception workspace into an immutable spec
package and a planning-only implementation handoff (`canvas.bolt_handoff.v0.1`)
for the planner. Canvas never executes implementation work.

The library under `src/` is written in Verus. Its functions carry contracts
that Verus proves, except two trusted wrappers whose contracts are taken on
trust: `digest::sha256` over `sha2::Sha256::digest` and `wrench::to_uppercase`
over `str::to_uppercase`.

- `domain`, `sample`: the workspace, its actors, roles, journeys, screens,
  actions, traceability, waivers, risks and questions, and the sample
  workspace that the local MVP ships with.
- `workspace_membership`, `role_assignment`: memberships and the rule that
  only humans may approve or delegate.
- `package`, `schema`: building, approving and hashing spec packages, and the
  package schema.
- `handoff`: building a handoff, the Canvas rules every handoff must pass, and
  its payload hash.
- `token_sealer`: a deterministic fixture token over workspace identity facts.
- `store`: the local store and its keyed upserts.
- `cli`, `wrench`: what the command line decides, and how inspection reports
  are summarised and judged.
- `text`, `json`, `digest`: text primitives, a JSON document tree, and SHA-256
  (computed by the `sha2` crate).

Hashes are taken over a canonical JSON encoding of a package or handoff. The
encoding is produced by `serde_json` in the program under `app/`, which hands
it to the library as a function; the library states what it hashes in terms of
whatever that function returns, and, for an encoding that depends on content
alone, proves that equal content gets equal hashes.

`app/` is the `rumble-canvas` command line: argument parsing, file I/O, the
serializable copies of the library's types, and running `cosmatic` and
`wrench-inspect`.
