# orchestration

Verified decision, validation and framing logic for native tactic route
campaigns, written in Verus.

## Layout

- `src/` — the verified library. Every function there carries a contract
  that Verus proves:
  - `execution_plan`, `schedule`, `timing`, `fault` — execution plans and
    their sealed envelope, per-decision scheduling rules, exclusive timing
    attribution, one-shot fault injection and the decision that keeps
    it one-shot across resumed processes;
  - `journal`, `graph_projection`, `compression` — the append-only decision
    journal and its compacted segments, the state graph a journal
    describes (identity-ordered nodes, root connectivity) and its health
    diagnostics;
  - `report`, `decisions`, `epsilon`, `summary`, `completion` — the route
    report model, decision tallies, the campaign summary and the durable
    completion marker;
  - `recovery_audit`, `bundles`, `completed_seed`, `cold_replay`,
    `diagnosis`, `probe`, `action_surface`, `goal_literals` — evidence
    audits and bundles, cold-replay proofs and their milestone evidence,
    the applicable action-surface identity, exact goal literals, and the
    bounds of a frozen-policy run (`policy`).
- `tests/` — ordinary Rust tests of the library's public functions.
- `app/` — the file-system and serialization edges: reading and
  publishing durable artifacts, the serde forms of stored records, and
  the floating-point navigable-surface route search.

## Trusted code

Three functions are trusted rather than proved: `sha256_bytes`
(`sha2::Sha256::digest`), `zstd_compress` (`zstd::bulk::compress`) and
`zstd_decompress` (`zstd::bulk::decompress`). Their results are named by
uninterpreted specification functions; the library's contracts are stated
over those names.
