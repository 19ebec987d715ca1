# kanban_protocol

The protocol catalog of the Kanban Tool: every HTTP, SSE, CLI, JSONL, metadata and
configuration operation with the wire contracts it owes, and the rules those contracts
must satisfy. The library is written in Verus; each function states what it returns in its
contract and is proved to meet it.

## Layout

- `src/inventory.rs`, `src/contract_catalog.rs`, `src/endpoint.rs`, `src/headers.rs`: the
  contract, declaration and endpoint types; the projection of operation declarations to
  inventory rows, endpoint descriptors, surface rows and schema roots; the transport and
  topology validators, whose error text names the first fault found.
- `src/*_catalog.rs`: the declared operation families, and `src/operation_catalog.rs`, their
  union.
- `src/legacy.rs`, `src/assembly.rs`, `src/witness.rs`: the historical inventory rows, their
  assembly with the declared rows, the generated-DTO and protocol adoptions, and the
  canonical producer and consumer witnesses of every adopted contract.
- `src/event_payload.rs`, `src/derived.rs`: which payload shapes each event kind decodes
  to, the search query assembly and the query defaults.
- `src/cli_helpers.rs`, `src/jsonl_core.rs`: the records that the graph, vector and index
  CLI commands print, and the portable JSONL export records.
- `src/text.rs`, `src/seqs.rs`: character and sequence helpers.
- `app/`: serde and schemars glue (payload and query decoding, schema generation, wire
  copies of the CLI and JSONL records with their derives), which drives the verified decode
  plans and query state.
