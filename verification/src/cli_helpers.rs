//! Machine-readable outputs of the graph, vector and index CLI commands: the records that
//! each command prints under its `--json` data envelope.

use vstd::prelude::*;

verus! {

/// Whether the graph backend is enabled, and what it reports about itself.
#[derive(Debug, Clone, PartialEq, Eq)]
pub struct CliGraphStatus {
    pub backend: String,
    pub enabled: bool,
    pub message: String,
}

/// The outcome of a graph rebuild or sync of one board.
#[derive(Debug, Clone, PartialEq, Eq)]
pub struct CliGraphMaintenance {
    pub mode: String,
    pub board_id: String,
    pub generation: String,
    pub fingerprint: String,
    pub validated_tasks: i64,
    pub validated_entities: i64,
    pub validated_relations: i64,
    pub pending_jobs: i64,
    pub consumed_jobs: i64,
    pub updated_at: i64,
    pub message: String,
}

/// Where a graph relation came from; each nullable field is always present on the wire.
#[derive(Debug, Clone, PartialEq, Eq)]
pub struct CliGraphRelationProvenance {
    pub source_table: Option<String>,
    pub source_id: Option<String>,
    pub source_event_id: Option<i64>,
    pub authoritative_store: String,
}

/// One named value of a graph query row.
#[derive(Debug, Clone, PartialEq, Eq)]
pub struct CliGraphQueryBinding {
    pub name: String,
    pub value: String,
}

/// One row of a graph query result.
#[derive(Debug, Clone, PartialEq, Eq)]
pub struct CliGraphQueryRow {
    pub bindings: Vec<CliGraphQueryBinding>,
}

/// The embedding provider that the vector index was configured with.
#[derive(Debug, Clone, PartialEq, Eq)]
pub struct CliVectorConfig {
    pub provider: String,
    pub endpoint: String,
    pub model: String,
    pub dimensions: usize,
}

/// The state of the vector index, as status, rebuild and sync report it.
#[derive(Debug, Clone, PartialEq, Eq)]
pub struct CliVectorStatus {
    pub backend: String,
    pub enabled: bool,
    pub message: String,
    pub diagnostics: Vec<String>,
    pub dirty: Option<bool>,
    pub board_dirty: Option<bool>,
    pub generation: Option<i64>,
}

/// A reference to one indexed chunk of an entity.
#[derive(Debug, Clone, PartialEq, Eq)]
pub struct CliChunkRef {
    pub uri: String,
    pub entity_uri: String,
    pub ordinal: i64,
    pub content_hash: Option<String>,
}

} // verus!
