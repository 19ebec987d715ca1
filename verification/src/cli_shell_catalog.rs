//! CLI shell, queue, knowledge and host-admin commands other than the board commands.

use vstd::prelude::*;

use crate::contract_catalog::{
    endpoint_ids, lemma_endpoint_ids_prefix,
    catalog_contracts, catalog_endpoints, catalog_header_contract, catalog_header_profile,
    catalog_has_contract, catalog_has_operation, catalog_owns_contract, catalog_owns_operation,
    catalog_schemas, endpoint_ready, endpoints_ready, find_contract, find_endpoint, find_surface,
    has_contract_id, has_endpoint_id, has_surface_key, lookup_header_contract,
    lookup_header_profile, project_contracts, project_endpoints, project_schemas,
    project_surfaces, projected_surface, schema_ready, schemas_ready, ContractDeclaration,
    McpExposure, McpOperationInvariant, McpPolicy, McpToolBinding, OperationDeclaration,
    SchemaRoot, SurfaceOperation,
};
use crate::endpoint::{EndpointDescriptor, EndpointObligation, EndpointObligationKind, HttpMethod};
use crate::headers::ApiHeaderProfile;
use crate::inventory::{
    is_http_surface, AdoptionLocator, ContractBinding, ContractDirection, ContractGranularity,
    ContractStrictness, ContractSurface, ContractTransport, HttpTransportLocation, MigrationState,
    OperationContract, WireParameter, WireParameterCardinality,
};
use crate::seqs::first_index;
use crate::text::str_eq;

verus! {

/// The operations of this catalog, in source order.
#[verifier::opaque]
pub open spec fn cli_shell_operations() -> Seq<OperationDeclaration> {
    seq![
        OperationDeclaration {
            operation_id: "cli.__complete",
            surface: ContractSurface::Cli,
            method: None,
            path: None,
            operation: "__complete",
            key: "__complete",
            migration: MigrationState::Generated,
            exclusion: Some("隐藏的动态补全候选使用逐行文本协议，不是 JSON document"),
            shared_components: &[],
            header_profile: None,
            mcp_policy: None,
            obligation_overrides: &[],
            contracts: &[],
        },
        OperationDeclaration {
            operation_id: "cli.backup",
            surface: ContractSurface::Cli,
            method: None,
            path: None,
            operation: "backup",
            key: "backup",
            migration: MigrationState::Generated,
            exclusion: None,
            shared_components: &[],
            header_profile: None,
            mcp_policy: None,
            obligation_overrides: &[],
            contracts: &[
                ContractDeclaration {
                    id: "cli.maintenance-backup.output",
                    path: "kanban backup --json stdout",
                    operation: None,
                    location: None,
                    operation_key: None,
                    parameters: &[],
                    direction: ContractDirection::Serialize,
                    strictness: ContractStrictness::DenyUnknownFields,
                    granularity: ContractGranularity::Exact,
                    binding: ContractBinding::ExactSurface,
                    schema_id: Some("urn:kanban-tool:schema:cli:maintenance-backup-output:v1"),
                    artifact_path: Some("cli/maintenance-backup-output.v1.schema.json"),
                    schema_title: Some("Kanban CLI maintenance backup output v1"),
                    valid_fixture: Some("schemas/fixtures/cli/maintenance-backup-output.v1.valid.json"),
                    invalid_fixture: Some("schemas/fixtures/cli/maintenance-backup-output.v1.invalid.json"),
                    exclusion: None,
                    producer: None,
                    consumer: None,
                },
            ],
        },
        OperationDeclaration {
            operation_id: "cli.board-current",
            surface: ContractSurface::Cli,
            method: None,
            path: None,
            operation: "board current",
            key: "board current",
            migration: MigrationState::Generated,
            exclusion: None,
            shared_components: &[],
            header_profile: None,
            mcp_policy: None,
            obligation_overrides: &[],
            contracts: &[
                ContractDeclaration {
                    id: "cli.board-current.output",
                    path: "kanban board current --json stdout",
                    operation: None,
                    location: None,
                    operation_key: None,
                    parameters: &[],
                    direction: ContractDirection::Serialize,
                    strictness: ContractStrictness::DenyUnknownFields,
                    granularity: ContractGranularity::Exact,
                    binding: ContractBinding::ExactSurface,
                    schema_id: Some("urn:kanban-tool:schema:cli:board-current-output:v1"),
                    artifact_path: Some("cli/board-current-output.v1.schema.json"),
                    schema_title: Some("Kanban CLI board current output v1"),
                    valid_fixture: Some("schemas/fixtures/cli/board-current-output.v1.valid.json"),
                    invalid_fixture: Some("schemas/fixtures/cli/board-current-output.v1.invalid.json"),
                    exclusion: None,
                    producer: None,
                    consumer: None,
                },
            ],
        },
        OperationDeclaration {
            operation_id: "cli.board-use",
            surface: ContractSurface::Cli,
            method: None,
            path: None,
            operation: "board use",
            key: "board use",
            migration: MigrationState::Generated,
            exclusion: None,
            shared_components: &[],
            header_profile: None,
            mcp_policy: None,
            obligation_overrides: &[],
            contracts: &[
                ContractDeclaration {
                    id: "cli.board-use.output",
                    path: "kanban board use --json stdout",
                    operation: None,
                    location: None,
                    operation_key: None,
                    parameters: &[],
                    direction: ContractDirection::Serialize,
                    strictness: ContractStrictness::DenyUnknownFields,
                    granularity: ContractGranularity::Exact,
                    binding: ContractBinding::ExactSurface,
                    schema_id: Some("urn:kanban-tool:schema:cli:board-use-output:v1"),
                    artifact_path: Some("cli/board-use-output.v1.schema.json"),
                    schema_title: Some("Kanban CLI board use output v1"),
                    valid_fixture: Some("schemas/fixtures/cli/board-use-output.v1.valid.json"),
                    invalid_fixture: Some("schemas/fixtures/cli/board-use-output.v1.invalid.json"),
                    exclusion: None,
                    producer: None,
                    consumer: None,
                },
            ],
        },
        OperationDeclaration {
            operation_id: "cli.checkpoint",
            surface: ContractSurface::Cli,
            method: None,
            path: None,
            operation: "checkpoint",
            key: "checkpoint",
            migration: MigrationState::Generated,
            exclusion: None,
            shared_components: &[],
            header_profile: None,
            mcp_policy: None,
            obligation_overrides: &[],
            contracts: &[
                ContractDeclaration {
                    id: "cli.checkpoint.output",
                    path: "kanban checkpoint --json stdout",
                    operation: None,
                    location: None,
                    operation_key: None,
                    parameters: &[],
                    direction: ContractDirection::Serialize,
                    strictness: ContractStrictness::DenyUnknownFields,
                    granularity: ContractGranularity::Exact,
                    binding: ContractBinding::ExactSurface,
                    schema_id: Some("urn:kanban-tool:schema:cli:checkpoint-output:v1"),
                    artifact_path: Some("cli/checkpoint-output.v1.schema.json"),
                    schema_title: Some("Kanban CLI checkpoint output v1"),
                    valid_fixture: Some("schemas/fixtures/cli/checkpoint-output.v1.valid.json"),
                    invalid_fixture: Some("schemas/fixtures/cli/checkpoint-output.v1.invalid.json"),
                    exclusion: None,
                    producer: None,
                    consumer: None,
                },
            ],
        },
        OperationDeclaration {
            operation_id: "cli.comment-add",
            surface: ContractSurface::Cli,
            method: None,
            path: None,
            operation: "comment add",
            key: "comment add",
            migration: MigrationState::Generated,
            exclusion: None,
            shared_components: &[],
            header_profile: None,
            mcp_policy: None,
            obligation_overrides: &[],
            contracts: &[
                ContractDeclaration {
                    id: "cli.comment-add.output",
                    path: "kanban comment add --json stdout",
                    operation: None,
                    location: None,
                    operation_key: None,
                    parameters: &[],
                    direction: ContractDirection::Serialize,
                    strictness: ContractStrictness::DenyUnknownFields,
                    granularity: ContractGranularity::Exact,
                    binding: ContractBinding::ExactSurface,
                    schema_id: Some("urn:kanban-tool:schema:cli:comment-add-output:v1"),
                    artifact_path: Some("cli/comment-add-output.v1.schema.json"),
                    schema_title: Some("Kanban CLI comment add output v1"),
                    valid_fixture: Some("schemas/fixtures/cli/comment-add-output.v1.valid.json"),
                    invalid_fixture: Some("schemas/fixtures/cli/comment-add-output.v1.invalid.json"),
                    exclusion: None,
                    producer: None,
                    consumer: None,
                },
            ],
        },
        OperationDeclaration {
            operation_id: "cli.comment-list",
            surface: ContractSurface::Cli,
            method: None,
            path: None,
            operation: "comment list",
            key: "comment list",
            migration: MigrationState::Generated,
            exclusion: None,
            shared_components: &[],
            header_profile: None,
            mcp_policy: None,
            obligation_overrides: &[],
            contracts: &[
                ContractDeclaration {
                    id: "cli.comment-list.output",
                    path: "kanban comment list --json stdout",
                    operation: None,
                    location: None,
                    operation_key: None,
                    parameters: &[],
                    direction: ContractDirection::Serialize,
                    strictness: ContractStrictness::DenyUnknownFields,
                    granularity: ContractGranularity::Exact,
                    binding: ContractBinding::ExactSurface,
                    schema_id: Some("urn:kanban-tool:schema:cli:comment-list-output:v1"),
                    artifact_path: Some("cli/comment-list-output.v1.schema.json"),
                    schema_title: Some("Kanban CLI comment list output v1"),
                    valid_fixture: Some("schemas/fixtures/cli/comment-list-output.v1.valid.json"),
                    invalid_fixture: Some("schemas/fixtures/cli/comment-list-output.v1.invalid.json"),
                    exclusion: None,
                    producer: None,
                    consumer: None,
                },
            ],
        },
        OperationDeclaration {
            operation_id: "cli.attachment-add",
            surface: ContractSurface::Cli,
            method: None,
            path: None,
            operation: "attachment add",
            key: "attachment add",
            migration: MigrationState::Generated,
            exclusion: None,
            shared_components: &[],
            header_profile: None,
            mcp_policy: None,
            obligation_overrides: &[],
            contracts: &[
                ContractDeclaration {
                    id: "cli.attachment-add.output",
                    path: "attachment add",
                    operation: None,
                    location: None,
                    operation_key: None,
                    parameters: &[],
                    direction: ContractDirection::Serialize,
                    strictness: ContractStrictness::DenyUnknownFields,
                    granularity: ContractGranularity::Exact,
                    binding: ContractBinding::ExactSurface,
                    schema_id: Some("urn:kanban-tool:schema:cli:attachment-add-output:v1"),
                    artifact_path: Some("cli/attachment-add-output.v1.schema.json"),
                    schema_title: Some("Kanban CLI attachment add output v1"),
                    valid_fixture: Some("schemas/fixtures/cli/attachment-add-output.v1.valid.json"),
                    invalid_fixture: Some("schemas/fixtures/cli/attachment-add-output.v1.invalid.json"),
                    exclusion: None,
                    producer: None,
                    consumer: None,
                },
            ],
        },
        OperationDeclaration {
            operation_id: "cli.attachment-list",
            surface: ContractSurface::Cli,
            method: None,
            path: None,
            operation: "attachment list",
            key: "attachment list",
            migration: MigrationState::Generated,
            exclusion: None,
            shared_components: &[],
            header_profile: None,
            mcp_policy: None,
            obligation_overrides: &[],
            contracts: &[
                ContractDeclaration {
                    id: "cli.attachment-list.output",
                    path: "attachment list",
                    operation: None,
                    location: None,
                    operation_key: None,
                    parameters: &[],
                    direction: ContractDirection::Serialize,
                    strictness: ContractStrictness::DenyUnknownFields,
                    granularity: ContractGranularity::Exact,
                    binding: ContractBinding::ExactSurface,
                    schema_id: Some("urn:kanban-tool:schema:cli:attachment-list-output:v1"),
                    artifact_path: Some("cli/attachment-list-output.v1.schema.json"),
                    schema_title: Some("Kanban CLI attachment list output v1"),
                    valid_fixture: Some("schemas/fixtures/cli/attachment-list-output.v1.valid.json"),
                    invalid_fixture: Some("schemas/fixtures/cli/attachment-list-output.v1.invalid.json"),
                    exclusion: None,
                    producer: None,
                    consumer: None,
                },
            ],
        },
        OperationDeclaration {
            operation_id: "cli.attachment-remove",
            surface: ContractSurface::Cli,
            method: None,
            path: None,
            operation: "attachment remove",
            key: "attachment remove",
            migration: MigrationState::Generated,
            exclusion: None,
            shared_components: &[],
            header_profile: None,
            mcp_policy: None,
            obligation_overrides: &[],
            contracts: &[
                ContractDeclaration {
                    id: "cli.attachment-remove.output",
                    path: "attachment remove",
                    operation: None,
                    location: None,
                    operation_key: None,
                    parameters: &[],
                    direction: ContractDirection::Serialize,
                    strictness: ContractStrictness::DenyUnknownFields,
                    granularity: ContractGranularity::Exact,
                    binding: ContractBinding::ExactSurface,
                    schema_id: Some("urn:kanban-tool:schema:cli:attachment-remove-output:v1"),
                    artifact_path: Some("cli/attachment-remove-output.v1.schema.json"),
                    schema_title: Some("Kanban CLI attachment remove output v1"),
                    valid_fixture: Some("schemas/fixtures/cli/attachment-remove-output.v1.valid.json"),
                    invalid_fixture: Some("schemas/fixtures/cli/attachment-remove-output.v1.invalid.json"),
                    exclusion: None,
                    producer: None,
                    consumer: None,
                },
            ],
        },
        OperationDeclaration {
            operation_id: "cli.attachment-download",
            surface: ContractSurface::Cli,
            method: None,
            path: None,
            operation: "attachment download",
            key: "attachment download",
            migration: MigrationState::Generated,
            exclusion: Some("附件下载输出是原始 bytes 文件，不是 JSON machine envelope"),
            shared_components: &[],
            header_profile: None,
            mcp_policy: None,
            obligation_overrides: &[],
            contracts: &[],
        },
        OperationDeclaration {
            operation_id: "cli.completions",
            surface: ContractSurface::Cli,
            method: None,
            path: None,
            operation: "completions",
            key: "completions",
            migration: MigrationState::Generated,
            exclusion: Some("shell completion script 是文本脚本，不是 JSON document"),
            shared_components: &[],
            header_profile: None,
            mcp_policy: None,
            obligation_overrides: &[],
            contracts: &[],
        },
        OperationDeclaration {
            operation_id: "cli.config-show",
            surface: ContractSurface::Cli,
            method: None,
            path: None,
            operation: "config show",
            key: "config show",
            migration: MigrationState::Generated,
            exclusion: None,
            shared_components: &[],
            header_profile: None,
            mcp_policy: None,
            obligation_overrides: &[],
            contracts: &[
                ContractDeclaration {
                    id: "cli.config-show.output",
                    path: "kanban config show --json stdout",
                    operation: None,
                    location: None,
                    operation_key: None,
                    parameters: &[],
                    direction: ContractDirection::Serialize,
                    strictness: ContractStrictness::DenyUnknownFields,
                    granularity: ContractGranularity::Exact,
                    binding: ContractBinding::ExactSurface,
                    schema_id: Some("urn:kanban-tool:schema:cli:config-show-output:v1"),
                    artifact_path: Some("cli/config-show-output.v1.schema.json"),
                    schema_title: Some("Kanban CLI config show output v1"),
                    valid_fixture: Some("schemas/fixtures/cli/config-show-output.v1.valid.json"),
                    invalid_fixture: Some("schemas/fixtures/cli/config-show-output.v1.invalid.json"),
                    exclusion: None,
                    producer: None,
                    consumer: None,
                },
            ],
        },
        OperationDeclaration {
            operation_id: "cli.context-build",
            surface: ContractSurface::Cli,
            method: None,
            path: None,
            operation: "context build",
            key: "context build",
            migration: MigrationState::Generated,
            exclusion: None,
            shared_components: &[],
            header_profile: None,
            mcp_policy: None,
            obligation_overrides: &[],
            contracts: &[
                ContractDeclaration {
                    id: "cli.context-build.output",
                    path: "kanban context build --json stdout",
                    operation: None,
                    location: None,
                    operation_key: None,
                    parameters: &[],
                    direction: ContractDirection::Serialize,
                    strictness: ContractStrictness::DenyUnknownFields,
                    granularity: ContractGranularity::Exact,
                    binding: ContractBinding::ExactSurface,
                    schema_id: Some("urn:kanban-tool:schema:cli:context-build-output:v1"),
                    artifact_path: Some("cli/context-build-output.v1.schema.json"),
                    schema_title: Some("Kanban CLI context build output v1"),
                    valid_fixture: Some("schemas/fixtures/cli/context-build-output.v1.valid.json"),
                    invalid_fixture: Some("schemas/fixtures/cli/context-build-output.v1.invalid.json"),
                    exclusion: None,
                    producer: None,
                    consumer: None,
                },
            ],
        },
        OperationDeclaration {
            operation_id: "cli.doctor",
            surface: ContractSurface::Cli,
            method: None,
            path: None,
            operation: "doctor",
            key: "doctor",
            migration: MigrationState::Generated,
            exclusion: None,
            shared_components: &[],
            header_profile: None,
            mcp_policy: None,
            obligation_overrides: &[],
            contracts: &[
                ContractDeclaration {
                    id: "cli.doctor.output",
                    path: "kanban doctor --json stdout",
                    operation: None,
                    location: None,
                    operation_key: None,
                    parameters: &[],
                    direction: ContractDirection::Serialize,
                    strictness: ContractStrictness::DenyUnknownFields,
                    granularity: ContractGranularity::Exact,
                    binding: ContractBinding::ExactSurface,
                    schema_id: Some("urn:kanban-tool:schema:cli:doctor-output:v1"),
                    artifact_path: Some("cli/doctor-output.v1.schema.json"),
                    schema_title: Some("Kanban CLI doctor output v1"),
                    valid_fixture: Some("schemas/fixtures/cli/doctor-output.v1.valid.json"),
                    invalid_fixture: Some("schemas/fixtures/cli/doctor-output.v1.invalid.json"),
                    exclusion: None,
                    producer: None,
                    consumer: None,
                },
            ],
        },
        OperationDeclaration {
            operation_id: "cli.entity-list",
            surface: ContractSurface::Cli,
            method: None,
            path: None,
            operation: "entity list",
            key: "entity list",
            migration: MigrationState::Generated,
            exclusion: None,
            shared_components: &[],
            header_profile: None,
            mcp_policy: None,
            obligation_overrides: &[],
            contracts: &[
                ContractDeclaration {
                    id: "cli.entity-list.output",
                    path: "kanban entity list --json stdout",
                    operation: None,
                    location: None,
                    operation_key: None,
                    parameters: &[],
                    direction: ContractDirection::Serialize,
                    strictness: ContractStrictness::DenyUnknownFields,
                    granularity: ContractGranularity::Exact,
                    binding: ContractBinding::ExactSurface,
                    schema_id: Some("urn:kanban-tool:schema:cli:entity-list-output:v1"),
                    artifact_path: Some("cli/entity-list-output.v1.schema.json"),
                    schema_title: Some("Kanban CLI entity list output v1"),
                    valid_fixture: Some("schemas/fixtures/cli/entity-list-output.v1.valid.json"),
                    invalid_fixture: Some("schemas/fixtures/cli/entity-list-output.v1.invalid.json"),
                    exclusion: None,
                    producer: None,
                    consumer: None,
                },
            ],
        },
        OperationDeclaration {
            operation_id: "cli.entity-show",
            surface: ContractSurface::Cli,
            method: None,
            path: None,
            operation: "entity show",
            key: "entity show",
            migration: MigrationState::Generated,
            exclusion: None,
            shared_components: &[],
            header_profile: None,
            mcp_policy: None,
            obligation_overrides: &[],
            contracts: &[
                ContractDeclaration {
                    id: "cli.entity-show.output",
                    path: "kanban entity show --json stdout",
                    operation: None,
                    location: None,
                    operation_key: None,
                    parameters: &[],
                    direction: ContractDirection::Serialize,
                    strictness: ContractStrictness::DenyUnknownFields,
                    granularity: ContractGranularity::Exact,
                    binding: ContractBinding::ExactSurface,
                    schema_id: Some("urn:kanban-tool:schema:cli:entity-show-output:v1"),
                    artifact_path: Some("cli/entity-show-output.v1.schema.json"),
                    schema_title: Some("Kanban CLI entity show output v1"),
                    valid_fixture: Some("schemas/fixtures/cli/entity-show-output.v1.valid.json"),
                    invalid_fixture: Some("schemas/fixtures/cli/entity-show-output.v1.invalid.json"),
                    exclusion: None,
                    producer: None,
                    consumer: None,
                },
            ],
        },
        OperationDeclaration {
            operation_id: "cli.entity-upsert",
            surface: ContractSurface::Cli,
            method: None,
            path: None,
            operation: "entity upsert",
            key: "entity upsert",
            migration: MigrationState::Generated,
            exclusion: None,
            shared_components: &[],
            header_profile: None,
            mcp_policy: None,
            obligation_overrides: &[],
            contracts: &[
                ContractDeclaration {
                    id: "cli.entity-upsert.output",
                    path: "kanban entity upsert --json stdout",
                    operation: None,
                    location: None,
                    operation_key: None,
                    parameters: &[],
                    direction: ContractDirection::Serialize,
                    strictness: ContractStrictness::DenyUnknownFields,
                    granularity: ContractGranularity::Exact,
                    binding: ContractBinding::ExactSurface,
                    schema_id: Some("urn:kanban-tool:schema:cli:entity-upsert-output:v1"),
                    artifact_path: Some("cli/entity-upsert-output.v1.schema.json"),
                    schema_title: Some("Kanban CLI entity upsert output v1"),
                    valid_fixture: Some("schemas/fixtures/cli/entity-upsert-output.v1.valid.json"),
                    invalid_fixture: Some("schemas/fixtures/cli/entity-upsert-output.v1.invalid.json"),
                    exclusion: None,
                    producer: None,
                    consumer: None,
                },
            ],
        },
        OperationDeclaration {
            operation_id: "cli.events",
            surface: ContractSurface::Cli,
            method: None,
            path: None,
            operation: "events",
            key: "events",
            migration: MigrationState::Generated,
            exclusion: None,
            shared_components: &[],
            header_profile: None,
            mcp_policy: None,
            obligation_overrides: &[],
            contracts: &[
                ContractDeclaration {
                    id: "cli.events.output",
                    path: "kanban events --json stdout",
                    operation: None,
                    location: None,
                    operation_key: None,
                    parameters: &[],
                    direction: ContractDirection::Serialize,
                    strictness: ContractStrictness::DenyUnknownFields,
                    granularity: ContractGranularity::Exact,
                    binding: ContractBinding::ExactSurface,
                    schema_id: Some("urn:kanban-tool:schema:cli:events-output:v1"),
                    artifact_path: Some("cli/events-output.v1.schema.json"),
                    schema_title: Some("Kanban CLI events output v1"),
                    valid_fixture: Some("schemas/fixtures/cli/events-output.v1.valid.json"),
                    invalid_fixture: Some("schemas/fixtures/cli/events-output.v1.invalid.json"),
                    exclusion: None,
                    producer: None,
                    consumer: None,
                },
            ],
        },
        OperationDeclaration {
            operation_id: "cli.export",
            surface: ContractSurface::Cli,
            method: None,
            path: None,
            operation: "export",
            key: "export",
            migration: MigrationState::Generated,
            exclusion: None,
            shared_components: &[],
            header_profile: None,
            mcp_policy: None,
            obligation_overrides: &[],
            contracts: &[
                ContractDeclaration {
                    id: "cli.maintenance-export.output",
                    path: "kanban export --json stdout",
                    operation: None,
                    location: None,
                    operation_key: None,
                    parameters: &[],
                    direction: ContractDirection::Serialize,
                    strictness: ContractStrictness::DenyUnknownFields,
                    granularity: ContractGranularity::Exact,
                    binding: ContractBinding::ExactSurface,
                    schema_id: Some("urn:kanban-tool:schema:cli:maintenance-export-output:v1"),
                    artifact_path: Some("cli/maintenance-export-output.v1.schema.json"),
                    schema_title: Some("Kanban CLI maintenance export output v1"),
                    valid_fixture: Some("schemas/fixtures/cli/maintenance-export-output.v1.valid.json"),
                    invalid_fixture: Some("schemas/fixtures/cli/maintenance-export-output.v1.invalid.json"),
                    exclusion: None,
                    producer: None,
                    consumer: None,
                },
            ],
        },
        OperationDeclaration {
            operation_id: "cli.graph-neighbors",
            surface: ContractSurface::Cli,
            method: None,
            path: None,
            operation: "graph neighbors",
            key: "graph neighbors",
            migration: MigrationState::Generated,
            exclusion: None,
            shared_components: &[],
            header_profile: None,
            mcp_policy: None,
            obligation_overrides: &[],
            contracts: &[
                ContractDeclaration {
                    id: "cli.graph-neighbors.output",
                    path: "kanban graph neighbors --json stdout",
                    operation: None,
                    location: None,
                    operation_key: None,
                    parameters: &[],
                    direction: ContractDirection::Serialize,
                    strictness: ContractStrictness::DenyUnknownFields,
                    granularity: ContractGranularity::Exact,
                    binding: ContractBinding::ExactSurface,
                    schema_id: Some("urn:kanban-tool:schema:cli:graph-neighbors-output:v1"),
                    artifact_path: Some("cli/graph-neighbors-output.v1.schema.json"),
                    schema_title: Some("Kanban CLI graph neighbors output v1"),
                    valid_fixture: Some("schemas/fixtures/cli/graph-neighbors-output.v1.valid.json"),
                    invalid_fixture: Some("schemas/fixtures/cli/graph-neighbors-output.v1.invalid.json"),
                    exclusion: None,
                    producer: None,
                    consumer: None,
                },
            ],
        },
        OperationDeclaration {
            operation_id: "cli.graph-query",
            surface: ContractSurface::Cli,
            method: None,
            path: None,
            operation: "graph query",
            key: "graph query",
            migration: MigrationState::Generated,
            exclusion: None,
            shared_components: &[],
            header_profile: None,
            mcp_policy: None,
            obligation_overrides: &[],
            contracts: &[
                ContractDeclaration {
                    id: "cli.graph-query.output",
                    path: "kanban graph query --json stdout",
                    operation: None,
                    location: None,
                    operation_key: None,
                    parameters: &[],
                    direction: ContractDirection::Serialize,
                    strictness: ContractStrictness::DenyUnknownFields,
                    granularity: ContractGranularity::Exact,
                    binding: ContractBinding::ExactSurface,
                    schema_id: Some("urn:kanban-tool:schema:cli:graph-query-output:v1"),
                    artifact_path: Some("cli/graph-query-output.v1.schema.json"),
                    schema_title: Some("Kanban CLI graph query output v1"),
                    valid_fixture: Some("schemas/fixtures/cli/graph-query-output.v1.valid.json"),
                    invalid_fixture: Some("schemas/fixtures/cli/graph-query-output.v1.invalid.json"),
                    exclusion: None,
                    producer: None,
                    consumer: None,
                },
            ],
        },
        OperationDeclaration {
            operation_id: "cli.graph-neighborhood",
            surface: ContractSurface::Cli,
            method: None,
            path: None,
            operation: "graph neighborhood",
            key: "graph neighborhood",
            migration: MigrationState::Generated,
            exclusion: None,
            shared_components: &[],
            header_profile: None,
            mcp_policy: None,
            obligation_overrides: &[],
            contracts: &[
                ContractDeclaration {
                    id: "cli.graph-neighborhood.output",
                    path: "kanban graph neighborhood --json stdout",
                    operation: None,
                    location: None,
                    operation_key: None,
                    parameters: &[],
                    direction: ContractDirection::Serialize,
                    strictness: ContractStrictness::DenyUnknownFields,
                    granularity: ContractGranularity::Exact,
                    binding: ContractBinding::ExactSurface,
                    schema_id: Some("urn:kanban-tool:schema:cli:graph-neighborhood-output:v1"),
                    artifact_path: Some("cli/graph-neighborhood-output.v1.schema.json"),
                    schema_title: Some("Kanban CLI graph neighborhood output v1"),
                    valid_fixture: Some("schemas/fixtures/cli/graph-neighborhood-output.v1.valid.json"),
                    invalid_fixture: Some("schemas/fixtures/cli/graph-neighborhood-output.v1.invalid.json"),
                    exclusion: None,
                    producer: None,
                    consumer: None,
                },
            ],
        },
        OperationDeclaration {
            operation_id: "cli.graph-map",
            surface: ContractSurface::Cli,
            method: None,
            path: None,
            operation: "graph map",
            key: "graph map",
            migration: MigrationState::Generated,
            exclusion: None,
            shared_components: &[],
            header_profile: None,
            mcp_policy: None,
            obligation_overrides: &[],
            contracts: &[
                ContractDeclaration {
                    id: "cli.graph-map.output",
                    path: "kanban graph map --json stdout",
                    operation: None,
                    location: None,
                    operation_key: None,
                    parameters: &[],
                    direction: ContractDirection::Serialize,
                    strictness: ContractStrictness::DenyUnknownFields,
                    granularity: ContractGranularity::Exact,
                    binding: ContractBinding::ExactSurface,
                    schema_id: Some("urn:kanban-tool:schema:cli:graph-map-output:v1"),
                    artifact_path: Some("cli/graph-map-output.v1.schema.json"),
                    schema_title: Some("Kanban CLI graph map output v1"),
                    valid_fixture: Some("schemas/fixtures/cli/graph-map-output.v1.valid.json"),
                    invalid_fixture: Some("schemas/fixtures/cli/graph-map-output.v1.invalid.json"),
                    exclusion: None,
                    producer: None,
                    consumer: None,
                },
            ],
        },
        OperationDeclaration {
            operation_id: "cli.graph-rebuild",
            surface: ContractSurface::Cli,
            method: None,
            path: None,
            operation: "graph rebuild",
            key: "graph rebuild",
            migration: MigrationState::Generated,
            exclusion: None,
            shared_components: &[],
            header_profile: None,
            mcp_policy: None,
            obligation_overrides: &[],
            contracts: &[
                ContractDeclaration {
                    id: "cli.graph-rebuild.output",
                    path: "kanban graph rebuild --json stdout",
                    operation: None,
                    location: None,
                    operation_key: None,
                    parameters: &[],
                    direction: ContractDirection::Serialize,
                    strictness: ContractStrictness::DenyUnknownFields,
                    granularity: ContractGranularity::Exact,
                    binding: ContractBinding::ExactSurface,
                    schema_id: Some("urn:kanban-tool:schema:cli:graph-rebuild-output:v1"),
                    artifact_path: Some("cli/graph-rebuild-output.v1.schema.json"),
                    schema_title: Some("Kanban CLI graph rebuild output v1"),
                    valid_fixture: Some("schemas/fixtures/cli/graph-rebuild-output.v1.valid.json"),
                    invalid_fixture: Some("schemas/fixtures/cli/graph-rebuild-output.v1.invalid.json"),
                    exclusion: None,
                    producer: None,
                    consumer: None,
                },
            ],
        },
        OperationDeclaration {
            operation_id: "cli.graph-status",
            surface: ContractSurface::Cli,
            method: None,
            path: None,
            operation: "graph status",
            key: "graph status",
            migration: MigrationState::Generated,
            exclusion: None,
            shared_components: &[],
            header_profile: None,
            mcp_policy: None,
            obligation_overrides: &[],
            contracts: &[
                ContractDeclaration {
                    id: "cli.graph-status.output",
                    path: "kanban graph status --json stdout",
                    operation: None,
                    location: None,
                    operation_key: None,
                    parameters: &[],
                    direction: ContractDirection::Serialize,
                    strictness: ContractStrictness::DenyUnknownFields,
                    granularity: ContractGranularity::Exact,
                    binding: ContractBinding::ExactSurface,
                    schema_id: Some("urn:kanban-tool:schema:cli:graph-status-output:v1"),
                    artifact_path: Some("cli/graph-status-output.v1.schema.json"),
                    schema_title: Some("Kanban CLI graph status output v1"),
                    valid_fixture: Some("schemas/fixtures/cli/graph-status-output.v1.valid.json"),
                    invalid_fixture: Some("schemas/fixtures/cli/graph-status-output.v1.invalid.json"),
                    exclusion: None,
                    producer: None,
                    consumer: None,
                },
            ],
        },
        OperationDeclaration {
            operation_id: "cli.graph-sync",
            surface: ContractSurface::Cli,
            method: None,
            path: None,
            operation: "graph sync",
            key: "graph sync",
            migration: MigrationState::Generated,
            exclusion: None,
            shared_components: &[],
            header_profile: None,
            mcp_policy: None,
            obligation_overrides: &[],
            contracts: &[
                ContractDeclaration {
                    id: "cli.graph-sync.output",
                    path: "kanban graph sync --json stdout",
                    operation: None,
                    location: None,
                    operation_key: None,
                    parameters: &[],
                    direction: ContractDirection::Serialize,
                    strictness: ContractStrictness::DenyUnknownFields,
                    granularity: ContractGranularity::Exact,
                    binding: ContractBinding::ExactSurface,
                    schema_id: Some("urn:kanban-tool:schema:cli:graph-sync-output:v1"),
                    artifact_path: Some("cli/graph-sync-output.v1.schema.json"),
                    schema_title: Some("Kanban CLI graph sync output v1"),
                    valid_fixture: Some("schemas/fixtures/cli/graph-sync-output.v1.valid.json"),
                    invalid_fixture: Some("schemas/fixtures/cli/graph-sync-output.v1.invalid.json"),
                    exclusion: None,
                    producer: None,
                    consumer: None,
                },
            ],
        },
        OperationDeclaration {
            operation_id: "cli.hook-codex-handle-failure",
            surface: ContractSurface::Cli,
            method: None,
            path: None,
            operation: "hook codex handle failure",
            key: "hook codex handle failure",
            migration: MigrationState::Generated,
            exclusion: Some("Codex hook handler 使用独立 stdin/stdout protocol，不走通用 CLI JSON envelope"),
            shared_components: &[],
            header_profile: None,
            mcp_policy: None,
            obligation_overrides: &[],
            contracts: &[],
        },
        OperationDeclaration {
            operation_id: "cli.hook-codex-handle-task-create",
            surface: ContractSurface::Cli,
            method: None,
            path: None,
            operation: "hook codex handle task-create",
            key: "hook codex handle task-create",
            migration: MigrationState::Generated,
            exclusion: Some("Codex hook handler 使用独立 stdin/stdout protocol，不走通用 CLI JSON envelope"),
            shared_components: &[],
            header_profile: None,
            mcp_policy: None,
            obligation_overrides: &[],
            contracts: &[],
        },
        OperationDeclaration {
            operation_id: "cli.hook-codex-install",
            surface: ContractSurface::Cli,
            method: None,
            path: None,
            operation: "hook codex install",
            key: "hook codex install",
            migration: MigrationState::Generated,
            exclusion: None,
            shared_components: &[],
            header_profile: None,
            mcp_policy: None,
            obligation_overrides: &[],
            contracts: &[
                ContractDeclaration {
                    id: "cli.hook-codex-install.output",
                    path: "kanban hook codex install --json stdout",
                    operation: None,
                    location: None,
                    operation_key: None,
                    parameters: &[],
                    direction: ContractDirection::Serialize,
                    strictness: ContractStrictness::DenyUnknownFields,
                    granularity: ContractGranularity::Exact,
                    binding: ContractBinding::ExactSurface,
                    schema_id: Some("urn:kanban-tool:schema:cli:hook-codex-install-output:v1"),
                    artifact_path: Some("cli/hook-codex-install-output.v1.schema.json"),
                    schema_title: Some("Kanban CLI hook codex install output v1"),
                    valid_fixture: Some("schemas/fixtures/cli/hook-codex-install-output.v1.valid.json"),
                    invalid_fixture: Some("schemas/fixtures/cli/hook-codex-install-output.v1.invalid.json"),
                    exclusion: None,
                    producer: None,
                    consumer: None,
                },
            ],
        },
        OperationDeclaration {
            operation_id: "cli.hook-codex-status",
            surface: ContractSurface::Cli,
            method: None,
            path: None,
            operation: "hook codex status",
            key: "hook codex status",
            migration: MigrationState::Generated,
            exclusion: None,
            shared_components: &[],
            header_profile: None,
            mcp_policy: None,
            obligation_overrides: &[],
            contracts: &[
                ContractDeclaration {
                    id: "cli.hook-codex-status.output",
                    path: "kanban hook codex status --json stdout",
                    operation: None,
                    location: None,
                    operation_key: None,
                    parameters: &[],
                    direction: ContractDirection::Serialize,
                    strictness: ContractStrictness::DenyUnknownFields,
                    granularity: ContractGranularity::Exact,
                    binding: ContractBinding::ExactSurface,
                    schema_id: Some("urn:kanban-tool:schema:cli:hook-codex-status-output:v1"),
                    artifact_path: Some("cli/hook-codex-status-output.v1.schema.json"),
                    schema_title: Some("Kanban CLI hook codex status output v1"),
                    valid_fixture: Some("schemas/fixtures/cli/hook-codex-status-output.v1.valid.json"),
                    invalid_fixture: Some("schemas/fixtures/cli/hook-codex-status-output.v1.invalid.json"),
                    exclusion: None,
                    producer: None,
                    consumer: None,
                },
            ],
        },
        OperationDeclaration {
            operation_id: "cli.hook-codex-uninstall",
            surface: ContractSurface::Cli,
            method: None,
            path: None,
            operation: "hook codex uninstall",
            key: "hook codex uninstall",
            migration: MigrationState::Generated,
            exclusion: None,
            shared_components: &[],
            header_profile: None,
            mcp_policy: None,
            obligation_overrides: &[],
            contracts: &[
                ContractDeclaration {
                    id: "cli.hook-codex-uninstall.output",
                    path: "kanban hook codex uninstall --json stdout",
                    operation: None,
                    location: None,
                    operation_key: None,
                    parameters: &[],
                    direction: ContractDirection::Serialize,
                    strictness: ContractStrictness::DenyUnknownFields,
                    granularity: ContractGranularity::Exact,
                    binding: ContractBinding::ExactSurface,
                    schema_id: Some("urn:kanban-tool:schema:cli:hook-codex-uninstall-output:v1"),
                    artifact_path: Some("cli/hook-codex-uninstall-output.v1.schema.json"),
                    schema_title: Some("Kanban CLI hook codex uninstall output v1"),
                    valid_fixture: Some("schemas/fixtures/cli/hook-codex-uninstall-output.v1.valid.json"),
                    invalid_fixture: Some("schemas/fixtures/cli/hook-codex-uninstall-output.v1.invalid.json"),
                    exclusion: None,
                    producer: None,
                    consumer: None,
                },
            ],
        },
        OperationDeclaration {
            operation_id: "cli.import",
            surface: ContractSurface::Cli,
            method: None,
            path: None,
            operation: "import",
            key: "import",
            migration: MigrationState::Generated,
            exclusion: None,
            shared_components: &[],
            header_profile: None,
            mcp_policy: None,
            obligation_overrides: &[],
            contracts: &[
                ContractDeclaration {
                    id: "cli.maintenance-import.output",
                    path: "kanban import --json stdout",
                    operation: None,
                    location: None,
                    operation_key: None,
                    parameters: &[],
                    direction: ContractDirection::Serialize,
                    strictness: ContractStrictness::DenyUnknownFields,
                    granularity: ContractGranularity::Exact,
                    binding: ContractBinding::ExactSurface,
                    schema_id: Some("urn:kanban-tool:schema:cli:maintenance-import-output:v1"),
                    artifact_path: Some("cli/maintenance-import-output.v1.schema.json"),
                    schema_title: Some("Kanban CLI maintenance import output v1"),
                    valid_fixture: Some("schemas/fixtures/cli/maintenance-import-output.v1.valid.json"),
                    invalid_fixture: Some("schemas/fixtures/cli/maintenance-import-output.v1.invalid.json"),
                    exclusion: None,
                    producer: None,
                    consumer: None,
                },
            ],
        },
        OperationDeclaration {
            operation_id: "cli.index-doctor",
            surface: ContractSurface::Cli,
            method: None,
            path: None,
            operation: "index doctor",
            key: "index doctor",
            migration: MigrationState::Generated,
            exclusion: None,
            shared_components: &[],
            header_profile: None,
            mcp_policy: None,
            obligation_overrides: &[],
            contracts: &[
                ContractDeclaration {
                    id: "cli.index-doctor.output",
                    path: "kanban index doctor --json stdout",
                    operation: None,
                    location: None,
                    operation_key: None,
                    parameters: &[],
                    direction: ContractDirection::Serialize,
                    strictness: ContractStrictness::DenyUnknownFields,
                    granularity: ContractGranularity::Exact,
                    binding: ContractBinding::ExactSurface,
                    schema_id: Some("urn:kanban-tool:schema:cli:index-doctor-output:v1"),
                    artifact_path: Some("cli/index-doctor-output.v1.schema.json"),
                    schema_title: Some("Kanban CLI index doctor output v1"),
                    valid_fixture: Some("schemas/fixtures/cli/index-doctor-output.v1.valid.json"),
                    invalid_fixture: Some("schemas/fixtures/cli/index-doctor-output.v1.invalid.json"),
                    exclusion: None,
                    producer: None,
                    consumer: None,
                },
            ],
        },
        OperationDeclaration {
            operation_id: "cli.index-rebuild",
            surface: ContractSurface::Cli,
            method: None,
            path: None,
            operation: "index rebuild",
            key: "index rebuild",
            migration: MigrationState::Generated,
            exclusion: None,
            shared_components: &[],
            header_profile: None,
            mcp_policy: None,
            obligation_overrides: &[],
            contracts: &[
                ContractDeclaration {
                    id: "cli.index-rebuild.output",
                    path: "kanban index rebuild --json stdout",
                    operation: None,
                    location: None,
                    operation_key: None,
                    parameters: &[],
                    direction: ContractDirection::Serialize,
                    strictness: ContractStrictness::DenyUnknownFields,
                    granularity: ContractGranularity::Exact,
                    binding: ContractBinding::ExactSurface,
                    schema_id: Some("urn:kanban-tool:schema:cli:index-rebuild-output:v1"),
                    artifact_path: Some("cli/index-rebuild-output.v1.schema.json"),
                    schema_title: Some("Kanban CLI index rebuild output v1"),
                    valid_fixture: Some("schemas/fixtures/cli/index-rebuild-output.v1.valid.json"),
                    invalid_fixture: Some("schemas/fixtures/cli/index-rebuild-output.v1.invalid.json"),
                    exclusion: None,
                    producer: None,
                    consumer: None,
                },
            ],
        },
        OperationDeclaration {
            operation_id: "cli.index-status",
            surface: ContractSurface::Cli,
            method: None,
            path: None,
            operation: "index status",
            key: "index status",
            migration: MigrationState::Generated,
            exclusion: None,
            shared_components: &[],
            header_profile: None,
            mcp_policy: None,
            obligation_overrides: &[],
            contracts: &[
                ContractDeclaration {
                    id: "cli.index-status.output",
                    path: "kanban index status --json stdout",
                    operation: None,
                    location: None,
                    operation_key: None,
                    parameters: &[],
                    direction: ContractDirection::Serialize,
                    strictness: ContractStrictness::DenyUnknownFields,
                    granularity: ContractGranularity::Exact,
                    binding: ContractBinding::ExactSurface,
                    schema_id: Some("urn:kanban-tool:schema:cli:index-status-output:v1"),
                    artifact_path: Some("cli/index-status-output.v1.schema.json"),
                    schema_title: Some("Kanban CLI index status output v1"),
                    valid_fixture: Some("schemas/fixtures/cli/index-status-output.v1.valid.json"),
                    invalid_fixture: Some("schemas/fixtures/cli/index-status-output.v1.invalid.json"),
                    exclusion: None,
                    producer: None,
                    consumer: None,
                },
            ],
        },
        OperationDeclaration {
            operation_id: "cli.index-sync",
            surface: ContractSurface::Cli,
            method: None,
            path: None,
            operation: "index sync",
            key: "index sync",
            migration: MigrationState::Generated,
            exclusion: None,
            shared_components: &[],
            header_profile: None,
            mcp_policy: None,
            obligation_overrides: &[],
            contracts: &[
                ContractDeclaration {
                    id: "cli.index-sync.output",
                    path: "kanban index sync --json stdout",
                    operation: None,
                    location: None,
                    operation_key: None,
                    parameters: &[],
                    direction: ContractDirection::Serialize,
                    strictness: ContractStrictness::DenyUnknownFields,
                    granularity: ContractGranularity::Exact,
                    binding: ContractBinding::ExactSurface,
                    schema_id: Some("urn:kanban-tool:schema:cli:index-sync-output:v1"),
                    artifact_path: Some("cli/index-sync-output.v1.schema.json"),
                    schema_title: Some("Kanban CLI index sync output v1"),
                    valid_fixture: Some("schemas/fixtures/cli/index-sync-output.v1.valid.json"),
                    invalid_fixture: Some("schemas/fixtures/cli/index-sync-output.v1.invalid.json"),
                    exclusion: None,
                    producer: None,
                    consumer: None,
                },
            ],
        },
        OperationDeclaration {
            operation_id: "cli.init",
            surface: ContractSurface::Cli,
            method: None,
            path: None,
            operation: "init",
            key: "init",
            migration: MigrationState::Generated,
            exclusion: None,
            shared_components: &[],
            header_profile: None,
            mcp_policy: None,
            obligation_overrides: &[],
            contracts: &[
                ContractDeclaration {
                    id: "cli.init.output",
                    path: "kanban init --json stdout",
                    operation: None,
                    location: None,
                    operation_key: None,
                    parameters: &[],
                    direction: ContractDirection::Serialize,
                    strictness: ContractStrictness::DenyUnknownFields,
                    granularity: ContractGranularity::Exact,
                    binding: ContractBinding::ExactSurface,
                    schema_id: Some("urn:kanban-tool:schema:cli:init-output:v1"),
                    artifact_path: Some("cli/init-output.v1.schema.json"),
                    schema_title: Some("Kanban CLI init output v1"),
                    valid_fixture: Some("schemas/fixtures/cli/init-output.v1.valid.json"),
                    invalid_fixture: Some("schemas/fixtures/cli/init-output.v1.invalid.json"),
                    exclusion: None,
                    producer: None,
                    consumer: None,
                },
            ],
        },
        OperationDeclaration {
            operation_id: "cli.maintenance-rebuild-v1",
            surface: ContractSurface::Cli,
            method: None,
            path: None,
            operation: "maintenance rebuild",
            key: "maintenance rebuild",
            migration: MigrationState::Generated,
            exclusion: None,
            shared_components: &[],
            header_profile: None,
            mcp_policy: None,
            obligation_overrides: &[],
            contracts: &[
                ContractDeclaration {
                    id: "cli.maintenance-rebuild-v1.output",
                    path: "kanban maintenance rebuild --json stdout",
                    operation: None,
                    location: None,
                    operation_key: None,
                    parameters: &[],
                    direction: ContractDirection::Serialize,
                    strictness: ContractStrictness::DenyUnknownFields,
                    granularity: ContractGranularity::Exact,
                    binding: ContractBinding::ExactSurface,
                    schema_id: Some("urn:kanban-tool:schema:cli:maintenance-rebuild-output:v1"),
                    artifact_path: Some("cli/maintenance-rebuild-output.v1.schema.json"),
                    schema_title: Some("Kanban CLI maintenance rebuild output v1"),
                    valid_fixture: Some("schemas/fixtures/cli/maintenance-rebuild-output.v1.valid.json"),
                    invalid_fixture: Some("schemas/fixtures/cli/maintenance-rebuild-output.v1.invalid.json"),
                    exclusion: None,
                    producer: None,
                    consumer: None,
                },
            ],
        },
        OperationDeclaration {
            operation_id: "cli.maintenance-run-v1",
            surface: ContractSurface::Cli,
            method: None,
            path: None,
            operation: "maintenance run",
            key: "maintenance run",
            migration: MigrationState::Generated,
            exclusion: None,
            shared_components: &[],
            header_profile: None,
            mcp_policy: None,
            obligation_overrides: &[],
            contracts: &[
                ContractDeclaration {
                    id: "cli.maintenance-run-v1.output",
                    path: "kanban maintenance run --json stdout",
                    operation: None,
                    location: None,
                    operation_key: None,
                    parameters: &[],
                    direction: ContractDirection::Serialize,
                    strictness: ContractStrictness::DenyUnknownFields,
                    granularity: ContractGranularity::Exact,
                    binding: ContractBinding::ExactSurface,
                    schema_id: Some("urn:kanban-tool:schema:cli:maintenance-run-output:v1"),
                    artifact_path: Some("cli/maintenance-run-output.v1.schema.json"),
                    schema_title: Some("Kanban CLI maintenance run output v1"),
                    valid_fixture: Some("schemas/fixtures/cli/maintenance-run-output.v1.valid.json"),
                    invalid_fixture: Some("schemas/fixtures/cli/maintenance-run-output.v1.invalid.json"),
                    exclusion: None,
                    producer: None,
                    consumer: None,
                },
            ],
        },
        OperationDeclaration {
            operation_id: "cli.maintenance-status-v1",
            surface: ContractSurface::Cli,
            method: None,
            path: None,
            operation: "maintenance status",
            key: "maintenance status",
            migration: MigrationState::Generated,
            exclusion: None,
            shared_components: &[],
            header_profile: None,
            mcp_policy: None,
            obligation_overrides: &[],
            contracts: &[
                ContractDeclaration {
                    id: "cli.maintenance-status-v1.output",
                    path: "kanban maintenance status --json stdout",
                    operation: None,
                    location: None,
                    operation_key: None,
                    parameters: &[],
                    direction: ContractDirection::Serialize,
                    strictness: ContractStrictness::DenyUnknownFields,
                    granularity: ContractGranularity::Exact,
                    binding: ContractBinding::ExactSurface,
                    schema_id: Some("urn:kanban-tool:schema:cli:maintenance-status-output:v1"),
                    artifact_path: Some("cli/maintenance-status-output.v1.schema.json"),
                    schema_title: Some("Kanban CLI maintenance status output v1"),
                    valid_fixture: Some("schemas/fixtures/cli/maintenance-status-output.v1.valid.json"),
                    invalid_fixture: Some("schemas/fixtures/cli/maintenance-status-output.v1.invalid.json"),
                    exclusion: None,
                    producer: None,
                    consumer: None,
                },
            ],
        },
    ]
}

/// Every API or SSE operation of the catalog names a method and a path, and every
/// child that declares a schema declares its full metadata.
pub proof fn lemma_cli_shell_operations_ready()
    ensures
        endpoints_ready(cli_shell_operations()),
        schemas_ready(cli_shell_operations()),
{
    reveal(cli_shell_operations);
    let ops = cli_shell_operations();
    assert forall|i: int| 0 <= i < ops.len() && is_http_surface(#[trigger] ops[i].surface) implies endpoint_ready(ops[i]) by {
        if i == 0 {
        } else if i == 1 {
        } else if i == 2 {
        } else if i == 3 {
        } else if i == 4 {
        } else if i == 5 {
        } else if i == 6 {
        } else if i == 7 {
        } else if i == 8 {
        } else if i == 9 {
        } else if i == 10 {
        } else if i == 11 {
        } else if i == 12 {
        } else if i == 13 {
        } else if i == 14 {
        } else if i == 15 {
        } else if i == 16 {
        } else if i == 17 {
        } else if i == 18 {
        } else if i == 19 {
        } else if i == 20 {
        } else if i == 21 {
        } else if i == 22 {
        } else if i == 23 {
        } else if i == 24 {
        } else if i == 25 {
        } else if i == 26 {
        } else if i == 27 {
        } else if i == 28 {
        } else if i == 29 {
        } else if i == 30 {
        } else if i == 31 {
        } else if i == 32 {
        } else if i == 33 {
        } else if i == 34 {
        } else if i == 35 {
        } else if i == 36 {
        } else if i == 37 {
        } else if i == 38 {
        } else if i == 39 {
        } else if i == 40 {
        }
    }
    assert forall|i: int, j: int| 0 <= i < ops.len() && 0 <= j < ops[i].contracts@.len() implies schema_ready(#[trigger] ops[i].contracts@[j]) by {
        if i == 0 {
        } else if i == 1 {
            if j == 0 {
            }
        } else if i == 2 {
            if j == 0 {
            }
        } else if i == 3 {
            if j == 0 {
            }
        } else if i == 4 {
            if j == 0 {
            }
        } else if i == 5 {
            if j == 0 {
            }
        } else if i == 6 {
            if j == 0 {
            }
        } else if i == 7 {
            if j == 0 {
            }
        } else if i == 8 {
            if j == 0 {
            }
        } else if i == 9 {
            if j == 0 {
            }
        } else if i == 10 {
        } else if i == 11 {
        } else if i == 12 {
            if j == 0 {
            }
        } else if i == 13 {
            if j == 0 {
            }
        } else if i == 14 {
            if j == 0 {
            }
        } else if i == 15 {
            if j == 0 {
            }
        } else if i == 16 {
            if j == 0 {
            }
        } else if i == 17 {
            if j == 0 {
            }
        } else if i == 18 {
            if j == 0 {
            }
        } else if i == 19 {
            if j == 0 {
            }
        } else if i == 20 {
            if j == 0 {
            }
        } else if i == 21 {
            if j == 0 {
            }
        } else if i == 22 {
            if j == 0 {
            }
        } else if i == 23 {
            if j == 0 {
            }
        } else if i == 24 {
            if j == 0 {
            }
        } else if i == 25 {
            if j == 0 {
            }
        } else if i == 26 {
            if j == 0 {
            }
        } else if i == 27 {
        } else if i == 28 {
        } else if i == 29 {
            if j == 0 {
            }
        } else if i == 30 {
            if j == 0 {
            }
        } else if i == 31 {
            if j == 0 {
            }
        } else if i == 32 {
            if j == 0 {
            }
        } else if i == 33 {
            if j == 0 {
            }
        } else if i == 34 {
            if j == 0 {
            }
        } else if i == 35 {
            if j == 0 {
            }
        } else if i == 36 {
            if j == 0 {
            }
        } else if i == 37 {
            if j == 0 {
            }
        } else if i == 38 {
            if j == 0 {
            }
        } else if i == 39 {
            if j == 0 {
            }
        } else if i == 40 {
            if j == 0 {
            }
        }
    }
}

/// The operation declarations of this catalog, in source order.
pub fn operation_declarations() -> (r: Vec<OperationDeclaration>)
    ensures
        r@ == cli_shell_operations(),
{
    reveal(cli_shell_operations);
    vec![
        OperationDeclaration {
            operation_id: "cli.__complete",
            surface: ContractSurface::Cli,
            method: None,
            path: None,
            operation: "__complete",
            key: "__complete",
            migration: MigrationState::Generated,
            exclusion: Some("隐藏的动态补全候选使用逐行文本协议，不是 JSON document"),
            shared_components: &[],
            header_profile: None,
            mcp_policy: None,
            obligation_overrides: &[],
            contracts: &[],
        },
        OperationDeclaration {
            operation_id: "cli.backup",
            surface: ContractSurface::Cli,
            method: None,
            path: None,
            operation: "backup",
            key: "backup",
            migration: MigrationState::Generated,
            exclusion: None,
            shared_components: &[],
            header_profile: None,
            mcp_policy: None,
            obligation_overrides: &[],
            contracts: &[
                ContractDeclaration {
                    id: "cli.maintenance-backup.output",
                    path: "kanban backup --json stdout",
                    operation: None,
                    location: None,
                    operation_key: None,
                    parameters: &[],
                    direction: ContractDirection::Serialize,
                    strictness: ContractStrictness::DenyUnknownFields,
                    granularity: ContractGranularity::Exact,
                    binding: ContractBinding::ExactSurface,
                    schema_id: Some("urn:kanban-tool:schema:cli:maintenance-backup-output:v1"),
                    artifact_path: Some("cli/maintenance-backup-output.v1.schema.json"),
                    schema_title: Some("Kanban CLI maintenance backup output v1"),
                    valid_fixture: Some("schemas/fixtures/cli/maintenance-backup-output.v1.valid.json"),
                    invalid_fixture: Some("schemas/fixtures/cli/maintenance-backup-output.v1.invalid.json"),
                    exclusion: None,
                    producer: None,
                    consumer: None,
                },
            ],
        },
        OperationDeclaration {
            operation_id: "cli.board-current",
            surface: ContractSurface::Cli,
            method: None,
            path: None,
            operation: "board current",
            key: "board current",
            migration: MigrationState::Generated,
            exclusion: None,
            shared_components: &[],
            header_profile: None,
            mcp_policy: None,
            obligation_overrides: &[],
            contracts: &[
                ContractDeclaration {
                    id: "cli.board-current.output",
                    path: "kanban board current --json stdout",
                    operation: None,
                    location: None,
                    operation_key: None,
                    parameters: &[],
                    direction: ContractDirection::Serialize,
                    strictness: ContractStrictness::DenyUnknownFields,
                    granularity: ContractGranularity::Exact,
                    binding: ContractBinding::ExactSurface,
                    schema_id: Some("urn:kanban-tool:schema:cli:board-current-output:v1"),
                    artifact_path: Some("cli/board-current-output.v1.schema.json"),
                    schema_title: Some("Kanban CLI board current output v1"),
                    valid_fixture: Some("schemas/fixtures/cli/board-current-output.v1.valid.json"),
                    invalid_fixture: Some("schemas/fixtures/cli/board-current-output.v1.invalid.json"),
                    exclusion: None,
                    producer: None,
                    consumer: None,
                },
            ],
        },
        OperationDeclaration {
            operation_id: "cli.board-use",
            surface: ContractSurface::Cli,
            method: None,
            path: None,
            operation: "board use",
            key: "board use",
            migration: MigrationState::Generated,
            exclusion: None,
            shared_components: &[],
            header_profile: None,
            mcp_policy: None,
            obligation_overrides: &[],
            contracts: &[
                ContractDeclaration {
                    id: "cli.board-use.output",
                    path: "kanban board use --json stdout",
                    operation: None,
                    location: None,
                    operation_key: None,
                    parameters: &[],
                    direction: ContractDirection::Serialize,
                    strictness: ContractStrictness::DenyUnknownFields,
                    granularity: ContractGranularity::Exact,
                    binding: ContractBinding::ExactSurface,
                    schema_id: Some("urn:kanban-tool:schema:cli:board-use-output:v1"),
                    artifact_path: Some("cli/board-use-output.v1.schema.json"),
                    schema_title: Some("Kanban CLI board use output v1"),
                    valid_fixture: Some("schemas/fixtures/cli/board-use-output.v1.valid.json"),
                    invalid_fixture: Some("schemas/fixtures/cli/board-use-output.v1.invalid.json"),
                    exclusion: None,
                    producer: None,
                    consumer: None,
                },
            ],
        },
        OperationDeclaration {
            operation_id: "cli.checkpoint",
            surface: ContractSurface::Cli,
            method: None,
            path: None,
            operation: "checkpoint",
            key: "checkpoint",
            migration: MigrationState::Generated,
            exclusion: None,
            shared_components: &[],
            header_profile: None,
            mcp_policy: None,
            obligation_overrides: &[],
            contracts: &[
                ContractDeclaration {
                    id: "cli.checkpoint.output",
                    path: "kanban checkpoint --json stdout",
                    operation: None,
                    location: None,
                    operation_key: None,
                    parameters: &[],
                    direction: ContractDirection::Serialize,
                    strictness: ContractStrictness::DenyUnknownFields,
                    granularity: ContractGranularity::Exact,
                    binding: ContractBinding::ExactSurface,
                    schema_id: Some("urn:kanban-tool:schema:cli:checkpoint-output:v1"),
                    artifact_path: Some("cli/checkpoint-output.v1.schema.json"),
                    schema_title: Some("Kanban CLI checkpoint output v1"),
                    valid_fixture: Some("schemas/fixtures/cli/checkpoint-output.v1.valid.json"),
                    invalid_fixture: Some("schemas/fixtures/cli/checkpoint-output.v1.invalid.json"),
                    exclusion: None,
                    producer: None,
                    consumer: None,
                },
            ],
        },
        OperationDeclaration {
            operation_id: "cli.comment-add",
            surface: ContractSurface::Cli,
            method: None,
            path: None,
            operation: "comment add",
            key: "comment add",
            migration: MigrationState::Generated,
            exclusion: None,
            shared_components: &[],
            header_profile: None,
            mcp_policy: None,
            obligation_overrides: &[],
            contracts: &[
                ContractDeclaration {
                    id: "cli.comment-add.output",
                    path: "kanban comment add --json stdout",
                    operation: None,
                    location: None,
                    operation_key: None,
                    parameters: &[],
                    direction: ContractDirection::Serialize,
                    strictness: ContractStrictness::DenyUnknownFields,
                    granularity: ContractGranularity::Exact,
                    binding: ContractBinding::ExactSurface,
                    schema_id: Some("urn:kanban-tool:schema:cli:comment-add-output:v1"),
                    artifact_path: Some("cli/comment-add-output.v1.schema.json"),
                    schema_title: Some("Kanban CLI comment add output v1"),
                    valid_fixture: Some("schemas/fixtures/cli/comment-add-output.v1.valid.json"),
                    invalid_fixture: Some("schemas/fixtures/cli/comment-add-output.v1.invalid.json"),
                    exclusion: None,
                    producer: None,
                    consumer: None,
                },
            ],
        },
        OperationDeclaration {
            operation_id: "cli.comment-list",
            surface: ContractSurface::Cli,
            method: None,
            path: None,
            operation: "comment list",
            key: "comment list",
            migration: MigrationState::Generated,
            exclusion: None,
            shared_components: &[],
            header_profile: None,
            mcp_policy: None,
            obligation_overrides: &[],
            contracts: &[
                ContractDeclaration {
                    id: "cli.comment-list.output",
                    path: "kanban comment list --json stdout",
                    operation: None,
                    location: None,
                    operation_key: None,
                    parameters: &[],
                    direction: ContractDirection::Serialize,
                    strictness: ContractStrictness::DenyUnknownFields,
                    granularity: ContractGranularity::Exact,
                    binding: ContractBinding::ExactSurface,
                    schema_id: Some("urn:kanban-tool:schema:cli:comment-list-output:v1"),
                    artifact_path: Some("cli/comment-list-output.v1.schema.json"),
                    schema_title: Some("Kanban CLI comment list output v1"),
                    valid_fixture: Some("schemas/fixtures/cli/comment-list-output.v1.valid.json"),
                    invalid_fixture: Some("schemas/fixtures/cli/comment-list-output.v1.invalid.json"),
                    exclusion: None,
                    producer: None,
                    consumer: None,
                },
            ],
        },
        OperationDeclaration {
            operation_id: "cli.attachment-add",
            surface: ContractSurface::Cli,
            method: None,
            path: None,
            operation: "attachment add",
            key: "attachment add",
            migration: MigrationState::Generated,
            exclusion: None,
            shared_components: &[],
            header_profile: None,
            mcp_policy: None,
            obligation_overrides: &[],
            contracts: &[
                ContractDeclaration {
                    id: "cli.attachment-add.output",
                    path: "attachment add",
                    operation: None,
                    location: None,
                    operation_key: None,
                    parameters: &[],
                    direction: ContractDirection::Serialize,
                    strictness: ContractStrictness::DenyUnknownFields,
                    granularity: ContractGranularity::Exact,
                    binding: ContractBinding::ExactSurface,
                    schema_id: Some("urn:kanban-tool:schema:cli:attachment-add-output:v1"),
                    artifact_path: Some("cli/attachment-add-output.v1.schema.json"),
                    schema_title: Some("Kanban CLI attachment add output v1"),
                    valid_fixture: Some("schemas/fixtures/cli/attachment-add-output.v1.valid.json"),
                    invalid_fixture: Some("schemas/fixtures/cli/attachment-add-output.v1.invalid.json"),
                    exclusion: None,
                    producer: None,
                    consumer: None,
                },
            ],
        },
        OperationDeclaration {
            operation_id: "cli.attachment-list",
            surface: ContractSurface::Cli,
            method: None,
            path: None,
            operation: "attachment list",
            key: "attachment list",
            migration: MigrationState::Generated,
            exclusion: None,
            shared_components: &[],
            header_profile: None,
            mcp_policy: None,
            obligation_overrides: &[],
            contracts: &[
                ContractDeclaration {
                    id: "cli.attachment-list.output",
                    path: "attachment list",
                    operation: None,
                    location: None,
                    operation_key: None,
                    parameters: &[],
                    direction: ContractDirection::Serialize,
                    strictness: ContractStrictness::DenyUnknownFields,
                    granularity: ContractGranularity::Exact,
                    binding: ContractBinding::ExactSurface,
                    schema_id: Some("urn:kanban-tool:schema:cli:attachment-list-output:v1"),
                    artifact_path: Some("cli/attachment-list-output.v1.schema.json"),
                    schema_title: Some("Kanban CLI attachment list output v1"),
                    valid_fixture: Some("schemas/fixtures/cli/attachment-list-output.v1.valid.json"),
                    invalid_fixture: Some("schemas/fixtures/cli/attachment-list-output.v1.invalid.json"),
                    exclusion: None,
                    producer: None,
                    consumer: None,
                },
            ],
        },
        OperationDeclaration {
            operation_id: "cli.attachment-remove",
            surface: ContractSurface::Cli,
            method: None,
            path: None,
            operation: "attachment remove",
            key: "attachment remove",
            migration: MigrationState::Generated,
            exclusion: None,
            shared_components: &[],
            header_profile: None,
            mcp_policy: None,
            obligation_overrides: &[],
            contracts: &[
                ContractDeclaration {
                    id: "cli.attachment-remove.output",
                    path: "attachment remove",
                    operation: None,
                    location: None,
                    operation_key: None,
                    parameters: &[],
                    direction: ContractDirection::Serialize,
                    strictness: ContractStrictness::DenyUnknownFields,
                    granularity: ContractGranularity::Exact,
                    binding: ContractBinding::ExactSurface,
                    schema_id: Some("urn:kanban-tool:schema:cli:attachment-remove-output:v1"),
                    artifact_path: Some("cli/attachment-remove-output.v1.schema.json"),
                    schema_title: Some("Kanban CLI attachment remove output v1"),
                    valid_fixture: Some("schemas/fixtures/cli/attachment-remove-output.v1.valid.json"),
                    invalid_fixture: Some("schemas/fixtures/cli/attachment-remove-output.v1.invalid.json"),
                    exclusion: None,
                    producer: None,
                    consumer: None,
                },
            ],
        },
        OperationDeclaration {
            operation_id: "cli.attachment-download",
            surface: ContractSurface::Cli,
            method: None,
            path: None,
            operation: "attachment download",
            key: "attachment download",
            migration: MigrationState::Generated,
            exclusion: Some("附件下载输出是原始 bytes 文件，不是 JSON machine envelope"),
            shared_components: &[],
            header_profile: None,
            mcp_policy: None,
            obligation_overrides: &[],
            contracts: &[],
        },
        OperationDeclaration {
            operation_id: "cli.completions",
            surface: ContractSurface::Cli,
            method: None,
            path: None,
            operation: "completions",
            key: "completions",
            migration: MigrationState::Generated,
            exclusion: Some("shell completion script 是文本脚本，不是 JSON document"),
            shared_components: &[],
            header_profile: None,
            mcp_policy: None,
            obligation_overrides: &[],
            contracts: &[],
        },
        OperationDeclaration {
            operation_id: "cli.config-show",
            surface: ContractSurface::Cli,
            method: None,
            path: None,
            operation: "config show",
            key: "config show",
            migration: MigrationState::Generated,
            exclusion: None,
            shared_components: &[],
            header_profile: None,
            mcp_policy: None,
            obligation_overrides: &[],
            contracts: &[
                ContractDeclaration {
                    id: "cli.config-show.output",
                    path: "kanban config show --json stdout",
                    operation: None,
                    location: None,
                    operation_key: None,
                    parameters: &[],
                    direction: ContractDirection::Serialize,
                    strictness: ContractStrictness::DenyUnknownFields,
                    granularity: ContractGranularity::Exact,
                    binding: ContractBinding::ExactSurface,
                    schema_id: Some("urn:kanban-tool:schema:cli:config-show-output:v1"),
                    artifact_path: Some("cli/config-show-output.v1.schema.json"),
                    schema_title: Some("Kanban CLI config show output v1"),
                    valid_fixture: Some("schemas/fixtures/cli/config-show-output.v1.valid.json"),
                    invalid_fixture: Some("schemas/fixtures/cli/config-show-output.v1.invalid.json"),
                    exclusion: None,
                    producer: None,
                    consumer: None,
                },
            ],
        },
        OperationDeclaration {
            operation_id: "cli.context-build",
            surface: ContractSurface::Cli,
            method: None,
            path: None,
            operation: "context build",
            key: "context build",
            migration: MigrationState::Generated,
            exclusion: None,
            shared_components: &[],
            header_profile: None,
            mcp_policy: None,
            obligation_overrides: &[],
            contracts: &[
                ContractDeclaration {
                    id: "cli.context-build.output",
                    path: "kanban context build --json stdout",
                    operation: None,
                    location: None,
                    operation_key: None,
                    parameters: &[],
                    direction: ContractDirection::Serialize,
                    strictness: ContractStrictness::DenyUnknownFields,
                    granularity: ContractGranularity::Exact,
                    binding: ContractBinding::ExactSurface,
                    schema_id: Some("urn:kanban-tool:schema:cli:context-build-output:v1"),
                    artifact_path: Some("cli/context-build-output.v1.schema.json"),
                    schema_title: Some("Kanban CLI context build output v1"),
                    valid_fixture: Some("schemas/fixtures/cli/context-build-output.v1.valid.json"),
                    invalid_fixture: Some("schemas/fixtures/cli/context-build-output.v1.invalid.json"),
                    exclusion: None,
                    producer: None,
                    consumer: None,
                },
            ],
        },
        OperationDeclaration {
            operation_id: "cli.doctor",
            surface: ContractSurface::Cli,
            method: None,
            path: None,
            operation: "doctor",
            key: "doctor",
            migration: MigrationState::Generated,
            exclusion: None,
            shared_components: &[],
            header_profile: None,
            mcp_policy: None,
            obligation_overrides: &[],
            contracts: &[
                ContractDeclaration {
                    id: "cli.doctor.output",
                    path: "kanban doctor --json stdout",
                    operation: None,
                    location: None,
                    operation_key: None,
                    parameters: &[],
                    direction: ContractDirection::Serialize,
                    strictness: ContractStrictness::DenyUnknownFields,
                    granularity: ContractGranularity::Exact,
                    binding: ContractBinding::ExactSurface,
                    schema_id: Some("urn:kanban-tool:schema:cli:doctor-output:v1"),
                    artifact_path: Some("cli/doctor-output.v1.schema.json"),
                    schema_title: Some("Kanban CLI doctor output v1"),
                    valid_fixture: Some("schemas/fixtures/cli/doctor-output.v1.valid.json"),
                    invalid_fixture: Some("schemas/fixtures/cli/doctor-output.v1.invalid.json"),
                    exclusion: None,
                    producer: None,
                    consumer: None,
                },
            ],
        },
        OperationDeclaration {
            operation_id: "cli.entity-list",
            surface: ContractSurface::Cli,
            method: None,
            path: None,
            operation: "entity list",
            key: "entity list",
            migration: MigrationState::Generated,
            exclusion: None,
            shared_components: &[],
            header_profile: None,
            mcp_policy: None,
            obligation_overrides: &[],
            contracts: &[
                ContractDeclaration {
                    id: "cli.entity-list.output",
                    path: "kanban entity list --json stdout",
                    operation: None,
                    location: None,
                    operation_key: None,
                    parameters: &[],
                    direction: ContractDirection::Serialize,
                    strictness: ContractStrictness::DenyUnknownFields,
                    granularity: ContractGranularity::Exact,
                    binding: ContractBinding::ExactSurface,
                    schema_id: Some("urn:kanban-tool:schema:cli:entity-list-output:v1"),
                    artifact_path: Some("cli/entity-list-output.v1.schema.json"),
                    schema_title: Some("Kanban CLI entity list output v1"),
                    valid_fixture: Some("schemas/fixtures/cli/entity-list-output.v1.valid.json"),
                    invalid_fixture: Some("schemas/fixtures/cli/entity-list-output.v1.invalid.json"),
                    exclusion: None,
                    producer: None,
                    consumer: None,
                },
            ],
        },
        OperationDeclaration {
            operation_id: "cli.entity-show",
            surface: ContractSurface::Cli,
            method: None,
            path: None,
            operation: "entity show",
            key: "entity show",
            migration: MigrationState::Generated,
            exclusion: None,
            shared_components: &[],
            header_profile: None,
            mcp_policy: None,
            obligation_overrides: &[],
            contracts: &[
                ContractDeclaration {
                    id: "cli.entity-show.output",
                    path: "kanban entity show --json stdout",
                    operation: None,
                    location: None,
                    operation_key: None,
                    parameters: &[],
                    direction: ContractDirection::Serialize,
                    strictness: ContractStrictness::DenyUnknownFields,
                    granularity: ContractGranularity::Exact,
                    binding: ContractBinding::ExactSurface,
                    schema_id: Some("urn:kanban-tool:schema:cli:entity-show-output:v1"),
                    artifact_path: Some("cli/entity-show-output.v1.schema.json"),
                    schema_title: Some("Kanban CLI entity show output v1"),
                    valid_fixture: Some("schemas/fixtures/cli/entity-show-output.v1.valid.json"),
                    invalid_fixture: Some("schemas/fixtures/cli/entity-show-output.v1.invalid.json"),
                    exclusion: None,
                    producer: None,
                    consumer: None,
                },
            ],
        },
        OperationDeclaration {
            operation_id: "cli.entity-upsert",
            surface: ContractSurface::Cli,
            method: None,
            path: None,
            operation: "entity upsert",
            key: "entity upsert",
            migration: MigrationState::Generated,
            exclusion: None,
            shared_components: &[],
            header_profile: None,
            mcp_policy: None,
            obligation_overrides: &[],
            contracts: &[
                ContractDeclaration {
                    id: "cli.entity-upsert.output",
                    path: "kanban entity upsert --json stdout",
                    operation: None,
                    location: None,
                    operation_key: None,
                    parameters: &[],
                    direction: ContractDirection::Serialize,
                    strictness: ContractStrictness::DenyUnknownFields,
                    granularity: ContractGranularity::Exact,
                    binding: ContractBinding::ExactSurface,
                    schema_id: Some("urn:kanban-tool:schema:cli:entity-upsert-output:v1"),
                    artifact_path: Some("cli/entity-upsert-output.v1.schema.json"),
                    schema_title: Some("Kanban CLI entity upsert output v1"),
                    valid_fixture: Some("schemas/fixtures/cli/entity-upsert-output.v1.valid.json"),
                    invalid_fixture: Some("schemas/fixtures/cli/entity-upsert-output.v1.invalid.json"),
                    exclusion: None,
                    producer: None,
                    consumer: None,
                },
            ],
        },
        OperationDeclaration {
            operation_id: "cli.events",
            surface: ContractSurface::Cli,
            method: None,
            path: None,
            operation: "events",
            key: "events",
            migration: MigrationState::Generated,
            exclusion: None,
            shared_components: &[],
            header_profile: None,
            mcp_policy: None,
            obligation_overrides: &[],
            contracts: &[
                ContractDeclaration {
                    id: "cli.events.output",
                    path: "kanban events --json stdout",
                    operation: None,
                    location: None,
                    operation_key: None,
                    parameters: &[],
                    direction: ContractDirection::Serialize,
                    strictness: ContractStrictness::DenyUnknownFields,
                    granularity: ContractGranularity::Exact,
                    binding: ContractBinding::ExactSurface,
                    schema_id: Some("urn:kanban-tool:schema:cli:events-output:v1"),
                    artifact_path: Some("cli/events-output.v1.schema.json"),
                    schema_title: Some("Kanban CLI events output v1"),
                    valid_fixture: Some("schemas/fixtures/cli/events-output.v1.valid.json"),
                    invalid_fixture: Some("schemas/fixtures/cli/events-output.v1.invalid.json"),
                    exclusion: None,
                    producer: None,
                    consumer: None,
                },
            ],
        },
        OperationDeclaration {
            operation_id: "cli.export",
            surface: ContractSurface::Cli,
            method: None,
            path: None,
            operation: "export",
            key: "export",
            migration: MigrationState::Generated,
            exclusion: None,
            shared_components: &[],
            header_profile: None,
            mcp_policy: None,
            obligation_overrides: &[],
            contracts: &[
                ContractDeclaration {
                    id: "cli.maintenance-export.output",
                    path: "kanban export --json stdout",
                    operation: None,
                    location: None,
                    operation_key: None,
                    parameters: &[],
                    direction: ContractDirection::Serialize,
                    strictness: ContractStrictness::DenyUnknownFields,
                    granularity: ContractGranularity::Exact,
                    binding: ContractBinding::ExactSurface,
                    schema_id: Some("urn:kanban-tool:schema:cli:maintenance-export-output:v1"),
                    artifact_path: Some("cli/maintenance-export-output.v1.schema.json"),
                    schema_title: Some("Kanban CLI maintenance export output v1"),
                    valid_fixture: Some("schemas/fixtures/cli/maintenance-export-output.v1.valid.json"),
                    invalid_fixture: Some("schemas/fixtures/cli/maintenance-export-output.v1.invalid.json"),
                    exclusion: None,
                    producer: None,
                    consumer: None,
                },
            ],
        },
        OperationDeclaration {
            operation_id: "cli.graph-neighbors",
            surface: ContractSurface::Cli,
            method: None,
            path: None,
            operation: "graph neighbors",
            key: "graph neighbors",
            migration: MigrationState::Generated,
            exclusion: None,
            shared_components: &[],
            header_profile: None,
            mcp_policy: None,
            obligation_overrides: &[],
            contracts: &[
                ContractDeclaration {
                    id: "cli.graph-neighbors.output",
                    path: "kanban graph neighbors --json stdout",
                    operation: None,
                    location: None,
                    operation_key: None,
                    parameters: &[],
                    direction: ContractDirection::Serialize,
                    strictness: ContractStrictness::DenyUnknownFields,
                    granularity: ContractGranularity::Exact,
                    binding: ContractBinding::ExactSurface,
                    schema_id: Some("urn:kanban-tool:schema:cli:graph-neighbors-output:v1"),
                    artifact_path: Some("cli/graph-neighbors-output.v1.schema.json"),
                    schema_title: Some("Kanban CLI graph neighbors output v1"),
                    valid_fixture: Some("schemas/fixtures/cli/graph-neighbors-output.v1.valid.json"),
                    invalid_fixture: Some("schemas/fixtures/cli/graph-neighbors-output.v1.invalid.json"),
                    exclusion: None,
                    producer: None,
                    consumer: None,
                },
            ],
        },
        OperationDeclaration {
            operation_id: "cli.graph-query",
            surface: ContractSurface::Cli,
            method: None,
            path: None,
            operation: "graph query",
            key: "graph query",
            migration: MigrationState::Generated,
            exclusion: None,
            shared_components: &[],
            header_profile: None,
            mcp_policy: None,
            obligation_overrides: &[],
            contracts: &[
                ContractDeclaration {
                    id: "cli.graph-query.output",
                    path: "kanban graph query --json stdout",
                    operation: None,
                    location: None,
                    operation_key: None,
                    parameters: &[],
                    direction: ContractDirection::Serialize,
                    strictness: ContractStrictness::DenyUnknownFields,
                    granularity: ContractGranularity::Exact,
                    binding: ContractBinding::ExactSurface,
                    schema_id: Some("urn:kanban-tool:schema:cli:graph-query-output:v1"),
                    artifact_path: Some("cli/graph-query-output.v1.schema.json"),
                    schema_title: Some("Kanban CLI graph query output v1"),
                    valid_fixture: Some("schemas/fixtures/cli/graph-query-output.v1.valid.json"),
                    invalid_fixture: Some("schemas/fixtures/cli/graph-query-output.v1.invalid.json"),
                    exclusion: None,
                    producer: None,
                    consumer: None,
                },
            ],
        },
        OperationDeclaration {
            operation_id: "cli.graph-neighborhood",
            surface: ContractSurface::Cli,
            method: None,
            path: None,
            operation: "graph neighborhood",
            key: "graph neighborhood",
            migration: MigrationState::Generated,
            exclusion: None,
            shared_components: &[],
            header_profile: None,
            mcp_policy: None,
            obligation_overrides: &[],
            contracts: &[
                ContractDeclaration {
                    id: "cli.graph-neighborhood.output",
                    path: "kanban graph neighborhood --json stdout",
                    operation: None,
                    location: None,
                    operation_key: None,
                    parameters: &[],
                    direction: ContractDirection::Serialize,
                    strictness: ContractStrictness::DenyUnknownFields,
                    granularity: ContractGranularity::Exact,
                    binding: ContractBinding::ExactSurface,
                    schema_id: Some("urn:kanban-tool:schema:cli:graph-neighborhood-output:v1"),
                    artifact_path: Some("cli/graph-neighborhood-output.v1.schema.json"),
                    schema_title: Some("Kanban CLI graph neighborhood output v1"),
                    valid_fixture: Some("schemas/fixtures/cli/graph-neighborhood-output.v1.valid.json"),
                    invalid_fixture: Some("schemas/fixtures/cli/graph-neighborhood-output.v1.invalid.json"),
                    exclusion: None,
                    producer: None,
                    consumer: None,
                },
            ],
        },
        OperationDeclaration {
            operation_id: "cli.graph-map",
            surface: ContractSurface::Cli,
            method: None,
            path: None,
            operation: "graph map",
            key: "graph map",
            migration: MigrationState::Generated,
            exclusion: None,
            shared_components: &[],
            header_profile: None,
            mcp_policy: None,
            obligation_overrides: &[],
            contracts: &[
                ContractDeclaration {
                    id: "cli.graph-map.output",
                    path: "kanban graph map --json stdout",
                    operation: None,
                    location: None,
                    operation_key: None,
                    parameters: &[],
                    direction: ContractDirection::Serialize,
                    strictness: ContractStrictness::DenyUnknownFields,
                    granularity: ContractGranularity::Exact,
                    binding: ContractBinding::ExactSurface,
                    schema_id: Some("urn:kanban-tool:schema:cli:graph-map-output:v1"),
                    artifact_path: Some("cli/graph-map-output.v1.schema.json"),
                    schema_title: Some("Kanban CLI graph map output v1"),
                    valid_fixture: Some("schemas/fixtures/cli/graph-map-output.v1.valid.json"),
                    invalid_fixture: Some("schemas/fixtures/cli/graph-map-output.v1.invalid.json"),
                    exclusion: None,
                    producer: None,
                    consumer: None,
                },
            ],
        },
        OperationDeclaration {
            operation_id: "cli.graph-rebuild",
            surface: ContractSurface::Cli,
            method: None,
            path: None,
            operation: "graph rebuild",
            key: "graph rebuild",
            migration: MigrationState::Generated,
            exclusion: None,
            shared_components: &[],
            header_profile: None,
            mcp_policy: None,
            obligation_overrides: &[],
            contracts: &[
                ContractDeclaration {
                    id: "cli.graph-rebuild.output",
                    path: "kanban graph rebuild --json stdout",
                    operation: None,
                    location: None,
                    operation_key: None,
                    parameters: &[],
                    direction: ContractDirection::Serialize,
                    strictness: ContractStrictness::DenyUnknownFields,
                    granularity: ContractGranularity::Exact,
                    binding: ContractBinding::ExactSurface,
                    schema_id: Some("urn:kanban-tool:schema:cli:graph-rebuild-output:v1"),
                    artifact_path: Some("cli/graph-rebuild-output.v1.schema.json"),
                    schema_title: Some("Kanban CLI graph rebuild output v1"),
                    valid_fixture: Some("schemas/fixtures/cli/graph-rebuild-output.v1.valid.json"),
                    invalid_fixture: Some("schemas/fixtures/cli/graph-rebuild-output.v1.invalid.json"),
                    exclusion: None,
                    producer: None,
                    consumer: None,
                },
            ],
        },
        OperationDeclaration {
            operation_id: "cli.graph-status",
            surface: ContractSurface::Cli,
            method: None,
            path: None,
            operation: "graph status",
            key: "graph status",
            migration: MigrationState::Generated,
            exclusion: None,
            shared_components: &[],
            header_profile: None,
            mcp_policy: None,
            obligation_overrides: &[],
            contracts: &[
                ContractDeclaration {
                    id: "cli.graph-status.output",
                    path: "kanban graph status --json stdout",
                    operation: None,
                    location: None,
                    operation_key: None,
                    parameters: &[],
                    direction: ContractDirection::Serialize,
                    strictness: ContractStrictness::DenyUnknownFields,
                    granularity: ContractGranularity::Exact,
                    binding: ContractBinding::ExactSurface,
                    schema_id: Some("urn:kanban-tool:schema:cli:graph-status-output:v1"),
                    artifact_path: Some("cli/graph-status-output.v1.schema.json"),
                    schema_title: Some("Kanban CLI graph status output v1"),
                    valid_fixture: Some("schemas/fixtures/cli/graph-status-output.v1.valid.json"),
                    invalid_fixture: Some("schemas/fixtures/cli/graph-status-output.v1.invalid.json"),
                    exclusion: None,
                    producer: None,
                    consumer: None,
                },
            ],
        },
        OperationDeclaration {
            operation_id: "cli.graph-sync",
            surface: ContractSurface::Cli,
            method: None,
            path: None,
            operation: "graph sync",
            key: "graph sync",
            migration: MigrationState::Generated,
            exclusion: None,
            shared_components: &[],
            header_profile: None,
            mcp_policy: None,
            obligation_overrides: &[],
            contracts: &[
                ContractDeclaration {
                    id: "cli.graph-sync.output",
                    path: "kanban graph sync --json stdout",
                    operation: None,
                    location: None,
                    operation_key: None,
                    parameters: &[],
                    direction: ContractDirection::Serialize,
                    strictness: ContractStrictness::DenyUnknownFields,
                    granularity: ContractGranularity::Exact,
                    binding: ContractBinding::ExactSurface,
                    schema_id: Some("urn:kanban-tool:schema:cli:graph-sync-output:v1"),
                    artifact_path: Some("cli/graph-sync-output.v1.schema.json"),
                    schema_title: Some("Kanban CLI graph sync output v1"),
                    valid_fixture: Some("schemas/fixtures/cli/graph-sync-output.v1.valid.json"),
                    invalid_fixture: Some("schemas/fixtures/cli/graph-sync-output.v1.invalid.json"),
                    exclusion: None,
                    producer: None,
                    consumer: None,
                },
            ],
        },
        OperationDeclaration {
            operation_id: "cli.hook-codex-handle-failure",
            surface: ContractSurface::Cli,
            method: None,
            path: None,
            operation: "hook codex handle failure",
            key: "hook codex handle failure",
            migration: MigrationState::Generated,
            exclusion: Some("Codex hook handler 使用独立 stdin/stdout protocol，不走通用 CLI JSON envelope"),
            shared_components: &[],
            header_profile: None,
            mcp_policy: None,
            obligation_overrides: &[],
            contracts: &[],
        },
        OperationDeclaration {
            operation_id: "cli.hook-codex-handle-task-create",
            surface: ContractSurface::Cli,
            method: None,
            path: None,
            operation: "hook codex handle task-create",
            key: "hook codex handle task-create",
            migration: MigrationState::Generated,
            exclusion: Some("Codex hook handler 使用独立 stdin/stdout protocol，不走通用 CLI JSON envelope"),
            shared_components: &[],
            header_profile: None,
            mcp_policy: None,
            obligation_overrides: &[],
            contracts: &[],
        },
        OperationDeclaration {
            operation_id: "cli.hook-codex-install",
            surface: ContractSurface::Cli,
            method: None,
            path: None,
            operation: "hook codex install",
            key: "hook codex install",
            migration: MigrationState::Generated,
            exclusion: None,
            shared_components: &[],
            header_profile: None,
            mcp_policy: None,
            obligation_overrides: &[],
            contracts: &[
                ContractDeclaration {
                    id: "cli.hook-codex-install.output",
                    path: "kanban hook codex install --json stdout",
                    operation: None,
                    location: None,
                    operation_key: None,
                    parameters: &[],
                    direction: ContractDirection::Serialize,
                    strictness: ContractStrictness::DenyUnknownFields,
                    granularity: ContractGranularity::Exact,
                    binding: ContractBinding::ExactSurface,
                    schema_id: Some("urn:kanban-tool:schema:cli:hook-codex-install-output:v1"),
                    artifact_path: Some("cli/hook-codex-install-output.v1.schema.json"),
                    schema_title: Some("Kanban CLI hook codex install output v1"),
                    valid_fixture: Some("schemas/fixtures/cli/hook-codex-install-output.v1.valid.json"),
                    invalid_fixture: Some("schemas/fixtures/cli/hook-codex-install-output.v1.invalid.json"),
                    exclusion: None,
                    producer: None,
                    consumer: None,
                },
            ],
        },
        OperationDeclaration {
            operation_id: "cli.hook-codex-status",
            surface: ContractSurface::Cli,
            method: None,
            path: None,
            operation: "hook codex status",
            key: "hook codex status",
            migration: MigrationState::Generated,
            exclusion: None,
            shared_components: &[],
            header_profile: None,
            mcp_policy: None,
            obligation_overrides: &[],
            contracts: &[
                ContractDeclaration {
                    id: "cli.hook-codex-status.output",
                    path: "kanban hook codex status --json stdout",
                    operation: None,
                    location: None,
                    operation_key: None,
                    parameters: &[],
                    direction: ContractDirection::Serialize,
                    strictness: ContractStrictness::DenyUnknownFields,
                    granularity: ContractGranularity::Exact,
                    binding: ContractBinding::ExactSurface,
                    schema_id: Some("urn:kanban-tool:schema:cli:hook-codex-status-output:v1"),
                    artifact_path: Some("cli/hook-codex-status-output.v1.schema.json"),
                    schema_title: Some("Kanban CLI hook codex status output v1"),
                    valid_fixture: Some("schemas/fixtures/cli/hook-codex-status-output.v1.valid.json"),
                    invalid_fixture: Some("schemas/fixtures/cli/hook-codex-status-output.v1.invalid.json"),
                    exclusion: None,
                    producer: None,
                    consumer: None,
                },
            ],
        },
        OperationDeclaration {
            operation_id: "cli.hook-codex-uninstall",
            surface: ContractSurface::Cli,
            method: None,
            path: None,
            operation: "hook codex uninstall",
            key: "hook codex uninstall",
            migration: MigrationState::Generated,
            exclusion: None,
            shared_components: &[],
            header_profile: None,
            mcp_policy: None,
            obligation_overrides: &[],
            contracts: &[
                ContractDeclaration {
                    id: "cli.hook-codex-uninstall.output",
                    path: "kanban hook codex uninstall --json stdout",
                    operation: None,
                    location: None,
                    operation_key: None,
                    parameters: &[],
                    direction: ContractDirection::Serialize,
                    strictness: ContractStrictness::DenyUnknownFields,
                    granularity: ContractGranularity::Exact,
                    binding: ContractBinding::ExactSurface,
                    schema_id: Some("urn:kanban-tool:schema:cli:hook-codex-uninstall-output:v1"),
                    artifact_path: Some("cli/hook-codex-uninstall-output.v1.schema.json"),
                    schema_title: Some("Kanban CLI hook codex uninstall output v1"),
                    valid_fixture: Some("schemas/fixtures/cli/hook-codex-uninstall-output.v1.valid.json"),
                    invalid_fixture: Some("schemas/fixtures/cli/hook-codex-uninstall-output.v1.invalid.json"),
                    exclusion: None,
                    producer: None,
                    consumer: None,
                },
            ],
        },
        OperationDeclaration {
            operation_id: "cli.import",
            surface: ContractSurface::Cli,
            method: None,
            path: None,
            operation: "import",
            key: "import",
            migration: MigrationState::Generated,
            exclusion: None,
            shared_components: &[],
            header_profile: None,
            mcp_policy: None,
            obligation_overrides: &[],
            contracts: &[
                ContractDeclaration {
                    id: "cli.maintenance-import.output",
                    path: "kanban import --json stdout",
                    operation: None,
                    location: None,
                    operation_key: None,
                    parameters: &[],
                    direction: ContractDirection::Serialize,
                    strictness: ContractStrictness::DenyUnknownFields,
                    granularity: ContractGranularity::Exact,
                    binding: ContractBinding::ExactSurface,
                    schema_id: Some("urn:kanban-tool:schema:cli:maintenance-import-output:v1"),
                    artifact_path: Some("cli/maintenance-import-output.v1.schema.json"),
                    schema_title: Some("Kanban CLI maintenance import output v1"),
                    valid_fixture: Some("schemas/fixtures/cli/maintenance-import-output.v1.valid.json"),
                    invalid_fixture: Some("schemas/fixtures/cli/maintenance-import-output.v1.invalid.json"),
                    exclusion: None,
                    producer: None,
                    consumer: None,
                },
            ],
        },
        OperationDeclaration {
            operation_id: "cli.index-doctor",
            surface: ContractSurface::Cli,
            method: None,
            path: None,
            operation: "index doctor",
            key: "index doctor",
            migration: MigrationState::Generated,
            exclusion: None,
            shared_components: &[],
            header_profile: None,
            mcp_policy: None,
            obligation_overrides: &[],
            contracts: &[
                ContractDeclaration {
                    id: "cli.index-doctor.output",
                    path: "kanban index doctor --json stdout",
                    operation: None,
                    location: None,
                    operation_key: None,
                    parameters: &[],
                    direction: ContractDirection::Serialize,
                    strictness: ContractStrictness::DenyUnknownFields,
                    granularity: ContractGranularity::Exact,
                    binding: ContractBinding::ExactSurface,
                    schema_id: Some("urn:kanban-tool:schema:cli:index-doctor-output:v1"),
                    artifact_path: Some("cli/index-doctor-output.v1.schema.json"),
                    schema_title: Some("Kanban CLI index doctor output v1"),
                    valid_fixture: Some("schemas/fixtures/cli/index-doctor-output.v1.valid.json"),
                    invalid_fixture: Some("schemas/fixtures/cli/index-doctor-output.v1.invalid.json"),
                    exclusion: None,
                    producer: None,
                    consumer: None,
                },
            ],
        },
        OperationDeclaration {
            operation_id: "cli.index-rebuild",
            surface: ContractSurface::Cli,
            method: None,
            path: None,
            operation: "index rebuild",
            key: "index rebuild",
            migration: MigrationState::Generated,
            exclusion: None,
            shared_components: &[],
            header_profile: None,
            mcp_policy: None,
            obligation_overrides: &[],
            contracts: &[
                ContractDeclaration {
                    id: "cli.index-rebuild.output",
                    path: "kanban index rebuild --json stdout",
                    operation: None,
                    location: None,
                    operation_key: None,
                    parameters: &[],
                    direction: ContractDirection::Serialize,
                    strictness: ContractStrictness::DenyUnknownFields,
                    granularity: ContractGranularity::Exact,
                    binding: ContractBinding::ExactSurface,
                    schema_id: Some("urn:kanban-tool:schema:cli:index-rebuild-output:v1"),
                    artifact_path: Some("cli/index-rebuild-output.v1.schema.json"),
                    schema_title: Some("Kanban CLI index rebuild output v1"),
                    valid_fixture: Some("schemas/fixtures/cli/index-rebuild-output.v1.valid.json"),
                    invalid_fixture: Some("schemas/fixtures/cli/index-rebuild-output.v1.invalid.json"),
                    exclusion: None,
                    producer: None,
                    consumer: None,
                },
            ],
        },
        OperationDeclaration {
            operation_id: "cli.index-status",
            surface: ContractSurface::Cli,
            method: None,
            path: None,
            operation: "index status",
            key: "index status",
            migration: MigrationState::Generated,
            exclusion: None,
            shared_components: &[],
            header_profile: None,
            mcp_policy: None,
            obligation_overrides: &[],
            contracts: &[
                ContractDeclaration {
                    id: "cli.index-status.output",
                    path: "kanban index status --json stdout",
                    operation: None,
                    location: None,
                    operation_key: None,
                    parameters: &[],
                    direction: ContractDirection::Serialize,
                    strictness: ContractStrictness::DenyUnknownFields,
                    granularity: ContractGranularity::Exact,
                    binding: ContractBinding::ExactSurface,
                    schema_id: Some("urn:kanban-tool:schema:cli:index-status-output:v1"),
                    artifact_path: Some("cli/index-status-output.v1.schema.json"),
                    schema_title: Some("Kanban CLI index status output v1"),
                    valid_fixture: Some("schemas/fixtures/cli/index-status-output.v1.valid.json"),
                    invalid_fixture: Some("schemas/fixtures/cli/index-status-output.v1.invalid.json"),
                    exclusion: None,
                    producer: None,
                    consumer: None,
                },
            ],
        },
        OperationDeclaration {
            operation_id: "cli.index-sync",
            surface: ContractSurface::Cli,
            method: None,
            path: None,
            operation: "index sync",
            key: "index sync",
            migration: MigrationState::Generated,
            exclusion: None,
            shared_components: &[],
            header_profile: None,
            mcp_policy: None,
            obligation_overrides: &[],
            contracts: &[
                ContractDeclaration {
                    id: "cli.index-sync.output",
                    path: "kanban index sync --json stdout",
                    operation: None,
                    location: None,
                    operation_key: None,
                    parameters: &[],
                    direction: ContractDirection::Serialize,
                    strictness: ContractStrictness::DenyUnknownFields,
                    granularity: ContractGranularity::Exact,
                    binding: ContractBinding::ExactSurface,
                    schema_id: Some("urn:kanban-tool:schema:cli:index-sync-output:v1"),
                    artifact_path: Some("cli/index-sync-output.v1.schema.json"),
                    schema_title: Some("Kanban CLI index sync output v1"),
                    valid_fixture: Some("schemas/fixtures/cli/index-sync-output.v1.valid.json"),
                    invalid_fixture: Some("schemas/fixtures/cli/index-sync-output.v1.invalid.json"),
                    exclusion: None,
                    producer: None,
                    consumer: None,
                },
            ],
        },
        OperationDeclaration {
            operation_id: "cli.init",
            surface: ContractSurface::Cli,
            method: None,
            path: None,
            operation: "init",
            key: "init",
            migration: MigrationState::Generated,
            exclusion: None,
            shared_components: &[],
            header_profile: None,
            mcp_policy: None,
            obligation_overrides: &[],
            contracts: &[
                ContractDeclaration {
                    id: "cli.init.output",
                    path: "kanban init --json stdout",
                    operation: None,
                    location: None,
                    operation_key: None,
                    parameters: &[],
                    direction: ContractDirection::Serialize,
                    strictness: ContractStrictness::DenyUnknownFields,
                    granularity: ContractGranularity::Exact,
                    binding: ContractBinding::ExactSurface,
                    schema_id: Some("urn:kanban-tool:schema:cli:init-output:v1"),
                    artifact_path: Some("cli/init-output.v1.schema.json"),
                    schema_title: Some("Kanban CLI init output v1"),
                    valid_fixture: Some("schemas/fixtures/cli/init-output.v1.valid.json"),
                    invalid_fixture: Some("schemas/fixtures/cli/init-output.v1.invalid.json"),
                    exclusion: None,
                    producer: None,
                    consumer: None,
                },
            ],
        },
        OperationDeclaration {
            operation_id: "cli.maintenance-rebuild-v1",
            surface: ContractSurface::Cli,
            method: None,
            path: None,
            operation: "maintenance rebuild",
            key: "maintenance rebuild",
            migration: MigrationState::Generated,
            exclusion: None,
            shared_components: &[],
            header_profile: None,
            mcp_policy: None,
            obligation_overrides: &[],
            contracts: &[
                ContractDeclaration {
                    id: "cli.maintenance-rebuild-v1.output",
                    path: "kanban maintenance rebuild --json stdout",
                    operation: None,
                    location: None,
                    operation_key: None,
                    parameters: &[],
                    direction: ContractDirection::Serialize,
                    strictness: ContractStrictness::DenyUnknownFields,
                    granularity: ContractGranularity::Exact,
                    binding: ContractBinding::ExactSurface,
                    schema_id: Some("urn:kanban-tool:schema:cli:maintenance-rebuild-output:v1"),
                    artifact_path: Some("cli/maintenance-rebuild-output.v1.schema.json"),
                    schema_title: Some("Kanban CLI maintenance rebuild output v1"),
                    valid_fixture: Some("schemas/fixtures/cli/maintenance-rebuild-output.v1.valid.json"),
                    invalid_fixture: Some("schemas/fixtures/cli/maintenance-rebuild-output.v1.invalid.json"),
                    exclusion: None,
                    producer: None,
                    consumer: None,
                },
            ],
        },
        OperationDeclaration {
            operation_id: "cli.maintenance-run-v1",
            surface: ContractSurface::Cli,
            method: None,
            path: None,
            operation: "maintenance run",
            key: "maintenance run",
            migration: MigrationState::Generated,
            exclusion: None,
            shared_components: &[],
            header_profile: None,
            mcp_policy: None,
            obligation_overrides: &[],
            contracts: &[
                ContractDeclaration {
                    id: "cli.maintenance-run-v1.output",
                    path: "kanban maintenance run --json stdout",
                    operation: None,
                    location: None,
                    operation_key: None,
                    parameters: &[],
                    direction: ContractDirection::Serialize,
                    strictness: ContractStrictness::DenyUnknownFields,
                    granularity: ContractGranularity::Exact,
                    binding: ContractBinding::ExactSurface,
                    schema_id: Some("urn:kanban-tool:schema:cli:maintenance-run-output:v1"),
                    artifact_path: Some("cli/maintenance-run-output.v1.schema.json"),
                    schema_title: Some("Kanban CLI maintenance run output v1"),
                    valid_fixture: Some("schemas/fixtures/cli/maintenance-run-output.v1.valid.json"),
                    invalid_fixture: Some("schemas/fixtures/cli/maintenance-run-output.v1.invalid.json"),
                    exclusion: None,
                    producer: None,
                    consumer: None,
                },
            ],
        },
        OperationDeclaration {
            operation_id: "cli.maintenance-status-v1",
            surface: ContractSurface::Cli,
            method: None,
            path: None,
            operation: "maintenance status",
            key: "maintenance status",
            migration: MigrationState::Generated,
            exclusion: None,
            shared_components: &[],
            header_profile: None,
            mcp_policy: None,
            obligation_overrides: &[],
            contracts: &[
                ContractDeclaration {
                    id: "cli.maintenance-status-v1.output",
                    path: "kanban maintenance status --json stdout",
                    operation: None,
                    location: None,
                    operation_key: None,
                    parameters: &[],
                    direction: ContractDirection::Serialize,
                    strictness: ContractStrictness::DenyUnknownFields,
                    granularity: ContractGranularity::Exact,
                    binding: ContractBinding::ExactSurface,
                    schema_id: Some("urn:kanban-tool:schema:cli:maintenance-status-output:v1"),
                    artifact_path: Some("cli/maintenance-status-output.v1.schema.json"),
                    schema_title: Some("Kanban CLI maintenance status output v1"),
                    valid_fixture: Some("schemas/fixtures/cli/maintenance-status-output.v1.valid.json"),
                    invalid_fixture: Some("schemas/fixtures/cli/maintenance-status-output.v1.invalid.json"),
                    exclusion: None,
                    producer: None,
                    consumer: None,
                },
            ],
        },
    ]
}

/// The inventory rows of the catalog, operation by operation.
pub fn operation_contracts() -> (r: Vec<OperationContract>)
    ensures
        r@ == catalog_contracts(cli_shell_operations()),
{
    let ops = operation_declarations();
    project_contracts(&ops)
}

/// The surface row of the operation with the given key.
pub fn surface_operation(key: &str) -> (r: Option<SurfaceOperation>)
    ensures
        match first_index(cli_shell_operations(), has_surface_key(key@)) {
            Some(i) => r is Some && r.unwrap()@ == projected_surface(cli_shell_operations()[i]),
            None => r is None,
        },
{
    let ops = operation_declarations();
    find_surface(&ops, key)
}

/// The surface rows of the catalog, one per operation.
pub fn surface_catalog() -> (r: Vec<SurfaceOperation>)
    ensures
        r@.len() == cli_shell_operations().len(),
        forall|i: int| 0 <= i < cli_shell_operations().len() ==> (#[trigger] r@[i])@ == projected_surface(cli_shell_operations()[i]),
{
    let ops = operation_declarations();
    project_surfaces(&ops)
}

/// Whether some child of the catalog has the given id.
pub fn owns_contract(id: &str) -> (r: bool)
    ensures
        r == catalog_owns_contract(cli_shell_operations(), id@),
{
    let ops = operation_declarations();
    catalog_has_contract(&ops, id)
}

/// Whether some operation of the catalog has the given id.
pub fn owns_operation(id: &str) -> (r: bool)
    ensures
        r == catalog_owns_operation(cli_shell_operations(), id@),
{
    let ops = operation_declarations();
    catalog_has_operation(&ops, id)
}

/// The schema roots that the catalog's children declare.
pub fn schema_roots() -> (r: Vec<SchemaRoot>)
    ensures
        r@ == catalog_schemas(cli_shell_operations()),
{
    proof {
        lemma_cli_shell_operations_ready();
    }
    let ops = operation_declarations();
    project_schemas(&ops)
}


/// This catalog has no API or SSE operation, so it projects no endpoint.
pub proof fn lemma_cli_shell_endpoint_ids()
    ensures
        endpoint_ids(cli_shell_operations()) == Seq::<Seq<char>>::empty(),
{
    reveal(cli_shell_operations);
    let ops = cli_shell_operations();
    assert forall|i: int| 0 <= i < ops.len() implies !is_http_surface(#[trigger] ops[i].surface) by {
        if i == 0 {} else if i == 1 {} else if i == 2 {} else if i == 3 {} else if i == 4 {} else if i == 5 {} else if i == 6 {} else if i == 7 {} else if i == 8 {} else if i == 9 {} else if i == 10 {} else if i == 11 {} else if i == 12 {} else if i == 13 {} else if i == 14 {} else if i == 15 {} else if i == 16 {} else if i == 17 {} else if i == 18 {} else if i == 19 {} else if i == 20 {} else if i == 21 {} else if i == 22 {} else if i == 23 {} else if i == 24 {} else if i == 25 {} else if i == 26 {} else if i == 27 {} else if i == 28 {} else if i == 29 {} else if i == 30 {} else if i == 31 {} else if i == 32 {} else if i == 33 {} else if i == 34 {} else if i == 35 {} else if i == 36 {} else if i == 37 {} else if i == 38 {} else if i == 39 {} else if i == 40 {}
    }
    lemma_endpoint_ids_prefix(ops, 0);
    assert(ops.take(0).map_values(|o: OperationDeclaration| o.operation_id@) =~= Seq::<Seq<char>>::empty());
}

} // verus!
