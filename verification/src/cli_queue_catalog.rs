//! Queue, task, step, dependency, stats, vector and maintenance CLI commands.

use vstd::prelude::*;

use crate::contract_catalog::{
    endpoint_ids, lemma_endpoint_ids_prefix,
    catalog_contracts, catalog_endpoints, catalog_header_contract, catalog_header_profile,
    catalog_has_contract, catalog_has_operation, catalog_owns_contract, catalog_owns_operation,
    catalog_schemas, endpoint_ready, endpoints_ready, find_contract, find_endpoint, find_surface,
    has_contract_id, has_endpoint_id, has_surface_key, lookup_header_contract,
    lookup_header_profile, project_contracts, project_endpoints, project_schemas,
    project_surfaces, projected_surface, schema_ready, schemas_ready, ContractDeclaration,
    McpExposure, McpOperationInvariant, McpPolicy, McpToolBinding, OperationDeclaration,
    SchemaRoot, SurfaceOperation,
};
use crate::endpoint::{EndpointDescriptor, EndpointObligation, EndpointObligationKind, HttpMethod};
use crate::headers::ApiHeaderProfile;
use crate::inventory::{
    is_http_surface, AdoptionLocator, ContractBinding, ContractDirection, ContractGranularity,
    ContractStrictness, ContractSurface, ContractTransport, HttpTransportLocation, MigrationState,
    OperationContract, WireParameter, WireParameterCardinality,
};
use crate::seqs::first_index;
use crate::text::str_eq;

verus! {

/// The operations of this catalog, in source order.
#[verifier::opaque]
pub open spec fn cli_queue_operations() -> Seq<OperationDeclaration> {
    seq![
        OperationDeclaration {
            operation_id: "cli.dep-add",
            surface: ContractSurface::Cli,
            method: None,
            path: None,
            operation: "dep add",
            key: "dep add",
            migration: MigrationState::Adopted,
            exclusion: None,
            shared_components: &[],
            header_profile: None,
            mcp_policy: None,
            obligation_overrides: &[],
            contracts: &[
                ContractDeclaration {
                    id: "cli.dep-add.output",
                    path: "kanban dep add --json stdout",
                    operation: None,
                    location: None,
                    operation_key: None,
                    parameters: &[],
                    direction: ContractDirection::Serialize,
                    strictness: ContractStrictness::DenyUnknownFields,
                    granularity: ContractGranularity::Exact,
                    binding: ContractBinding::ExactSurface,
                    schema_id: Some("urn:kanban-tool:schema:cli:dep-add-output:v1"),
                    artifact_path: Some("cli/dep-add-output.v1.schema.json"),
                    schema_title: Some("Kanban CLI dependency add output v1"),
                    valid_fixture: Some("schemas/fixtures/cli/dep-add-output.v1.valid.json"),
                    invalid_fixture: Some("schemas/fixtures/cli/dep-add-output.v1.invalid.json"),
                    exclusion: None,
                    producer: Some(AdoptionLocator {
                        package: "kanban-cli",
                        test_target: "cli_steps_dependencies_adoption",
                        exact_test: "steps_and_dependencies_cli_use_real_host_and_committed_contract_shapes",
                    }),
                    consumer: Some(AdoptionLocator {
                        package: "kanban-cli",
                        test_target: "cli_steps_dependencies_adoption",
                        exact_test: "steps_and_dependencies_cli_use_real_host_and_committed_contract_shapes",
                    }),
                },
            ],
        },
        OperationDeclaration {
            operation_id: "cli.dep-list",
            surface: ContractSurface::Cli,
            method: None,
            path: None,
            operation: "dep list",
            key: "dep list",
            migration: MigrationState::Adopted,
            exclusion: None,
            shared_components: &[],
            header_profile: None,
            mcp_policy: None,
            obligation_overrides: &[],
            contracts: &[
                ContractDeclaration {
                    id: "cli.dep-list.output",
                    path: "kanban dep list --json stdout",
                    operation: None,
                    location: None,
                    operation_key: None,
                    parameters: &[],
                    direction: ContractDirection::Serialize,
                    strictness: ContractStrictness::DenyUnknownFields,
                    granularity: ContractGranularity::Exact,
                    binding: ContractBinding::ExactSurface,
                    schema_id: Some("urn:kanban-tool:schema:cli:dep-list-output:v1"),
                    artifact_path: Some("cli/dep-list-output.v1.schema.json"),
                    schema_title: Some("Kanban CLI dependency list output v1"),
                    valid_fixture: Some("schemas/fixtures/cli/dep-list-output.v1.valid.json"),
                    invalid_fixture: Some("schemas/fixtures/cli/dep-list-output.v1.invalid.json"),
                    exclusion: None,
                    producer: Some(AdoptionLocator {
                        package: "kanban-cli",
                        test_target: "cli_steps_dependencies_adoption",
                        exact_test: "steps_and_dependencies_cli_use_real_host_and_committed_contract_shapes",
                    }),
                    consumer: Some(AdoptionLocator {
                        package: "kanban-cli",
                        test_target: "cli_steps_dependencies_adoption",
                        exact_test: "steps_and_dependencies_cli_use_real_host_and_committed_contract_shapes",
                    }),
                },
            ],
        },
        OperationDeclaration {
            operation_id: "cli.dep-remove",
            surface: ContractSurface::Cli,
            method: None,
            path: None,
            operation: "dep remove",
            key: "dep remove",
            migration: MigrationState::Adopted,
            exclusion: None,
            shared_components: &[],
            header_profile: None,
            mcp_policy: None,
            obligation_overrides: &[],
            contracts: &[
                ContractDeclaration {
                    id: "cli.dep-remove.output",
                    path: "kanban dep remove --json stdout",
                    operation: None,
                    location: None,
                    operation_key: None,
                    parameters: &[],
                    direction: ContractDirection::Serialize,
                    strictness: ContractStrictness::DenyUnknownFields,
                    granularity: ContractGranularity::Exact,
                    binding: ContractBinding::ExactSurface,
                    schema_id: Some("urn:kanban-tool:schema:cli:dep-remove-output:v1"),
                    artifact_path: Some("cli/dep-remove-output.v1.schema.json"),
                    schema_title: Some("Kanban CLI dependency remove output v1"),
                    valid_fixture: Some("schemas/fixtures/cli/dep-remove-output.v1.valid.json"),
                    invalid_fixture: Some("schemas/fixtures/cli/dep-remove-output.v1.invalid.json"),
                    exclusion: None,
                    producer: Some(AdoptionLocator {
                        package: "kanban-cli",
                        test_target: "cli_steps_dependencies_adoption",
                        exact_test: "steps_and_dependencies_cli_use_real_host_and_committed_contract_shapes",
                    }),
                    consumer: Some(AdoptionLocator {
                        package: "kanban-cli",
                        test_target: "cli_steps_dependencies_adoption",
                        exact_test: "steps_and_dependencies_cli_use_real_host_and_committed_contract_shapes",
                    }),
                },
            ],
        },
        OperationDeclaration {
            operation_id: "cli.stats",
            surface: ContractSurface::Cli,
            method: None,
            path: None,
            operation: "stats",
            key: "stats",
            migration: MigrationState::Adopted,
            exclusion: None,
            shared_components: &[],
            header_profile: None,
            mcp_policy: None,
            obligation_overrides: &[],
            contracts: &[
                ContractDeclaration {
                    id: "cli.stats.output",
                    path: "kanban stats --json stdout",
                    operation: None,
                    location: None,
                    operation_key: None,
                    parameters: &[],
                    direction: ContractDirection::Serialize,
                    strictness: ContractStrictness::DenyUnknownFields,
                    granularity: ContractGranularity::Exact,
                    binding: ContractBinding::ExactSurface,
                    schema_id: Some("urn:kanban-tool:schema:cli:stats-output:v1"),
                    artifact_path: Some("cli/stats-output.v1.schema.json"),
                    schema_title: Some("Kanban CLI stats output v1"),
                    valid_fixture: Some("schemas/fixtures/cli/stats-output.v1.valid.json"),
                    invalid_fixture: Some("schemas/fixtures/cli/stats-output.v1.invalid.json"),
                    exclusion: None,
                    producer: Some(AdoptionLocator {
                        package: "kanban-cli",
                        test_target: "cli_admin_adoption",
                        exact_test: "maintenance_admin_commands_use_real_host_and_typed_json",
                    }),
                    consumer: Some(AdoptionLocator {
                        package: "kanban-cli",
                        test_target: "cli_admin_adoption",
                        exact_test: "maintenance_admin_commands_use_real_host_and_typed_json",
                    }),
                },
            ],
        },
        OperationDeclaration {
            operation_id: "cli.task-archive",
            surface: ContractSurface::Cli,
            method: None,
            path: None,
            operation: "task archive",
            key: "task archive",
            migration: MigrationState::Adopted,
            exclusion: None,
            shared_components: &[],
            header_profile: None,
            mcp_policy: None,
            obligation_overrides: &[],
            contracts: &[
                ContractDeclaration {
                    id: "cli.task-archive.output",
                    path: "kanban task archive --json stdout",
                    operation: None,
                    location: None,
                    operation_key: None,
                    parameters: &[],
                    direction: ContractDirection::Serialize,
                    strictness: ContractStrictness::DenyUnknownFields,
                    granularity: ContractGranularity::Exact,
                    binding: ContractBinding::ExactSurface,
                    schema_id: Some("urn:kanban-tool:schema:cli:task-archive-output:v1"),
                    artifact_path: Some("cli/task-archive-output.v1.schema.json"),
                    schema_title: Some("Kanban CLI task archive output v1"),
                    valid_fixture: Some("schemas/fixtures/cli/task-archive-output.v1.valid.json"),
                    invalid_fixture: Some("schemas/fixtures/cli/task-archive-output.v1.invalid.json"),
                    exclusion: None,
                    producer: Some(AdoptionLocator {
                        package: "kanban-cli",
                        test_target: "cli_lifecycle_adoption",
                        exact_test: "lifecycle_cli_runs_each_transition_through_localhost_host",
                    }),
                    consumer: Some(AdoptionLocator {
                        package: "kanban-cli",
                        test_target: "cli_lifecycle_adoption",
                        exact_test: "lifecycle_cli_runs_each_transition_through_localhost_host",
                    }),
                },
            ],
        },
        OperationDeclaration {
            operation_id: "cli.task-block",
            surface: ContractSurface::Cli,
            method: None,
            path: None,
            operation: "task block",
            key: "task block",
            migration: MigrationState::Adopted,
            exclusion: None,
            shared_components: &[],
            header_profile: None,
            mcp_policy: None,
            obligation_overrides: &[],
            contracts: &[
                ContractDeclaration {
                    id: "cli.task-block.output",
                    path: "kanban task block --json stdout",
                    operation: None,
                    location: None,
                    operation_key: None,
                    parameters: &[],
                    direction: ContractDirection::Serialize,
                    strictness: ContractStrictness::DenyUnknownFields,
                    granularity: ContractGranularity::Exact,
                    binding: ContractBinding::ExactSurface,
                    schema_id: Some("urn:kanban-tool:schema:cli:task-block-output:v1"),
                    artifact_path: Some("cli/task-block-output.v1.schema.json"),
                    schema_title: Some("Kanban CLI task block output v1"),
                    valid_fixture: Some("schemas/fixtures/cli/task-block-output.v1.valid.json"),
                    invalid_fixture: Some("schemas/fixtures/cli/task-block-output.v1.invalid.json"),
                    exclusion: None,
                    producer: Some(AdoptionLocator {
                        package: "kanban-cli",
                        test_target: "cli_lifecycle_adoption",
                        exact_test: "lifecycle_cli_runs_each_transition_through_localhost_host",
                    }),
                    consumer: Some(AdoptionLocator {
                        package: "kanban-cli",
                        test_target: "cli_lifecycle_adoption",
                        exact_test: "lifecycle_cli_runs_each_transition_through_localhost_host",
                    }),
                },
            ],
        },
        OperationDeclaration {
            operation_id: "cli.task-claim",
            surface: ContractSurface::Cli,
            method: None,
            path: None,
            operation: "task claim",
            key: "task claim",
            migration: MigrationState::Adopted,
            exclusion: None,
            shared_components: &[],
            header_profile: None,
            mcp_policy: None,
            obligation_overrides: &[],
            contracts: &[
                ContractDeclaration {
                    id: "cli.task-claim.output",
                    path: "kanban task claim --json stdout",
                    operation: None,
                    location: None,
                    operation_key: None,
                    parameters: &[],
                    direction: ContractDirection::Serialize,
                    strictness: ContractStrictness::DenyUnknownFields,
                    granularity: ContractGranularity::Exact,
                    binding: ContractBinding::ExactSurface,
                    schema_id: Some("urn:kanban-tool:schema:cli:task-claim-output:v1"),
                    artifact_path: Some("cli/task-claim-output.v1.schema.json"),
                    schema_title: Some("Kanban CLI task claim output v1"),
                    valid_fixture: Some("schemas/fixtures/cli/task-claim-output.v1.valid.json"),
                    invalid_fixture: Some("schemas/fixtures/cli/task-claim-output.v1.invalid.json"),
                    exclusion: None,
                    producer: Some(AdoptionLocator {
                        package: "kanban-cli",
                        test_target: "cli_lifecycle_adoption",
                        exact_test: "lifecycle_cli_runs_each_transition_through_localhost_host",
                    }),
                    consumer: Some(AdoptionLocator {
                        package: "kanban-cli",
                        test_target: "cli_lifecycle_adoption",
                        exact_test: "lifecycle_cli_runs_each_transition_through_localhost_host",
                    }),
                },
            ],
        },
        OperationDeclaration {
            operation_id: "cli.task-create",
            surface: ContractSurface::Cli,
            method: None,
            path: None,
            operation: "task create",
            key: "task create",
            migration: MigrationState::Adopted,
            exclusion: None,
            shared_components: &[],
            header_profile: None,
            mcp_policy: None,
            obligation_overrides: &[],
            contracts: &[
                ContractDeclaration {
                    id: "cli.task-create.output",
                    path: "kanban task create --json stdout",
                    operation: None,
                    location: None,
                    operation_key: None,
                    parameters: &[],
                    direction: ContractDirection::Serialize,
                    strictness: ContractStrictness::DenyUnknownFields,
                    granularity: ContractGranularity::Exact,
                    binding: ContractBinding::ExactSurface,
                    schema_id: Some("urn:kanban-tool:schema:cli:task-create-output:v1"),
                    artifact_path: Some("cli/task-create-output.v1.schema.json"),
                    schema_title: Some("Kanban CLI task create output v1"),
                    valid_fixture: Some("schemas/fixtures/cli/task-create-output.v1.valid.json"),
                    invalid_fixture: Some("schemas/fixtures/cli/task-create-output.v1.invalid.json"),
                    exclusion: None,
                    producer: Some(AdoptionLocator {
                        package: "kanban-cli",
                        test_target: "cli_queue_adoption",
                        exact_test: "queue_cli_uses_real_host_for_config_board_and_task_commands",
                    }),
                    consumer: Some(AdoptionLocator {
                        package: "kanban-cli",
                        test_target: "cli_queue_adoption",
                        exact_test: "queue_cli_uses_real_host_for_config_board_and_task_commands",
                    }),
                },
            ],
        },
        OperationDeclaration {
            operation_id: "cli.task-done",
            surface: ContractSurface::Cli,
            method: None,
            path: None,
            operation: "task done",
            key: "task done",
            migration: MigrationState::Adopted,
            exclusion: None,
            shared_components: &[],
            header_profile: None,
            mcp_policy: None,
            obligation_overrides: &[],
            contracts: &[
                ContractDeclaration {
                    id: "cli.task-done.output",
                    path: "kanban task done --json stdout",
                    operation: None,
                    location: None,
                    operation_key: None,
                    parameters: &[],
                    direction: ContractDirection::Serialize,
                    strictness: ContractStrictness::DenyUnknownFields,
                    granularity: ContractGranularity::Exact,
                    binding: ContractBinding::ExactSurface,
                    schema_id: Some("urn:kanban-tool:schema:cli:task-done-output:v1"),
                    artifact_path: Some("cli/task-done-output.v1.schema.json"),
                    schema_title: Some("Kanban CLI task done output v1"),
                    valid_fixture: Some("schemas/fixtures/cli/task-done-output.v1.valid.json"),
                    invalid_fixture: Some("schemas/fixtures/cli/task-done-output.v1.invalid.json"),
                    exclusion: None,
                    producer: Some(AdoptionLocator {
                        package: "kanban-cli",
                        test_target: "cli_lifecycle_adoption",
                        exact_test: "lifecycle_cli_runs_each_transition_through_localhost_host",
                    }),
                    consumer: Some(AdoptionLocator {
                        package: "kanban-cli",
                        test_target: "cli_lifecycle_adoption",
                        exact_test: "lifecycle_cli_runs_each_transition_through_localhost_host",
                    }),
                },
            ],
        },
        OperationDeclaration {
            operation_id: "cli.task-heartbeat",
            surface: ContractSurface::Cli,
            method: None,
            path: None,
            operation: "task heartbeat",
            key: "task heartbeat",
            migration: MigrationState::Adopted,
            exclusion: None,
            shared_components: &[],
            header_profile: None,
            mcp_policy: None,
            obligation_overrides: &[],
            contracts: &[
                ContractDeclaration {
                    id: "cli.task-heartbeat.output",
                    path: "kanban task heartbeat --json stdout",
                    operation: None,
                    location: None,
                    operation_key: None,
                    parameters: &[],
                    direction: ContractDirection::Serialize,
                    strictness: ContractStrictness::DenyUnknownFields,
                    granularity: ContractGranularity::Exact,
                    binding: ContractBinding::ExactSurface,
                    schema_id: Some("urn:kanban-tool:schema:cli:task-heartbeat-output:v1"),
                    artifact_path: Some("cli/task-heartbeat-output.v1.schema.json"),
                    schema_title: Some("Kanban CLI task heartbeat output v1"),
                    valid_fixture: Some("schemas/fixtures/cli/task-heartbeat-output.v1.valid.json"),
                    invalid_fixture: Some("schemas/fixtures/cli/task-heartbeat-output.v1.invalid.json"),
                    exclusion: None,
                    producer: Some(AdoptionLocator {
                        package: "kanban-cli",
                        test_target: "cli_lifecycle_adoption",
                        exact_test: "lifecycle_cli_runs_each_transition_through_localhost_host",
                    }),
                    consumer: Some(AdoptionLocator {
                        package: "kanban-cli",
                        test_target: "cli_lifecycle_adoption",
                        exact_test: "lifecycle_cli_runs_each_transition_through_localhost_host",
                    }),
                },
            ],
        },
        OperationDeclaration {
            operation_id: "cli.task-release",
            surface: ContractSurface::Cli,
            method: None,
            path: None,
            operation: "task release",
            key: "task release",
            migration: MigrationState::Adopted,
            exclusion: None,
            shared_components: &[],
            header_profile: None,
            mcp_policy: None,
            obligation_overrides: &[],
            contracts: &[
                ContractDeclaration {
                    id: "cli.task-release.output",
                    path: "kanban task release --json stdout",
                    operation: None,
                    location: None,
                    operation_key: None,
                    parameters: &[],
                    direction: ContractDirection::Serialize,
                    strictness: ContractStrictness::DenyUnknownFields,
                    granularity: ContractGranularity::Exact,
                    binding: ContractBinding::ExactSurface,
                    schema_id: Some("urn:kanban-tool:schema:cli:task-release-output:v1"),
                    artifact_path: Some("cli/task-release-output.v1.schema.json"),
                    schema_title: Some("Kanban CLI task release output v1"),
                    valid_fixture: Some("schemas/fixtures/cli/task-release-output.v1.valid.json"),
                    invalid_fixture: Some("schemas/fixtures/cli/task-release-output.v1.invalid.json"),
                    exclusion: None,
                    producer: Some(AdoptionLocator {
                        package: "kanban-cli",
                        test_target: "cli_lifecycle_adoption",
                        exact_test: "lifecycle_cli_runs_each_transition_through_localhost_host",
                    }),
                    consumer: Some(AdoptionLocator {
                        package: "kanban-cli",
                        test_target: "cli_lifecycle_adoption",
                        exact_test: "lifecycle_cli_runs_each_transition_through_localhost_host",
                    }),
                },
            ],
        },
        OperationDeclaration {
            operation_id: "cli.task-list",
            surface: ContractSurface::Cli,
            method: None,
            path: None,
            operation: "task list",
            key: "task list",
            migration: MigrationState::Adopted,
            exclusion: None,
            shared_components: &[],
            header_profile: None,
            mcp_policy: None,
            obligation_overrides: &[],
            contracts: &[
                ContractDeclaration {
                    id: "cli.task-list.output",
                    path: "kanban task list --json stdout",
                    operation: None,
                    location: None,
                    operation_key: None,
                    parameters: &[],
                    direction: ContractDirection::Serialize,
                    strictness: ContractStrictness::DenyUnknownFields,
                    granularity: ContractGranularity::Exact,
                    binding: ContractBinding::ExactSurface,
                    schema_id: Some("urn:kanban-tool:schema:cli:task-list-output:v1"),
                    artifact_path: Some("cli/task-list-output.v1.schema.json"),
                    schema_title: Some("Kanban CLI task list output v1"),
                    valid_fixture: Some("schemas/fixtures/cli/task-list-output.v1.valid.json"),
                    invalid_fixture: Some("schemas/fixtures/cli/task-list-output.v1.invalid.json"),
                    exclusion: None,
                    producer: Some(AdoptionLocator {
                        package: "kanban-cli",
                        test_target: "cli_queue_adoption",
                        exact_test: "queue_cli_uses_real_host_for_config_board_and_task_commands",
                    }),
                    consumer: Some(AdoptionLocator {
                        package: "kanban-cli",
                        test_target: "cli_queue_adoption",
                        exact_test: "queue_cli_uses_real_host_for_config_board_and_task_commands",
                    }),
                },
            ],
        },
        OperationDeclaration {
            operation_id: "cli.task-promote",
            surface: ContractSurface::Cli,
            method: None,
            path: None,
            operation: "task promote",
            key: "task promote",
            migration: MigrationState::Adopted,
            exclusion: None,
            shared_components: &[],
            header_profile: None,
            mcp_policy: None,
            obligation_overrides: &[],
            contracts: &[
                ContractDeclaration {
                    id: "cli.task-promote.output",
                    path: "kanban task promote --json stdout",
                    operation: None,
                    location: None,
                    operation_key: None,
                    parameters: &[],
                    direction: ContractDirection::Serialize,
                    strictness: ContractStrictness::DenyUnknownFields,
                    granularity: ContractGranularity::Exact,
                    binding: ContractBinding::ExactSurface,
                    schema_id: Some("urn:kanban-tool:schema:cli:task-promote-output:v1"),
                    artifact_path: Some("cli/task-promote-output.v1.schema.json"),
                    schema_title: Some("Kanban CLI task promote output v1"),
                    valid_fixture: Some("schemas/fixtures/cli/task-promote-output.v1.valid.json"),
                    invalid_fixture: Some("schemas/fixtures/cli/task-promote-output.v1.invalid.json"),
                    exclusion: None,
                    producer: Some(AdoptionLocator {
                        package: "kanban-cli",
                        test_target: "cli_lifecycle_adoption",
                        exact_test: "lifecycle_cli_runs_each_transition_through_localhost_host",
                    }),
                    consumer: Some(AdoptionLocator {
                        package: "kanban-cli",
                        test_target: "cli_lifecycle_adoption",
                        exact_test: "lifecycle_cli_runs_each_transition_through_localhost_host",
                    }),
                },
            ],
        },
        OperationDeclaration {
            operation_id: "cli.task-reclaim",
            surface: ContractSurface::Cli,
            method: None,
            path: None,
            operation: "task reclaim",
            key: "task reclaim",
            migration: MigrationState::Adopted,
            exclusion: None,
            shared_components: &[],
            header_profile: None,
            mcp_policy: None,
            obligation_overrides: &[],
            contracts: &[
                ContractDeclaration {
                    id: "cli.task-reclaim.output",
                    path: "kanban task reclaim --json stdout",
                    operation: None,
                    location: None,
                    operation_key: None,
                    parameters: &[],
                    direction: ContractDirection::Serialize,
                    strictness: ContractStrictness::DenyUnknownFields,
                    granularity: ContractGranularity::Exact,
                    binding: ContractBinding::ExactSurface,
                    schema_id: Some("urn:kanban-tool:schema:cli:task-reclaim-output:v1"),
                    artifact_path: Some("cli/task-reclaim-output.v1.schema.json"),
                    schema_title: Some("Kanban CLI task reclaim output v1"),
                    valid_fixture: Some("schemas/fixtures/cli/task-reclaim-output.v1.valid.json"),
                    invalid_fixture: Some("schemas/fixtures/cli/task-reclaim-output.v1.invalid.json"),
                    exclusion: None,
                    producer: Some(AdoptionLocator {
                        package: "kanban-cli",
                        test_target: "cli_lifecycle_adoption",
                        exact_test: "lifecycle_cli_runs_each_transition_through_localhost_host",
                    }),
                    consumer: Some(AdoptionLocator {
                        package: "kanban-cli",
                        test_target: "cli_lifecycle_adoption",
                        exact_test: "lifecycle_cli_runs_each_transition_through_localhost_host",
                    }),
                },
            ],
        },
        OperationDeclaration {
            operation_id: "cli.task-reopen",
            surface: ContractSurface::Cli,
            method: None,
            path: None,
            operation: "task reopen",
            key: "task reopen",
            migration: MigrationState::Adopted,
            exclusion: None,
            shared_components: &[],
            header_profile: None,
            mcp_policy: None,
            obligation_overrides: &[],
            contracts: &[
                ContractDeclaration {
                    id: "cli.task-reopen.output",
                    path: "kanban task reopen --json stdout",
                    operation: None,
                    location: None,
                    operation_key: None,
                    parameters: &[],
                    direction: ContractDirection::Serialize,
                    strictness: ContractStrictness::DenyUnknownFields,
                    granularity: ContractGranularity::Exact,
                    binding: ContractBinding::ExactSurface,
                    schema_id: Some("urn:kanban-tool:schema:cli:task-reopen-output:v1"),
                    artifact_path: Some("cli/task-reopen-output.v1.schema.json"),
                    schema_title: Some("Kanban CLI task reopen output v1"),
                    valid_fixture: Some("schemas/fixtures/cli/task-reopen-output.v1.valid.json"),
                    invalid_fixture: Some("schemas/fixtures/cli/task-reopen-output.v1.invalid.json"),
                    exclusion: None,
                    producer: Some(AdoptionLocator {
                        package: "kanban-cli",
                        test_target: "cli_lifecycle_adoption",
                        exact_test: "lifecycle_cli_runs_each_transition_through_localhost_host",
                    }),
                    consumer: Some(AdoptionLocator {
                        package: "kanban-cli",
                        test_target: "cli_lifecycle_adoption",
                        exact_test: "lifecycle_cli_runs_each_transition_through_localhost_host",
                    }),
                },
            ],
        },
        OperationDeclaration {
            operation_id: "cli.task-review",
            surface: ContractSurface::Cli,
            method: None,
            path: None,
            operation: "task review",
            key: "task review",
            migration: MigrationState::Adopted,
            exclusion: None,
            shared_components: &[],
            header_profile: None,
            mcp_policy: None,
            obligation_overrides: &[],
            contracts: &[
                ContractDeclaration {
                    id: "cli.task-review.output",
                    path: "kanban task review --json stdout",
                    operation: None,
                    location: None,
                    operation_key: None,
                    parameters: &[],
                    direction: ContractDirection::Serialize,
                    strictness: ContractStrictness::DenyUnknownFields,
                    granularity: ContractGranularity::Exact,
                    binding: ContractBinding::ExactSurface,
                    schema_id: Some("urn:kanban-tool:schema:cli:task-review-output:v1"),
                    artifact_path: Some("cli/task-review-output.v1.schema.json"),
                    schema_title: Some("Kanban CLI task review output v1"),
                    valid_fixture: Some("schemas/fixtures/cli/task-review-output.v1.valid.json"),
                    invalid_fixture: Some("schemas/fixtures/cli/task-review-output.v1.invalid.json"),
                    exclusion: None,
                    producer: Some(AdoptionLocator {
                        package: "kanban-cli",
                        test_target: "cli_lifecycle_adoption",
                        exact_test: "lifecycle_cli_runs_each_transition_through_localhost_host",
                    }),
                    consumer: Some(AdoptionLocator {
                        package: "kanban-cli",
                        test_target: "cli_lifecycle_adoption",
                        exact_test: "lifecycle_cli_runs_each_transition_through_localhost_host",
                    }),
                },
            ],
        },
        OperationDeclaration {
            operation_id: "cli.task-show",
            surface: ContractSurface::Cli,
            method: None,
            path: None,
            operation: "task show",
            key: "task show",
            migration: MigrationState::Adopted,
            exclusion: None,
            shared_components: &[],
            header_profile: None,
            mcp_policy: None,
            obligation_overrides: &[],
            contracts: &[
                ContractDeclaration {
                    id: "cli.task-show.output",
                    path: "kanban task show --json stdout",
                    operation: None,
                    location: None,
                    operation_key: None,
                    parameters: &[],
                    direction: ContractDirection::Serialize,
                    strictness: ContractStrictness::DenyUnknownFields,
                    granularity: ContractGranularity::Exact,
                    binding: ContractBinding::ExactSurface,
                    schema_id: Some("urn:kanban-tool:schema:cli:task-show-output:v1"),
                    artifact_path: Some("cli/task-show-output.v1.schema.json"),
                    schema_title: Some("Kanban CLI task show output v1"),
                    valid_fixture: Some("schemas/fixtures/cli/task-show-output.v1.valid.json"),
                    invalid_fixture: Some("schemas/fixtures/cli/task-show-output.v1.invalid.json"),
                    exclusion: None,
                    producer: Some(AdoptionLocator {
                        package: "kanban-cli",
                        test_target: "cli_queue_adoption",
                        exact_test: "queue_cli_uses_real_host_for_config_board_and_task_commands",
                    }),
                    consumer: Some(AdoptionLocator {
                        package: "kanban-cli",
                        test_target: "cli_queue_adoption",
                        exact_test: "queue_cli_uses_real_host_for_config_board_and_task_commands",
                    }),
                },
            ],
        },
        OperationDeclaration {
            operation_id: "cli.task-specify",
            surface: ContractSurface::Cli,
            method: None,
            path: None,
            operation: "task specify",
            key: "task specify",
            migration: MigrationState::Adopted,
            exclusion: None,
            shared_components: &[],
            header_profile: None,
            mcp_policy: None,
            obligation_overrides: &[],
            contracts: &[
                ContractDeclaration {
                    id: "cli.task-specify.output",
                    path: "kanban task specify --json stdout",
                    operation: None,
                    location: None,
                    operation_key: None,
                    parameters: &[],
                    direction: ContractDirection::Serialize,
                    strictness: ContractStrictness::DenyUnknownFields,
                    granularity: ContractGranularity::Exact,
                    binding: ContractBinding::ExactSurface,
                    schema_id: Some("urn:kanban-tool:schema:cli:task-specify-output:v1"),
                    artifact_path: Some("cli/task-specify-output.v1.schema.json"),
                    schema_title: Some("Kanban CLI task specify output v1"),
                    valid_fixture: Some("schemas/fixtures/cli/task-specify-output.v1.valid.json"),
                    invalid_fixture: Some("schemas/fixtures/cli/task-specify-output.v1.invalid.json"),
                    exclusion: None,
                    producer: Some(AdoptionLocator {
                        package: "kanban-cli",
                        test_target: "cli_lifecycle_adoption",
                        exact_test: "lifecycle_cli_runs_each_transition_through_localhost_host",
                    }),
                    consumer: Some(AdoptionLocator {
                        package: "kanban-cli",
                        test_target: "cli_lifecycle_adoption",
                        exact_test: "lifecycle_cli_runs_each_transition_through_localhost_host",
                    }),
                },
            ],
        },
        OperationDeclaration {
            operation_id: "cli.task-step-add",
            surface: ContractSurface::Cli,
            method: None,
            path: None,
            operation: "task step add",
            key: "task step add",
            migration: MigrationState::Adopted,
            exclusion: None,
            shared_components: &[],
            header_profile: None,
            mcp_policy: None,
            obligation_overrides: &[],
            contracts: &[
                ContractDeclaration {
                    id: "cli.task-step-add.output",
                    path: "kanban task step add --json stdout",
                    operation: None,
                    location: None,
                    operation_key: None,
                    parameters: &[],
                    direction: ContractDirection::Serialize,
                    strictness: ContractStrictness::DenyUnknownFields,
                    granularity: ContractGranularity::Exact,
                    binding: ContractBinding::ExactSurface,
                    schema_id: Some("urn:kanban-tool:schema:cli:task-step-add-output:v1"),
                    artifact_path: Some("cli/task-step-add-output.v1.schema.json"),
                    schema_title: Some("Kanban CLI task step add output v1"),
                    valid_fixture: Some("schemas/fixtures/cli/task-step-add-output.v1.valid.json"),
                    invalid_fixture: Some("schemas/fixtures/cli/task-step-add-output.v1.invalid.json"),
                    exclusion: None,
                    producer: Some(AdoptionLocator {
                        package: "kanban-cli",
                        test_target: "cli_steps_dependencies_adoption",
                        exact_test: "steps_and_dependencies_cli_use_real_host_and_committed_contract_shapes",
                    }),
                    consumer: Some(AdoptionLocator {
                        package: "kanban-cli",
                        test_target: "cli_steps_dependencies_adoption",
                        exact_test: "steps_and_dependencies_cli_use_real_host_and_committed_contract_shapes",
                    }),
                },
            ],
        },
        OperationDeclaration {
            operation_id: "cli.task-step-done",
            surface: ContractSurface::Cli,
            method: None,
            path: None,
            operation: "task step done",
            key: "task step done",
            migration: MigrationState::Adopted,
            exclusion: None,
            shared_components: &[],
            header_profile: None,
            mcp_policy: None,
            obligation_overrides: &[],
            contracts: &[
                ContractDeclaration {
                    id: "cli.task-step-done.output",
                    path: "kanban task step done --json stdout",
                    operation: None,
                    location: None,
                    operation_key: None,
                    parameters: &[],
                    direction: ContractDirection::Serialize,
                    strictness: ContractStrictness::DenyUnknownFields,
                    granularity: ContractGranularity::Exact,
                    binding: ContractBinding::ExactSurface,
                    schema_id: Some("urn:kanban-tool:schema:cli:task-step-done-output:v1"),
                    artifact_path: Some("cli/task-step-done-output.v1.schema.json"),
                    schema_title: Some("Kanban CLI task step done output v1"),
                    valid_fixture: Some("schemas/fixtures/cli/task-step-done-output.v1.valid.json"),
                    invalid_fixture: Some("schemas/fixtures/cli/task-step-done-output.v1.invalid.json"),
                    exclusion: None,
                    producer: Some(AdoptionLocator {
                        package: "kanban-cli",
                        test_target: "cli_steps_dependencies_adoption",
                        exact_test: "steps_and_dependencies_cli_use_real_host_and_committed_contract_shapes",
                    }),
                    consumer: Some(AdoptionLocator {
                        package: "kanban-cli",
                        test_target: "cli_steps_dependencies_adoption",
                        exact_test: "steps_and_dependencies_cli_use_real_host_and_committed_contract_shapes",
                    }),
                },
            ],
        },
        OperationDeclaration {
            operation_id: "cli.task-step-list",
            surface: ContractSurface::Cli,
            method: None,
            path: None,
            operation: "task step list",
            key: "task step list",
            migration: MigrationState::Adopted,
            exclusion: None,
            shared_components: &[],
            header_profile: None,
            mcp_policy: None,
            obligation_overrides: &[],
            contracts: &[
                ContractDeclaration {
                    id: "cli.task-step-list.output",
                    path: "kanban task step list --json stdout",
                    operation: None,
                    location: None,
                    operation_key: None,
                    parameters: &[],
                    direction: ContractDirection::Serialize,
                    strictness: ContractStrictness::DenyUnknownFields,
                    granularity: ContractGranularity::Exact,
                    binding: ContractBinding::ExactSurface,
                    schema_id: Some("urn:kanban-tool:schema:cli:task-step-list-output:v1"),
                    artifact_path: Some("cli/task-step-list-output.v1.schema.json"),
                    schema_title: Some("Kanban CLI task step list output v1"),
                    valid_fixture: Some("schemas/fixtures/cli/task-step-list-output.v1.valid.json"),
                    invalid_fixture: Some("schemas/fixtures/cli/task-step-list-output.v1.invalid.json"),
                    exclusion: None,
                    producer: Some(AdoptionLocator {
                        package: "kanban-cli",
                        test_target: "cli_steps_dependencies_adoption",
                        exact_test: "steps_and_dependencies_cli_use_real_host_and_committed_contract_shapes",
                    }),
                    consumer: Some(AdoptionLocator {
                        package: "kanban-cli",
                        test_target: "cli_steps_dependencies_adoption",
                        exact_test: "steps_and_dependencies_cli_use_real_host_and_committed_contract_shapes",
                    }),
                },
            ],
        },
        OperationDeclaration {
            operation_id: "cli.task-step-not-required",
            surface: ContractSurface::Cli,
            method: None,
            path: None,
            operation: "task step not-required",
            key: "task step not-required",
            migration: MigrationState::Adopted,
            exclusion: None,
            shared_components: &[],
            header_profile: None,
            mcp_policy: None,
            obligation_overrides: &[],
            contracts: &[
                ContractDeclaration {
                    id: "cli.task-step-not-required.output",
                    path: "kanban task step not-required --json stdout",
                    operation: None,
                    location: None,
                    operation_key: None,
                    parameters: &[],
                    direction: ContractDirection::Serialize,
                    strictness: ContractStrictness::DenyUnknownFields,
                    granularity: ContractGranularity::Exact,
                    binding: ContractBinding::ExactSurface,
                    schema_id: Some("urn:kanban-tool:schema:cli:task-step-not-required-output:v1"),
                    artifact_path: Some("cli/task-step-not-required-output.v1.schema.json"),
                    schema_title: Some("Kanban CLI task step not-required output v1"),
                    valid_fixture: Some("schemas/fixtures/cli/task-step-not-required-output.v1.valid.json"),
                    invalid_fixture: Some("schemas/fixtures/cli/task-step-not-required-output.v1.invalid.json"),
                    exclusion: None,
                    producer: Some(AdoptionLocator {
                        package: "kanban-cli",
                        test_target: "cli_steps_dependencies_adoption",
                        exact_test: "steps_and_dependencies_cli_use_real_host_and_committed_contract_shapes",
                    }),
                    consumer: Some(AdoptionLocator {
                        package: "kanban-cli",
                        test_target: "cli_steps_dependencies_adoption",
                        exact_test: "steps_and_dependencies_cli_use_real_host_and_committed_contract_shapes",
                    }),
                },
            ],
        },
        OperationDeclaration {
            operation_id: "cli.task-step-remove",
            surface: ContractSurface::Cli,
            method: None,
            path: None,
            operation: "task step remove",
            key: "task step remove",
            migration: MigrationState::Adopted,
            exclusion: None,
            shared_components: &[],
            header_profile: None,
            mcp_policy: None,
            obligation_overrides: &[],
            contracts: &[
                ContractDeclaration {
                    id: "cli.task-step-remove.output",
                    path: "kanban task step remove --json stdout",
                    operation: None,
                    location: None,
                    operation_key: None,
                    parameters: &[],
                    direction: ContractDirection::Serialize,
                    strictness: ContractStrictness::DenyUnknownFields,
                    granularity: ContractGranularity::Exact,
                    binding: ContractBinding::ExactSurface,
                    schema_id: Some("urn:kanban-tool:schema:cli:task-step-remove-output:v1"),
                    artifact_path: Some("cli/task-step-remove-output.v1.schema.json"),
                    schema_title: Some("Kanban CLI task step remove output v1"),
                    valid_fixture: Some("schemas/fixtures/cli/task-step-remove-output.v1.valid.json"),
                    invalid_fixture: Some("schemas/fixtures/cli/task-step-remove-output.v1.invalid.json"),
                    exclusion: None,
                    producer: Some(AdoptionLocator {
                        package: "kanban-cli",
                        test_target: "cli_steps_dependencies_adoption",
                        exact_test: "steps_and_dependencies_cli_use_real_host_and_committed_contract_shapes",
                    }),
                    consumer: Some(AdoptionLocator {
                        package: "kanban-cli",
                        test_target: "cli_steps_dependencies_adoption",
                        exact_test: "steps_and_dependencies_cli_use_real_host_and_committed_contract_shapes",
                    }),
                },
            ],
        },
        OperationDeclaration {
            operation_id: "cli.task-step-reopen",
            surface: ContractSurface::Cli,
            method: None,
            path: None,
            operation: "task step reopen",
            key: "task step reopen",
            migration: MigrationState::Adopted,
            exclusion: None,
            shared_components: &[],
            header_profile: None,
            mcp_policy: None,
            obligation_overrides: &[],
            contracts: &[
                ContractDeclaration {
                    id: "cli.task-step-reopen.output",
                    path: "kanban task step reopen --json stdout",
                    operation: None,
                    location: None,
                    operation_key: None,
                    parameters: &[],
                    direction: ContractDirection::Serialize,
                    strictness: ContractStrictness::DenyUnknownFields,
                    granularity: ContractGranularity::Exact,
                    binding: ContractBinding::ExactSurface,
                    schema_id: Some("urn:kanban-tool:schema:cli:task-step-reopen-output:v1"),
                    artifact_path: Some("cli/task-step-reopen-output.v1.schema.json"),
                    schema_title: Some("Kanban CLI task step reopen output v1"),
                    valid_fixture: Some("schemas/fixtures/cli/task-step-reopen-output.v1.valid.json"),
                    invalid_fixture: Some("schemas/fixtures/cli/task-step-reopen-output.v1.invalid.json"),
                    exclusion: None,
                    producer: Some(AdoptionLocator {
                        package: "kanban-cli",
                        test_target: "cli_steps_dependencies_adoption",
                        exact_test: "steps_and_dependencies_cli_use_real_host_and_committed_contract_shapes",
                    }),
                    consumer: Some(AdoptionLocator {
                        package: "kanban-cli",
                        test_target: "cli_steps_dependencies_adoption",
                        exact_test: "steps_and_dependencies_cli_use_real_host_and_committed_contract_shapes",
                    }),
                },
            ],
        },
        OperationDeclaration {
            operation_id: "cli.task-step-skip",
            surface: ContractSurface::Cli,
            method: None,
            path: None,
            operation: "task step skip",
            key: "task step skip",
            migration: MigrationState::Adopted,
            exclusion: None,
            shared_components: &[],
            header_profile: None,
            mcp_policy: None,
            obligation_overrides: &[],
            contracts: &[
                ContractDeclaration {
                    id: "cli.task-step-skip.output",
                    path: "kanban task step skip --json stdout",
                    operation: None,
                    location: None,
                    operation_key: None,
                    parameters: &[],
                    direction: ContractDirection::Serialize,
                    strictness: ContractStrictness::DenyUnknownFields,
                    granularity: ContractGranularity::Exact,
                    binding: ContractBinding::ExactSurface,
                    schema_id: Some("urn:kanban-tool:schema:cli:task-step-skip-output:v1"),
                    artifact_path: Some("cli/task-step-skip-output.v1.schema.json"),
                    schema_title: Some("Kanban CLI task step skip output v1"),
                    valid_fixture: Some("schemas/fixtures/cli/task-step-skip-output.v1.valid.json"),
                    invalid_fixture: Some("schemas/fixtures/cli/task-step-skip-output.v1.invalid.json"),
                    exclusion: None,
                    producer: Some(AdoptionLocator {
                        package: "kanban-cli",
                        test_target: "cli_steps_dependencies_adoption",
                        exact_test: "steps_and_dependencies_cli_use_real_host_and_committed_contract_shapes",
                    }),
                    consumer: Some(AdoptionLocator {
                        package: "kanban-cli",
                        test_target: "cli_steps_dependencies_adoption",
                        exact_test: "steps_and_dependencies_cli_use_real_host_and_committed_contract_shapes",
                    }),
                },
            ],
        },
        OperationDeclaration {
            operation_id: "cli.task-step-update",
            surface: ContractSurface::Cli,
            method: None,
            path: None,
            operation: "task step update",
            key: "task step update",
            migration: MigrationState::Adopted,
            exclusion: None,
            shared_components: &[],
            header_profile: None,
            mcp_policy: None,
            obligation_overrides: &[],
            contracts: &[
                ContractDeclaration {
                    id: "cli.task-step-update.output",
                    path: "kanban task step update --json stdout",
                    operation: None,
                    location: None,
                    operation_key: None,
                    parameters: &[],
                    direction: ContractDirection::Serialize,
                    strictness: ContractStrictness::DenyUnknownFields,
                    granularity: ContractGranularity::Exact,
                    binding: ContractBinding::ExactSurface,
                    schema_id: Some("urn:kanban-tool:schema:cli:task-step-update-output:v1"),
                    artifact_path: Some("cli/task-step-update-output.v1.schema.json"),
                    schema_title: Some("Kanban CLI task step update output v1"),
                    valid_fixture: Some("schemas/fixtures/cli/task-step-update-output.v1.valid.json"),
                    invalid_fixture: Some("schemas/fixtures/cli/task-step-update-output.v1.invalid.json"),
                    exclusion: None,
                    producer: Some(AdoptionLocator {
                        package: "kanban-cli",
                        test_target: "cli_steps_dependencies_adoption",
                        exact_test: "steps_and_dependencies_cli_use_real_host_and_committed_contract_shapes",
                    }),
                    consumer: Some(AdoptionLocator {
                        package: "kanban-cli",
                        test_target: "cli_steps_dependencies_adoption",
                        exact_test: "steps_and_dependencies_cli_use_real_host_and_committed_contract_shapes",
                    }),
                },
            ],
        },
        OperationDeclaration {
            operation_id: "cli.task-unblock",
            surface: ContractSurface::Cli,
            method: None,
            path: None,
            operation: "task unblock",
            key: "task unblock",
            migration: MigrationState::Adopted,
            exclusion: None,
            shared_components: &[],
            header_profile: None,
            mcp_policy: None,
            obligation_overrides: &[],
            contracts: &[
                ContractDeclaration {
                    id: "cli.task-unblock.output",
                    path: "kanban task unblock --json stdout",
                    operation: None,
                    location: None,
                    operation_key: None,
                    parameters: &[],
                    direction: ContractDirection::Serialize,
                    strictness: ContractStrictness::DenyUnknownFields,
                    granularity: ContractGranularity::Exact,
                    binding: ContractBinding::ExactSurface,
                    schema_id: Some("urn:kanban-tool:schema:cli:task-unblock-output:v1"),
                    artifact_path: Some("cli/task-unblock-output.v1.schema.json"),
                    schema_title: Some("Kanban CLI task unblock output v1"),
                    valid_fixture: Some("schemas/fixtures/cli/task-unblock-output.v1.valid.json"),
                    invalid_fixture: Some("schemas/fixtures/cli/task-unblock-output.v1.invalid.json"),
                    exclusion: None,
                    producer: Some(AdoptionLocator {
                        package: "kanban-cli",
                        test_target: "cli_lifecycle_adoption",
                        exact_test: "lifecycle_cli_runs_each_transition_through_localhost_host",
                    }),
                    consumer: Some(AdoptionLocator {
                        package: "kanban-cli",
                        test_target: "cli_lifecycle_adoption",
                        exact_test: "lifecycle_cli_runs_each_transition_through_localhost_host",
                    }),
                },
            ],
        },
        OperationDeclaration {
            operation_id: "cli.task-update",
            surface: ContractSurface::Cli,
            method: None,
            path: None,
            operation: "task update",
            key: "task update",
            migration: MigrationState::Adopted,
            exclusion: None,
            shared_components: &[],
            header_profile: None,
            mcp_policy: None,
            obligation_overrides: &[],
            contracts: &[
                ContractDeclaration {
                    id: "cli.task-update.output",
                    path: "kanban task update --json stdout",
                    operation: None,
                    location: None,
                    operation_key: None,
                    parameters: &[],
                    direction: ContractDirection::Serialize,
                    strictness: ContractStrictness::DenyUnknownFields,
                    granularity: ContractGranularity::Exact,
                    binding: ContractBinding::ExactSurface,
                    schema_id: Some("urn:kanban-tool:schema:cli:task-update-output:v1"),
                    artifact_path: Some("cli/task-update-output.v1.schema.json"),
                    schema_title: Some("Kanban CLI task update output v1"),
                    valid_fixture: Some("schemas/fixtures/cli/task-update-output.v1.valid.json"),
                    invalid_fixture: Some("schemas/fixtures/cli/task-update-output.v1.invalid.json"),
                    exclusion: None,
                    producer: Some(AdoptionLocator {
                        package: "kanban-cli",
                        test_target: "cli_queue_adoption",
                        exact_test: "queue_cli_uses_real_host_for_config_board_and_task_commands",
                    }),
                    consumer: Some(AdoptionLocator {
                        package: "kanban-cli",
                        test_target: "cli_queue_adoption",
                        exact_test: "queue_cli_uses_real_host_for_config_board_and_task_commands",
                    }),
                },
            ],
        },
        OperationDeclaration {
            operation_id: "cli.maintenance-vacuum",
            surface: ContractSurface::Cli,
            method: None,
            path: None,
            operation: "vacuum",
            key: "vacuum",
            migration: MigrationState::Adopted,
            exclusion: None,
            shared_components: &[],
            header_profile: None,
            mcp_policy: None,
            obligation_overrides: &[],
            contracts: &[
                ContractDeclaration {
                    id: "cli.maintenance-vacuum.output",
                    path: "kanban vacuum --json stdout",
                    operation: None,
                    location: None,
                    operation_key: None,
                    parameters: &[],
                    direction: ContractDirection::Serialize,
                    strictness: ContractStrictness::DenyUnknownFields,
                    granularity: ContractGranularity::Exact,
                    binding: ContractBinding::ExactSurface,
                    schema_id: Some("urn:kanban-tool:schema:cli:maintenance-vacuum-output:v1"),
                    artifact_path: Some("cli/maintenance-vacuum-output.v1.schema.json"),
                    schema_title: Some("Kanban CLI maintenance vacuum output v1"),
                    valid_fixture: Some("schemas/fixtures/cli/maintenance-vacuum-output.v1.valid.json"),
                    invalid_fixture: Some("schemas/fixtures/cli/maintenance-vacuum-output.v1.invalid.json"),
                    exclusion: None,
                    producer: Some(AdoptionLocator {
                        package: "kanban-cli",
                        test_target: "cli_admin_adoption",
                        exact_test: "maintenance_admin_commands_use_real_host_and_typed_json",
                    }),
                    consumer: Some(AdoptionLocator {
                        package: "kanban-cli",
                        test_target: "cli_admin_adoption",
                        exact_test: "maintenance_admin_commands_use_real_host_and_typed_json",
                    }),
                },
            ],
        },
        OperationDeclaration {
            operation_id: "cli.vector-configure",
            surface: ContractSurface::Cli,
            method: None,
            path: None,
            operation: "vector configure",
            key: "vector configure",
            migration: MigrationState::Adopted,
            exclusion: None,
            shared_components: &[],
            header_profile: None,
            mcp_policy: None,
            obligation_overrides: &[],
            contracts: &[
                ContractDeclaration {
                    id: "cli.vector-configure.output",
                    path: "kanban vector configure --json stdout",
                    operation: None,
                    location: None,
                    operation_key: None,
                    parameters: &[],
                    direction: ContractDirection::Serialize,
                    strictness: ContractStrictness::DenyUnknownFields,
                    granularity: ContractGranularity::Exact,
                    binding: ContractBinding::ExactSurface,
                    schema_id: Some("urn:kanban-tool:schema:cli:vector-configure-output:v1"),
                    artifact_path: Some("cli/vector-configure-output.v1.schema.json"),
                    schema_title: Some("Kanban CLI vector configure output v1"),
                    valid_fixture: Some("schemas/fixtures/cli/vector-configure-output.v1.valid.json"),
                    invalid_fixture: Some("schemas/fixtures/cli/vector-configure-output.v1.invalid.json"),
                    exclusion: None,
                    producer: Some(AdoptionLocator {
                        package: "kanban-cli",
                        test_target: "cli_knowledge_adoption",
                        exact_test: "knowledge_commands_use_real_canonical_host_and_preserve_degraded_providers",
                    }),
                    consumer: Some(AdoptionLocator {
                        package: "kanban-cli",
                        test_target: "cli_knowledge_adoption",
                        exact_test: "knowledge_commands_use_real_canonical_host_and_preserve_degraded_providers",
                    }),
                },
            ],
        },
        OperationDeclaration {
            operation_id: "cli.vector-query-chunks",
            surface: ContractSurface::Cli,
            method: None,
            path: None,
            operation: "vector query-chunks",
            key: "vector query-chunks",
            migration: MigrationState::Adopted,
            exclusion: None,
            shared_components: &[],
            header_profile: None,
            mcp_policy: None,
            obligation_overrides: &[],
            contracts: &[
                ContractDeclaration {
                    id: "cli.vector-query-chunks.output",
                    path: "kanban vector query-chunks --json stdout",
                    operation: None,
                    location: None,
                    operation_key: None,
                    parameters: &[],
                    direction: ContractDirection::Serialize,
                    strictness: ContractStrictness::DenyUnknownFields,
                    granularity: ContractGranularity::Exact,
                    binding: ContractBinding::ExactSurface,
                    schema_id: Some("urn:kanban-tool:schema:cli:vector-query-chunks-output:v1"),
                    artifact_path: Some("cli/vector-query-chunks-output.v1.schema.json"),
                    schema_title: Some("Kanban CLI vector query-chunks output v1"),
                    valid_fixture: Some("schemas/fixtures/cli/vector-query-chunks-output.v1.valid.json"),
                    invalid_fixture: Some("schemas/fixtures/cli/vector-query-chunks-output.v1.invalid.json"),
                    exclusion: None,
                    producer: Some(AdoptionLocator {
                        package: "kanban-cli",
                        test_target: "cli_knowledge_adoption",
                        exact_test: "knowledge_commands_use_real_canonical_host_and_preserve_degraded_providers",
                    }),
                    consumer: Some(AdoptionLocator {
                        package: "kanban-cli",
                        test_target: "cli_knowledge_adoption",
                        exact_test: "knowledge_commands_use_real_canonical_host_and_preserve_degraded_providers",
                    }),
                },
            ],
        },
        OperationDeclaration {
            operation_id: "cli.vector-query-label-atoms",
            surface: ContractSurface::Cli,
            method: None,
            path: None,
            operation: "vector query-label-atoms",
            key: "vector query-label-atoms",
            migration: MigrationState::Adopted,
            exclusion: None,
            shared_components: &[],
            header_profile: None,
            mcp_policy: None,
            obligation_overrides: &[],
            contracts: &[
                ContractDeclaration {
                    id: "cli.vector-query-label-atoms.output",
                    path: "kanban vector query-label-atoms --json stdout",
                    operation: None,
                    location: None,
                    operation_key: None,
                    parameters: &[],
                    direction: ContractDirection::Serialize,
                    strictness: ContractStrictness::DenyUnknownFields,
                    granularity: ContractGranularity::Exact,
                    binding: ContractBinding::ExactSurface,
                    schema_id: Some("urn:kanban-tool:schema:cli:vector-query-label-atoms-output:v1"),
                    artifact_path: Some("cli/vector-query-label-atoms-output.v1.schema.json"),
                    schema_title: Some("Kanban CLI vector query-label-atoms output v1"),
                    valid_fixture: Some("schemas/fixtures/cli/vector-query-label-atoms-output.v1.valid.json"),
                    invalid_fixture: Some("schemas/fixtures/cli/vector-query-label-atoms-output.v1.invalid.json"),
                    exclusion: None,
                    producer: Some(AdoptionLocator {
                        package: "kanban-cli",
                        test_target: "cli_knowledge_adoption",
                        exact_test: "knowledge_commands_use_real_canonical_host_and_preserve_degraded_providers",
                    }),
                    consumer: Some(AdoptionLocator {
                        package: "kanban-cli",
                        test_target: "cli_knowledge_adoption",
                        exact_test: "knowledge_commands_use_real_canonical_host_and_preserve_degraded_providers",
                    }),
                },
            ],
        },
        OperationDeclaration {
            operation_id: "cli.vector-rebuild",
            surface: ContractSurface::Cli,
            method: None,
            path: None,
            operation: "vector rebuild",
            key: "vector rebuild",
            migration: MigrationState::Adopted,
            exclusion: None,
            shared_components: &[],
            header_profile: None,
            mcp_policy: None,
            obligation_overrides: &[],
            contracts: &[
                ContractDeclaration {
                    id: "cli.vector-rebuild.output",
                    path: "kanban vector rebuild --json stdout",
                    operation: None,
                    location: None,
                    operation_key: None,
                    parameters: &[],
                    direction: ContractDirection::Serialize,
                    strictness: ContractStrictness::DenyUnknownFields,
                    granularity: ContractGranularity::Exact,
                    binding: ContractBinding::ExactSurface,
                    schema_id: Some("urn:kanban-tool:schema:cli:vector-rebuild-output:v1"),
                    artifact_path: Some("cli/vector-rebuild-output.v1.schema.json"),
                    schema_title: Some("Kanban CLI vector rebuild output v1"),
                    valid_fixture: Some("schemas/fixtures/cli/vector-rebuild-output.v1.valid.json"),
                    invalid_fixture: Some("schemas/fixtures/cli/vector-rebuild-output.v1.invalid.json"),
                    exclusion: None,
                    producer: Some(AdoptionLocator {
                        package: "kanban-cli",
                        test_target: "cli_knowledge_adoption",
                        exact_test: "knowledge_commands_use_real_canonical_host_and_preserve_degraded_providers",
                    }),
                    consumer: Some(AdoptionLocator {
                        package: "kanban-cli",
                        test_target: "cli_knowledge_adoption",
                        exact_test: "knowledge_commands_use_real_canonical_host_and_preserve_degraded_providers",
                    }),
                },
            ],
        },
        OperationDeclaration {
            operation_id: "cli.vector-status",
            surface: ContractSurface::Cli,
            method: None,
            path: None,
            operation: "vector status",
            key: "vector status",
            migration: MigrationState::Adopted,
            exclusion: None,
            shared_components: &[],
            header_profile: None,
            mcp_policy: None,
            obligation_overrides: &[],
            contracts: &[
                ContractDeclaration {
                    id: "cli.vector-status.output",
                    path: "kanban vector status --json stdout",
                    operation: None,
                    location: None,
                    operation_key: None,
                    parameters: &[],
                    direction: ContractDirection::Serialize,
                    strictness: ContractStrictness::DenyUnknownFields,
                    granularity: ContractGranularity::Exact,
                    binding: ContractBinding::ExactSurface,
                    schema_id: Some("urn:kanban-tool:schema:cli:vector-status-output:v1"),
                    artifact_path: Some("cli/vector-status-output.v1.schema.json"),
                    schema_title: Some("Kanban CLI vector status output v1"),
                    valid_fixture: Some("schemas/fixtures/cli/vector-status-output.v1.valid.json"),
                    invalid_fixture: Some("schemas/fixtures/cli/vector-status-output.v1.invalid.json"),
                    exclusion: None,
                    producer: Some(AdoptionLocator {
                        package: "kanban-cli",
                        test_target: "cli_knowledge_adoption",
                        exact_test: "knowledge_commands_use_real_canonical_host_and_preserve_degraded_providers",
                    }),
                    consumer: Some(AdoptionLocator {
                        package: "kanban-cli",
                        test_target: "cli_knowledge_adoption",
                        exact_test: "knowledge_commands_use_real_canonical_host_and_preserve_degraded_providers",
                    }),
                },
            ],
        },
        OperationDeclaration {
            operation_id: "cli.vector-sync",
            surface: ContractSurface::Cli,
            method: None,
            path: None,
            operation: "vector sync",
            key: "vector sync",
            migration: MigrationState::Adopted,
            exclusion: None,
            shared_components: &[],
            header_profile: None,
            mcp_policy: None,
            obligation_overrides: &[],
            contracts: &[
                ContractDeclaration {
                    id: "cli.vector-sync.output",
                    path: "kanban vector sync --json stdout",
                    operation: None,
                    location: None,
                    operation_key: None,
                    parameters: &[],
                    direction: ContractDirection::Serialize,
                    strictness: ContractStrictness::DenyUnknownFields,
                    granularity: ContractGranularity::Exact,
                    binding: ContractBinding::ExactSurface,
                    schema_id: Some("urn:kanban-tool:schema:cli:vector-sync-output:v1"),
                    artifact_path: Some("cli/vector-sync-output.v1.schema.json"),
                    schema_title: Some("Kanban CLI vector sync output v1"),
                    valid_fixture: Some("schemas/fixtures/cli/vector-sync-output.v1.valid.json"),
                    invalid_fixture: Some("schemas/fixtures/cli/vector-sync-output.v1.invalid.json"),
                    exclusion: None,
                    producer: Some(AdoptionLocator {
                        package: "kanban-cli",
                        test_target: "cli_knowledge_adoption",
                        exact_test: "knowledge_commands_use_real_canonical_host_and_preserve_degraded_providers",
                    }),
                    consumer: Some(AdoptionLocator {
                        package: "kanban-cli",
                        test_target: "cli_knowledge_adoption",
                        exact_test: "knowledge_commands_use_real_canonical_host_and_preserve_degraded_providers",
                    }),
                },
            ],
        },
        OperationDeclaration {
            operation_id: "cli.maintenance-cleanup",
            surface: ContractSurface::Cli,
            method: None,
            path: None,
            operation: "maintenance cleanup",
            key: "maintenance cleanup",
            migration: MigrationState::Adopted,
            exclusion: None,
            shared_components: &[],
            header_profile: None,
            mcp_policy: None,
            obligation_overrides: &[],
            contracts: &[
                ContractDeclaration {
                    id: "cli.maintenance-cleanup.output",
                    path: "kanban maintenance cleanup --json stdout",
                    operation: None,
                    location: None,
                    operation_key: None,
                    parameters: &[],
                    direction: ContractDirection::Serialize,
                    strictness: ContractStrictness::DenyUnknownFields,
                    granularity: ContractGranularity::Exact,
                    binding: ContractBinding::ExactSurface,
                    schema_id: Some("urn:kanban-tool:schema:cli:maintenance-cleanup-output:v1"),
                    artifact_path: Some("cli/maintenance-cleanup-output.v1.schema.json"),
                    schema_title: Some("Kanban CLI maintenance cleanup output v1"),
                    valid_fixture: Some("schemas/fixtures/cli/maintenance-cleanup-output.v1.valid.json"),
                    invalid_fixture: Some("schemas/fixtures/cli/maintenance-cleanup-output.v1.invalid.json"),
                    exclusion: None,
                    producer: Some(AdoptionLocator {
                        package: "kanban-cli",
                        test_target: "cli_admin_adoption",
                        exact_test: "maintenance_admin_commands_use_real_host_and_typed_json",
                    }),
                    consumer: Some(AdoptionLocator {
                        package: "kanban-cli",
                        test_target: "cli_admin_adoption",
                        exact_test: "maintenance_admin_commands_use_real_host_and_typed_json",
                    }),
                },
            ],
        },
        OperationDeclaration {
            operation_id: "cli.import-v30",
            surface: ContractSurface::Cli,
            method: None,
            path: None,
            operation: "import-v30",
            key: "import-v30",
            migration: MigrationState::Adopted,
            exclusion: None,
            shared_components: &[],
            header_profile: None,
            mcp_policy: None,
            obligation_overrides: &[],
            contracts: &[
                ContractDeclaration {
                    id: "cli.import-v30.output",
                    path: "kanban import-v30 --json stdout",
                    operation: None,
                    location: None,
                    operation_key: None,
                    parameters: &[],
                    direction: ContractDirection::Serialize,
                    strictness: ContractStrictness::DenyUnknownFields,
                    granularity: ContractGranularity::Exact,
                    binding: ContractBinding::ExactSurface,
                    schema_id: Some("urn:kanban-tool:schema:cli:import-v30-output:v1"),
                    artifact_path: Some("cli/import-v30-output.v1.schema.json"),
                    schema_title: Some("Kanban CLI legacy SQLite v30 import output v1"),
                    valid_fixture: Some("schemas/fixtures/cli/import-v30-output.v1.valid.json"),
                    invalid_fixture: Some("schemas/fixtures/cli/import-v30-output.v1.invalid.json"),
                    exclusion: None,
                    producer: Some(AdoptionLocator {
                        package: "kanban-cli",
                        test_target: "cli_admin_adoption",
                        exact_test: "maintenance_admin_commands_use_real_host_and_typed_json",
                    }),
                    consumer: Some(AdoptionLocator {
                        package: "kanban-cli",
                        test_target: "cli_admin_adoption",
                        exact_test: "maintenance_admin_commands_use_real_host_and_typed_json",
                    }),
                },
            ],
        },
    ]
}

/// Every API or SSE operation of the catalog names a method and a path, and every
/// child that declares a schema declares its full metadata.
pub proof fn lemma_cli_queue_operations_ready()
    ensures
        endpoints_ready(cli_queue_operations()),
        schemas_ready(cli_queue_operations()),
{
    reveal(cli_queue_operations);
    let ops = cli_queue_operations();
    assert forall|i: int| 0 <= i < ops.len() && is_http_surface(#[trigger] ops[i].surface) implies endpoint_ready(ops[i]) by {
        if i == 0 {
        } else if i == 1 {
        } else if i == 2 {
        } else if i == 3 {
        } else if i == 4 {
        } else if i == 5 {
        } else if i == 6 {
        } else if i == 7 {
        } else if i == 8 {
        } else if i == 9 {
        } else if i == 10 {
        } else if i == 11 {
        } else if i == 12 {
        } else if i == 13 {
        } else if i == 14 {
        } else if i == 15 {
        } else if i == 16 {
        } else if i == 17 {
        } else if i == 18 {
        } else if i == 19 {
        } else if i == 20 {
        } else if i == 21 {
        } else if i == 22 {
        } else if i == 23 {
        } else if i == 24 {
        } else if i == 25 {
        } else if i == 26 {
        } else if i == 27 {
        } else if i == 28 {
        } else if i == 29 {
        } else if i == 30 {
        } else if i == 31 {
        } else if i == 32 {
        } else if i == 33 {
        } else if i == 34 {
        } else if i == 35 {
        } else if i == 36 {
        }
    }
    assert forall|i: int, j: int| 0 <= i < ops.len() && 0 <= j < ops[i].contracts@.len() implies schema_ready(#[trigger] ops[i].contracts@[j]) by {
        if i == 0 {
            if j == 0 {
            }
        } else if i == 1 {
            if j == 0 {
            }
        } else if i == 2 {
            if j == 0 {
            }
        } else if i == 3 {
            if j == 0 {
            }
        } else if i == 4 {
            if j == 0 {
            }
        } else if i == 5 {
            if j == 0 {
            }
        } else if i == 6 {
            if j == 0 {
            }
        } else if i == 7 {
            if j == 0 {
            }
        } else if i == 8 {
            if j == 0 {
            }
        } else if i == 9 {
            if j == 0 {
            }
        } else if i == 10 {
            if j == 0 {
            }
        } else if i == 11 {
            if j == 0 {
            }
        } else if i == 12 {
            if j == 0 {
            }
        } else if i == 13 {
            if j == 0 {
            }
        } else if i == 14 {
            if j == 0 {
            }
        } else if i == 15 {
            if j == 0 {
            }
        } else if i == 16 {
            if j == 0 {
            }
        } else if i == 17 {
            if j == 0 {
            }
        } else if i == 18 {
            if j == 0 {
            }
        } else if i == 19 {
            if j == 0 {
            }
        } else if i == 20 {
            if j == 0 {
            }
        } else if i == 21 {
            if j == 0 {
            }
        } else if i == 22 {
            if j == 0 {
            }
        } else if i == 23 {
            if j == 0 {
            }
        } else if i == 24 {
            if j == 0 {
            }
        } else if i == 25 {
            if j == 0 {
            }
        } else if i == 26 {
            if j == 0 {
            }
        } else if i == 27 {
            if j == 0 {
            }
        } else if i == 28 {
            if j == 0 {
            }
        } else if i == 29 {
            if j == 0 {
            }
        } else if i == 30 {
            if j == 0 {
            }
        } else if i == 31 {
            if j == 0 {
            }
        } else if i == 32 {
            if j == 0 {
            }
        } else if i == 33 {
            if j == 0 {
            }
        } else if i == 34 {
            if j == 0 {
            }
        } else if i == 35 {
            if j == 0 {
            }
        } else if i == 36 {
            if j == 0 {
            }
        }
    }
}

/// The operation declarations of this catalog, in source order.
pub fn operation_declarations() -> (r: Vec<OperationDeclaration>)
    ensures
        r@ == cli_queue_operations(),
{
    reveal(cli_queue_operations);
    vec![
        OperationDeclaration {
            operation_id: "cli.dep-add",
            surface: ContractSurface::Cli,
            method: None,
            path: None,
            operation: "dep add",
            key: "dep add",
            migration: MigrationState::Adopted,
            exclusion: None,
            shared_components: &[],
            header_profile: None,
            mcp_policy: None,
            obligation_overrides: &[],
            contracts: &[
                ContractDeclaration {
                    id: "cli.dep-add.output",
                    path: "kanban dep add --json stdout",
                    operation: None,
                    location: None,
                    operation_key: None,
                    parameters: &[],
                    direction: ContractDirection::Serialize,
                    strictness: ContractStrictness::DenyUnknownFields,
                    granularity: ContractGranularity::Exact,
                    binding: ContractBinding::ExactSurface,
                    schema_id: Some("urn:kanban-tool:schema:cli:dep-add-output:v1"),
                    artifact_path: Some("cli/dep-add-output.v1.schema.json"),
                    schema_title: Some("Kanban CLI dependency add output v1"),
                    valid_fixture: Some("schemas/fixtures/cli/dep-add-output.v1.valid.json"),
                    invalid_fixture: Some("schemas/fixtures/cli/dep-add-output.v1.invalid.json"),
                    exclusion: None,
                    producer: Some(AdoptionLocator {
                        package: "kanban-cli",
                        test_target: "cli_steps_dependencies_adoption",
                        exact_test: "steps_and_dependencies_cli_use_real_host_and_committed_contract_shapes",
                    }),
                    consumer: Some(AdoptionLocator {
                        package: "kanban-cli",
                        test_target: "cli_steps_dependencies_adoption",
                        exact_test: "steps_and_dependencies_cli_use_real_host_and_committed_contract_shapes",
                    }),
                },
            ],
        },
        OperationDeclaration {
            operation_id: "cli.dep-list",
            surface: ContractSurface::Cli,
            method: None,
            path: None,
            operation: "dep list",
            key: "dep list",
            migration: MigrationState::Adopted,
            exclusion: None,
            shared_components: &[],
            header_profile: None,
            mcp_policy: None,
            obligation_overrides: &[],
            contracts: &[
                ContractDeclaration {
                    id: "cli.dep-list.output",
                    path: "kanban dep list --json stdout",
                    operation: None,
                    location: None,
                    operation_key: None,
                    parameters: &[],
                    direction: ContractDirection::Serialize,
                    strictness: ContractStrictness::DenyUnknownFields,
                    granularity: ContractGranularity::Exact,
                    binding: ContractBinding::ExactSurface,
                    schema_id: Some("urn:kanban-tool:schema:cli:dep-list-output:v1"),
                    artifact_path: Some("cli/dep-list-output.v1.schema.json"),
                    schema_title: Some("Kanban CLI dependency list output v1"),
                    valid_fixture: Some("schemas/fixtures/cli/dep-list-output.v1.valid.json"),
                    invalid_fixture: Some("schemas/fixtures/cli/dep-list-output.v1.invalid.json"),
                    exclusion: None,
                    producer: Some(AdoptionLocator {
                        package: "kanban-cli",
                        test_target: "cli_steps_dependencies_adoption",
                        exact_test: "steps_and_dependencies_cli_use_real_host_and_committed_contract_shapes",
                    }),
                    consumer: Some(AdoptionLocator {
                        package: "kanban-cli",
                        test_target: "cli_steps_dependencies_adoption",
                        exact_test: "steps_and_dependencies_cli_use_real_host_and_committed_contract_shapes",
                    }),
                },
            ],
        },
        OperationDeclaration {
            operation_id: "cli.dep-remove",
            surface: ContractSurface::Cli,
            method: None,
            path: None,
            operation: "dep remove",
            key: "dep remove",
            migration: MigrationState::Adopted,
            exclusion: None,
            shared_components: &[],
            header_profile: None,
            mcp_policy: None,
            obligation_overrides: &[],
            contracts: &[
                ContractDeclaration {
                    id: "cli.dep-remove.output",
                    path: "kanban dep remove --json stdout",
                    operation: None,
                    location: None,
                    operation_key: None,
                    parameters: &[],
                    direction: ContractDirection::Serialize,
                    strictness: ContractStrictness::DenyUnknownFields,
                    granularity: ContractGranularity::Exact,
                    binding: ContractBinding::ExactSurface,
                    schema_id: Some("urn:kanban-tool:schema:cli:dep-remove-output:v1"),
                    artifact_path: Some("cli/dep-remove-output.v1.schema.json"),
                    schema_title: Some("Kanban CLI dependency remove output v1"),
                    valid_fixture: Some("schemas/fixtures/cli/dep-remove-output.v1.valid.json"),
                    invalid_fixture: Some("schemas/fixtures/cli/dep-remove-output.v1.invalid.json"),
                    exclusion: None,
                    producer: Some(AdoptionLocator {
                        package: "kanban-cli",
                        test_target: "cli_steps_dependencies_adoption",
                        exact_test: "steps_and_dependencies_cli_use_real_host_and_committed_contract_shapes",
                    }),
                    consumer: Some(AdoptionLocator {
                        package: "kanban-cli",
                        test_target: "cli_steps_dependencies_adoption",
                        exact_test: "steps_and_dependencies_cli_use_real_host_and_committed_contract_shapes",
                    }),
                },
            ],
        },
        OperationDeclaration {
            operation_id: "cli.stats",
            surface: ContractSurface::Cli,
            method: None,
            path: None,
            operation: "stats",
            key: "stats",
            migration: MigrationState::Adopted,
            exclusion: None,
            shared_components: &[],
            header_profile: None,
            mcp_policy: None,
            obligation_overrides: &[],
            contracts: &[
                ContractDeclaration {
                    id: "cli.stats.output",
                    path: "kanban stats --json stdout",
                    operation: None,
                    location: None,
                    operation_key: None,
                    parameters: &[],
                    direction: ContractDirection::Serialize,
                    strictness: ContractStrictness::DenyUnknownFields,
                    granularity: ContractGranularity::Exact,
                    binding: ContractBinding::ExactSurface,
                    schema_id: Some("urn:kanban-tool:schema:cli:stats-output:v1"),
                    artifact_path: Some("cli/stats-output.v1.schema.json"),
                    schema_title: Some("Kanban CLI stats output v1"),
                    valid_fixture: Some("schemas/fixtures/cli/stats-output.v1.valid.json"),
                    invalid_fixture: Some("schemas/fixtures/cli/stats-output.v1.invalid.json"),
                    exclusion: None,
                    producer: Some(AdoptionLocator {
                        package: "kanban-cli",
                        test_target: "cli_admin_adoption",
                        exact_test: "maintenance_admin_commands_use_real_host_and_typed_json",
                    }),
                    consumer: Some(AdoptionLocator {
                        package: "kanban-cli",
                        test_target: "cli_admin_adoption",
                        exact_test: "maintenance_admin_commands_use_real_host_and_typed_json",
                    }),
                },
            ],
        },
        OperationDeclaration {
            operation_id: "cli.task-archive",
            surface: ContractSurface::Cli,
            method: None,
            path: None,
            operation: "task archive",
            key: "task archive",
            migration: MigrationState::Adopted,
            exclusion: None,
            shared_components: &[],
            header_profile: None,
            mcp_policy: None,
            obligation_overrides: &[],
            contracts: &[
                ContractDeclaration {
                    id: "cli.task-archive.output",
                    path: "kanban task archive --json stdout",
                    operation: None,
                    location: None,
                    operation_key: None,
                    parameters: &[],
                    direction: ContractDirection::Serialize,
                    strictness: ContractStrictness::DenyUnknownFields,
                    granularity: ContractGranularity::Exact,
                    binding: ContractBinding::ExactSurface,
                    schema_id: Some("urn:kanban-tool:schema:cli:task-archive-output:v1"),
                    artifact_path: Some("cli/task-archive-output.v1.schema.json"),
                    schema_title: Some("Kanban CLI task archive output v1"),
                    valid_fixture: Some("schemas/fixtures/cli/task-archive-output.v1.valid.json"),
                    invalid_fixture: Some("schemas/fixtures/cli/task-archive-output.v1.invalid.json"),
                    exclusion: None,
                    producer: Some(AdoptionLocator {
                        package: "kanban-cli",
                        test_target: "cli_lifecycle_adoption",
                        exact_test: "lifecycle_cli_runs_each_transition_through_localhost_host",
                    }),
                    consumer: Some(AdoptionLocator {
                        package: "kanban-cli",
                        test_target: "cli_lifecycle_adoption",
                        exact_test: "lifecycle_cli_runs_each_transition_through_localhost_host",
                    }),
                },
            ],
        },
        OperationDeclaration {
            operation_id: "cli.task-block",
            surface: ContractSurface::Cli,
            method: None,
            path: None,
            operation: "task block",
            key: "task block",
            migration: MigrationState::Adopted,
            exclusion: None,
            shared_components: &[],
            header_profile: None,
            mcp_policy: None,
            obligation_overrides: &[],
            contracts: &[
                ContractDeclaration {
                    id: "cli.task-block.output",
                    path: "kanban task block --json stdout",
                    operation: None,
                    location: None,
                    operation_key: None,
                    parameters: &[],
                    direction: ContractDirection::Serialize,
                    strictness: ContractStrictness::DenyUnknownFields,
                    granularity: ContractGranularity::Exact,
                    binding: ContractBinding::ExactSurface,
                    schema_id: Some("urn:kanban-tool:schema:cli:task-block-output:v1"),
                    artifact_path: Some("cli/task-block-output.v1.schema.json"),
                    schema_title: Some("Kanban CLI task block output v1"),
                    valid_fixture: Some("schemas/fixtures/cli/task-block-output.v1.valid.json"),
                    invalid_fixture: Some("schemas/fixtures/cli/task-block-output.v1.invalid.json"),
                    exclusion: None,
                    producer: Some(AdoptionLocator {
                        package: "kanban-cli",
                        test_target: "cli_lifecycle_adoption",
                        exact_test: "lifecycle_cli_runs_each_transition_through_localhost_host",
                    }),
                    consumer: Some(AdoptionLocator {
                        package: "kanban-cli",
                        test_target: "cli_lifecycle_adoption",
                        exact_test: "lifecycle_cli_runs_each_transition_through_localhost_host",
                    }),
                },
            ],
        },
        OperationDeclaration {
            operation_id: "cli.task-claim",
            surface: ContractSurface::Cli,
            method: None,
            path: None,
            operation: "task claim",
            key: "task claim",
            migration: MigrationState::Adopted,
            exclusion: None,
            shared_components: &[],
            header_profile: None,
            mcp_policy: None,
            obligation_overrides: &[],
            contracts: &[
                ContractDeclaration {
                    id: "cli.task-claim.output",
                    path: "kanban task claim --json stdout",
                    operation: None,
                    location: None,
                    operation_key: None,
                    parameters: &[],
                    direction: ContractDirection::Serialize,
                    strictness: ContractStrictness::DenyUnknownFields,
                    granularity: ContractGranularity::Exact,
                    binding: ContractBinding::ExactSurface,
                    schema_id: Some("urn:kanban-tool:schema:cli:task-claim-output:v1"),
                    artifact_path: Some("cli/task-claim-output.v1.schema.json"),
                    schema_title: Some("Kanban CLI task claim output v1"),
                    valid_fixture: Some("schemas/fixtures/cli/task-claim-output.v1.valid.json"),
                    invalid_fixture: Some("schemas/fixtures/cli/task-claim-output.v1.invalid.json"),
                    exclusion: None,
                    producer: Some(AdoptionLocator {
                        package: "kanban-cli",
                        test_target: "cli_lifecycle_adoption",
                        exact_test: "lifecycle_cli_runs_each_transition_through_localhost_host",
                    }),
                    consumer: Some(AdoptionLocator {
                        package: "kanban-cli",
                        test_target: "cli_lifecycle_adoption",
                        exact_test: "lifecycle_cli_runs_each_transition_through_localhost_host",
                    }),
                },
            ],
        },
        OperationDeclaration {
            operation_id: "cli.task-create",
            surface: ContractSurface::Cli,
            method: None,
            path: None,
            operation: "task create",
            key: "task create",
            migration: MigrationState::Adopted,
            exclusion: None,
            shared_components: &[],
            header_profile: None,
            mcp_policy: None,
            obligation_overrides: &[],
            contracts: &[
                ContractDeclaration {
                    id: "cli.task-create.output",
                    path: "kanban task create --json stdout",
                    operation: None,
                    location: None,
                    operation_key: None,
                    parameters: &[],
                    direction: ContractDirection::Serialize,
                    strictness: ContractStrictness::DenyUnknownFields,
                    granularity: ContractGranularity::Exact,
                    binding: ContractBinding::ExactSurface,
                    schema_id: Some("urn:kanban-tool:schema:cli:task-create-output:v1"),
                    artifact_path: Some("cli/task-create-output.v1.schema.json"),
                    schema_title: Some("Kanban CLI task create output v1"),
                    valid_fixture: Some("schemas/fixtures/cli/task-create-output.v1.valid.json"),
                    invalid_fixture: Some("schemas/fixtures/cli/task-create-output.v1.invalid.json"),
                    exclusion: None,
                    producer: Some(AdoptionLocator {
                        package: "kanban-cli",
                        test_target: "cli_queue_adoption",
                        exact_test: "queue_cli_uses_real_host_for_config_board_and_task_commands",
                    }),
                    consumer: Some(AdoptionLocator {
                        package: "kanban-cli",
                        test_target: "cli_queue_adoption",
                        exact_test: "queue_cli_uses_real_host_for_config_board_and_task_commands",
                    }),
                },
            ],
        },
        OperationDeclaration {
            operation_id: "cli.task-done",
            surface: ContractSurface::Cli,
            method: None,
            path: None,
            operation: "task done",
            key: "task done",
            migration: MigrationState::Adopted,
            exclusion: None,
            shared_components: &[],
            header_profile: None,
            mcp_policy: None,
            obligation_overrides: &[],
            contracts: &[
                ContractDeclaration {
                    id: "cli.task-done.output",
                    path: "kanban task done --json stdout",
                    operation: None,
                    location: None,
                    operation_key: None,
                    parameters: &[],
                    direction: ContractDirection::Serialize,
                    strictness: ContractStrictness::DenyUnknownFields,
                    granularity: ContractGranularity::Exact,
                    binding: ContractBinding::ExactSurface,
                    schema_id: Some("urn:kanban-tool:schema:cli:task-done-output:v1"),
                    artifact_path: Some("cli/task-done-output.v1.schema.json"),
                    schema_title: Some("Kanban CLI task done output v1"),
                    valid_fixture: Some("schemas/fixtures/cli/task-done-output.v1.valid.json"),
                    invalid_fixture: Some("schemas/fixtures/cli/task-done-output.v1.invalid.json"),
                    exclusion: None,
                    producer: Some(AdoptionLocator {
                        package: "kanban-cli",
                        test_target: "cli_lifecycle_adoption",
                        exact_test: "lifecycle_cli_runs_each_transition_through_localhost_host",
                    }),
                    consumer: Some(AdoptionLocator {
                        package: "kanban-cli",
                        test_target: "cli_lifecycle_adoption",
                        exact_test: "lifecycle_cli_runs_each_transition_through_localhost_host",
                    }),
                },
            ],
        },
        OperationDeclaration {
            operation_id: "cli.task-heartbeat",
            surface: ContractSurface::Cli,
            method: None,
            path: None,
            operation: "task heartbeat",
            key: "task heartbeat",
            migration: MigrationState::Adopted,
            exclusion: None,
            shared_components: &[],
            header_profile: None,
            mcp_policy: None,
            obligation_overrides: &[],
            contracts: &[
                ContractDeclaration {
                    id: "cli.task-heartbeat.output",
                    path: "kanban task heartbeat --json stdout",
                    operation: None,
                    location: None,
                    operation_key: None,
                    parameters: &[],
                    direction: ContractDirection::Serialize,
                    strictness: ContractStrictness::DenyUnknownFields,
                    granularity: ContractGranularity::Exact,
                    binding: ContractBinding::ExactSurface,
                    schema_id: Some("urn:kanban-tool:schema:cli:task-heartbeat-output:v1"),
                    artifact_path: Some("cli/task-heartbeat-output.v1.schema.json"),
                    schema_title: Some("Kanban CLI task heartbeat output v1"),
                    valid_fixture: Some("schemas/fixtures/cli/task-heartbeat-output.v1.valid.json"),
                    invalid_fixture: Some("schemas/fixtures/cli/task-heartbeat-output.v1.invalid.json"),
                    exclusion: None,
                    producer: Some(AdoptionLocator {
                        package: "kanban-cli",
                        test_target: "cli_lifecycle_adoption",
                        exact_test: "lifecycle_cli_runs_each_transition_through_localhost_host",
                    }),
                    consumer: Some(AdoptionLocator {
                        package: "kanban-cli",
                        test_target: "cli_lifecycle_adoption",
                        exact_test: "lifecycle_cli_runs_each_transition_through_localhost_host",
                    }),
                },
            ],
        },
        OperationDeclaration {
            operation_id: "cli.task-release",
            surface: ContractSurface::Cli,
            method: None,
            path: None,
            operation: "task release",
            key: "task release",
            migration: MigrationState::Adopted,
            exclusion: None,
            shared_components: &[],
            header_profile: None,
            mcp_policy: None,
            obligation_overrides: &[],
            contracts: &[
                ContractDeclaration {
                    id: "cli.task-release.output",
                    path: "kanban task release --json stdout",
                    operation: None,
                    location: None,
                    operation_key: None,
                    parameters: &[],
                    direction: ContractDirection::Serialize,
                    strictness: ContractStrictness::DenyUnknownFields,
                    granularity: ContractGranularity::Exact,
                    binding: ContractBinding::ExactSurface,
                    schema_id: Some("urn:kanban-tool:schema:cli:task-release-output:v1"),
                    artifact_path: Some("cli/task-release-output.v1.schema.json"),
                    schema_title: Some("Kanban CLI task release output v1"),
                    valid_fixture: Some("schemas/fixtures/cli/task-release-output.v1.valid.json"),
                    invalid_fixture: Some("schemas/fixtures/cli/task-release-output.v1.invalid.json"),
                    exclusion: None,
                    producer: Some(AdoptionLocator {
                        package: "kanban-cli",
                        test_target: "cli_lifecycle_adoption",
                        exact_test: "lifecycle_cli_runs_each_transition_through_localhost_host",
                    }),
                    consumer: Some(AdoptionLocator {
                        package: "kanban-cli",
                        test_target: "cli_lifecycle_adoption",
                        exact_test: "lifecycle_cli_runs_each_transition_through_localhost_host",
                    }),
                },
            ],
        },
        OperationDeclaration {
            operation_id: "cli.task-list",
            surface: ContractSurface::Cli,
            method: None,
            path: None,
            operation: "task list",
            key: "task list",
            migration: MigrationState::Adopted,
            exclusion: None,
            shared_components: &[],
            header_profile: None,
            mcp_policy: None,
            obligation_overrides: &[],
            contracts: &[
                ContractDeclaration {
                    id: "cli.task-list.output",
                    path: "kanban task list --json stdout",
                    operation: None,
                    location: None,
                    operation_key: None,
                    parameters: &[],
                    direction: ContractDirection::Serialize,
                    strictness: ContractStrictness::DenyUnknownFields,
                    granularity: ContractGranularity::Exact,
                    binding: ContractBinding::ExactSurface,
                    schema_id: Some("urn:kanban-tool:schema:cli:task-list-output:v1"),
                    artifact_path: Some("cli/task-list-output.v1.schema.json"),
                    schema_title: Some("Kanban CLI task list output v1"),
                    valid_fixture: Some("schemas/fixtures/cli/task-list-output.v1.valid.json"),
                    invalid_fixture: Some("schemas/fixtures/cli/task-list-output.v1.invalid.json"),
                    exclusion: None,
                    producer: Some(AdoptionLocator {
                        package: "kanban-cli",
                        test_target: "cli_queue_adoption",
                        exact_test: "queue_cli_uses_real_host_for_config_board_and_task_commands",
                    }),
                    consumer: Some(AdoptionLocator {
                        package: "kanban-cli",
                        test_target: "cli_queue_adoption",
                        exact_test: "queue_cli_uses_real_host_for_config_board_and_task_commands",
                    }),
                },
            ],
        },
        OperationDeclaration {
            operation_id: "cli.task-promote",
            surface: ContractSurface::Cli,
            method: None,
            path: None,
            operation: "task promote",
            key: "task promote",
            migration: MigrationState::Adopted,
            exclusion: None,
            shared_components: &[],
            header_profile: None,
            mcp_policy: None,
            obligation_overrides: &[],
            contracts: &[
                ContractDeclaration {
                    id: "cli.task-promote.output",
                    path: "kanban task promote --json stdout",
                    operation: None,
                    location: None,
                    operation_key: None,
                    parameters: &[],
                    direction: ContractDirection::Serialize,
                    strictness: ContractStrictness::DenyUnknownFields,
                    granularity: ContractGranularity::Exact,
                    binding: ContractBinding::ExactSurface,
                    schema_id: Some("urn:kanban-tool:schema:cli:task-promote-output:v1"),
                    artifact_path: Some("cli/task-promote-output.v1.schema.json"),
                    schema_title: Some("Kanban CLI task promote output v1"),
                    valid_fixture: Some("schemas/fixtures/cli/task-promote-output.v1.valid.json"),
                    invalid_fixture: Some("schemas/fixtures/cli/task-promote-output.v1.invalid.json"),
                    exclusion: None,
                    producer: Some(AdoptionLocator {
                        package: "kanban-cli",
                        test_target: "cli_lifecycle_adoption",
                        exact_test: "lifecycle_cli_runs_each_transition_through_localhost_host",
                    }),
                    consumer: Some(AdoptionLocator {
                        package: "kanban-cli",
                        test_target: "cli_lifecycle_adoption",
                        exact_test: "lifecycle_cli_runs_each_transition_through_localhost_host",
                    }),
                },
            ],
        },
        OperationDeclaration {
            operation_id: "cli.task-reclaim",
            surface: ContractSurface::Cli,
            method: None,
            path: None,
            operation: "task reclaim",
            key: "task reclaim",
            migration: MigrationState::Adopted,
            exclusion: None,
            shared_components: &[],
            header_profile: None,
            mcp_policy: None,
            obligation_overrides: &[],
            contracts: &[
                ContractDeclaration {
                    id: "cli.task-reclaim.output",
                    path: "kanban task reclaim --json stdout",
                    operation: None,
                    location: None,
                    operation_key: None,
                    parameters: &[],
                    direction: ContractDirection::Serialize,
                    strictness: ContractStrictness::DenyUnknownFields,
                    granularity: ContractGranularity::Exact,
                    binding: ContractBinding::ExactSurface,
                    schema_id: Some("urn:kanban-tool:schema:cli:task-reclaim-output:v1"),
                    artifact_path: Some("cli/task-reclaim-output.v1.schema.json"),
                    schema_title: Some("Kanban CLI task reclaim output v1"),
                    valid_fixture: Some("schemas/fixtures/cli/task-reclaim-output.v1.valid.json"),
                    invalid_fixture: Some("schemas/fixtures/cli/task-reclaim-output.v1.invalid.json"),
                    exclusion: None,
                    producer: Some(AdoptionLocator {
                        package: "kanban-cli",
                        test_target: "cli_lifecycle_adoption",
                        exact_test: "lifecycle_cli_runs_each_transition_through_localhost_host",
                    }),
                    consumer: Some(AdoptionLocator {
                        package: "kanban-cli",
                        test_target: "cli_lifecycle_adoption",
                        exact_test: "lifecycle_cli_runs_each_transition_through_localhost_host",
                    }),
                },
            ],
        },
        OperationDeclaration {
            operation_id: "cli.task-reopen",
            surface: ContractSurface::Cli,
            method: None,
            path: None,
            operation: "task reopen",
            key: "task reopen",
            migration: MigrationState::Adopted,
            exclusion: None,
            shared_components: &[],
            header_profile: None,
            mcp_policy: None,
            obligation_overrides: &[],
            contracts: &[
                ContractDeclaration {
                    id: "cli.task-reopen.output",
                    path: "kanban task reopen --json stdout",
                    operation: None,
                    location: None,
                    operation_key: None,
                    parameters: &[],
                    direction: ContractDirection::Serialize,
                    strictness: ContractStrictness::DenyUnknownFields,
                    granularity: ContractGranularity::Exact,
                    binding: ContractBinding::ExactSurface,
                    schema_id: Some("urn:kanban-tool:schema:cli:task-reopen-output:v1"),
                    artifact_path: Some("cli/task-reopen-output.v1.schema.json"),
                    schema_title: Some("Kanban CLI task reopen output v1"),
                    valid_fixture: Some("schemas/fixtures/cli/task-reopen-output.v1.valid.json"),
                    invalid_fixture: Some("schemas/fixtures/cli/task-reopen-output.v1.invalid.json"),
                    exclusion: None,
                    producer: Some(AdoptionLocator {
                        package: "kanban-cli",
                        test_target: "cli_lifecycle_adoption",
                        exact_test: "lifecycle_cli_runs_each_transition_through_localhost_host",
                    }),
                    consumer: Some(AdoptionLocator {
                        package: "kanban-cli",
                        test_target: "cli_lifecycle_adoption",
                        exact_test: "lifecycle_cli_runs_each_transition_through_localhost_host",
                    }),
                },
            ],
        },
        OperationDeclaration {
            operation_id: "cli.task-review",
            surface: ContractSurface::Cli,
            method: None,
            path: None,
            operation: "task review",
            key: "task review",
            migration: MigrationState::Adopted,
            exclusion: None,
            shared_components: &[],
            header_profile: None,
            mcp_policy: None,
            obligation_overrides: &[],
            contracts: &[
                ContractDeclaration {
                    id: "cli.task-review.output",
                    path: "kanban task review --json stdout",
                    operation: None,
                    location: None,
                    operation_key: None,
                    parameters: &[],
                    direction: ContractDirection::Serialize,
                    strictness: ContractStrictness::DenyUnknownFields,
                    granularity: ContractGranularity::Exact,
                    binding: ContractBinding::ExactSurface,
                    schema_id: Some("urn:kanban-tool:schema:cli:task-review-output:v1"),
                    artifact_path: Some("cli/task-review-output.v1.schema.json"),
                    schema_title: Some("Kanban CLI task review output v1"),
                    valid_fixture: Some("schemas/fixtures/cli/task-review-output.v1.valid.json"),
                    invalid_fixture: Some("schemas/fixtures/cli/task-review-output.v1.invalid.json"),
                    exclusion: None,
                    producer: Some(AdoptionLocator {
                        package: "kanban-cli",
                        test_target: "cli_lifecycle_adoption",
                        exact_test: "lifecycle_cli_runs_each_transition_through_localhost_host",
                    }),
                    consumer: Some(AdoptionLocator {
                        package: "kanban-cli",
                        test_target: "cli_lifecycle_adoption",
                        exact_test: "lifecycle_cli_runs_each_transition_through_localhost_host",
                    }),
                },
            ],
        },
        OperationDeclaration {
            operation_id: "cli.task-show",
            surface: ContractSurface::Cli,
            method: None,
            path: None,
            operation: "task show",
            key: "task show",
            migration: MigrationState::Adopted,
            exclusion: None,
            shared_components: &[],
            header_profile: None,
            mcp_policy: None,
            obligation_overrides: &[],
            contracts: &[
                ContractDeclaration {
                    id: "cli.task-show.output",
                    path: "kanban task show --json stdout",
                    operation: None,
                    location: None,
                    operation_key: None,
                    parameters: &[],
                    direction: ContractDirection::Serialize,
                    strictness: ContractStrictness::DenyUnknownFields,
                    granularity: ContractGranularity::Exact,
                    binding: ContractBinding::ExactSurface,
                    schema_id: Some("urn:kanban-tool:schema:cli:task-show-output:v1"),
                    artifact_path: Some("cli/task-show-output.v1.schema.json"),
                    schema_title: Some("Kanban CLI task show output v1"),
                    valid_fixture: Some("schemas/fixtures/cli/task-show-output.v1.valid.json"),
                    invalid_fixture: Some("schemas/fixtures/cli/task-show-output.v1.invalid.json"),
                    exclusion: None,
                    producer: Some(AdoptionLocator {
                        package: "kanban-cli",
                        test_target: "cli_queue_adoption",
                        exact_test: "queue_cli_uses_real_host_for_config_board_and_task_commands",
                    }),
                    consumer: Some(AdoptionLocator {
                        package: "kanban-cli",
                        test_target: "cli_queue_adoption",
                        exact_test: "queue_cli_uses_real_host_for_config_board_and_task_commands",
                    }),
                },
            ],
        },
        OperationDeclaration {
            operation_id: "cli.task-specify",
            surface: ContractSurface::Cli,
            method: None,
            path: None,
            operation: "task specify",
            key: "task specify",
            migration: MigrationState::Adopted,
            exclusion: None,
            shared_components: &[],
            header_profile: None,
            mcp_policy: None,
            obligation_overrides: &[],
            contracts: &[
                ContractDeclaration {
                    id: "cli.task-specify.output",
                    path: "kanban task specify --json stdout",
                    operation: None,
                    location: None,
                    operation_key: None,
                    parameters: &[],
                    direction: ContractDirection::Serialize,
                    strictness: ContractStrictness::DenyUnknownFields,
                    granularity: ContractGranularity::Exact,
                    binding: ContractBinding::ExactSurface,
                    schema_id: Some("urn:kanban-tool:schema:cli:task-specify-output:v1"),
                    artifact_path: Some("cli/task-specify-output.v1.schema.json"),
                    schema_title: Some("Kanban CLI task specify output v1"),
                    valid_fixture: Some("schemas/fixtures/cli/task-specify-output.v1.valid.json"),
                    invalid_fixture: Some("schemas/fixtures/cli/task-specify-output.v1.invalid.json"),
                    exclusion: None,
                    producer: Some(AdoptionLocator {
                        package: "kanban-cli",
                        test_target: "cli_lifecycle_adoption",
                        exact_test: "lifecycle_cli_runs_each_transition_through_localhost_host",
                    }),
                    consumer: Some(AdoptionLocator {
                        package: "kanban-cli",
                        test_target: "cli_lifecycle_adoption",
                        exact_test: "lifecycle_cli_runs_each_transition_through_localhost_host",
                    }),
                },
            ],
        },
        OperationDeclaration {
            operation_id: "cli.task-step-add",
            surface: ContractSurface::Cli,
            method: None,
            path: None,
            operation: "task step add",
            key: "task step add",
            migration: MigrationState::Adopted,
            exclusion: None,
            shared_components: &[],
            header_profile: None,
            mcp_policy: None,
            obligation_overrides: &[],
            contracts: &[
                ContractDeclaration {
                    id: "cli.task-step-add.output",
                    path: "kanban task step add --json stdout",
                    operation: None,
                    location: None,
                    operation_key: None,
                    parameters: &[],
                    direction: ContractDirection::Serialize,
                    strictness: ContractStrictness::DenyUnknownFields,
                    granularity: ContractGranularity::Exact,
                    binding: ContractBinding::ExactSurface,
                    schema_id: Some("urn:kanban-tool:schema:cli:task-step-add-output:v1"),
                    artifact_path: Some("cli/task-step-add-output.v1.schema.json"),
                    schema_title: Some("Kanban CLI task step add output v1"),
                    valid_fixture: Some("schemas/fixtures/cli/task-step-add-output.v1.valid.json"),
                    invalid_fixture: Some("schemas/fixtures/cli/task-step-add-output.v1.invalid.json"),
                    exclusion: None,
                    producer: Some(AdoptionLocator {
                        package: "kanban-cli",
                        test_target: "cli_steps_dependencies_adoption",
                        exact_test: "steps_and_dependencies_cli_use_real_host_and_committed_contract_shapes",
                    }),
                    consumer: Some(AdoptionLocator {
                        package: "kanban-cli",
                        test_target: "cli_steps_dependencies_adoption",
                        exact_test: "steps_and_dependencies_cli_use_real_host_and_committed_contract_shapes",
                    }),
                },
            ],
        },
        OperationDeclaration {
            operation_id: "cli.task-step-done",
            surface: ContractSurface::Cli,
            method: None,
            path: None,
            operation: "task step done",
            key: "task step done",
            migration: MigrationState::Adopted,
            exclusion: None,
            shared_components: &[],
            header_profile: None,
            mcp_policy: None,
            obligation_overrides: &[],
            contracts: &[
                ContractDeclaration {
                    id: "cli.task-step-done.output",
                    path: "kanban task step done --json stdout",
                    operation: None,
                    location: None,
                    operation_key: None,
                    parameters: &[],
                    direction: ContractDirection::Serialize,
                    strictness: ContractStrictness::DenyUnknownFields,
                    granularity: ContractGranularity::Exact,
                    binding: ContractBinding::ExactSurface,
                    schema_id: Some("urn:kanban-tool:schema:cli:task-step-done-output:v1"),
                    artifact_path: Some("cli/task-step-done-output.v1.schema.json"),
                    schema_title: Some("Kanban CLI task step done output v1"),
                    valid_fixture: Some("schemas/fixtures/cli/task-step-done-output.v1.valid.json"),
                    invalid_fixture: Some("schemas/fixtures/cli/task-step-done-output.v1.invalid.json"),
                    exclusion: None,
                    producer: Some(AdoptionLocator {
                        package: "kanban-cli",
                        test_target: "cli_steps_dependencies_adoption",
                        exact_test: "steps_and_dependencies_cli_use_real_host_and_committed_contract_shapes",
                    }),
                    consumer: Some(AdoptionLocator {
                        package: "kanban-cli",
                        test_target: "cli_steps_dependencies_adoption",
                        exact_test: "steps_and_dependencies_cli_use_real_host_and_committed_contract_shapes",
                    }),
                },
            ],
        },
        OperationDeclaration {
            operation_id: "cli.task-step-list",
            surface: ContractSurface::Cli,
            method: None,
            path: None,
            operation: "task step list",
            key: "task step list",
            migration: MigrationState::Adopted,
            exclusion: None,
            shared_components: &[],
            header_profile: None,
            mcp_policy: None,
            obligation_overrides: &[],
            contracts: &[
                ContractDeclaration {
                    id: "cli.task-step-list.output",
                    path: "kanban task step list --json stdout",
                    operation: None,
                    location: None,
                    operation_key: None,
                    parameters: &[],
                    direction: ContractDirection::Serialize,
                    strictness: ContractStrictness::DenyUnknownFields,
                    granularity: ContractGranularity::Exact,
                    binding: ContractBinding::ExactSurface,
                    schema_id: Some("urn:kanban-tool:schema:cli:task-step-list-output:v1"),
                    artifact_path: Some("cli/task-step-list-output.v1.schema.json"),
                    schema_title: Some("Kanban CLI task step list output v1"),
                    valid_fixture: Some("schemas/fixtures/cli/task-step-list-output.v1.valid.json"),
                    invalid_fixture: Some("schemas/fixtures/cli/task-step-list-output.v1.invalid.json"),
                    exclusion: None,
                    producer: Some(AdoptionLocator {
                        package: "kanban-cli",
                        test_target: "cli_steps_dependencies_adoption",
                        exact_test: "steps_and_dependencies_cli_use_real_host_and_committed_contract_shapes",
                    }),
                    consumer: Some(AdoptionLocator {
                        package: "kanban-cli",
                        test_target: "cli_steps_dependencies_adoption",
                        exact_test: "steps_and_dependencies_cli_use_real_host_and_committed_contract_shapes",
                    }),
                },
            ],
        },
        OperationDeclaration {
            operation_id: "cli.task-step-not-required",
            surface: ContractSurface::Cli,
            method: None,
            path: None,
            operation: "task step not-required",
            key: "task step not-required",
            migration: MigrationState::Adopted,
            exclusion: None,
            shared_components: &[],
            header_profile: None,
            mcp_policy: None,
            obligation_overrides: &[],
            contracts: &[
                ContractDeclaration {
                    id: "cli.task-step-not-required.output",
                    path: "kanban task step not-required --json stdout",
                    operation: None,
                    location: None,
                    operation_key: None,
                    parameters: &[],
                    direction: ContractDirection::Serialize,
                    strictness: ContractStrictness::DenyUnknownFields,
                    granularity: ContractGranularity::Exact,
                    binding: ContractBinding::ExactSurface,
                    schema_id: Some("urn:kanban-tool:schema:cli:task-step-not-required-output:v1"),
                    artifact_path: Some("cli/task-step-not-required-output.v1.schema.json"),
                    schema_title: Some("Kanban CLI task step not-required output v1"),
                    valid_fixture: Some("schemas/fixtures/cli/task-step-not-required-output.v1.valid.json"),
                    invalid_fixture: Some("schemas/fixtures/cli/task-step-not-required-output.v1.invalid.json"),
                    exclusion: None,
                    producer: Some(AdoptionLocator {
                        package: "kanban-cli",
                        test_target: "cli_steps_dependencies_adoption",
                        exact_test: "steps_and_dependencies_cli_use_real_host_and_committed_contract_shapes",
                    }),
                    consumer: Some(AdoptionLocator {
                        package: "kanban-cli",
                        test_target: "cli_steps_dependencies_adoption",
                        exact_test: "steps_and_dependencies_cli_use_real_host_and_committed_contract_shapes",
                    }),
                },
            ],
        },
        OperationDeclaration {
            operation_id: "cli.task-step-remove",
            surface: ContractSurface::Cli,
            method: None,
            path: None,
            operation: "task step remove",
            key: "task step remove",
            migration: MigrationState::Adopted,
            exclusion: None,
            shared_components: &[],
            header_profile: None,
            mcp_policy: None,
            obligation_overrides: &[],
            contracts: &[
                ContractDeclaration {
                    id: "cli.task-step-remove.output",
                    path: "kanban task step remove --json stdout",
                    operation: None,
                    location: None,
                    operation_key: None,
                    parameters: &[],
                    direction: ContractDirection::Serialize,
                    strictness: ContractStrictness::DenyUnknownFields,
                    granularity: ContractGranularity::Exact,
                    binding: ContractBinding::ExactSurface,
                    schema_id: Some("urn:kanban-tool:schema:cli:task-step-remove-output:v1"),
                    artifact_path: Some("cli/task-step-remove-output.v1.schema.json"),
                    schema_title: Some("Kanban CLI task step remove output v1"),
                    valid_fixture: Some("schemas/fixtures/cli/task-step-remove-output.v1.valid.json"),
                    invalid_fixture: Some("schemas/fixtures/cli/task-step-remove-output.v1.invalid.json"),
                    exclusion: None,
                    producer: Some(AdoptionLocator {
                        package: "kanban-cli",
                        test_target: "cli_steps_dependencies_adoption",
                        exact_test: "steps_and_dependencies_cli_use_real_host_and_committed_contract_shapes",
                    }),
                    consumer: Some(AdoptionLocator {
                        package: "kanban-cli",
                        test_target: "cli_steps_dependencies_adoption",
                        exact_test: "steps_and_dependencies_cli_use_real_host_and_committed_contract_shapes",
                    }),
                },
            ],
        },
        OperationDeclaration {
            operation_id: "cli.task-step-reopen",
            surface: ContractSurface::Cli,
            method: None,
            path: None,
            operation: "task step reopen",
            key: "task step reopen",
            migration: MigrationState::Adopted,
            exclusion: None,
            shared_components: &[],
            header_profile: None,
            mcp_policy: None,
            obligation_overrides: &[],
            contracts: &[
                ContractDeclaration {
                    id: "cli.task-step-reopen.output",
                    path: "kanban task step reopen --json stdout",
                    operation: None,
                    location: None,
                    operation_key: None,
                    parameters: &[],
                    direction: ContractDirection::Serialize,
                    strictness: ContractStrictness::DenyUnknownFields,
                    granularity: ContractGranularity::Exact,
                    binding: ContractBinding::ExactSurface,
                    schema_id: Some("urn:kanban-tool:schema:cli:task-step-reopen-output:v1"),
                    artifact_path: Some("cli/task-step-reopen-output.v1.schema.json"),
                    schema_title: Some("Kanban CLI task step reopen output v1"),
                    valid_fixture: Some("schemas/fixtures/cli/task-step-reopen-output.v1.valid.json"),
                    invalid_fixture: Some("schemas/fixtures/cli/task-step-reopen-output.v1.invalid.json"),
                    exclusion: None,
                    producer: Some(AdoptionLocator {
                        package: "kanban-cli",
                        test_target: "cli_steps_dependencies_adoption",
                        exact_test: "steps_and_dependencies_cli_use_real_host_and_committed_contract_shapes",
                    }),
                    consumer: Some(AdoptionLocator {
                        package: "kanban-cli",
                        test_target: "cli_steps_dependencies_adoption",
                        exact_test: "steps_and_dependencies_cli_use_real_host_and_committed_contract_shapes",
                    }),
                },
            ],
        },
        OperationDeclaration {
            operation_id: "cli.task-step-skip",
            surface: ContractSurface::Cli,
            method: None,
            path: None,
            operation: "task step skip",
            key: "task step skip",
            migration: MigrationState::Adopted,
            exclusion: None,
            shared_components: &[],
            header_profile: None,
            mcp_policy: None,
            obligation_overrides: &[],
            contracts: &[
                ContractDeclaration {
                    id: "cli.task-step-skip.output",
                    path: "kanban task step skip --json stdout",
                    operation: None,
                    location: None,
                    operation_key: None,
                    parameters: &[],
                    direction: ContractDirection::Serialize,
                    strictness: ContractStrictness::DenyUnknownFields,
                    granularity: ContractGranularity::Exact,
                    binding: ContractBinding::ExactSurface,
                    schema_id: Some("urn:kanban-tool:schema:cli:task-step-skip-output:v1"),
                    artifact_path: Some("cli/task-step-skip-output.v1.schema.json"),
                    schema_title: Some("Kanban CLI task step skip output v1"),
                    valid_fixture: Some("schemas/fixtures/cli/task-step-skip-output.v1.valid.json"),
                    invalid_fixture: Some("schemas/fixtures/cli/task-step-skip-output.v1.invalid.json"),
                    exclusion: None,
                    producer: Some(AdoptionLocator {
                        package: "kanban-cli",
                        test_target: "cli_steps_dependencies_adoption",
                        exact_test: "steps_and_dependencies_cli_use_real_host_and_committed_contract_shapes",
                    }),
                    consumer: Some(AdoptionLocator {
                        package: "kanban-cli",
                        test_target: "cli_steps_dependencies_adoption",
                        exact_test: "steps_and_dependencies_cli_use_real_host_and_committed_contract_shapes",
                    }),
                },
            ],
        },
        OperationDeclaration {
            operation_id: "cli.task-step-update",
            surface: ContractSurface::Cli,
            method: None,
            path: None,
            operation: "task step update",
            key: "task step update",
            migration: MigrationState::Adopted,
            exclusion: None,
            shared_components: &[],
            header_profile: None,
            mcp_policy: None,
            obligation_overrides: &[],
            contracts: &[
                ContractDeclaration {
                    id: "cli.task-step-update.output",
                    path: "kanban task step update --json stdout",
                    operation: None,
                    location: None,
                    operation_key: None,
                    parameters: &[],
                    direction: ContractDirection::Serialize,
                    strictness: ContractStrictness::DenyUnknownFields,
                    granularity: ContractGranularity::Exact,
                    binding: ContractBinding::ExactSurface,
                    schema_id: Some("urn:kanban-tool:schema:cli:task-step-update-output:v1"),
                    artifact_path: Some("cli/task-step-update-output.v1.schema.json"),
                    schema_title: Some("Kanban CLI task step update output v1"),
                    valid_fixture: Some("schemas/fixtures/cli/task-step-update-output.v1.valid.json"),
                    invalid_fixture: Some("schemas/fixtures/cli/task-step-update-output.v1.invalid.json"),
                    exclusion: None,
                    producer: Some(AdoptionLocator {
                        package: "kanban-cli",
                        test_target: "cli_steps_dependencies_adoption",
                        exact_test: "steps_and_dependencies_cli_use_real_host_and_committed_contract_shapes",
                    }),
                    consumer: Some(AdoptionLocator {
                        package: "kanban-cli",
                        test_target: "cli_steps_dependencies_adoption",
                        exact_test: "steps_and_dependencies_cli_use_real_host_and_committed_contract_shapes",
                    }),
                },
            ],
        },
        OperationDeclaration {
            operation_id: "cli.task-unblock",
            surface: ContractSurface::Cli,
            method: None,
            path: None,
            operation: "task unblock",
            key: "task unblock",
            migration: MigrationState::Adopted,
            exclusion: None,
            shared_components: &[],
            header_profile: None,
            mcp_policy: None,
            obligation_overrides: &[],
            contracts: &[
                ContractDeclaration {
                    id: "cli.task-unblock.output",
                    path: "kanban task unblock --json stdout",
                    operation: None,
                    location: None,
                    operation_key: None,
                    parameters: &[],
                    direction: ContractDirection::Serialize,
                    strictness: ContractStrictness::DenyUnknownFields,
                    granularity: ContractGranularity::Exact,
                    binding: ContractBinding::ExactSurface,
                    schema_id: Some("urn:kanban-tool:schema:cli:task-unblock-output:v1"),
                    artifact_path: Some("cli/task-unblock-output.v1.schema.json"),
                    schema_title: Some("Kanban CLI task unblock output v1"),
                    valid_fixture: Some("schemas/fixtures/cli/task-unblock-output.v1.valid.json"),
                    invalid_fixture: Some("schemas/fixtures/cli/task-unblock-output.v1.invalid.json"),
                    exclusion: None,
                    producer: Some(AdoptionLocator {
                        package: "kanban-cli",
                        test_target: "cli_lifecycle_adoption",
                        exact_test: "lifecycle_cli_runs_each_transition_through_localhost_host",
                    }),
                    consumer: Some(AdoptionLocator {
                        package: "kanban-cli",
                        test_target: "cli_lifecycle_adoption",
                        exact_test: "lifecycle_cli_runs_each_transition_through_localhost_host",
                    }),
                },
            ],
        },
        OperationDeclaration {
            operation_id: "cli.task-update",
            surface: ContractSurface::Cli,
            method: None,
            path: None,
            operation: "task update",
            key: "task update",
            migration: MigrationState::Adopted,
            exclusion: None,
            shared_components: &[],
            header_profile: None,
            mcp_policy: None,
            obligation_overrides: &[],
            contracts: &[
                ContractDeclaration {
                    id: "cli.task-update.output",
                    path: "kanban task update --json stdout",
                    operation: None,
                    location: None,
                    operation_key: None,
                    parameters: &[],
                    direction: ContractDirection::Serialize,
                    strictness: ContractStrictness::DenyUnknownFields,
                    granularity: ContractGranularity::Exact,
                    binding: ContractBinding::ExactSurface,
                    schema_id: Some("urn:kanban-tool:schema:cli:task-update-output:v1"),
                    artifact_path: Some("cli/task-update-output.v1.schema.json"),
                    schema_title: Some("Kanban CLI task update output v1"),
                    valid_fixture: Some("schemas/fixtures/cli/task-update-output.v1.valid.json"),
                    invalid_fixture: Some("schemas/fixtures/cli/task-update-output.v1.invalid.json"),
                    exclusion: None,
                    producer: Some(AdoptionLocator {
                        package: "kanban-cli",
                        test_target: "cli_queue_adoption",
                        exact_test: "queue_cli_uses_real_host_for_config_board_and_task_commands",
                    }),
                    consumer: Some(AdoptionLocator {
                        package: "kanban-cli",
                        test_target: "cli_queue_adoption",
                        exact_test: "queue_cli_uses_real_host_for_config_board_and_task_commands",
                    }),
                },
            ],
        },
        OperationDeclaration {
            operation_id: "cli.maintenance-vacuum",
            surface: ContractSurface::Cli,
            method: None,
            path: None,
            operation: "vacuum",
            key: "vacuum",
            migration: MigrationState::Adopted,
            exclusion: None,
            shared_components: &[],
            header_profile: None,
            mcp_policy: None,
            obligation_overrides: &[],
            contracts: &[
                ContractDeclaration {
                    id: "cli.maintenance-vacuum.output",
                    path: "kanban vacuum --json stdout",
                    operation: None,
                    location: None,
                    operation_key: None,
                    parameters: &[],
                    direction: ContractDirection::Serialize,
                    strictness: ContractStrictness::DenyUnknownFields,
                    granularity: ContractGranularity::Exact,
                    binding: ContractBinding::ExactSurface,
                    schema_id: Some("urn:kanban-tool:schema:cli:maintenance-vacuum-output:v1"),
                    artifact_path: Some("cli/maintenance-vacuum-output.v1.schema.json"),
                    schema_title: Some("Kanban CLI maintenance vacuum output v1"),
                    valid_fixture: Some("schemas/fixtures/cli/maintenance-vacuum-output.v1.valid.json"),
                    invalid_fixture: Some("schemas/fixtures/cli/maintenance-vacuum-output.v1.invalid.json"),
                    exclusion: None,
                    producer: Some(AdoptionLocator {
                        package: "kanban-cli",
                        test_target: "cli_admin_adoption",
                        exact_test: "maintenance_admin_commands_use_real_host_and_typed_json",
                    }),
                    consumer: Some(AdoptionLocator {
                        package: "kanban-cli",
                        test_target: "cli_admin_adoption",
                        exact_test: "maintenance_admin_commands_use_real_host_and_typed_json",
                    }),
                },
            ],
        },
        OperationDeclaration {
            operation_id: "cli.vector-configure",
            surface: ContractSurface::Cli,
            method: None,
            path: None,
            operation: "vector configure",
            key: "vector configure",
            migration: MigrationState::Adopted,
            exclusion: None,
            shared_components: &[],
            header_profile: None,
            mcp_policy: None,
            obligation_overrides: &[],
            contracts: &[
                ContractDeclaration {
                    id: "cli.vector-configure.output",
                    path: "kanban vector configure --json stdout",
                    operation: None,
                    location: None,
                    operation_key: None,
                    parameters: &[],
                    direction: ContractDirection::Serialize,
                    strictness: ContractStrictness::DenyUnknownFields,
                    granularity: ContractGranularity::Exact,
                    binding: ContractBinding::ExactSurface,
                    schema_id: Some("urn:kanban-tool:schema:cli:vector-configure-output:v1"),
                    artifact_path: Some("cli/vector-configure-output.v1.schema.json"),
                    schema_title: Some("Kanban CLI vector configure output v1"),
                    valid_fixture: Some("schemas/fixtures/cli/vector-configure-output.v1.valid.json"),
                    invalid_fixture: Some("schemas/fixtures/cli/vector-configure-output.v1.invalid.json"),
                    exclusion: None,
                    producer: Some(AdoptionLocator {
                        package: "kanban-cli",
                        test_target: "cli_knowledge_adoption",
                        exact_test: "knowledge_commands_use_real_canonical_host_and_preserve_degraded_providers",
                    }),
                    consumer: Some(AdoptionLocator {
                        package: "kanban-cli",
                        test_target: "cli_knowledge_adoption",
                        exact_test: "knowledge_commands_use_real_canonical_host_and_preserve_degraded_providers",
                    }),
                },
            ],
        },
        OperationDeclaration {
            operation_id: "cli.vector-query-chunks",
            surface: ContractSurface::Cli,
            method: None,
            path: None,
            operation: "vector query-chunks",
            key: "vector query-chunks",
            migration: MigrationState::Adopted,
            exclusion: None,
            shared_components: &[],
            header_profile: None,
            mcp_policy: None,
            obligation_overrides: &[],
            contracts: &[
                ContractDeclaration {
                    id: "cli.vector-query-chunks.output",
                    path: "kanban vector query-chunks --json stdout",
                    operation: None,
                    location: None,
                    operation_key: None,
                    parameters: &[],
                    direction: ContractDirection::Serialize,
                    strictness: ContractStrictness::DenyUnknownFields,
                    granularity: ContractGranularity::Exact,
                    binding: ContractBinding::ExactSurface,
                    schema_id: Some("urn:kanban-tool:schema:cli:vector-query-chunks-output:v1"),
                    artifact_path: Some("cli/vector-query-chunks-output.v1.schema.json"),
                    schema_title: Some("Kanban CLI vector query-chunks output v1"),
                    valid_fixture: Some("schemas/fixtures/cli/vector-query-chunks-output.v1.valid.json"),
                    invalid_fixture: Some("schemas/fixtures/cli/vector-query-chunks-output.v1.invalid.json"),
                    exclusion: None,
                    producer: Some(AdoptionLocator {
                        package: "kanban-cli",
                        test_target: "cli_knowledge_adoption",
                        exact_test: "knowledge_commands_use_real_canonical_host_and_preserve_degraded_providers",
                    }),
                    consumer: Some(AdoptionLocator {
                        package: "kanban-cli",
                        test_target: "cli_knowledge_adoption",
                        exact_test: "knowledge_commands_use_real_canonical_host_and_preserve_degraded_providers",
                    }),
                },
            ],
        },
        OperationDeclaration {
            operation_id: "cli.vector-query-label-atoms",
            surface: ContractSurface::Cli,
            method: None,
            path: None,
            operation: "vector query-label-atoms",
            key: "vector query-label-atoms",
            migration: MigrationState::Adopted,
            exclusion: None,
            shared_components: &[],
            header_profile: None,
            mcp_policy: None,
            obligation_overrides: &[],
            contracts: &[
                ContractDeclaration {
                    id: "cli.vector-query-label-atoms.output",
                    path: "kanban vector query-label-atoms --json stdout",
                    operation: None,
                    location: None,
                    operation_key: None,
                    parameters: &[],
                    direction: ContractDirection::Serialize,
                    strictness: ContractStrictness::DenyUnknownFields,
                    granularity: ContractGranularity::Exact,
                    binding: ContractBinding::ExactSurface,
                    schema_id: Some("urn:kanban-tool:schema:cli:vector-query-label-atoms-output:v1"),
                    artifact_path: Some("cli/vector-query-label-atoms-output.v1.schema.json"),
                    schema_title: Some("Kanban CLI vector query-label-atoms output v1"),
                    valid_fixture: Some("schemas/fixtures/cli/vector-query-label-atoms-output.v1.valid.json"),
                    invalid_fixture: Some("schemas/fixtures/cli/vector-query-label-atoms-output.v1.invalid.json"),
                    exclusion: None,
                    producer: Some(AdoptionLocator {
                        package: "kanban-cli",
                        test_target: "cli_knowledge_adoption",
                        exact_test: "knowledge_commands_use_real_canonical_host_and_preserve_degraded_providers",
                    }),
                    consumer: Some(AdoptionLocator {
                        package: "kanban-cli",
                        test_target: "cli_knowledge_adoption",
                        exact_test: "knowledge_commands_use_real_canonical_host_and_preserve_degraded_providers",
                    }),
                },
            ],
        },
        OperationDeclaration {
            operation_id: "cli.vector-rebuild",
            surface: ContractSurface::Cli,
            method: None,
            path: None,
            operation: "vector rebuild",
            key: "vector rebuild",
            migration: MigrationState::Adopted,
            exclusion: None,
            shared_components: &[],
            header_profile: None,
            mcp_policy: None,
            obligation_overrides: &[],
            contracts: &[
                ContractDeclaration {
                    id: "cli.vector-rebuild.output",
                    path: "kanban vector rebuild --json stdout",
                    operation: None,
                    location: None,
                    operation_key: None,
                    parameters: &[],
                    direction: ContractDirection::Serialize,
                    strictness: ContractStrictness::DenyUnknownFields,
                    granularity: ContractGranularity::Exact,
                    binding: ContractBinding::ExactSurface,
                    schema_id: Some("urn:kanban-tool:schema:cli:vector-rebuild-output:v1"),
                    artifact_path: Some("cli/vector-rebuild-output.v1.schema.json"),
                    schema_title: Some("Kanban CLI vector rebuild output v1"),
                    valid_fixture: Some("schemas/fixtures/cli/vector-rebuild-output.v1.valid.json"),
                    invalid_fixture: Some("schemas/fixtures/cli/vector-rebuild-output.v1.invalid.json"),
                    exclusion: None,
                    producer: Some(AdoptionLocator {
                        package: "kanban-cli",
                        test_target: "cli_knowledge_adoption",
                        exact_test: "knowledge_commands_use_real_canonical_host_and_preserve_degraded_providers",
                    }),
                    consumer: Some(AdoptionLocator {
                        package: "kanban-cli",
                        test_target: "cli_knowledge_adoption",
                        exact_test: "knowledge_commands_use_real_canonical_host_and_preserve_degraded_providers",
                    }),
                },
            ],
        },
        OperationDeclaration {
            operation_id: "cli.vector-status",
            surface: ContractSurface::Cli,
            method: None,
            path: None,
            operation: "vector status",
            key: "vector status",
            migration: MigrationState::Adopted,
            exclusion: None,
            shared_components: &[],
            header_profile: None,
            mcp_policy: None,
            obligation_overrides: &[],
            contracts: &[
                ContractDeclaration {
                    id: "cli.vector-status.output",
                    path: "kanban vector status --json stdout",
                    operation: None,
                    location: None,
                    operation_key: None,
                    parameters: &[],
                    direction: ContractDirection::Serialize,
                    strictness: ContractStrictness::DenyUnknownFields,
                    granularity: ContractGranularity::Exact,
                    binding: ContractBinding::ExactSurface,
                    schema_id: Some("urn:kanban-tool:schema:cli:vector-status-output:v1"),
                    artifact_path: Some("cli/vector-status-output.v1.schema.json"),
                    schema_title: Some("Kanban CLI vector status output v1"),
                    valid_fixture: Some("schemas/fixtures/cli/vector-status-output.v1.valid.json"),
                    invalid_fixture: Some("schemas/fixtures/cli/vector-status-output.v1.invalid.json"),
                    exclusion: None,
                    producer: Some(AdoptionLocator {
                        package: "kanban-cli",
                        test_target: "cli_knowledge_adoption",
                        exact_test: "knowledge_commands_use_real_canonical_host_and_preserve_degraded_providers",
                    }),
                    consumer: Some(AdoptionLocator {
                        package: "kanban-cli",
                        test_target: "cli_knowledge_adoption",
                        exact_test: "knowledge_commands_use_real_canonical_host_and_preserve_degraded_providers",
                    }),
                },
            ],
        },
        OperationDeclaration {
            operation_id: "cli.vector-sync",
            surface: ContractSurface::Cli,
            method: None,
            path: None,
            operation: "vector sync",
            key: "vector sync",
            migration: MigrationState::Adopted,
            exclusion: None,
            shared_components: &[],
            header_profile: None,
            mcp_policy: None,
            obligation_overrides: &[],
            contracts: &[
                ContractDeclaration {
                    id: "cli.vector-sync.output",
                    path: "kanban vector sync --json stdout",
                    operation: None,
                    location: None,
                    operation_key: None,
                    parameters: &[],
                    direction: ContractDirection::Serialize,
                    strictness: ContractStrictness::DenyUnknownFields,
                    granularity: ContractGranularity::Exact,
                    binding: ContractBinding::ExactSurface,
                    schema_id: Some("urn:kanban-tool:schema:cli:vector-sync-output:v1"),
                    artifact_path: Some("cli/vector-sync-output.v1.schema.json"),
                    schema_title: Some("Kanban CLI vector sync output v1"),
                    valid_fixture: Some("schemas/fixtures/cli/vector-sync-output.v1.valid.json"),
                    invalid_fixture: Some("schemas/fixtures/cli/vector-sync-output.v1.invalid.json"),
                    exclusion: None,
                    producer: Some(AdoptionLocator {
                        package: "kanban-cli",
                        test_target: "cli_knowledge_adoption",
                        exact_test: "knowledge_commands_use_real_canonical_host_and_preserve_degraded_providers",
                    }),
                    consumer: Some(AdoptionLocator {
                        package: "kanban-cli",
                        test_target: "cli_knowledge_adoption",
                        exact_test: "knowledge_commands_use_real_canonical_host_and_preserve_degraded_providers",
                    }),
                },
            ],
        },
        OperationDeclaration {
            operation_id: "cli.maintenance-cleanup",
            surface: ContractSurface::Cli,
            method: None,
            path: None,
            operation: "maintenance cleanup",
            key: "maintenance cleanup",
            migration: MigrationState::Adopted,
            exclusion: None,
            shared_components: &[],
            header_profile: None,
            mcp_policy: None,
            obligation_overrides: &[],
            contracts: &[
                ContractDeclaration {
                    id: "cli.maintenance-cleanup.output",
                    path: "kanban maintenance cleanup --json stdout",
                    operation: None,
                    location: None,
                    operation_key: None,
                    parameters: &[],
                    direction: ContractDirection::Serialize,
                    strictness: ContractStrictness::DenyUnknownFields,
                    granularity: ContractGranularity::Exact,
                    binding: ContractBinding::ExactSurface,
                    schema_id: Some("urn:kanban-tool:schema:cli:maintenance-cleanup-output:v1"),
                    artifact_path: Some("cli/maintenance-cleanup-output.v1.schema.json"),
                    schema_title: Some("Kanban CLI maintenance cleanup output v1"),
                    valid_fixture: Some("schemas/fixtures/cli/maintenance-cleanup-output.v1.valid.json"),
                    invalid_fixture: Some("schemas/fixtures/cli/maintenance-cleanup-output.v1.invalid.json"),
                    exclusion: None,
                    producer: Some(AdoptionLocator {
                        package: "kanban-cli",
                        test_target: "cli_admin_adoption",
                        exact_test: "maintenance_admin_commands_use_real_host_and_typed_json",
                    }),
                    consumer: Some(AdoptionLocator {
                        package: "kanban-cli",
                        test_target: "cli_admin_adoption",
                        exact_test: "maintenance_admin_commands_use_real_host_and_typed_json",
                    }),
                },
            ],
        },
        OperationDeclaration {
            operation_id: "cli.import-v30",
            surface: ContractSurface::Cli,
            method: None,
            path: None,
            operation: "import-v30",
            key: "import-v30",
            migration: MigrationState::Adopted,
            exclusion: None,
            shared_components: &[],
            header_profile: None,
            mcp_policy: None,
            obligation_overrides: &[],
            contracts: &[
                ContractDeclaration {
                    id: "cli.import-v30.output",
                    path: "kanban import-v30 --json stdout",
                    operation: None,
                    location: None,
                    operation_key: None,
                    parameters: &[],
                    direction: ContractDirection::Serialize,
                    strictness: ContractStrictness::DenyUnknownFields,
                    granularity: ContractGranularity::Exact,
                    binding: ContractBinding::ExactSurface,
                    schema_id: Some("urn:kanban-tool:schema:cli:import-v30-output:v1"),
                    artifact_path: Some("cli/import-v30-output.v1.schema.json"),
                    schema_title: Some("Kanban CLI legacy SQLite v30 import output v1"),
                    valid_fixture: Some("schemas/fixtures/cli/import-v30-output.v1.valid.json"),
                    invalid_fixture: Some("schemas/fixtures/cli/import-v30-output.v1.invalid.json"),
                    exclusion: None,
                    producer: Some(AdoptionLocator {
                        package: "kanban-cli",
                        test_target: "cli_admin_adoption",
                        exact_test: "maintenance_admin_commands_use_real_host_and_typed_json",
                    }),
                    consumer: Some(AdoptionLocator {
                        package: "kanban-cli",
                        test_target: "cli_admin_adoption",
                        exact_test: "maintenance_admin_commands_use_real_host_and_typed_json",
                    }),
                },
            ],
        },
    ]
}

/// The inventory rows of the catalog, operation by operation.
pub fn operation_contracts() -> (r: Vec<OperationContract>)
    ensures
        r@ == catalog_contracts(cli_queue_operations()),
{
    let ops = operation_declarations();
    project_contracts(&ops)
}

/// The surface rows of the catalog, one per operation.
pub fn surface_catalog() -> (r: Vec<SurfaceOperation>)
    ensures
        r@.len() == cli_queue_operations().len(),
        forall|i: int| 0 <= i < cli_queue_operations().len() ==> (#[trigger] r@[i])@ == projected_surface(cli_queue_operations()[i]),
{
    let ops = operation_declarations();
    project_surfaces(&ops)
}

/// The surface row of the operation with the given key; the key must be declared.
pub fn surface_operation(key: &str) -> (r: SurfaceOperation)
    requires
        first_index(cli_queue_operations(), has_surface_key(key@)) is Some,
    ensures
        r@ == projected_surface(cli_queue_operations()[first_index(cli_queue_operations(), has_surface_key(key@)).unwrap()]),
{
    let ops = operation_declarations();
    find_surface(&ops, key).unwrap()
}

/// Whether some child of the catalog has the given id.
pub fn owns_contract(id: &str) -> (r: bool)
    ensures
        r == catalog_owns_contract(cli_queue_operations(), id@),
{
    let ops = operation_declarations();
    catalog_has_contract(&ops, id)
}

/// Whether some operation of the catalog has the given id.
pub fn owns_operation(id: &str) -> (r: bool)
    ensures
        r == catalog_owns_operation(cli_queue_operations(), id@),
{
    let ops = operation_declarations();
    catalog_has_operation(&ops, id)
}

/// The schema roots that the catalog's children declare.
pub fn schema_roots() -> (r: Vec<SchemaRoot>)
    ensures
        r@ == catalog_schemas(cli_queue_operations()),
{
    proof {
        lemma_cli_queue_operations_ready();
    }
    let ops = operation_declarations();
    project_schemas(&ops)
}


/// This catalog has no API or SSE operation, so it projects no endpoint.
pub proof fn lemma_cli_queue_endpoint_ids()
    ensures
        endpoint_ids(cli_queue_operations()) == Seq::<Seq<char>>::empty(),
{
    reveal(cli_queue_operations);
    let ops = cli_queue_operations();
    assert forall|i: int| 0 <= i < ops.len() implies !is_http_surface(#[trigger] ops[i].surface) by {
        if i == 0 {} else if i == 1 {} else if i == 2 {} else if i == 3 {} else if i == 4 {} else if i == 5 {} else if i == 6 {} else if i == 7 {} else if i == 8 {} else if i == 9 {} else if i == 10 {} else if i == 11 {} else if i == 12 {} else if i == 13 {} else if i == 14 {} else if i == 15 {} else if i == 16 {} else if i == 17 {} else if i == 18 {} else if i == 19 {} else if i == 20 {} else if i == 21 {} else if i == 22 {} else if i == 23 {} else if i == 24 {} else if i == 25 {} else if i == 26 {} else if i == 27 {} else if i == 28 {} else if i == 29 {} else if i == 30 {} else if i == 31 {} else if i == 32 {} else if i == 33 {} else if i == 34 {} else if i == 35 {} else if i == 36 {}
    }
    lemma_endpoint_ids_prefix(ops, 0);
    assert(ops.take(0).map_values(|o: OperationDeclaration| o.operation_id@) =~= Seq::<Seq<char>>::empty());
}

} // verus!
