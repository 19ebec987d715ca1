//! Label, run, search, serve and signal CLI commands.

use vstd::prelude::*;

use crate::contract_catalog::{
    endpoint_ids, lemma_endpoint_ids_prefix,
    catalog_contracts, catalog_endpoints, catalog_header_contract, catalog_header_profile,
    catalog_has_contract, catalog_has_operation, catalog_owns_contract, catalog_owns_operation,
    catalog_schemas, endpoint_ready, endpoints_ready, find_contract, find_endpoint, find_surface,
    has_contract_id, has_endpoint_id, has_surface_key, lookup_header_contract,
    lookup_header_profile, project_contracts, project_endpoints, project_schemas,
    project_surfaces, projected_surface, schema_ready, schemas_ready, ContractDeclaration,
    McpExposure, McpOperationInvariant, McpPolicy, McpToolBinding, OperationDeclaration,
    SchemaRoot, SurfaceOperation,
};
use crate::endpoint::{EndpointDescriptor, EndpointObligation, EndpointObligationKind, HttpMethod};
use crate::headers::ApiHeaderProfile;
use crate::inventory::{
    is_http_surface, AdoptionLocator, ContractBinding, ContractDirection, ContractGranularity,
    ContractStrictness, ContractSurface, ContractTransport, HttpTransportLocation, MigrationState,
    OperationContract, WireParameter, WireParameterCardinality,
};
use crate::seqs::first_index;
use crate::text::str_eq;

verus! {

/// The operations of this catalog, in source order.
#[verifier::opaque]
pub open spec fn cli_labels_operations() -> Seq<OperationDeclaration> {
    seq![
        OperationDeclaration {
            operation_id: "cli.label-add",
            surface: ContractSurface::Cli,
            method: None,
            path: None,
            operation: "label add",
            key: "label add",
            migration: MigrationState::Adopted,
            exclusion: None,
            shared_components: &[],
            header_profile: None,
            mcp_policy: None,
            obligation_overrides: &[],
            contracts: &[
                ContractDeclaration {
                    id: "cli.label-add.output",
                    path: "kanban label add --json stdout",
                    operation: None,
                    location: None,
                    operation_key: None,
                    parameters: &[],
                    direction: ContractDirection::Serialize,
                    strictness: ContractStrictness::DenyUnknownFields,
                    granularity: ContractGranularity::Exact,
                    binding: ContractBinding::ExactSurface,
                    schema_id: Some("urn:kanban-tool:schema:cli:label-add-output:v1"),
                    artifact_path: Some("cli/label-add-output.v1.schema.json"),
                    schema_title: Some("Kanban CLI label add output v1"),
                    valid_fixture: Some("schemas/fixtures/cli/label-add-output.v1.valid.json"),
                    invalid_fixture: Some("schemas/fixtures/cli/label-add-output.v1.invalid.json"),
                    exclusion: None,
                    producer: Some(AdoptionLocator {
                        package: "kanban-cli",
                        test_target: "cli_label_contract_adoption",
                        exact_test: "labels_semantics_atoms_and_proposals_flow_through_real_cli",
                    }),
                    consumer: Some(AdoptionLocator {
                        package: "kanban-cli",
                        test_target: "cli_label_contract_adoption",
                        exact_test: "labels_semantics_atoms_and_proposals_flow_through_real_cli",
                    }),
                },
            ],
        },
        OperationDeclaration {
            operation_id: "cli.label-atom-index-query",
            surface: ContractSurface::Cli,
            method: None,
            path: None,
            operation: "label atom-index query",
            key: "label atom-index query",
            migration: MigrationState::Adopted,
            exclusion: None,
            shared_components: &[],
            header_profile: None,
            mcp_policy: None,
            obligation_overrides: &[],
            contracts: &[
                ContractDeclaration {
                    id: "cli.label-atom-index-query.output",
                    path: "kanban label atom-index query --json stdout",
                    operation: None,
                    location: None,
                    operation_key: None,
                    parameters: &[],
                    direction: ContractDirection::Serialize,
                    strictness: ContractStrictness::DenyUnknownFields,
                    granularity: ContractGranularity::Exact,
                    binding: ContractBinding::ExactSurface,
                    schema_id: Some("urn:kanban-tool:schema:cli:label-atom-index-query-output:v1"),
                    artifact_path: Some("cli/label-atom-index-query-output.v1.schema.json"),
                    schema_title: Some("Kanban CLI label atom-index query output v1"),
                    valid_fixture: Some("schemas/fixtures/cli/label-atom-index-query-output.v1.valid.json"),
                    invalid_fixture: Some("schemas/fixtures/cli/label-atom-index-query-output.v1.invalid.json"),
                    exclusion: None,
                    producer: Some(AdoptionLocator {
                        package: "kanban-cli",
                        test_target: "cli_label_contract_adoption",
                        exact_test: "labels_semantics_atoms_and_proposals_flow_through_real_cli",
                    }),
                    consumer: Some(AdoptionLocator {
                        package: "kanban-cli",
                        test_target: "cli_label_contract_adoption",
                        exact_test: "labels_semantics_atoms_and_proposals_flow_through_real_cli",
                    }),
                },
            ],
        },
        OperationDeclaration {
            operation_id: "cli.label-atom-index-rebuild",
            surface: ContractSurface::Cli,
            method: None,
            path: None,
            operation: "label atom-index rebuild",
            key: "label atom-index rebuild",
            migration: MigrationState::Adopted,
            exclusion: None,
            shared_components: &[],
            header_profile: None,
            mcp_policy: None,
            obligation_overrides: &[],
            contracts: &[
                ContractDeclaration {
                    id: "cli.label-atom-index-rebuild.output",
                    path: "kanban label atom-index rebuild --json stdout",
                    operation: None,
                    location: None,
                    operation_key: None,
                    parameters: &[],
                    direction: ContractDirection::Serialize,
                    strictness: ContractStrictness::DenyUnknownFields,
                    granularity: ContractGranularity::Exact,
                    binding: ContractBinding::ExactSurface,
                    schema_id: Some("urn:kanban-tool:schema:cli:label-atom-index-rebuild-output:v1"),
                    artifact_path: Some("cli/label-atom-index-rebuild-output.v1.schema.json"),
                    schema_title: Some("Kanban CLI label atom-index rebuild output v1"),
                    valid_fixture: Some("schemas/fixtures/cli/label-atom-index-rebuild-output.v1.valid.json"),
                    invalid_fixture: Some("schemas/fixtures/cli/label-atom-index-rebuild-output.v1.invalid.json"),
                    exclusion: None,
                    producer: Some(AdoptionLocator {
                        package: "kanban-cli",
                        test_target: "cli_label_contract_adoption",
                        exact_test: "labels_semantics_atoms_and_proposals_flow_through_real_cli",
                    }),
                    consumer: Some(AdoptionLocator {
                        package: "kanban-cli",
                        test_target: "cli_label_contract_adoption",
                        exact_test: "labels_semantics_atoms_and_proposals_flow_through_real_cli",
                    }),
                },
            ],
        },
        OperationDeclaration {
            operation_id: "cli.label-atom-index-status",
            surface: ContractSurface::Cli,
            method: None,
            path: None,
            operation: "label atom-index status",
            key: "label atom-index status",
            migration: MigrationState::Adopted,
            exclusion: None,
            shared_components: &[],
            header_profile: None,
            mcp_policy: None,
            obligation_overrides: &[],
            contracts: &[
                ContractDeclaration {
                    id: "cli.label-atom-index-status.output",
                    path: "kanban label atom-index status --json stdout",
                    operation: None,
                    location: None,
                    operation_key: None,
                    parameters: &[],
                    direction: ContractDirection::Serialize,
                    strictness: ContractStrictness::DenyUnknownFields,
                    granularity: ContractGranularity::Exact,
                    binding: ContractBinding::ExactSurface,
                    schema_id: Some("urn:kanban-tool:schema:cli:label-atom-index-status-output:v1"),
                    artifact_path: Some("cli/label-atom-index-status-output.v1.schema.json"),
                    schema_title: Some("Kanban CLI label atom-index status output v1"),
                    valid_fixture: Some("schemas/fixtures/cli/label-atom-index-status-output.v1.valid.json"),
                    invalid_fixture: Some("schemas/fixtures/cli/label-atom-index-status-output.v1.invalid.json"),
                    exclusion: None,
                    producer: Some(AdoptionLocator {
                        package: "kanban-cli",
                        test_target: "cli_label_contract_adoption",
                        exact_test: "labels_semantics_atoms_and_proposals_flow_through_real_cli",
                    }),
                    consumer: Some(AdoptionLocator {
                        package: "kanban-cli",
                        test_target: "cli_label_contract_adoption",
                        exact_test: "labels_semantics_atoms_and_proposals_flow_through_real_cli",
                    }),
                },
            ],
        },
        OperationDeclaration {
            operation_id: "cli.label-atoms-explain",
            surface: ContractSurface::Cli,
            method: None,
            path: None,
            operation: "label atoms explain",
            key: "label atoms explain",
            migration: MigrationState::Adopted,
            exclusion: None,
            shared_components: &[],
            header_profile: None,
            mcp_policy: None,
            obligation_overrides: &[],
            contracts: &[
                ContractDeclaration {
                    id: "cli.label-atoms-explain.output",
                    path: "kanban label atoms explain --json stdout",
                    operation: None,
                    location: None,
                    operation_key: None,
                    parameters: &[],
                    direction: ContractDirection::Serialize,
                    strictness: ContractStrictness::DenyUnknownFields,
                    granularity: ContractGranularity::Exact,
                    binding: ContractBinding::ExactSurface,
                    schema_id: Some("urn:kanban-tool:schema:cli:label-atoms-explain-output:v1"),
                    artifact_path: Some("cli/label-atoms-explain-output.v1.schema.json"),
                    schema_title: Some("Kanban CLI label atoms explain output v1"),
                    valid_fixture: Some("schemas/fixtures/cli/label-atoms-explain-output.v1.valid.json"),
                    invalid_fixture: Some("schemas/fixtures/cli/label-atoms-explain-output.v1.invalid.json"),
                    exclusion: None,
                    producer: Some(AdoptionLocator {
                        package: "kanban-cli",
                        test_target: "cli_label_contract_adoption",
                        exact_test: "labels_semantics_atoms_and_proposals_flow_through_real_cli",
                    }),
                    consumer: Some(AdoptionLocator {
                        package: "kanban-cli",
                        test_target: "cli_label_contract_adoption",
                        exact_test: "labels_semantics_atoms_and_proposals_flow_through_real_cli",
                    }),
                },
            ],
        },
        OperationDeclaration {
            operation_id: "cli.label-atoms-list",
            surface: ContractSurface::Cli,
            method: None,
            path: None,
            operation: "label atoms list",
            key: "label atoms list",
            migration: MigrationState::Adopted,
            exclusion: None,
            shared_components: &[],
            header_profile: None,
            mcp_policy: None,
            obligation_overrides: &[],
            contracts: &[
                ContractDeclaration {
                    id: "cli.label-atoms-list.output",
                    path: "kanban label atoms list --json stdout",
                    operation: None,
                    location: None,
                    operation_key: None,
                    parameters: &[],
                    direction: ContractDirection::Serialize,
                    strictness: ContractStrictness::DenyUnknownFields,
                    granularity: ContractGranularity::Exact,
                    binding: ContractBinding::ExactSurface,
                    schema_id: Some("urn:kanban-tool:schema:cli:label-atoms-list-output:v1"),
                    artifact_path: Some("cli/label-atoms-list-output.v1.schema.json"),
                    schema_title: Some("Kanban CLI label atoms list output v1"),
                    valid_fixture: Some("schemas/fixtures/cli/label-atoms-list-output.v1.valid.json"),
                    invalid_fixture: Some("schemas/fixtures/cli/label-atoms-list-output.v1.invalid.json"),
                    exclusion: None,
                    producer: Some(AdoptionLocator {
                        package: "kanban-cli",
                        test_target: "cli_label_contract_adoption",
                        exact_test: "labels_semantics_atoms_and_proposals_flow_through_real_cli",
                    }),
                    consumer: Some(AdoptionLocator {
                        package: "kanban-cli",
                        test_target: "cli_label_contract_adoption",
                        exact_test: "labels_semantics_atoms_and_proposals_flow_through_real_cli",
                    }),
                },
            ],
        },
        OperationDeclaration {
            operation_id: "cli.label-create",
            surface: ContractSurface::Cli,
            method: None,
            path: None,
            operation: "label create",
            key: "label create",
            migration: MigrationState::Adopted,
            exclusion: None,
            shared_components: &[],
            header_profile: None,
            mcp_policy: None,
            obligation_overrides: &[],
            contracts: &[
                ContractDeclaration {
                    id: "cli.label-create.output",
                    path: "kanban label create --json stdout",
                    operation: None,
                    location: None,
                    operation_key: None,
                    parameters: &[],
                    direction: ContractDirection::Serialize,
                    strictness: ContractStrictness::DenyUnknownFields,
                    granularity: ContractGranularity::Exact,
                    binding: ContractBinding::ExactSurface,
                    schema_id: Some("urn:kanban-tool:schema:cli:label-create-output:v1"),
                    artifact_path: Some("cli/label-create-output.v1.schema.json"),
                    schema_title: Some("Kanban CLI label create output v1"),
                    valid_fixture: Some("schemas/fixtures/cli/label-create-output.v1.valid.json"),
                    invalid_fixture: Some("schemas/fixtures/cli/label-create-output.v1.invalid.json"),
                    exclusion: None,
                    producer: Some(AdoptionLocator {
                        package: "kanban-cli",
                        test_target: "cli_label_contract_adoption",
                        exact_test: "labels_semantics_atoms_and_proposals_flow_through_real_cli",
                    }),
                    consumer: Some(AdoptionLocator {
                        package: "kanban-cli",
                        test_target: "cli_label_contract_adoption",
                        exact_test: "labels_semantics_atoms_and_proposals_flow_through_real_cli",
                    }),
                },
            ],
        },
        OperationDeclaration {
            operation_id: "cli.label-delete",
            surface: ContractSurface::Cli,
            method: None,
            path: None,
            operation: "label delete",
            key: "label delete",
            migration: MigrationState::Adopted,
            exclusion: None,
            shared_components: &[],
            header_profile: None,
            mcp_policy: None,
            obligation_overrides: &[],
            contracts: &[
                ContractDeclaration {
                    id: "cli.label-delete.output",
                    path: "kanban label delete --json stdout",
                    operation: None,
                    location: None,
                    operation_key: None,
                    parameters: &[],
                    direction: ContractDirection::Serialize,
                    strictness: ContractStrictness::DenyUnknownFields,
                    granularity: ContractGranularity::Exact,
                    binding: ContractBinding::ExactSurface,
                    schema_id: Some("urn:kanban-tool:schema:cli:label-delete-output:v1"),
                    artifact_path: Some("cli/label-delete-output.v1.schema.json"),
                    schema_title: Some("Kanban CLI label delete output v1"),
                    valid_fixture: Some("schemas/fixtures/cli/label-delete-output.v1.valid.json"),
                    invalid_fixture: Some("schemas/fixtures/cli/label-delete-output.v1.invalid.json"),
                    exclusion: None,
                    producer: Some(AdoptionLocator {
                        package: "kanban-cli",
                        test_target: "cli_label_contract_adoption",
                        exact_test: "labels_semantics_atoms_and_proposals_flow_through_real_cli",
                    }),
                    consumer: Some(AdoptionLocator {
                        package: "kanban-cli",
                        test_target: "cli_label_contract_adoption",
                        exact_test: "labels_semantics_atoms_and_proposals_flow_through_real_cli",
                    }),
                },
            ],
        },
        OperationDeclaration {
            operation_id: "cli.label-list",
            surface: ContractSurface::Cli,
            method: None,
            path: None,
            operation: "label list",
            key: "label list",
            migration: MigrationState::Adopted,
            exclusion: None,
            shared_components: &[],
            header_profile: None,
            mcp_policy: None,
            obligation_overrides: &[],
            contracts: &[
                ContractDeclaration {
                    id: "cli.label-list.output",
                    path: "kanban label list --json stdout",
                    operation: None,
                    location: None,
                    operation_key: None,
                    parameters: &[],
                    direction: ContractDirection::Serialize,
                    strictness: ContractStrictness::DenyUnknownFields,
                    granularity: ContractGranularity::Exact,
                    binding: ContractBinding::ExactSurface,
                    schema_id: Some("urn:kanban-tool:schema:cli:label-list-output:v1"),
                    artifact_path: Some("cli/label-list-output.v1.schema.json"),
                    schema_title: Some("Kanban CLI label list output v1"),
                    valid_fixture: Some("schemas/fixtures/cli/label-list-output.v1.valid.json"),
                    invalid_fixture: Some("schemas/fixtures/cli/label-list-output.v1.invalid.json"),
                    exclusion: None,
                    producer: Some(AdoptionLocator {
                        package: "kanban-cli",
                        test_target: "cli_label_contract_adoption",
                        exact_test: "labels_semantics_atoms_and_proposals_flow_through_real_cli",
                    }),
                    consumer: Some(AdoptionLocator {
                        package: "kanban-cli",
                        test_target: "cli_label_contract_adoption",
                        exact_test: "labels_semantics_atoms_and_proposals_flow_through_real_cli",
                    }),
                },
            ],
        },
        OperationDeclaration {
            operation_id: "cli.label-ontology-apply-atom",
            surface: ContractSurface::Cli,
            method: None,
            path: None,
            operation: "label ontology apply atom",
            key: "label ontology apply atom",
            migration: MigrationState::Adopted,
            exclusion: None,
            shared_components: &[],
            header_profile: None,
            mcp_policy: None,
            obligation_overrides: &[],
            contracts: &[
                ContractDeclaration {
                    id: "cli.label-ontology-apply-atom.output",
                    path: "kanban label ontology apply atom --json stdout",
                    operation: None,
                    location: None,
                    operation_key: None,
                    parameters: &[],
                    direction: ContractDirection::Serialize,
                    strictness: ContractStrictness::DenyUnknownFields,
                    granularity: ContractGranularity::Exact,
                    binding: ContractBinding::ExactSurface,
                    schema_id: Some("urn:kanban-tool:schema:cli:label-ontology-apply-atom-output:v1"),
                    artifact_path: Some("cli/label-ontology-apply-atom-output.v1.schema.json"),
                    schema_title: Some("Kanban CLI label ontology apply atom output v1"),
                    valid_fixture: Some("schemas/fixtures/cli/label-ontology-apply-atom-output.v1.valid.json"),
                    invalid_fixture: Some("schemas/fixtures/cli/label-ontology-apply-atom-output.v1.invalid.json"),
                    exclusion: None,
                    producer: Some(AdoptionLocator {
                        package: "kanban-cli",
                        test_target: "cli_label_contract_adoption",
                        exact_test: "ontology_observation_signal_review_and_action_flow_through_real_cli",
                    }),
                    consumer: Some(AdoptionLocator {
                        package: "kanban-cli",
                        test_target: "cli_label_contract_adoption",
                        exact_test: "ontology_observation_signal_review_and_action_flow_through_real_cli",
                    }),
                },
            ],
        },
        OperationDeclaration {
            operation_id: "cli.label-ontology-confirm",
            surface: ContractSurface::Cli,
            method: None,
            path: None,
            operation: "label ontology confirm",
            key: "label ontology confirm",
            migration: MigrationState::Adopted,
            exclusion: None,
            shared_components: &[],
            header_profile: None,
            mcp_policy: None,
            obligation_overrides: &[],
            contracts: &[
                ContractDeclaration {
                    id: "cli.label-ontology-confirm.output",
                    path: "kanban label ontology confirm --json stdout",
                    operation: None,
                    location: None,
                    operation_key: None,
                    parameters: &[],
                    direction: ContractDirection::Serialize,
                    strictness: ContractStrictness::DenyUnknownFields,
                    granularity: ContractGranularity::Exact,
                    binding: ContractBinding::ExactSurface,
                    schema_id: Some("urn:kanban-tool:schema:cli:label-ontology-confirm-output:v1"),
                    artifact_path: Some("cli/label-ontology-confirm-output.v1.schema.json"),
                    schema_title: Some("Kanban CLI label ontology confirm output v1"),
                    valid_fixture: Some("schemas/fixtures/cli/label-ontology-confirm-output.v1.valid.json"),
                    invalid_fixture: Some("schemas/fixtures/cli/label-ontology-confirm-output.v1.invalid.json"),
                    exclusion: None,
                    producer: Some(AdoptionLocator {
                        package: "kanban-cli",
                        test_target: "cli_label_contract_adoption",
                        exact_test: "ontology_observation_signal_review_and_action_flow_through_real_cli",
                    }),
                    consumer: Some(AdoptionLocator {
                        package: "kanban-cli",
                        test_target: "cli_label_contract_adoption",
                        exact_test: "ontology_observation_signal_review_and_action_flow_through_real_cli",
                    }),
                },
            ],
        },
        OperationDeclaration {
            operation_id: "cli.label-ontology-list",
            surface: ContractSurface::Cli,
            method: None,
            path: None,
            operation: "label ontology list",
            key: "label ontology list",
            migration: MigrationState::Adopted,
            exclusion: None,
            shared_components: &[],
            header_profile: None,
            mcp_policy: None,
            obligation_overrides: &[],
            contracts: &[
                ContractDeclaration {
                    id: "cli.label-ontology-list.output",
                    path: "kanban label ontology list --json stdout",
                    operation: None,
                    location: None,
                    operation_key: None,
                    parameters: &[],
                    direction: ContractDirection::Serialize,
                    strictness: ContractStrictness::DenyUnknownFields,
                    granularity: ContractGranularity::Exact,
                    binding: ContractBinding::ExactSurface,
                    schema_id: Some("urn:kanban-tool:schema:cli:label-ontology-list-output:v1"),
                    artifact_path: Some("cli/label-ontology-list-output.v1.schema.json"),
                    schema_title: Some("Kanban CLI label ontology list output v1"),
                    valid_fixture: Some("schemas/fixtures/cli/label-ontology-list-output.v1.valid.json"),
                    invalid_fixture: Some("schemas/fixtures/cli/label-ontology-list-output.v1.invalid.json"),
                    exclusion: None,
                    producer: Some(AdoptionLocator {
                        package: "kanban-cli",
                        test_target: "cli_label_contract_adoption",
                        exact_test: "ontology_observation_signal_review_and_action_flow_through_real_cli",
                    }),
                    consumer: Some(AdoptionLocator {
                        package: "kanban-cli",
                        test_target: "cli_label_contract_adoption",
                        exact_test: "ontology_observation_signal_review_and_action_flow_through_real_cli",
                    }),
                },
            ],
        },
        OperationDeclaration {
            operation_id: "cli.label-ontology-quality",
            surface: ContractSurface::Cli,
            method: None,
            path: None,
            operation: "label ontology quality",
            key: "label ontology quality",
            migration: MigrationState::Adopted,
            exclusion: None,
            shared_components: &[],
            header_profile: None,
            mcp_policy: None,
            obligation_overrides: &[],
            contracts: &[
                ContractDeclaration {
                    id: "cli.label-ontology-quality.output",
                    path: "kanban label ontology quality --json stdout",
                    operation: None,
                    location: None,
                    operation_key: None,
                    parameters: &[],
                    direction: ContractDirection::Serialize,
                    strictness: ContractStrictness::DenyUnknownFields,
                    granularity: ContractGranularity::Exact,
                    binding: ContractBinding::ExactSurface,
                    schema_id: Some("urn:kanban-tool:schema:cli:label-ontology-quality-output:v1"),
                    artifact_path: Some("cli/label-ontology-quality-output.v1.schema.json"),
                    schema_title: Some("Kanban CLI label ontology quality output v1"),
                    valid_fixture: Some("schemas/fixtures/cli/label-ontology-quality-output.v1.valid.json"),
                    invalid_fixture: Some("schemas/fixtures/cli/label-ontology-quality-output.v1.invalid.json"),
                    exclusion: None,
                    producer: Some(AdoptionLocator {
                        package: "kanban-cli",
                        test_target: "cli_label_contract_adoption",
                        exact_test: "ontology_observation_signal_review_and_action_flow_through_real_cli",
                    }),
                    consumer: Some(AdoptionLocator {
                        package: "kanban-cli",
                        test_target: "cli_label_contract_adoption",
                        exact_test: "ontology_observation_signal_review_and_action_flow_through_real_cli",
                    }),
                },
            ],
        },
        OperationDeclaration {
            operation_id: "cli.label-ontology-record",
            surface: ContractSurface::Cli,
            method: None,
            path: None,
            operation: "label ontology record",
            key: "label ontology record",
            migration: MigrationState::Adopted,
            exclusion: None,
            shared_components: &[],
            header_profile: None,
            mcp_policy: None,
            obligation_overrides: &[],
            contracts: &[
                ContractDeclaration {
                    id: "cli.label-ontology-record.output",
                    path: "kanban label ontology record --json stdout",
                    operation: None,
                    location: None,
                    operation_key: None,
                    parameters: &[],
                    direction: ContractDirection::Serialize,
                    strictness: ContractStrictness::DenyUnknownFields,
                    granularity: ContractGranularity::Exact,
                    binding: ContractBinding::ExactSurface,
                    schema_id: Some("urn:kanban-tool:schema:cli:label-ontology-record-output:v1"),
                    artifact_path: Some("cli/label-ontology-record-output.v1.schema.json"),
                    schema_title: Some("Kanban CLI label ontology record output v1"),
                    valid_fixture: Some("schemas/fixtures/cli/label-ontology-record-output.v1.valid.json"),
                    invalid_fixture: Some("schemas/fixtures/cli/label-ontology-record-output.v1.invalid.json"),
                    exclusion: None,
                    producer: Some(AdoptionLocator {
                        package: "kanban-cli",
                        test_target: "cli_label_contract_adoption",
                        exact_test: "ontology_observation_signal_review_and_action_flow_through_real_cli",
                    }),
                    consumer: Some(AdoptionLocator {
                        package: "kanban-cli",
                        test_target: "cli_label_contract_adoption",
                        exact_test: "ontology_observation_signal_review_and_action_flow_through_real_cli",
                    }),
                },
            ],
        },
        OperationDeclaration {
            operation_id: "cli.label-ontology-reject",
            surface: ContractSurface::Cli,
            method: None,
            path: None,
            operation: "label ontology reject",
            key: "label ontology reject",
            migration: MigrationState::Adopted,
            exclusion: None,
            shared_components: &[],
            header_profile: None,
            mcp_policy: None,
            obligation_overrides: &[],
            contracts: &[
                ContractDeclaration {
                    id: "cli.label-ontology-reject.output",
                    path: "kanban label ontology reject --json stdout",
                    operation: None,
                    location: None,
                    operation_key: None,
                    parameters: &[],
                    direction: ContractDirection::Serialize,
                    strictness: ContractStrictness::DenyUnknownFields,
                    granularity: ContractGranularity::Exact,
                    binding: ContractBinding::ExactSurface,
                    schema_id: Some("urn:kanban-tool:schema:cli:label-ontology-reject-output:v1"),
                    artifact_path: Some("cli/label-ontology-reject-output.v1.schema.json"),
                    schema_title: Some("Kanban CLI label ontology reject output v1"),
                    valid_fixture: Some("schemas/fixtures/cli/label-ontology-reject-output.v1.valid.json"),
                    invalid_fixture: Some("schemas/fixtures/cli/label-ontology-reject-output.v1.invalid.json"),
                    exclusion: None,
                    producer: Some(AdoptionLocator {
                        package: "kanban-cli",
                        test_target: "cli_label_contract_adoption",
                        exact_test: "ontology_observation_signal_review_and_action_flow_through_real_cli",
                    }),
                    consumer: Some(AdoptionLocator {
                        package: "kanban-cli",
                        test_target: "cli_label_contract_adoption",
                        exact_test: "ontology_observation_signal_review_and_action_flow_through_real_cli",
                    }),
                },
            ],
        },
        OperationDeclaration {
            operation_id: "cli.label-ontology-resolve",
            surface: ContractSurface::Cli,
            method: None,
            path: None,
            operation: "label ontology resolve",
            key: "label ontology resolve",
            migration: MigrationState::Adopted,
            exclusion: None,
            shared_components: &[],
            header_profile: None,
            mcp_policy: None,
            obligation_overrides: &[],
            contracts: &[
                ContractDeclaration {
                    id: "cli.label-ontology-resolve.output",
                    path: "kanban label ontology resolve --json stdout",
                    operation: None,
                    location: None,
                    operation_key: None,
                    parameters: &[],
                    direction: ContractDirection::Serialize,
                    strictness: ContractStrictness::DenyUnknownFields,
                    granularity: ContractGranularity::Exact,
                    binding: ContractBinding::ExactSurface,
                    schema_id: Some("urn:kanban-tool:schema:cli:label-ontology-resolve-output:v1"),
                    artifact_path: Some("cli/label-ontology-resolve-output.v1.schema.json"),
                    schema_title: Some("Kanban CLI label ontology resolve output v1"),
                    valid_fixture: Some("schemas/fixtures/cli/label-ontology-resolve-output.v1.valid.json"),
                    invalid_fixture: Some("schemas/fixtures/cli/label-ontology-resolve-output.v1.invalid.json"),
                    exclusion: None,
                    producer: Some(AdoptionLocator {
                        package: "kanban-cli",
                        test_target: "cli_label_contract_adoption",
                        exact_test: "ontology_observation_signal_review_and_action_flow_through_real_cli",
                    }),
                    consumer: Some(AdoptionLocator {
                        package: "kanban-cli",
                        test_target: "cli_label_contract_adoption",
                        exact_test: "ontology_observation_signal_review_and_action_flow_through_real_cli",
                    }),
                },
            ],
        },
        OperationDeclaration {
            operation_id: "cli.label-ontology-revert",
            surface: ContractSurface::Cli,
            method: None,
            path: None,
            operation: "label ontology revert",
            key: "label ontology revert",
            migration: MigrationState::Adopted,
            exclusion: None,
            shared_components: &[],
            header_profile: None,
            mcp_policy: None,
            obligation_overrides: &[],
            contracts: &[
                ContractDeclaration {
                    id: "cli.label-ontology-revert.output",
                    path: "kanban label ontology revert --json stdout",
                    operation: None,
                    location: None,
                    operation_key: None,
                    parameters: &[],
                    direction: ContractDirection::Serialize,
                    strictness: ContractStrictness::DenyUnknownFields,
                    granularity: ContractGranularity::Exact,
                    binding: ContractBinding::ExactSurface,
                    schema_id: Some("urn:kanban-tool:schema:cli:label-ontology-revert-output:v1"),
                    artifact_path: Some("cli/label-ontology-revert-output.v1.schema.json"),
                    schema_title: Some("Kanban CLI label ontology revert output v1"),
                    valid_fixture: Some("schemas/fixtures/cli/label-ontology-revert-output.v1.valid.json"),
                    invalid_fixture: Some("schemas/fixtures/cli/label-ontology-revert-output.v1.invalid.json"),
                    exclusion: None,
                    producer: Some(AdoptionLocator {
                        package: "kanban-cli",
                        test_target: "cli_label_contract_adoption",
                        exact_test: "ontology_observation_signal_review_and_action_flow_through_real_cli",
                    }),
                    consumer: Some(AdoptionLocator {
                        package: "kanban-cli",
                        test_target: "cli_label_contract_adoption",
                        exact_test: "ontology_observation_signal_review_and_action_flow_through_real_cli",
                    }),
                },
            ],
        },
        OperationDeclaration {
            operation_id: "cli.label-ontology-review",
            surface: ContractSurface::Cli,
            method: None,
            path: None,
            operation: "label ontology review",
            key: "label ontology review",
            migration: MigrationState::Adopted,
            exclusion: None,
            shared_components: &[],
            header_profile: None,
            mcp_policy: None,
            obligation_overrides: &[],
            contracts: &[
                ContractDeclaration {
                    id: "cli.label-ontology-review.output",
                    path: "kanban label ontology review --json stdout",
                    operation: None,
                    location: None,
                    operation_key: None,
                    parameters: &[],
                    direction: ContractDirection::Serialize,
                    strictness: ContractStrictness::DenyUnknownFields,
                    granularity: ContractGranularity::Exact,
                    binding: ContractBinding::ExactSurface,
                    schema_id: Some("urn:kanban-tool:schema:cli:label-ontology-review-output:v1"),
                    artifact_path: Some("cli/label-ontology-review-output.v1.schema.json"),
                    schema_title: Some("Kanban CLI label ontology review output v1"),
                    valid_fixture: Some("schemas/fixtures/cli/label-ontology-review-output.v1.valid.json"),
                    invalid_fixture: Some("schemas/fixtures/cli/label-ontology-review-output.v1.invalid.json"),
                    exclusion: None,
                    producer: Some(AdoptionLocator {
                        package: "kanban-cli",
                        test_target: "cli_label_contract_adoption",
                        exact_test: "ontology_observation_signal_review_and_action_flow_through_real_cli",
                    }),
                    consumer: Some(AdoptionLocator {
                        package: "kanban-cli",
                        test_target: "cli_label_contract_adoption",
                        exact_test: "ontology_observation_signal_review_and_action_flow_through_real_cli",
                    }),
                },
            ],
        },
        OperationDeclaration {
            operation_id: "cli.label-ontology-show",
            surface: ContractSurface::Cli,
            method: None,
            path: None,
            operation: "label ontology show",
            key: "label ontology show",
            migration: MigrationState::Adopted,
            exclusion: None,
            shared_components: &[],
            header_profile: None,
            mcp_policy: None,
            obligation_overrides: &[],
            contracts: &[
                ContractDeclaration {
                    id: "cli.label-ontology-show.output",
                    path: "kanban label ontology show --json stdout",
                    operation: None,
                    location: None,
                    operation_key: None,
                    parameters: &[],
                    direction: ContractDirection::Serialize,
                    strictness: ContractStrictness::DenyUnknownFields,
                    granularity: ContractGranularity::Exact,
                    binding: ContractBinding::ExactSurface,
                    schema_id: Some("urn:kanban-tool:schema:cli:label-ontology-show-output:v1"),
                    artifact_path: Some("cli/label-ontology-show-output.v1.schema.json"),
                    schema_title: Some("Kanban CLI label ontology show output v1"),
                    valid_fixture: Some("schemas/fixtures/cli/label-ontology-show-output.v1.valid.json"),
                    invalid_fixture: Some("schemas/fixtures/cli/label-ontology-show-output.v1.invalid.json"),
                    exclusion: None,
                    producer: Some(AdoptionLocator {
                        package: "kanban-cli",
                        test_target: "cli_label_contract_adoption",
                        exact_test: "ontology_observation_signal_review_and_action_flow_through_real_cli",
                    }),
                    consumer: Some(AdoptionLocator {
                        package: "kanban-cli",
                        test_target: "cli_label_contract_adoption",
                        exact_test: "ontology_observation_signal_review_and_action_flow_through_real_cli",
                    }),
                },
            ],
        },
        OperationDeclaration {
            operation_id: "cli.label-ontology-supersede",
            surface: ContractSurface::Cli,
            method: None,
            path: None,
            operation: "label ontology supersede",
            key: "label ontology supersede",
            migration: MigrationState::Adopted,
            exclusion: None,
            shared_components: &[],
            header_profile: None,
            mcp_policy: None,
            obligation_overrides: &[],
            contracts: &[
                ContractDeclaration {
                    id: "cli.label-ontology-supersede.output",
                    path: "kanban label ontology supersede --json stdout",
                    operation: None,
                    location: None,
                    operation_key: None,
                    parameters: &[],
                    direction: ContractDirection::Serialize,
                    strictness: ContractStrictness::DenyUnknownFields,
                    granularity: ContractGranularity::Exact,
                    binding: ContractBinding::ExactSurface,
                    schema_id: Some("urn:kanban-tool:schema:cli:label-ontology-supersede-output:v1"),
                    artifact_path: Some("cli/label-ontology-supersede-output.v1.schema.json"),
                    schema_title: Some("Kanban CLI label ontology supersede output v1"),
                    valid_fixture: Some("schemas/fixtures/cli/label-ontology-supersede-output.v1.valid.json"),
                    invalid_fixture: Some("schemas/fixtures/cli/label-ontology-supersede-output.v1.invalid.json"),
                    exclusion: None,
                    producer: Some(AdoptionLocator {
                        package: "kanban-cli",
                        test_target: "cli_label_contract_adoption",
                        exact_test: "ontology_observation_signal_review_and_action_flow_through_real_cli",
                    }),
                    consumer: Some(AdoptionLocator {
                        package: "kanban-cli",
                        test_target: "cli_label_contract_adoption",
                        exact_test: "ontology_observation_signal_review_and_action_flow_through_real_cli",
                    }),
                },
            ],
        },
        OperationDeclaration {
            operation_id: "cli.label-ontology-validate",
            surface: ContractSurface::Cli,
            method: None,
            path: None,
            operation: "label ontology validate",
            key: "label ontology validate",
            migration: MigrationState::Adopted,
            exclusion: None,
            shared_components: &[],
            header_profile: None,
            mcp_policy: None,
            obligation_overrides: &[],
            contracts: &[
                ContractDeclaration {
                    id: "cli.label-ontology-validate.output",
                    path: "kanban label ontology validate --json stdout",
                    operation: None,
                    location: None,
                    operation_key: None,
                    parameters: &[],
                    direction: ContractDirection::Serialize,
                    strictness: ContractStrictness::DenyUnknownFields,
                    granularity: ContractGranularity::Exact,
                    binding: ContractBinding::ExactSurface,
                    schema_id: Some("urn:kanban-tool:schema:cli:label-ontology-validate-output:v1"),
                    artifact_path: Some("cli/label-ontology-validate-output.v1.schema.json"),
                    schema_title: Some("Kanban CLI label ontology validate output v1"),
                    valid_fixture: Some("schemas/fixtures/cli/label-ontology-validate-output.v1.valid.json"),
                    invalid_fixture: Some("schemas/fixtures/cli/label-ontology-validate-output.v1.invalid.json"),
                    exclusion: None,
                    producer: Some(AdoptionLocator {
                        package: "kanban-cli",
                        test_target: "cli_label_contract_adoption",
                        exact_test: "ontology_observation_signal_review_and_action_flow_through_real_cli",
                    }),
                    consumer: Some(AdoptionLocator {
                        package: "kanban-cli",
                        test_target: "cli_label_contract_adoption",
                        exact_test: "ontology_observation_signal_review_and_action_flow_through_real_cli",
                    }),
                },
            ],
        },
        OperationDeclaration {
            operation_id: "cli.label-proposals-accept",
            surface: ContractSurface::Cli,
            method: None,
            path: None,
            operation: "label proposals accept",
            key: "label proposals accept",
            migration: MigrationState::Adopted,
            exclusion: None,
            shared_components: &[],
            header_profile: None,
            mcp_policy: None,
            obligation_overrides: &[],
            contracts: &[
                ContractDeclaration {
                    id: "cli.label-proposals-accept.output",
                    path: "kanban label proposals accept --json stdout",
                    operation: None,
                    location: None,
                    operation_key: None,
                    parameters: &[],
                    direction: ContractDirection::Serialize,
                    strictness: ContractStrictness::DenyUnknownFields,
                    granularity: ContractGranularity::Exact,
                    binding: ContractBinding::ExactSurface,
                    schema_id: Some("urn:kanban-tool:schema:cli:label-proposals-accept-output:v1"),
                    artifact_path: Some("cli/label-proposals-accept-output.v1.schema.json"),
                    schema_title: Some("Kanban CLI label proposals accept output v1"),
                    valid_fixture: Some("schemas/fixtures/cli/label-proposals-accept-output.v1.valid.json"),
                    invalid_fixture: Some("schemas/fixtures/cli/label-proposals-accept-output.v1.invalid.json"),
                    exclusion: None,
                    producer: Some(AdoptionLocator {
                        package: "kanban-cli",
                        test_target: "cli_label_contract_adoption",
                        exact_test: "labels_semantics_atoms_and_proposals_flow_through_real_cli",
                    }),
                    consumer: Some(AdoptionLocator {
                        package: "kanban-cli",
                        test_target: "cli_label_contract_adoption",
                        exact_test: "labels_semantics_atoms_and_proposals_flow_through_real_cli",
                    }),
                },
            ],
        },
        OperationDeclaration {
            operation_id: "cli.label-proposals-list",
            surface: ContractSurface::Cli,
            method: None,
            path: None,
            operation: "label proposals list",
            key: "label proposals list",
            migration: MigrationState::Adopted,
            exclusion: None,
            shared_components: &[],
            header_profile: None,
            mcp_policy: None,
            obligation_overrides: &[],
            contracts: &[
                ContractDeclaration {
                    id: "cli.label-proposals-list.output",
                    path: "kanban label proposals list --json stdout",
                    operation: None,
                    location: None,
                    operation_key: None,
                    parameters: &[],
                    direction: ContractDirection::Serialize,
                    strictness: ContractStrictness::DenyUnknownFields,
                    granularity: ContractGranularity::Exact,
                    binding: ContractBinding::ExactSurface,
                    schema_id: Some("urn:kanban-tool:schema:cli:label-proposals-list-output:v1"),
                    artifact_path: Some("cli/label-proposals-list-output.v1.schema.json"),
                    schema_title: Some("Kanban CLI label proposals list output v1"),
                    valid_fixture: Some("schemas/fixtures/cli/label-proposals-list-output.v1.valid.json"),
                    invalid_fixture: Some("schemas/fixtures/cli/label-proposals-list-output.v1.invalid.json"),
                    exclusion: None,
                    producer: Some(AdoptionLocator {
                        package: "kanban-cli",
                        test_target: "cli_label_contract_adoption",
                        exact_test: "labels_semantics_atoms_and_proposals_flow_through_real_cli",
                    }),
                    consumer: Some(AdoptionLocator {
                        package: "kanban-cli",
                        test_target: "cli_label_contract_adoption",
                        exact_test: "labels_semantics_atoms_and_proposals_flow_through_real_cli",
                    }),
                },
            ],
        },
        OperationDeclaration {
            operation_id: "cli.label-proposals-reject",
            surface: ContractSurface::Cli,
            method: None,
            path: None,
            operation: "label proposals reject",
            key: "label proposals reject",
            migration: MigrationState::Adopted,
            exclusion: None,
            shared_components: &[],
            header_profile: None,
            mcp_policy: None,
            obligation_overrides: &[],
            contracts: &[
                ContractDeclaration {
                    id: "cli.label-proposals-reject.output",
                    path: "kanban label proposals reject --json stdout",
                    operation: None,
                    location: None,
                    operation_key: None,
                    parameters: &[],
                    direction: ContractDirection::Serialize,
                    strictness: ContractStrictness::DenyUnknownFields,
                    granularity: ContractGranularity::Exact,
                    binding: ContractBinding::ExactSurface,
                    schema_id: Some("urn:kanban-tool:schema:cli:label-proposals-reject-output:v1"),
                    artifact_path: Some("cli/label-proposals-reject-output.v1.schema.json"),
                    schema_title: Some("Kanban CLI label proposals reject output v1"),
                    valid_fixture: Some("schemas/fixtures/cli/label-proposals-reject-output.v1.valid.json"),
                    invalid_fixture: Some("schemas/fixtures/cli/label-proposals-reject-output.v1.invalid.json"),
                    exclusion: None,
                    producer: Some(AdoptionLocator {
                        package: "kanban-cli",
                        test_target: "cli_label_contract_adoption",
                        exact_test: "labels_semantics_atoms_and_proposals_flow_through_real_cli",
                    }),
                    consumer: Some(AdoptionLocator {
                        package: "kanban-cli",
                        test_target: "cli_label_contract_adoption",
                        exact_test: "labels_semantics_atoms_and_proposals_flow_through_real_cli",
                    }),
                },
            ],
        },
        OperationDeclaration {
            operation_id: "cli.label-proposals-show",
            surface: ContractSurface::Cli,
            method: None,
            path: None,
            operation: "label proposals show",
            key: "label proposals show",
            migration: MigrationState::Adopted,
            exclusion: None,
            shared_components: &[],
            header_profile: None,
            mcp_policy: None,
            obligation_overrides: &[],
            contracts: &[
                ContractDeclaration {
                    id: "cli.label-proposals-show.output",
                    path: "kanban label proposals show --json stdout",
                    operation: None,
                    location: None,
                    operation_key: None,
                    parameters: &[],
                    direction: ContractDirection::Serialize,
                    strictness: ContractStrictness::DenyUnknownFields,
                    granularity: ContractGranularity::Exact,
                    binding: ContractBinding::ExactSurface,
                    schema_id: Some("urn:kanban-tool:schema:cli:label-proposals-show-output:v1"),
                    artifact_path: Some("cli/label-proposals-show-output.v1.schema.json"),
                    schema_title: Some("Kanban CLI label proposals show output v1"),
                    valid_fixture: Some("schemas/fixtures/cli/label-proposals-show-output.v1.valid.json"),
                    invalid_fixture: Some("schemas/fixtures/cli/label-proposals-show-output.v1.invalid.json"),
                    exclusion: None,
                    producer: Some(AdoptionLocator {
                        package: "kanban-cli",
                        test_target: "cli_label_contract_adoption",
                        exact_test: "labels_semantics_atoms_and_proposals_flow_through_real_cli",
                    }),
                    consumer: Some(AdoptionLocator {
                        package: "kanban-cli",
                        test_target: "cli_label_contract_adoption",
                        exact_test: "labels_semantics_atoms_and_proposals_flow_through_real_cli",
                    }),
                },
            ],
        },
        OperationDeclaration {
            operation_id: "cli.label-propose",
            surface: ContractSurface::Cli,
            method: None,
            path: None,
            operation: "label propose",
            key: "label propose",
            migration: MigrationState::Adopted,
            exclusion: None,
            shared_components: &[],
            header_profile: None,
            mcp_policy: None,
            obligation_overrides: &[],
            contracts: &[
                ContractDeclaration {
                    id: "cli.label-propose.output",
                    path: "kanban label propose --json stdout",
                    operation: None,
                    location: None,
                    operation_key: None,
                    parameters: &[],
                    direction: ContractDirection::Serialize,
                    strictness: ContractStrictness::DenyUnknownFields,
                    granularity: ContractGranularity::Exact,
                    binding: ContractBinding::ExactSurface,
                    schema_id: Some("urn:kanban-tool:schema:cli:label-propose-output:v1"),
                    artifact_path: Some("cli/label-propose-output.v1.schema.json"),
                    schema_title: Some("Kanban CLI label propose output v1"),
                    valid_fixture: Some("schemas/fixtures/cli/label-propose-output.v1.valid.json"),
                    invalid_fixture: Some("schemas/fixtures/cli/label-propose-output.v1.invalid.json"),
                    exclusion: None,
                    producer: Some(AdoptionLocator {
                        package: "kanban-cli",
                        test_target: "cli_label_contract_adoption",
                        exact_test: "labels_semantics_atoms_and_proposals_flow_through_real_cli",
                    }),
                    consumer: Some(AdoptionLocator {
                        package: "kanban-cli",
                        test_target: "cli_label_contract_adoption",
                        exact_test: "labels_semantics_atoms_and_proposals_flow_through_real_cli",
                    }),
                },
            ],
        },
        OperationDeclaration {
            operation_id: "cli.label-remove",
            surface: ContractSurface::Cli,
            method: None,
            path: None,
            operation: "label remove",
            key: "label remove",
            migration: MigrationState::Adopted,
            exclusion: None,
            shared_components: &[],
            header_profile: None,
            mcp_policy: None,
            obligation_overrides: &[],
            contracts: &[
                ContractDeclaration {
                    id: "cli.label-remove.output",
                    path: "kanban label remove --json stdout",
                    operation: None,
                    location: None,
                    operation_key: None,
                    parameters: &[],
                    direction: ContractDirection::Serialize,
                    strictness: ContractStrictness::DenyUnknownFields,
                    granularity: ContractGranularity::Exact,
                    binding: ContractBinding::ExactSurface,
                    schema_id: Some("urn:kanban-tool:schema:cli:label-remove-output:v1"),
                    artifact_path: Some("cli/label-remove-output.v1.schema.json"),
                    schema_title: Some("Kanban CLI label remove output v1"),
                    valid_fixture: Some("schemas/fixtures/cli/label-remove-output.v1.valid.json"),
                    invalid_fixture: Some("schemas/fixtures/cli/label-remove-output.v1.invalid.json"),
                    exclusion: None,
                    producer: Some(AdoptionLocator {
                        package: "kanban-cli",
                        test_target: "cli_label_contract_adoption",
                        exact_test: "labels_semantics_atoms_and_proposals_flow_through_real_cli",
                    }),
                    consumer: Some(AdoptionLocator {
                        package: "kanban-cli",
                        test_target: "cli_label_contract_adoption",
                        exact_test: "labels_semantics_atoms_and_proposals_flow_through_real_cli",
                    }),
                },
            ],
        },
        OperationDeclaration {
            operation_id: "cli.label-semantics-delete",
            surface: ContractSurface::Cli,
            method: None,
            path: None,
            operation: "label semantics delete",
            key: "label semantics delete",
            migration: MigrationState::Adopted,
            exclusion: None,
            shared_components: &[],
            header_profile: None,
            mcp_policy: None,
            obligation_overrides: &[],
            contracts: &[
                ContractDeclaration {
                    id: "cli.label-semantics-delete.output",
                    path: "kanban label semantics delete --json stdout",
                    operation: None,
                    location: None,
                    operation_key: None,
                    parameters: &[],
                    direction: ContractDirection::Serialize,
                    strictness: ContractStrictness::DenyUnknownFields,
                    granularity: ContractGranularity::Exact,
                    binding: ContractBinding::ExactSurface,
                    schema_id: Some("urn:kanban-tool:schema:cli:label-semantics-delete-output:v1"),
                    artifact_path: Some("cli/label-semantics-delete-output.v1.schema.json"),
                    schema_title: Some("Kanban CLI label semantics delete output v1"),
                    valid_fixture: Some("schemas/fixtures/cli/label-semantics-delete-output.v1.valid.json"),
                    invalid_fixture: Some("schemas/fixtures/cli/label-semantics-delete-output.v1.invalid.json"),
                    exclusion: None,
                    producer: Some(AdoptionLocator {
                        package: "kanban-cli",
                        test_target: "cli_label_contract_adoption",
                        exact_test: "labels_semantics_atoms_and_proposals_flow_through_real_cli",
                    }),
                    consumer: Some(AdoptionLocator {
                        package: "kanban-cli",
                        test_target: "cli_label_contract_adoption",
                        exact_test: "labels_semantics_atoms_and_proposals_flow_through_real_cli",
                    }),
                },
            ],
        },
        OperationDeclaration {
            operation_id: "cli.label-semantics-list",
            surface: ContractSurface::Cli,
            method: None,
            path: None,
            operation: "label semantics list",
            key: "label semantics list",
            migration: MigrationState::Adopted,
            exclusion: None,
            shared_components: &[],
            header_profile: None,
            mcp_policy: None,
            obligation_overrides: &[],
            contracts: &[
                ContractDeclaration {
                    id: "cli.label-semantics-list.output",
                    path: "kanban label semantics list --json stdout",
                    operation: None,
                    location: None,
                    operation_key: None,
                    parameters: &[],
                    direction: ContractDirection::Serialize,
                    strictness: ContractStrictness::DenyUnknownFields,
                    granularity: ContractGranularity::Exact,
                    binding: ContractBinding::ExactSurface,
                    schema_id: Some("urn:kanban-tool:schema:cli:label-semantics-list-output:v1"),
                    artifact_path: Some("cli/label-semantics-list-output.v1.schema.json"),
                    schema_title: Some("Kanban CLI label semantics list output v1"),
                    valid_fixture: Some("schemas/fixtures/cli/label-semantics-list-output.v1.valid.json"),
                    invalid_fixture: Some("schemas/fixtures/cli/label-semantics-list-output.v1.invalid.json"),
                    exclusion: None,
                    producer: Some(AdoptionLocator {
                        package: "kanban-cli",
                        test_target: "cli_label_contract_adoption",
                        exact_test: "labels_semantics_atoms_and_proposals_flow_through_real_cli",
                    }),
                    consumer: Some(AdoptionLocator {
                        package: "kanban-cli",
                        test_target: "cli_label_contract_adoption",
                        exact_test: "labels_semantics_atoms_and_proposals_flow_through_real_cli",
                    }),
                },
            ],
        },
        OperationDeclaration {
            operation_id: "cli.label-semantics-show",
            surface: ContractSurface::Cli,
            method: None,
            path: None,
            operation: "label semantics show",
            key: "label semantics show",
            migration: MigrationState::Adopted,
            exclusion: None,
            shared_components: &[],
            header_profile: None,
            mcp_policy: None,
            obligation_overrides: &[],
            contracts: &[
                ContractDeclaration {
                    id: "cli.label-semantics-show.output",
                    path: "kanban label semantics show --json stdout",
                    operation: None,
                    location: None,
                    operation_key: None,
                    parameters: &[],
                    direction: ContractDirection::Serialize,
                    strictness: ContractStrictness::DenyUnknownFields,
                    granularity: ContractGranularity::Exact,
                    binding: ContractBinding::ExactSurface,
                    schema_id: Some("urn:kanban-tool:schema:cli:label-semantics-show-output:v1"),
                    artifact_path: Some("cli/label-semantics-show-output.v1.schema.json"),
                    schema_title: Some("Kanban CLI label semantics show output v1"),
                    valid_fixture: Some("schemas/fixtures/cli/label-semantics-show-output.v1.valid.json"),
                    invalid_fixture: Some("schemas/fixtures/cli/label-semantics-show-output.v1.invalid.json"),
                    exclusion: None,
                    producer: Some(AdoptionLocator {
                        package: "kanban-cli",
                        test_target: "cli_label_contract_adoption",
                        exact_test: "labels_semantics_atoms_and_proposals_flow_through_real_cli",
                    }),
                    consumer: Some(AdoptionLocator {
                        package: "kanban-cli",
                        test_target: "cli_label_contract_adoption",
                        exact_test: "labels_semantics_atoms_and_proposals_flow_through_real_cli",
                    }),
                },
            ],
        },
        OperationDeclaration {
            operation_id: "cli.label-semantics-upsert",
            surface: ContractSurface::Cli,
            method: None,
            path: None,
            operation: "label semantics upsert",
            key: "label semantics upsert",
            migration: MigrationState::Adopted,
            exclusion: None,
            shared_components: &[],
            header_profile: None,
            mcp_policy: None,
            obligation_overrides: &[],
            contracts: &[
                ContractDeclaration {
                    id: "cli.label-semantics-upsert.output",
                    path: "kanban label semantics upsert --json stdout",
                    operation: None,
                    location: None,
                    operation_key: None,
                    parameters: &[],
                    direction: ContractDirection::Serialize,
                    strictness: ContractStrictness::DenyUnknownFields,
                    granularity: ContractGranularity::Exact,
                    binding: ContractBinding::ExactSurface,
                    schema_id: Some("urn:kanban-tool:schema:cli:label-semantics-upsert-output:v1"),
                    artifact_path: Some("cli/label-semantics-upsert-output.v1.schema.json"),
                    schema_title: Some("Kanban CLI label semantics upsert output v1"),
                    valid_fixture: Some("schemas/fixtures/cli/label-semantics-upsert-output.v1.valid.json"),
                    invalid_fixture: Some("schemas/fixtures/cli/label-semantics-upsert-output.v1.invalid.json"),
                    exclusion: None,
                    producer: Some(AdoptionLocator {
                        package: "kanban-cli",
                        test_target: "cli_label_contract_adoption",
                        exact_test: "labels_semantics_atoms_and_proposals_flow_through_real_cli",
                    }),
                    consumer: Some(AdoptionLocator {
                        package: "kanban-cli",
                        test_target: "cli_label_contract_adoption",
                        exact_test: "labels_semantics_atoms_and_proposals_flow_through_real_cli",
                    }),
                },
            ],
        },
        OperationDeclaration {
            operation_id: "cli.label-suggest",
            surface: ContractSurface::Cli,
            method: None,
            path: None,
            operation: "label suggest",
            key: "label suggest",
            migration: MigrationState::Adopted,
            exclusion: None,
            shared_components: &[],
            header_profile: None,
            mcp_policy: None,
            obligation_overrides: &[],
            contracts: &[
                ContractDeclaration {
                    id: "cli.label-suggest.output",
                    path: "kanban label suggest --json stdout",
                    operation: None,
                    location: None,
                    operation_key: None,
                    parameters: &[],
                    direction: ContractDirection::Serialize,
                    strictness: ContractStrictness::DenyUnknownFields,
                    granularity: ContractGranularity::Exact,
                    binding: ContractBinding::ExactSurface,
                    schema_id: Some("urn:kanban-tool:schema:cli:label-suggest-output:v1"),
                    artifact_path: Some("cli/label-suggest-output.v1.schema.json"),
                    schema_title: Some("Kanban CLI label suggest output v1"),
                    valid_fixture: Some("schemas/fixtures/cli/label-suggest-output.v1.valid.json"),
                    invalid_fixture: Some("schemas/fixtures/cli/label-suggest-output.v1.invalid.json"),
                    exclusion: None,
                    producer: Some(AdoptionLocator {
                        package: "kanban-cli",
                        test_target: "cli_label_contract_adoption",
                        exact_test: "labels_semantics_atoms_and_proposals_flow_through_real_cli",
                    }),
                    consumer: Some(AdoptionLocator {
                        package: "kanban-cli",
                        test_target: "cli_label_contract_adoption",
                        exact_test: "labels_semantics_atoms_and_proposals_flow_through_real_cli",
                    }),
                },
            ],
        },
        OperationDeclaration {
            operation_id: "cli.run-logs",
            surface: ContractSurface::Cli,
            method: None,
            path: None,
            operation: "run logs",
            key: "run logs",
            migration: MigrationState::Adopted,
            exclusion: None,
            shared_components: &[],
            header_profile: None,
            mcp_policy: None,
            obligation_overrides: &[],
            contracts: &[
                ContractDeclaration {
                    id: "cli.run-logs.output",
                    path: "kanban run logs --json stdout",
                    operation: None,
                    location: None,
                    operation_key: None,
                    parameters: &[],
                    direction: ContractDirection::Serialize,
                    strictness: ContractStrictness::DenyUnknownFields,
                    granularity: ContractGranularity::Exact,
                    binding: ContractBinding::ExactSurface,
                    schema_id: Some("urn:kanban-tool:schema:cli:run-logs-output:v1"),
                    artifact_path: Some("cli/run-logs-output.v1.schema.json"),
                    schema_title: Some("Kanban CLI run logs output v1"),
                    valid_fixture: Some("schemas/fixtures/cli/run-logs-output.v1.valid.json"),
                    invalid_fixture: Some("schemas/fixtures/cli/run-logs-output.v1.invalid.json"),
                    exclusion: None,
                    producer: Some(AdoptionLocator {
                        package: "kanban-cli",
                        test_target: "cli_history_adoption",
                        exact_test: "history_cli_covers_runs_logs_comments_attachments_events_and_stats",
                    }),
                    consumer: Some(AdoptionLocator {
                        package: "kanban-cli",
                        test_target: "cli_history_adoption",
                        exact_test: "history_cli_covers_runs_logs_comments_attachments_events_and_stats",
                    }),
                },
            ],
        },
        OperationDeclaration {
            operation_id: "cli.run-show",
            surface: ContractSurface::Cli,
            method: None,
            path: None,
            operation: "run show",
            key: "run show",
            migration: MigrationState::Adopted,
            exclusion: None,
            shared_components: &[],
            header_profile: None,
            mcp_policy: None,
            obligation_overrides: &[],
            contracts: &[
                ContractDeclaration {
                    id: "cli.run-show.output",
                    path: "kanban run show --json stdout",
                    operation: None,
                    location: None,
                    operation_key: None,
                    parameters: &[],
                    direction: ContractDirection::Serialize,
                    strictness: ContractStrictness::DenyUnknownFields,
                    granularity: ContractGranularity::Exact,
                    binding: ContractBinding::ExactSurface,
                    schema_id: Some("urn:kanban-tool:schema:cli:run-show-output:v1"),
                    artifact_path: Some("cli/run-show-output.v1.schema.json"),
                    schema_title: Some("Kanban CLI run show output v1"),
                    valid_fixture: Some("schemas/fixtures/cli/run-show-output.v1.valid.json"),
                    invalid_fixture: Some("schemas/fixtures/cli/run-show-output.v1.invalid.json"),
                    exclusion: None,
                    producer: Some(AdoptionLocator {
                        package: "kanban-cli",
                        test_target: "cli_history_adoption",
                        exact_test: "history_cli_covers_runs_logs_comments_attachments_events_and_stats",
                    }),
                    consumer: Some(AdoptionLocator {
                        package: "kanban-cli",
                        test_target: "cli_history_adoption",
                        exact_test: "history_cli_covers_runs_logs_comments_attachments_events_and_stats",
                    }),
                },
            ],
        },
        OperationDeclaration {
            operation_id: "cli.runs",
            surface: ContractSurface::Cli,
            method: None,
            path: None,
            operation: "runs",
            key: "runs",
            migration: MigrationState::Adopted,
            exclusion: None,
            shared_components: &[],
            header_profile: None,
            mcp_policy: None,
            obligation_overrides: &[],
            contracts: &[
                ContractDeclaration {
                    id: "cli.runs.output",
                    path: "kanban runs --json stdout",
                    operation: None,
                    location: None,
                    operation_key: None,
                    parameters: &[],
                    direction: ContractDirection::Serialize,
                    strictness: ContractStrictness::DenyUnknownFields,
                    granularity: ContractGranularity::Exact,
                    binding: ContractBinding::ExactSurface,
                    schema_id: Some("urn:kanban-tool:schema:cli:runs-output:v1"),
                    artifact_path: Some("cli/runs-output.v1.schema.json"),
                    schema_title: Some("Kanban CLI runs output v1"),
                    valid_fixture: Some("schemas/fixtures/cli/runs-output.v1.valid.json"),
                    invalid_fixture: Some("schemas/fixtures/cli/runs-output.v1.invalid.json"),
                    exclusion: None,
                    producer: Some(AdoptionLocator {
                        package: "kanban-cli",
                        test_target: "cli_history_adoption",
                        exact_test: "history_cli_covers_runs_logs_comments_attachments_events_and_stats",
                    }),
                    consumer: Some(AdoptionLocator {
                        package: "kanban-cli",
                        test_target: "cli_history_adoption",
                        exact_test: "history_cli_covers_runs_logs_comments_attachments_events_and_stats",
                    }),
                },
            ],
        },
        OperationDeclaration {
            operation_id: "cli.search",
            surface: ContractSurface::Cli,
            method: None,
            path: None,
            operation: "search",
            key: "search",
            migration: MigrationState::Adopted,
            exclusion: None,
            shared_components: &[],
            header_profile: None,
            mcp_policy: None,
            obligation_overrides: &[],
            contracts: &[
                ContractDeclaration {
                    id: "cli.search.output",
                    path: "kanban search --json stdout",
                    operation: None,
                    location: None,
                    operation_key: None,
                    parameters: &[],
                    direction: ContractDirection::Serialize,
                    strictness: ContractStrictness::DenyUnknownFields,
                    granularity: ContractGranularity::Exact,
                    binding: ContractBinding::ExactSurface,
                    schema_id: Some("urn:kanban-tool:schema:cli:search-output:v1"),
                    artifact_path: Some("cli/search-output.v1.schema.json"),
                    schema_title: Some("Kanban CLI search output v1"),
                    valid_fixture: Some("schemas/fixtures/cli/search-output.v1.valid.json"),
                    invalid_fixture: Some("schemas/fixtures/cli/search-output.v1.invalid.json"),
                    exclusion: None,
                    producer: Some(AdoptionLocator {
                        package: "kanban-cli",
                        test_target: "cli_queue_adoption",
                        exact_test: "queue_cli_uses_real_host_for_config_board_and_task_commands",
                    }),
                    consumer: Some(AdoptionLocator {
                        package: "kanban-cli",
                        test_target: "cli_queue_adoption",
                        exact_test: "queue_cli_uses_real_host_for_config_board_and_task_commands",
                    }),
                },
            ],
        },
        OperationDeclaration {
            operation_id: "cli.serve",
            surface: ContractSurface::Cli,
            method: None,
            path: None,
            operation: "serve",
            key: "serve",
            migration: MigrationState::Excluded,
            exclusion: Some("daemon lifecycle 不产生有限 JSON document；运行诊断固定写 stderr"),
            shared_components: &[],
            header_profile: None,
            mcp_policy: None,
            obligation_overrides: &[],
            contracts: &[],
        },
        OperationDeclaration {
            operation_id: "cli.signal-confirm",
            surface: ContractSurface::Cli,
            method: None,
            path: None,
            operation: "signal confirm",
            key: "signal confirm",
            migration: MigrationState::Adopted,
            exclusion: None,
            shared_components: &[],
            header_profile: None,
            mcp_policy: None,
            obligation_overrides: &[],
            contracts: &[
                ContractDeclaration {
                    id: "cli.signal-confirm.output",
                    path: "kanban signal confirm --json stdout",
                    operation: None,
                    location: None,
                    operation_key: None,
                    parameters: &[],
                    direction: ContractDirection::Serialize,
                    strictness: ContractStrictness::DenyUnknownFields,
                    granularity: ContractGranularity::Exact,
                    binding: ContractBinding::ExactSurface,
                    schema_id: Some("urn:kanban-tool:schema:cli:signal-confirm-output:v1"),
                    artifact_path: Some("cli/signal-confirm-output.v1.schema.json"),
                    schema_title: Some("Kanban CLI signal confirm output v1"),
                    valid_fixture: Some("schemas/fixtures/cli/signal-confirm-output.v1.valid.json"),
                    invalid_fixture: Some("schemas/fixtures/cli/signal-confirm-output.v1.invalid.json"),
                    exclusion: None,
                    producer: Some(AdoptionLocator {
                        package: "kanban-cli",
                        test_target: "cli_label_contract_adoption",
                        exact_test: "generic_signals_record_review_and_confirm_flow_through_real_cli",
                    }),
                    consumer: Some(AdoptionLocator {
                        package: "kanban-cli",
                        test_target: "cli_label_contract_adoption",
                        exact_test: "generic_signals_record_review_and_confirm_flow_through_real_cli",
                    }),
                },
            ],
        },
        OperationDeclaration {
            operation_id: "cli.signal-list",
            surface: ContractSurface::Cli,
            method: None,
            path: None,
            operation: "signal list",
            key: "signal list",
            migration: MigrationState::Adopted,
            exclusion: None,
            shared_components: &[],
            header_profile: None,
            mcp_policy: None,
            obligation_overrides: &[],
            contracts: &[
                ContractDeclaration {
                    id: "cli.signal-list.output",
                    path: "kanban signal list --json stdout",
                    operation: None,
                    location: None,
                    operation_key: None,
                    parameters: &[],
                    direction: ContractDirection::Serialize,
                    strictness: ContractStrictness::DenyUnknownFields,
                    granularity: ContractGranularity::Exact,
                    binding: ContractBinding::ExactSurface,
                    schema_id: Some("urn:kanban-tool:schema:cli:signal-list-output:v1"),
                    artifact_path: Some("cli/signal-list-output.v1.schema.json"),
                    schema_title: Some("Kanban CLI signal list output v1"),
                    valid_fixture: Some("schemas/fixtures/cli/signal-list-output.v1.valid.json"),
                    invalid_fixture: Some("schemas/fixtures/cli/signal-list-output.v1.invalid.json"),
                    exclusion: None,
                    producer: Some(AdoptionLocator {
                        package: "kanban-cli",
                        test_target: "cli_label_contract_adoption",
                        exact_test: "generic_signals_record_review_and_confirm_flow_through_real_cli",
                    }),
                    consumer: Some(AdoptionLocator {
                        package: "kanban-cli",
                        test_target: "cli_label_contract_adoption",
                        exact_test: "generic_signals_record_review_and_confirm_flow_through_real_cli",
                    }),
                },
            ],
        },
        OperationDeclaration {
            operation_id: "cli.signal-record",
            surface: ContractSurface::Cli,
            method: None,
            path: None,
            operation: "signal record",
            key: "signal record",
            migration: MigrationState::Adopted,
            exclusion: None,
            shared_components: &[],
            header_profile: None,
            mcp_policy: None,
            obligation_overrides: &[],
            contracts: &[
                ContractDeclaration {
                    id: "cli.signal-record.output",
                    path: "kanban signal record --json stdout",
                    operation: None,
                    location: None,
                    operation_key: None,
                    parameters: &[],
                    direction: ContractDirection::Serialize,
                    strictness: ContractStrictness::DenyUnknownFields,
                    granularity: ContractGranularity::Exact,
                    binding: ContractBinding::ExactSurface,
                    schema_id: Some("urn:kanban-tool:schema:cli:signal-record-output:v1"),
                    artifact_path: Some("cli/signal-record-output.v1.schema.json"),
                    schema_title: Some("Kanban CLI signal record output v1"),
                    valid_fixture: Some("schemas/fixtures/cli/signal-record-output.v1.valid.json"),
                    invalid_fixture: Some("schemas/fixtures/cli/signal-record-output.v1.invalid.json"),
                    exclusion: None,
                    producer: Some(AdoptionLocator {
                        package: "kanban-cli",
                        test_target: "cli_label_contract_adoption",
                        exact_test: "generic_signals_record_review_and_confirm_flow_through_real_cli",
                    }),
                    consumer: Some(AdoptionLocator {
                        package: "kanban-cli",
                        test_target: "cli_label_contract_adoption",
                        exact_test: "generic_signals_record_review_and_confirm_flow_through_real_cli",
                    }),
                },
            ],
        },
        OperationDeclaration {
            operation_id: "cli.signal-reject",
            surface: ContractSurface::Cli,
            method: None,
            path: None,
            operation: "signal reject",
            key: "signal reject",
            migration: MigrationState::Adopted,
            exclusion: None,
            shared_components: &[],
            header_profile: None,
            mcp_policy: None,
            obligation_overrides: &[],
            contracts: &[
                ContractDeclaration {
                    id: "cli.signal-reject.output",
                    path: "kanban signal reject --json stdout",
                    operation: None,
                    location: None,
                    operation_key: None,
                    parameters: &[],
                    direction: ContractDirection::Serialize,
                    strictness: ContractStrictness::DenyUnknownFields,
                    granularity: ContractGranularity::Exact,
                    binding: ContractBinding::ExactSurface,
                    schema_id: Some("urn:kanban-tool:schema:cli:signal-reject-output:v1"),
                    artifact_path: Some("cli/signal-reject-output.v1.schema.json"),
                    schema_title: Some("Kanban CLI signal reject output v1"),
                    valid_fixture: Some("schemas/fixtures/cli/signal-reject-output.v1.valid.json"),
                    invalid_fixture: Some("schemas/fixtures/cli/signal-reject-output.v1.invalid.json"),
                    exclusion: None,
                    producer: Some(AdoptionLocator {
                        package: "kanban-cli",
                        test_target: "cli_label_contract_adoption",
                        exact_test: "generic_signals_record_review_and_confirm_flow_through_real_cli",
                    }),
                    consumer: Some(AdoptionLocator {
                        package: "kanban-cli",
                        test_target: "cli_label_contract_adoption",
                        exact_test: "generic_signals_record_review_and_confirm_flow_through_real_cli",
                    }),
                },
            ],
        },
        OperationDeclaration {
            operation_id: "cli.signal-resolve",
            surface: ContractSurface::Cli,
            method: None,
            path: None,
            operation: "signal resolve",
            key: "signal resolve",
            migration: MigrationState::Adopted,
            exclusion: None,
            shared_components: &[],
            header_profile: None,
            mcp_policy: None,
            obligation_overrides: &[],
            contracts: &[
                ContractDeclaration {
                    id: "cli.signal-resolve.output",
                    path: "kanban signal resolve --json stdout",
                    operation: None,
                    location: None,
                    operation_key: None,
                    parameters: &[],
                    direction: ContractDirection::Serialize,
                    strictness: ContractStrictness::DenyUnknownFields,
                    granularity: ContractGranularity::Exact,
                    binding: ContractBinding::ExactSurface,
                    schema_id: Some("urn:kanban-tool:schema:cli:signal-resolve-output:v1"),
                    artifact_path: Some("cli/signal-resolve-output.v1.schema.json"),
                    schema_title: Some("Kanban CLI signal resolve output v1"),
                    valid_fixture: Some("schemas/fixtures/cli/signal-resolve-output.v1.valid.json"),
                    invalid_fixture: Some("schemas/fixtures/cli/signal-resolve-output.v1.invalid.json"),
                    exclusion: None,
                    producer: Some(AdoptionLocator {
                        package: "kanban-cli",
                        test_target: "cli_label_contract_adoption",
                        exact_test: "generic_signals_record_review_and_confirm_flow_through_real_cli",
                    }),
                    consumer: Some(AdoptionLocator {
                        package: "kanban-cli",
                        test_target: "cli_label_contract_adoption",
                        exact_test: "generic_signals_record_review_and_confirm_flow_through_real_cli",
                    }),
                },
            ],
        },
        OperationDeclaration {
            operation_id: "cli.signal-review",
            surface: ContractSurface::Cli,
            method: None,
            path: None,
            operation: "signal review",
            key: "signal review",
            migration: MigrationState::Adopted,
            exclusion: None,
            shared_components: &[],
            header_profile: None,
            mcp_policy: None,
            obligation_overrides: &[],
            contracts: &[
                ContractDeclaration {
                    id: "cli.signal-review.output",
                    path: "kanban signal review --json stdout",
                    operation: None,
                    location: None,
                    operation_key: None,
                    parameters: &[],
                    direction: ContractDirection::Serialize,
                    strictness: ContractStrictness::DenyUnknownFields,
                    granularity: ContractGranularity::Exact,
                    binding: ContractBinding::ExactSurface,
                    schema_id: Some("urn:kanban-tool:schema:cli:signal-review-output:v1"),
                    artifact_path: Some("cli/signal-review-output.v1.schema.json"),
                    schema_title: Some("Kanban CLI signal review output v1"),
                    valid_fixture: Some("schemas/fixtures/cli/signal-review-output.v1.valid.json"),
                    invalid_fixture: Some("schemas/fixtures/cli/signal-review-output.v1.invalid.json"),
                    exclusion: None,
                    producer: Some(AdoptionLocator {
                        package: "kanban-cli",
                        test_target: "cli_label_contract_adoption",
                        exact_test: "generic_signals_record_review_and_confirm_flow_through_real_cli",
                    }),
                    consumer: Some(AdoptionLocator {
                        package: "kanban-cli",
                        test_target: "cli_label_contract_adoption",
                        exact_test: "generic_signals_record_review_and_confirm_flow_through_real_cli",
                    }),
                },
            ],
        },
        OperationDeclaration {
            operation_id: "cli.signal-show",
            surface: ContractSurface::Cli,
            method: None,
            path: None,
            operation: "signal show",
            key: "signal show",
            migration: MigrationState::Adopted,
            exclusion: None,
            shared_components: &[],
            header_profile: None,
            mcp_policy: None,
            obligation_overrides: &[],
            contracts: &[
                ContractDeclaration {
                    id: "cli.signal-show.output",
                    path: "kanban signal show --json stdout",
                    operation: None,
                    location: None,
                    operation_key: None,
                    parameters: &[],
                    direction: ContractDirection::Serialize,
                    strictness: ContractStrictness::DenyUnknownFields,
                    granularity: ContractGranularity::Exact,
                    binding: ContractBinding::ExactSurface,
                    schema_id: Some("urn:kanban-tool:schema:cli:signal-show-output:v1"),
                    artifact_path: Some("cli/signal-show-output.v1.schema.json"),
                    schema_title: Some("Kanban CLI signal show output v1"),
                    valid_fixture: Some("schemas/fixtures/cli/signal-show-output.v1.valid.json"),
                    invalid_fixture: Some("schemas/fixtures/cli/signal-show-output.v1.invalid.json"),
                    exclusion: None,
                    producer: Some(AdoptionLocator {
                        package: "kanban-cli",
                        test_target: "cli_label_contract_adoption",
                        exact_test: "generic_signals_record_review_and_confirm_flow_through_real_cli",
                    }),
                    consumer: Some(AdoptionLocator {
                        package: "kanban-cli",
                        test_target: "cli_label_contract_adoption",
                        exact_test: "generic_signals_record_review_and_confirm_flow_through_real_cli",
                    }),
                },
            ],
        },
        OperationDeclaration {
            operation_id: "cli.signal-supersede",
            surface: ContractSurface::Cli,
            method: None,
            path: None,
            operation: "signal supersede",
            key: "signal supersede",
            migration: MigrationState::Adopted,
            exclusion: None,
            shared_components: &[],
            header_profile: None,
            mcp_policy: None,
            obligation_overrides: &[],
            contracts: &[
                ContractDeclaration {
                    id: "cli.signal-supersede.output",
                    path: "kanban signal supersede --json stdout",
                    operation: None,
                    location: None,
                    operation_key: None,
                    parameters: &[],
                    direction: ContractDirection::Serialize,
                    strictness: ContractStrictness::DenyUnknownFields,
                    granularity: ContractGranularity::Exact,
                    binding: ContractBinding::ExactSurface,
                    schema_id: Some("urn:kanban-tool:schema:cli:signal-supersede-output:v1"),
                    artifact_path: Some("cli/signal-supersede-output.v1.schema.json"),
                    schema_title: Some("Kanban CLI signal supersede output v1"),
                    valid_fixture: Some("schemas/fixtures/cli/signal-supersede-output.v1.valid.json"),
                    invalid_fixture: Some("schemas/fixtures/cli/signal-supersede-output.v1.invalid.json"),
                    exclusion: None,
                    producer: Some(AdoptionLocator {
                        package: "kanban-cli",
                        test_target: "cli_label_contract_adoption",
                        exact_test: "generic_signals_record_review_and_confirm_flow_through_real_cli",
                    }),
                    consumer: Some(AdoptionLocator {
                        package: "kanban-cli",
                        test_target: "cli_label_contract_adoption",
                        exact_test: "generic_signals_record_review_and_confirm_flow_through_real_cli",
                    }),
                },
            ],
        },
    ]
}

/// Every API or SSE operation of the catalog names a method and a path, and every
/// child that declares a schema declares its full metadata.
pub proof fn lemma_cli_labels_operations_ready()
    ensures
        endpoints_ready(cli_labels_operations()),
        schemas_ready(cli_labels_operations()),
{
    reveal(cli_labels_operations);
    let ops = cli_labels_operations();
    assert forall|i: int| 0 <= i < ops.len() && is_http_surface(#[trigger] ops[i].surface) implies endpoint_ready(ops[i]) by {
        if i == 0 {
        } else if i == 1 {
        } else if i == 2 {
        } else if i == 3 {
        } else if i == 4 {
        } else if i == 5 {
        } else if i == 6 {
        } else if i == 7 {
        } else if i == 8 {
        } else if i == 9 {
        } else if i == 10 {
        } else if i == 11 {
        } else if i == 12 {
        } else if i == 13 {
        } else if i == 14 {
        } else if i == 15 {
        } else if i == 16 {
        } else if i == 17 {
        } else if i == 18 {
        } else if i == 19 {
        } else if i == 20 {
        } else if i == 21 {
        } else if i == 22 {
        } else if i == 23 {
        } else if i == 24 {
        } else if i == 25 {
        } else if i == 26 {
        } else if i == 27 {
        } else if i == 28 {
        } else if i == 29 {
        } else if i == 30 {
        } else if i == 31 {
        } else if i == 32 {
        } else if i == 33 {
        } else if i == 34 {
        } else if i == 35 {
        } else if i == 36 {
        } else if i == 37 {
        } else if i == 38 {
        } else if i == 39 {
        } else if i == 40 {
        } else if i == 41 {
        } else if i == 42 {
        } else if i == 43 {
        } else if i == 44 {
        }
    }
    assert forall|i: int, j: int| 0 <= i < ops.len() && 0 <= j < ops[i].contracts@.len() implies schema_ready(#[trigger] ops[i].contracts@[j]) by {
        if i == 0 {
            if j == 0 {
            }
        } else if i == 1 {
            if j == 0 {
            }
        } else if i == 2 {
            if j == 0 {
            }
        } else if i == 3 {
            if j == 0 {
            }
        } else if i == 4 {
            if j == 0 {
            }
        } else if i == 5 {
            if j == 0 {
            }
        } else if i == 6 {
            if j == 0 {
            }
        } else if i == 7 {
            if j == 0 {
            }
        } else if i == 8 {
            if j == 0 {
            }
        } else if i == 9 {
            if j == 0 {
            }
        } else if i == 10 {
            if j == 0 {
            }
        } else if i == 11 {
            if j == 0 {
            }
        } else if i == 12 {
            if j == 0 {
            }
        } else if i == 13 {
            if j == 0 {
            }
        } else if i == 14 {
            if j == 0 {
            }
        } else if i == 15 {
            if j == 0 {
            }
        } else if i == 16 {
            if j == 0 {
            }
        } else if i == 17 {
            if j == 0 {
            }
        } else if i == 18 {
            if j == 0 {
            }
        } else if i == 19 {
            if j == 0 {
            }
        } else if i == 20 {
            if j == 0 {
            }
        } else if i == 21 {
            if j == 0 {
            }
        } else if i == 22 {
            if j == 0 {
            }
        } else if i == 23 {
            if j == 0 {
            }
        } else if i == 24 {
            if j == 0 {
            }
        } else if i == 25 {
            if j == 0 {
            }
        } else if i == 26 {
            if j == 0 {
            }
        } else if i == 27 {
            if j == 0 {
            }
        } else if i == 28 {
            if j == 0 {
            }
        } else if i == 29 {
            if j == 0 {
            }
        } else if i == 30 {
            if j == 0 {
            }
        } else if i == 31 {
            if j == 0 {
            }
        } else if i == 32 {
            if j == 0 {
            }
        } else if i == 33 {
            if j == 0 {
            }
        } else if i == 34 {
            if j == 0 {
            }
        } else if i == 35 {
            if j == 0 {
            }
        } else if i == 36 {
        } else if i == 37 {
            if j == 0 {
            }
        } else if i == 38 {
            if j == 0 {
            }
        } else if i == 39 {
            if j == 0 {
            }
        } else if i == 40 {
            if j == 0 {
            }
        } else if i == 41 {
            if j == 0 {
            }
        } else if i == 42 {
            if j == 0 {
            }
        } else if i == 43 {
            if j == 0 {
            }
        } else if i == 44 {
            if j == 0 {
            }
        }
    }
}

/// The operation declarations of this catalog, in source order.
pub fn operation_declarations() -> (r: Vec<OperationDeclaration>)
    ensures
        r@ == cli_labels_operations(),
{
    reveal(cli_labels_operations);
    vec![
        OperationDeclaration {
            operation_id: "cli.label-add",
            surface: ContractSurface::Cli,
            method: None,
            path: None,
            operation: "label add",
            key: "label add",
            migration: MigrationState::Adopted,
            exclusion: None,
            shared_components: &[],
            header_profile: None,
            mcp_policy: None,
            obligation_overrides: &[],
            contracts: &[
                ContractDeclaration {
                    id: "cli.label-add.output",
                    path: "kanban label add --json stdout",
                    operation: None,
                    location: None,
                    operation_key: None,
                    parameters: &[],
                    direction: ContractDirection::Serialize,
                    strictness: ContractStrictness::DenyUnknownFields,
                    granularity: ContractGranularity::Exact,
                    binding: ContractBinding::ExactSurface,
                    schema_id: Some("urn:kanban-tool:schema:cli:label-add-output:v1"),
                    artifact_path: Some("cli/label-add-output.v1.schema.json"),
                    schema_title: Some("Kanban CLI label add output v1"),
                    valid_fixture: Some("schemas/fixtures/cli/label-add-output.v1.valid.json"),
                    invalid_fixture: Some("schemas/fixtures/cli/label-add-output.v1.invalid.json"),
                    exclusion: None,
                    producer: Some(AdoptionLocator {
                        package: "kanban-cli",
                        test_target: "cli_label_contract_adoption",
                        exact_test: "labels_semantics_atoms_and_proposals_flow_through_real_cli",
                    }),
                    consumer: Some(AdoptionLocator {
                        package: "kanban-cli",
                        test_target: "cli_label_contract_adoption",
                        exact_test: "labels_semantics_atoms_and_proposals_flow_through_real_cli",
                    }),
                },
            ],
        },
        OperationDeclaration {
            operation_id: "cli.label-atom-index-query",
            surface: ContractSurface::Cli,
            method: None,
            path: None,
            operation: "label atom-index query",
            key: "label atom-index query",
            migration: MigrationState::Adopted,
            exclusion: None,
            shared_components: &[],
            header_profile: None,
            mcp_policy: None,
            obligation_overrides: &[],
            contracts: &[
                ContractDeclaration {
                    id: "cli.label-atom-index-query.output",
                    path: "kanban label atom-index query --json stdout",
                    operation: None,
                    location: None,
                    operation_key: None,
                    parameters: &[],
                    direction: ContractDirection::Serialize,
                    strictness: ContractStrictness::DenyUnknownFields,
                    granularity: ContractGranularity::Exact,
                    binding: ContractBinding::ExactSurface,
                    schema_id: Some("urn:kanban-tool:schema:cli:label-atom-index-query-output:v1"),
                    artifact_path: Some("cli/label-atom-index-query-output.v1.schema.json"),
                    schema_title: Some("Kanban CLI label atom-index query output v1"),
                    valid_fixture: Some("schemas/fixtures/cli/label-atom-index-query-output.v1.valid.json"),
                    invalid_fixture: Some("schemas/fixtures/cli/label-atom-index-query-output.v1.invalid.json"),
                    exclusion: None,
                    producer: Some(AdoptionLocator {
                        package: "kanban-cli",
                        test_target: "cli_label_contract_adoption",
                        exact_test: "labels_semantics_atoms_and_proposals_flow_through_real_cli",
                    }),
                    consumer: Some(AdoptionLocator {
                        package: "kanban-cli",
                        test_target: "cli_label_contract_adoption",
                        exact_test: "labels_semantics_atoms_and_proposals_flow_through_real_cli",
                    }),
                },
            ],
        },
        OperationDeclaration {
            operation_id: "cli.label-atom-index-rebuild",
            surface: ContractSurface::Cli,
            method: None,
            path: None,
            operation: "label atom-index rebuild",
            key: "label atom-index rebuild",
            migration: MigrationState::Adopted,
            exclusion: None,
            shared_components: &[],
            header_profile: None,
            mcp_policy: None,
            obligation_overrides: &[],
            contracts: &[
                ContractDeclaration {
                    id: "cli.label-atom-index-rebuild.output",
                    path: "kanban label atom-index rebuild --json stdout",
                    operation: None,
                    location: None,
                    operation_key: None,
                    parameters: &[],
                    direction: ContractDirection::Serialize,
                    strictness: ContractStrictness::DenyUnknownFields,
                    granularity: ContractGranularity::Exact,
                    binding: ContractBinding::ExactSurface,
                    schema_id: Some("urn:kanban-tool:schema:cli:label-atom-index-rebuild-output:v1"),
                    artifact_path: Some("cli/label-atom-index-rebuild-output.v1.schema.json"),
                    schema_title: Some("Kanban CLI label atom-index rebuild output v1"),
                    valid_fixture: Some("schemas/fixtures/cli/label-atom-index-rebuild-output.v1.valid.json"),
                    invalid_fixture: Some("schemas/fixtures/cli/label-atom-index-rebuild-output.v1.invalid.json"),
                    exclusion: None,
                    producer: Some(AdoptionLocator {
                        package: "kanban-cli",
                        test_target: "cli_label_contract_adoption",
                        exact_test: "labels_semantics_atoms_and_proposals_flow_through_real_cli",
                    }),
                    consumer: Some(AdoptionLocator {
                        package: "kanban-cli",
                        test_target: "cli_label_contract_adoption",
                        exact_test: "labels_semantics_atoms_and_proposals_flow_through_real_cli",
                    }),
                },
            ],
        },
        OperationDeclaration {
            operation_id: "cli.label-atom-index-status",
            surface: ContractSurface::Cli,
            method: None,
            path: None,
            operation: "label atom-index status",
            key: "label atom-index status",
            migration: MigrationState::Adopted,
            exclusion: None,
            shared_components: &[],
            header_profile: None,
            mcp_policy: None,
            obligation_overrides: &[],
            contracts: &[
                ContractDeclaration {
                    id: "cli.label-atom-index-status.output",
                    path: "kanban label atom-index status --json stdout",
                    operation: None,
                    location: None,
                    operation_key: None,
                    parameters: &[],
                    direction: ContractDirection::Serialize,
                    strictness: ContractStrictness::DenyUnknownFields,
                    granularity: ContractGranularity::Exact,
                    binding: ContractBinding::ExactSurface,
                    schema_id: Some("urn:kanban-tool:schema:cli:label-atom-index-status-output:v1"),
                    artifact_path: Some("cli/label-atom-index-status-output.v1.schema.json"),
                    schema_title: Some("Kanban CLI label atom-index status output v1"),
                    valid_fixture: Some("schemas/fixtures/cli/label-atom-index-status-output.v1.valid.json"),
                    invalid_fixture: Some("schemas/fixtures/cli/label-atom-index-status-output.v1.invalid.json"),
                    exclusion: None,
                    producer: Some(AdoptionLocator {
                        package: "kanban-cli",
                        test_target: "cli_label_contract_adoption",
                        exact_test: "labels_semantics_atoms_and_proposals_flow_through_real_cli",
                    }),
                    consumer: Some(AdoptionLocator {
                        package: "kanban-cli",
                        test_target: "cli_label_contract_adoption",
                        exact_test: "labels_semantics_atoms_and_proposals_flow_through_real_cli",
                    }),
                },
            ],
        },
        OperationDeclaration {
            operation_id: "cli.label-atoms-explain",
            surface: ContractSurface::Cli,
            method: None,
            path: None,
            operation: "label atoms explain",
            key: "label atoms explain",
            migration: MigrationState::Adopted,
            exclusion: None,
            shared_components: &[],
            header_profile: None,
            mcp_policy: None,
            obligation_overrides: &[],
            contracts: &[
                ContractDeclaration {
                    id: "cli.label-atoms-explain.output",
                    path: "kanban label atoms explain --json stdout",
                    operation: None,
                    location: None,
                    operation_key: None,
                    parameters: &[],
                    direction: ContractDirection::Serialize,
                    strictness: ContractStrictness::DenyUnknownFields,
                    granularity: ContractGranularity::Exact,
                    binding: ContractBinding::ExactSurface,
                    schema_id: Some("urn:kanban-tool:schema:cli:label-atoms-explain-output:v1"),
                    artifact_path: Some("cli/label-atoms-explain-output.v1.schema.json"),
                    schema_title: Some("Kanban CLI label atoms explain output v1"),
                    valid_fixture: Some("schemas/fixtures/cli/label-atoms-explain-output.v1.valid.json"),
                    invalid_fixture: Some("schemas/fixtures/cli/label-atoms-explain-output.v1.invalid.json"),
                    exclusion: None,
                    producer: Some(AdoptionLocator {
                        package: "kanban-cli",
                        test_target: "cli_label_contract_adoption",
                        exact_test: "labels_semantics_atoms_and_proposals_flow_through_real_cli",
                    }),
                    consumer: Some(AdoptionLocator {
                        package: "kanban-cli",
                        test_target: "cli_label_contract_adoption",
                        exact_test: "labels_semantics_atoms_and_proposals_flow_through_real_cli",
                    }),
                },
            ],
        },
        OperationDeclaration {
            operation_id: "cli.label-atoms-list",
            surface: ContractSurface::Cli,
            method: None,
            path: None,
            operation: "label atoms list",
            key: "label atoms list",
            migration: MigrationState::Adopted,
            exclusion: None,
            shared_components: &[],
            header_profile: None,
            mcp_policy: None,
            obligation_overrides: &[],
            contracts: &[
                ContractDeclaration {
                    id: "cli.label-atoms-list.output",
                    path: "kanban label atoms list --json stdout",
                    operation: None,
                    location: None,
                    operation_key: None,
                    parameters: &[],
                    direction: ContractDirection::Serialize,
                    strictness: ContractStrictness::DenyUnknownFields,
                    granularity: ContractGranularity::Exact,
                    binding: ContractBinding::ExactSurface,
                    schema_id: Some("urn:kanban-tool:schema:cli:label-atoms-list-output:v1"),
                    artifact_path: Some("cli/label-atoms-list-output.v1.schema.json"),
                    schema_title: Some("Kanban CLI label atoms list output v1"),
                    valid_fixture: Some("schemas/fixtures/cli/label-atoms-list-output.v1.valid.json"),
                    invalid_fixture: Some("schemas/fixtures/cli/label-atoms-list-output.v1.invalid.json"),
                    exclusion: None,
                    producer: Some(AdoptionLocator {
                        package: "kanban-cli",
                        test_target: "cli_label_contract_adoption",
                        exact_test: "labels_semantics_atoms_and_proposals_flow_through_real_cli",
                    }),
                    consumer: Some(AdoptionLocator {
                        package: "kanban-cli",
                        test_target: "cli_label_contract_adoption",
                        exact_test: "labels_semantics_atoms_and_proposals_flow_through_real_cli",
                    }),
                },
            ],
        },
        OperationDeclaration {
            operation_id: "cli.label-create",
            surface: ContractSurface::Cli,
            method: None,
            path: None,
            operation: "label create",
            key: "label create",
            migration: MigrationState::Adopted,
            exclusion: None,
            shared_components: &[],
            header_profile: None,
            mcp_policy: None,
            obligation_overrides: &[],
            contracts: &[
                ContractDeclaration {
                    id: "cli.label-create.output",
                    path: "kanban label create --json stdout",
                    operation: None,
                    location: None,
                    operation_key: None,
                    parameters: &[],
                    direction: ContractDirection::Serialize,
                    strictness: ContractStrictness::DenyUnknownFields,
                    granularity: ContractGranularity::Exact,
                    binding: ContractBinding::ExactSurface,
                    schema_id: Some("urn:kanban-tool:schema:cli:label-create-output:v1"),
                    artifact_path: Some("cli/label-create-output.v1.schema.json"),
                    schema_title: Some("Kanban CLI label create output v1"),
                    valid_fixture: Some("schemas/fixtures/cli/label-create-output.v1.valid.json"),
                    invalid_fixture: Some("schemas/fixtures/cli/label-create-output.v1.invalid.json"),
                    exclusion: None,
                    producer: Some(AdoptionLocator {
                        package: "kanban-cli",
                        test_target: "cli_label_contract_adoption",
                        exact_test: "labels_semantics_atoms_and_proposals_flow_through_real_cli",
                    }),
                    consumer: Some(AdoptionLocator {
                        package: "kanban-cli",
                        test_target: "cli_label_contract_adoption",
                        exact_test: "labels_semantics_atoms_and_proposals_flow_through_real_cli",
                    }),
                },
            ],
        },
        OperationDeclaration {
            operation_id: "cli.label-delete",
            surface: ContractSurface::Cli,
            method: None,
            path: None,
            operation: "label delete",
            key: "label delete",
            migration: MigrationState::Adopted,
            exclusion: None,
            shared_components: &[],
            header_profile: None,
            mcp_policy: None,
            obligation_overrides: &[],
            contracts: &[
                ContractDeclaration {
                    id: "cli.label-delete.output",
                    path: "kanban label delete --json stdout",
                    operation: None,
                    location: None,
                    operation_key: None,
                    parameters: &[],
                    direction: ContractDirection::Serialize,
                    strictness: ContractStrictness::DenyUnknownFields,
                    granularity: ContractGranularity::Exact,
                    binding: ContractBinding::ExactSurface,
                    schema_id: Some("urn:kanban-tool:schema:cli:label-delete-output:v1"),
                    artifact_path: Some("cli/label-delete-output.v1.schema.json"),
                    schema_title: Some("Kanban CLI label delete output v1"),
                    valid_fixture: Some("schemas/fixtures/cli/label-delete-output.v1.valid.json"),
                    invalid_fixture: Some("schemas/fixtures/cli/label-delete-output.v1.invalid.json"),
                    exclusion: None,
                    producer: Some(AdoptionLocator {
                        package: "kanban-cli",
                        test_target: "cli_label_contract_adoption",
                        exact_test: "labels_semantics_atoms_and_proposals_flow_through_real_cli",
                    }),
                    consumer: Some(AdoptionLocator {
                        package: "kanban-cli",
                        test_target: "cli_label_contract_adoption",
                        exact_test: "labels_semantics_atoms_and_proposals_flow_through_real_cli",
                    }),
                },
            ],
        },
        OperationDeclaration {
            operation_id: "cli.label-list",
            surface: ContractSurface::Cli,
            method: None,
            path: None,
            operation: "label list",
            key: "label list",
            migration: MigrationState::Adopted,
            exclusion: None,
            shared_components: &[],
            header_profile: None,
            mcp_policy: None,
            obligation_overrides: &[],
            contracts: &[
                ContractDeclaration {
                    id: "cli.label-list.output",
                    path: "kanban label list --json stdout",
                    operation: None,
                    location: None,
                    operation_key: None,
                    parameters: &[],
                    direction: ContractDirection::Serialize,
                    strictness: ContractStrictness::DenyUnknownFields,
                    granularity: ContractGranularity::Exact,
                    binding: ContractBinding::ExactSurface,
                    schema_id: Some("urn:kanban-tool:schema:cli:label-list-output:v1"),
                    artifact_path: Some("cli/label-list-output.v1.schema.json"),
                    schema_title: Some("Kanban CLI label list output v1"),
                    valid_fixture: Some("schemas/fixtures/cli/label-list-output.v1.valid.json"),
                    invalid_fixture: Some("schemas/fixtures/cli/label-list-output.v1.invalid.json"),
                    exclusion: None,
                    producer: Some(AdoptionLocator {
                        package: "kanban-cli",
                        test_target: "cli_label_contract_adoption",
                        exact_test: "labels_semantics_atoms_and_proposals_flow_through_real_cli",
                    }),
                    consumer: Some(AdoptionLocator {
                        package: "kanban-cli",
                        test_target: "cli_label_contract_adoption",
                        exact_test: "labels_semantics_atoms_and_proposals_flow_through_real_cli",
                    }),
                },
            ],
        },
        OperationDeclaration {
            operation_id: "cli.label-ontology-apply-atom",
            surface: ContractSurface::Cli,
            method: None,
            path: None,
            operation: "label ontology apply atom",
            key: "label ontology apply atom",
            migration: MigrationState::Adopted,
            exclusion: None,
            shared_components: &[],
            header_profile: None,
            mcp_policy: None,
            obligation_overrides: &[],
            contracts: &[
                ContractDeclaration {
                    id: "cli.label-ontology-apply-atom.output",
                    path: "kanban label ontology apply atom --json stdout",
                    operation: None,
                    location: None,
                    operation_key: None,
                    parameters: &[],
                    direction: ContractDirection::Serialize,
                    strictness: ContractStrictness::DenyUnknownFields,
                    granularity: ContractGranularity::Exact,
                    binding: ContractBinding::ExactSurface,
                    schema_id: Some("urn:kanban-tool:schema:cli:label-ontology-apply-atom-output:v1"),
                    artifact_path: Some("cli/label-ontology-apply-atom-output.v1.schema.json"),
                    schema_title: Some("Kanban CLI label ontology apply atom output v1"),
                    valid_fixture: Some("schemas/fixtures/cli/label-ontology-apply-atom-output.v1.valid.json"),
                    invalid_fixture: Some("schemas/fixtures/cli/label-ontology-apply-atom-output.v1.invalid.json"),
                    exclusion: None,
                    producer: Some(AdoptionLocator {
                        package: "kanban-cli",
                        test_target: "cli_label_contract_adoption",
                        exact_test: "ontology_observation_signal_review_and_action_flow_through_real_cli",
                    }),
                    consumer: Some(AdoptionLocator {
                        package: "kanban-cli",
                        test_target: "cli_label_contract_adoption",
                        exact_test: "ontology_observation_signal_review_and_action_flow_through_real_cli",
                    }),
                },
            ],
        },
        OperationDeclaration {
            operation_id: "cli.label-ontology-confirm",
            surface: ContractSurface::Cli,
            method: None,
            path: None,
            operation: "label ontology confirm",
            key: "label ontology confirm",
            migration: MigrationState::Adopted,
            exclusion: None,
            shared_components: &[],
            header_profile: None,
            mcp_policy: None,
            obligation_overrides: &[],
            contracts: &[
                ContractDeclaration {
                    id: "cli.label-ontology-confirm.output",
                    path: "kanban label ontology confirm --json stdout",
                    operation: None,
                    location: None,
                    operation_key: None,
                    parameters: &[],
                    direction: ContractDirection::Serialize,
                    strictness: ContractStrictness::DenyUnknownFields,
                    granularity: ContractGranularity::Exact,
                    binding: ContractBinding::ExactSurface,
                    schema_id: Some("urn:kanban-tool:schema:cli:label-ontology-confirm-output:v1"),
                    artifact_path: Some("cli/label-ontology-confirm-output.v1.schema.json"),
                    schema_title: Some("Kanban CLI label ontology confirm output v1"),
                    valid_fixture: Some("schemas/fixtures/cli/label-ontology-confirm-output.v1.valid.json"),
                    invalid_fixture: Some("schemas/fixtures/cli/label-ontology-confirm-output.v1.invalid.json"),
                    exclusion: None,
                    producer: Some(AdoptionLocator {
                        package: "kanban-cli",
                        test_target: "cli_label_contract_adoption",
                        exact_test: "ontology_observation_signal_review_and_action_flow_through_real_cli",
                    }),
                    consumer: Some(AdoptionLocator {
                        package: "kanban-cli",
                        test_target: "cli_label_contract_adoption",
                        exact_test: "ontology_observation_signal_review_and_action_flow_through_real_cli",
                    }),
                },
            ],
        },
        OperationDeclaration {
            operation_id: "cli.label-ontology-list",
            surface: ContractSurface::Cli,
            method: None,
            path: None,
            operation: "label ontology list",
            key: "label ontology list",
            migration: MigrationState::Adopted,
            exclusion: None,
            shared_components: &[],
            header_profile: None,
            mcp_policy: None,
            obligation_overrides: &[],
            contracts: &[
                ContractDeclaration {
                    id: "cli.label-ontology-list.output",
                    path: "kanban label ontology list --json stdout",
                    operation: None,
                    location: None,
                    operation_key: None,
                    parameters: &[],
                    direction: ContractDirection::Serialize,
                    strictness: ContractStrictness::DenyUnknownFields,
                    granularity: ContractGranularity::Exact,
                    binding: ContractBinding::ExactSurface,
                    schema_id: Some("urn:kanban-tool:schema:cli:label-ontology-list-output:v1"),
                    artifact_path: Some("cli/label-ontology-list-output.v1.schema.json"),
                    schema_title: Some("Kanban CLI label ontology list output v1"),
                    valid_fixture: Some("schemas/fixtures/cli/label-ontology-list-output.v1.valid.json"),
                    invalid_fixture: Some("schemas/fixtures/cli/label-ontology-list-output.v1.invalid.json"),
                    exclusion: None,
                    producer: Some(AdoptionLocator {
                        package: "kanban-cli",
                        test_target: "cli_label_contract_adoption",
                        exact_test: "ontology_observation_signal_review_and_action_flow_through_real_cli",
                    }),
                    consumer: Some(AdoptionLocator {
                        package: "kanban-cli",
                        test_target: "cli_label_contract_adoption",
                        exact_test: "ontology_observation_signal_review_and_action_flow_through_real_cli",
                    }),
                },
            ],
        },
        OperationDeclaration {
            operation_id: "cli.label-ontology-quality",
            surface: ContractSurface::Cli,
            method: None,
            path: None,
            operation: "label ontology quality",
            key: "label ontology quality",
            migration: MigrationState::Adopted,
            exclusion: None,
            shared_components: &[],
            header_profile: None,
            mcp_policy: None,
            obligation_overrides: &[],
            contracts: &[
                ContractDeclaration {
                    id: "cli.label-ontology-quality.output",
                    path: "kanban label ontology quality --json stdout",
                    operation: None,
                    location: None,
                    operation_key: None,
                    parameters: &[],
                    direction: ContractDirection::Serialize,
                    strictness: ContractStrictness::DenyUnknownFields,
                    granularity: ContractGranularity::Exact,
                    binding: ContractBinding::ExactSurface,
                    schema_id: Some("urn:kanban-tool:schema:cli:label-ontology-quality-output:v1"),
                    artifact_path: Some("cli/label-ontology-quality-output.v1.schema.json"),
                    schema_title: Some("Kanban CLI label ontology quality output v1"),
                    valid_fixture: Some("schemas/fixtures/cli/label-ontology-quality-output.v1.valid.json"),
                    invalid_fixture: Some("schemas/fixtures/cli/label-ontology-quality-output.v1.invalid.json"),
                    exclusion: None,
                    producer: Some(AdoptionLocator {
                        package: "kanban-cli",
                        test_target: "cli_label_contract_adoption",
                        exact_test: "ontology_observation_signal_review_and_action_flow_through_real_cli",
                    }),
                    consumer: Some(AdoptionLocator {
                        package: "kanban-cli",
                        test_target: "cli_label_contract_adoption",
                        exact_test: "ontology_observation_signal_review_and_action_flow_through_real_cli",
                    }),
                },
            ],
        },
        OperationDeclaration {
            operation_id: "cli.label-ontology-record",
            surface: ContractSurface::Cli,
            method: None,
            path: None,
            operation: "label ontology record",
            key: "label ontology record",
            migration: MigrationState::Adopted,
            exclusion: None,
            shared_components: &[],
            header_profile: None,
            mcp_policy: None,
            obligation_overrides: &[],
            contracts: &[
                ContractDeclaration {
                    id: "cli.label-ontology-record.output",
                    path: "kanban label ontology record --json stdout",
                    operation: None,
                    location: None,
                    operation_key: None,
                    parameters: &[],
                    direction: ContractDirection::Serialize,
                    strictness: ContractStrictness::DenyUnknownFields,
                    granularity: ContractGranularity::Exact,
                    binding: ContractBinding::ExactSurface,
                    schema_id: Some("urn:kanban-tool:schema:cli:label-ontology-record-output:v1"),
                    artifact_path: Some("cli/label-ontology-record-output.v1.schema.json"),
                    schema_title: Some("Kanban CLI label ontology record output v1"),
                    valid_fixture: Some("schemas/fixtures/cli/label-ontology-record-output.v1.valid.json"),
                    invalid_fixture: Some("schemas/fixtures/cli/label-ontology-record-output.v1.invalid.json"),
                    exclusion: None,
                    producer: Some(AdoptionLocator {
                        package: "kanban-cli",
                        test_target: "cli_label_contract_adoption",
                        exact_test: "ontology_observation_signal_review_and_action_flow_through_real_cli",
                    }),
                    consumer: Some(AdoptionLocator {
                        package: "kanban-cli",
                        test_target: "cli_label_contract_adoption",
                        exact_test: "ontology_observation_signal_review_and_action_flow_through_real_cli",
                    }),
                },
            ],
        },
        OperationDeclaration {
            operation_id: "cli.label-ontology-reject",
            surface: ContractSurface::Cli,
            method: None,
            path: None,
            operation: "label ontology reject",
            key: "label ontology reject",
            migration: MigrationState::Adopted,
            exclusion: None,
            shared_components: &[],
            header_profile: None,
            mcp_policy: None,
            obligation_overrides: &[],
            contracts: &[
                ContractDeclaration {
                    id: "cli.label-ontology-reject.output",
                    path: "kanban label ontology reject --json stdout",
                    operation: None,
                    location: None,
                    operation_key: None,
                    parameters: &[],
                    direction: ContractDirection::Serialize,
                    strictness: ContractStrictness::DenyUnknownFields,
                    granularity: ContractGranularity::Exact,
                    binding: ContractBinding::ExactSurface,
                    schema_id: Some("urn:kanban-tool:schema:cli:label-ontology-reject-output:v1"),
                    artifact_path: Some("cli/label-ontology-reject-output.v1.schema.json"),
                    schema_title: Some("Kanban CLI label ontology reject output v1"),
                    valid_fixture: Some("schemas/fixtures/cli/label-ontology-reject-output.v1.valid.json"),
                    invalid_fixture: Some("schemas/fixtures/cli/label-ontology-reject-output.v1.invalid.json"),
                    exclusion: None,
                    producer: Some(AdoptionLocator {
                        package: "kanban-cli",
                        test_target: "cli_label_contract_adoption",
                        exact_test: "ontology_observation_signal_review_and_action_flow_through_real_cli",
                    }),
                    consumer: Some(AdoptionLocator {
                        package: "kanban-cli",
                        test_target: "cli_label_contract_adoption",
                        exact_test: "ontology_observation_signal_review_and_action_flow_through_real_cli",
                    }),
                },
            ],
        },
        OperationDeclaration {
            operation_id: "cli.label-ontology-resolve",
            surface: ContractSurface::Cli,
            method: None,
            path: None,
            operation: "label ontology resolve",
            key: "label ontology resolve",
            migration: MigrationState::Adopted,
            exclusion: None,
            shared_components: &[],
            header_profile: None,
            mcp_policy: None,
            obligation_overrides: &[],
            contracts: &[
                ContractDeclaration {
                    id: "cli.label-ontology-resolve.output",
                    path: "kanban label ontology resolve --json stdout",
                    operation: None,
                    location: None,
                    operation_key: None,
                    parameters: &[],
                    direction: ContractDirection::Serialize,
                    strictness: ContractStrictness::DenyUnknownFields,
                    granularity: ContractGranularity::Exact,
                    binding: ContractBinding::ExactSurface,
                    schema_id: Some("urn:kanban-tool:schema:cli:label-ontology-resolve-output:v1"),
                    artifact_path: Some("cli/label-ontology-resolve-output.v1.schema.json"),
                    schema_title: Some("Kanban CLI label ontology resolve output v1"),
                    valid_fixture: Some("schemas/fixtures/cli/label-ontology-resolve-output.v1.valid.json"),
                    invalid_fixture: Some("schemas/fixtures/cli/label-ontology-resolve-output.v1.invalid.json"),
                    exclusion: None,
                    producer: Some(AdoptionLocator {
                        package: "kanban-cli",
                        test_target: "cli_label_contract_adoption",
                        exact_test: "ontology_observation_signal_review_and_action_flow_through_real_cli",
                    }),
                    consumer: Some(AdoptionLocator {
                        package: "kanban-cli",
                        test_target: "cli_label_contract_adoption",
                        exact_test: "ontology_observation_signal_review_and_action_flow_through_real_cli",
                    }),
                },
            ],
        },
        OperationDeclaration {
            operation_id: "cli.label-ontology-revert",
            surface: ContractSurface::Cli,
            method: None,
            path: None,
            operation: "label ontology revert",
            key: "label ontology revert",
            migration: MigrationState::Adopted,
            exclusion: None,
            shared_components: &[],
            header_profile: None,
            mcp_policy: None,
            obligation_overrides: &[],
            contracts: &[
                ContractDeclaration {
                    id: "cli.label-ontology-revert.output",
                    path: "kanban label ontology revert --json stdout",
                    operation: None,
                    location: None,
                    operation_key: None,
                    parameters: &[],
                    direction: ContractDirection::Serialize,
                    strictness: ContractStrictness::DenyUnknownFields,
                    granularity: ContractGranularity::Exact,
                    binding: ContractBinding::ExactSurface,
                    schema_id: Some("urn:kanban-tool:schema:cli:label-ontology-revert-output:v1"),
                    artifact_path: Some("cli/label-ontology-revert-output.v1.schema.json"),
                    schema_title: Some("Kanban CLI label ontology revert output v1"),
                    valid_fixture: Some("schemas/fixtures/cli/label-ontology-revert-output.v1.valid.json"),
                    invalid_fixture: Some("schemas/fixtures/cli/label-ontology-revert-output.v1.invalid.json"),
                    exclusion: None,
                    producer: Some(AdoptionLocator {
                        package: "kanban-cli",
                        test_target: "cli_label_contract_adoption",
                        exact_test: "ontology_observation_signal_review_and_action_flow_through_real_cli",
                    }),
                    consumer: Some(AdoptionLocator {
                        package: "kanban-cli",
                        test_target: "cli_label_contract_adoption",
                        exact_test: "ontology_observation_signal_review_and_action_flow_through_real_cli",
                    }),
                },
            ],
        },
        OperationDeclaration {
            operation_id: "cli.label-ontology-review",
            surface: ContractSurface::Cli,
            method: None,
            path: None,
            operation: "label ontology review",
            key: "label ontology review",
            migration: MigrationState::Adopted,
            exclusion: None,
            shared_components: &[],
            header_profile: None,
            mcp_policy: None,
            obligation_overrides: &[],
            contracts: &[
                ContractDeclaration {
                    id: "cli.label-ontology-review.output",
                    path: "kanban label ontology review --json stdout",
                    operation: None,
                    location: None,
                    operation_key: None,
                    parameters: &[],
                    direction: ContractDirection::Serialize,
                    strictness: ContractStrictness::DenyUnknownFields,
                    granularity: ContractGranularity::Exact,
                    binding: ContractBinding::ExactSurface,
                    schema_id: Some("urn:kanban-tool:schema:cli:label-ontology-review-output:v1"),
                    artifact_path: Some("cli/label-ontology-review-output.v1.schema.json"),
                    schema_title: Some("Kanban CLI label ontology review output v1"),
                    valid_fixture: Some("schemas/fixtures/cli/label-ontology-review-output.v1.valid.json"),
                    invalid_fixture: Some("schemas/fixtures/cli/label-ontology-review-output.v1.invalid.json"),
                    exclusion: None,
                    producer: Some(AdoptionLocator {
                        package: "kanban-cli",
                        test_target: "cli_label_contract_adoption",
                        exact_test: "ontology_observation_signal_review_and_action_flow_through_real_cli",
                    }),
                    consumer: Some(AdoptionLocator {
                        package: "kanban-cli",
                        test_target: "cli_label_contract_adoption",
                        exact_test: "ontology_observation_signal_review_and_action_flow_through_real_cli",
                    }),
                },
            ],
        },
        OperationDeclaration {
            operation_id: "cli.label-ontology-show",
            surface: ContractSurface::Cli,
            method: None,
            path: None,
            operation: "label ontology show",
            key: "label ontology show",
            migration: MigrationState::Adopted,
            exclusion: None,
            shared_components: &[],
            header_profile: None,
            mcp_policy: None,
            obligation_overrides: &[],
            contracts: &[
                ContractDeclaration {
                    id: "cli.label-ontology-show.output",
                    path: "kanban label ontology show --json stdout",
                    operation: None,
                    location: None,
                    operation_key: None,
                    parameters: &[],
                    direction: ContractDirection::Serialize,
                    strictness: ContractStrictness::DenyUnknownFields,
                    granularity: ContractGranularity::Exact,
                    binding: ContractBinding::ExactSurface,
                    schema_id: Some("urn:kanban-tool:schema:cli:label-ontology-show-output:v1"),
                    artifact_path: Some("cli/label-ontology-show-output.v1.schema.json"),
                    schema_title: Some("Kanban CLI label ontology show output v1"),
                    valid_fixture: Some("schemas/fixtures/cli/label-ontology-show-output.v1.valid.json"),
                    invalid_fixture: Some("schemas/fixtures/cli/label-ontology-show-output.v1.invalid.json"),
                    exclusion: None,
                    producer: Some(AdoptionLocator {
                        package: "kanban-cli",
                        test_target: "cli_label_contract_adoption",
                        exact_test: "ontology_observation_signal_review_and_action_flow_through_real_cli",
                    }),
                    consumer: Some(AdoptionLocator {
                        package: "kanban-cli",
                        test_target: "cli_label_contract_adoption",
                        exact_test: "ontology_observation_signal_review_and_action_flow_through_real_cli",
                    }),
                },
            ],
        },
        OperationDeclaration {
            operation_id: "cli.label-ontology-supersede",
            surface: ContractSurface::Cli,
            method: None,
            path: None,
            operation: "label ontology supersede",
            key: "label ontology supersede",
            migration: MigrationState::Adopted,
            exclusion: None,
            shared_components: &[],
            header_profile: None,
            mcp_policy: None,
            obligation_overrides: &[],
            contracts: &[
                ContractDeclaration {
                    id: "cli.label-ontology-supersede.output",
                    path: "kanban label ontology supersede --json stdout",
                    operation: None,
                    location: None,
                    operation_key: None,
                    parameters: &[],
                    direction: ContractDirection::Serialize,
                    strictness: ContractStrictness::DenyUnknownFields,
                    granularity: ContractGranularity::Exact,
                    binding: ContractBinding::ExactSurface,
                    schema_id: Some("urn:kanban-tool:schema:cli:label-ontology-supersede-output:v1"),
                    artifact_path: Some("cli/label-ontology-supersede-output.v1.schema.json"),
                    schema_title: Some("Kanban CLI label ontology supersede output v1"),
                    valid_fixture: Some("schemas/fixtures/cli/label-ontology-supersede-output.v1.valid.json"),
                    invalid_fixture: Some("schemas/fixtures/cli/label-ontology-supersede-output.v1.invalid.json"),
                    exclusion: None,
                    producer: Some(AdoptionLocator {
                        package: "kanban-cli",
                        test_target: "cli_label_contract_adoption",
                        exact_test: "ontology_observation_signal_review_and_action_flow_through_real_cli",
                    }),
                    consumer: Some(AdoptionLocator {
                        package: "kanban-cli",
                        test_target: "cli_label_contract_adoption",
                        exact_test: "ontology_observation_signal_review_and_action_flow_through_real_cli",
                    }),
                },
            ],
        },
        OperationDeclaration {
            operation_id: "cli.label-ontology-validate",
            surface: ContractSurface::Cli,
            method: None,
            path: None,
            operation: "label ontology validate",
            key: "label ontology validate",
            migration: MigrationState::Adopted,
            exclusion: None,
            shared_components: &[],
            header_profile: None,
            mcp_policy: None,
            obligation_overrides: &[],
            contracts: &[
                ContractDeclaration {
                    id: "cli.label-ontology-validate.output",
                    path: "kanban label ontology validate --json stdout",
                    operation: None,
                    location: None,
                    operation_key: None,
                    parameters: &[],
                    direction: ContractDirection::Serialize,
                    strictness: ContractStrictness::DenyUnknownFields,
                    granularity: ContractGranularity::Exact,
                    binding: ContractBinding::ExactSurface,
                    schema_id: Some("urn:kanban-tool:schema:cli:label-ontology-validate-output:v1"),
                    artifact_path: Some("cli/label-ontology-validate-output.v1.schema.json"),
                    schema_title: Some("Kanban CLI label ontology validate output v1"),
                    valid_fixture: Some("schemas/fixtures/cli/label-ontology-validate-output.v1.valid.json"),
                    invalid_fixture: Some("schemas/fixtures/cli/label-ontology-validate-output.v1.invalid.json"),
                    exclusion: None,
                    producer: Some(AdoptionLocator {
                        package: "kanban-cli",
                        test_target: "cli_label_contract_adoption",
                        exact_test: "ontology_observation_signal_review_and_action_flow_through_real_cli",
                    }),
                    consumer: Some(AdoptionLocator {
                        package: "kanban-cli",
                        test_target: "cli_label_contract_adoption",
                        exact_test: "ontology_observation_signal_review_and_action_flow_through_real_cli",
                    }),
                },
            ],
        },
        OperationDeclaration {
            operation_id: "cli.label-proposals-accept",
            surface: ContractSurface::Cli,
            method: None,
            path: None,
            operation: "label proposals accept",
            key: "label proposals accept",
            migration: MigrationState::Adopted,
            exclusion: None,
            shared_components: &[],
            header_profile: None,
            mcp_policy: None,
            obligation_overrides: &[],
            contracts: &[
                ContractDeclaration {
                    id: "cli.label-proposals-accept.output",
                    path: "kanban label proposals accept --json stdout",
                    operation: None,
                    location: None,
                    operation_key: None,
                    parameters: &[],
                    direction: ContractDirection::Serialize,
                    strictness: ContractStrictness::DenyUnknownFields,
                    granularity: ContractGranularity::Exact,
                    binding: ContractBinding::ExactSurface,
                    schema_id: Some("urn:kanban-tool:schema:cli:label-proposals-accept-output:v1"),
                    artifact_path: Some("cli/label-proposals-accept-output.v1.schema.json"),
                    schema_title: Some("Kanban CLI label proposals accept output v1"),
                    valid_fixture: Some("schemas/fixtures/cli/label-proposals-accept-output.v1.valid.json"),
                    invalid_fixture: Some("schemas/fixtures/cli/label-proposals-accept-output.v1.invalid.json"),
                    exclusion: None,
                    producer: Some(AdoptionLocator {
                        package: "kanban-cli",
                        test_target: "cli_label_contract_adoption",
                        exact_test: "labels_semantics_atoms_and_proposals_flow_through_real_cli",
                    }),
                    consumer: Some(AdoptionLocator {
                        package: "kanban-cli",
                        test_target: "cli_label_contract_adoption",
                        exact_test: "labels_semantics_atoms_and_proposals_flow_through_real_cli",
                    }),
                },
            ],
        },
        OperationDeclaration {
            operation_id: "cli.label-proposals-list",
            surface: ContractSurface::Cli,
            method: None,
            path: None,
            operation: "label proposals list",
            key: "label proposals list",
            migration: MigrationState::Adopted,
            exclusion: None,
            shared_components: &[],
            header_profile: None,
            mcp_policy: None,
            obligation_overrides: &[],
            contracts: &[
                ContractDeclaration {
                    id: "cli.label-proposals-list.output",
                    path: "kanban label proposals list --json stdout",
                    operation: None,
                    location: None,
                    operation_key: None,
                    parameters: &[],
                    direction: ContractDirection::Serialize,
                    strictness: ContractStrictness::DenyUnknownFields,
                    granularity: ContractGranularity::Exact,
                    binding: ContractBinding::ExactSurface,
                    schema_id: Some("urn:kanban-tool:schema:cli:label-proposals-list-output:v1"),
                    artifact_path: Some("cli/label-proposals-list-output.v1.schema.json"),
                    schema_title: Some("Kanban CLI label proposals list output v1"),
                    valid_fixture: Some("schemas/fixtures/cli/label-proposals-list-output.v1.valid.json"),
                    invalid_fixture: Some("schemas/fixtures/cli/label-proposals-list-output.v1.invalid.json"),
                    exclusion: None,
                    producer: Some(AdoptionLocator {
                        package: "kanban-cli",
                        test_target: "cli_label_contract_adoption",
                        exact_test: "labels_semantics_atoms_and_proposals_flow_through_real_cli",
                    }),
                    consumer: Some(AdoptionLocator {
                        package: "kanban-cli",
                        test_target: "cli_label_contract_adoption",
                        exact_test: "labels_semantics_atoms_and_proposals_flow_through_real_cli",
                    }),
                },
            ],
        },
        OperationDeclaration {
            operation_id: "cli.label-proposals-reject",
            surface: ContractSurface::Cli,
            method: None,
            path: None,
            operation: "label proposals reject",
            key: "label proposals reject",
            migration: MigrationState::Adopted,
            exclusion: None,
            shared_components: &[],
            header_profile: None,
            mcp_policy: None,
            obligation_overrides: &[],
            contracts: &[
                ContractDeclaration {
                    id: "cli.label-proposals-reject.output",
                    path: "kanban label proposals reject --json stdout",
                    operation: None,
                    location: None,
                    operation_key: None,
                    parameters: &[],
                    direction: ContractDirection::Serialize,
                    strictness: ContractStrictness::DenyUnknownFields,
                    granularity: ContractGranularity::Exact,
                    binding: ContractBinding::ExactSurface,
                    schema_id: Some("urn:kanban-tool:schema:cli:label-proposals-reject-output:v1"),
                    artifact_path: Some("cli/label-proposals-reject-output.v1.schema.json"),
                    schema_title: Some("Kanban CLI label proposals reject output v1"),
                    valid_fixture: Some("schemas/fixtures/cli/label-proposals-reject-output.v1.valid.json"),
                    invalid_fixture: Some("schemas/fixtures/cli/label-proposals-reject-output.v1.invalid.json"),
                    exclusion: None,
                    producer: Some(AdoptionLocator {
                        package: "kanban-cli",
                        test_target: "cli_label_contract_adoption",
                        exact_test: "labels_semantics_atoms_and_proposals_flow_through_real_cli",
                    }),
                    consumer: Some(AdoptionLocator {
                        package: "kanban-cli",
                        test_target: "cli_label_contract_adoption",
                        exact_test: "labels_semantics_atoms_and_proposals_flow_through_real_cli",
                    }),
                },
            ],
        },
        OperationDeclaration {
            operation_id: "cli.label-proposals-show",
            surface: ContractSurface::Cli,
            method: None,
            path: None,
            operation: "label proposals show",
            key: "label proposals show",
            migration: MigrationState::Adopted,
            exclusion: None,
            shared_components: &[],
            header_profile: None,
            mcp_policy: None,
            obligation_overrides: &[],
            contracts: &[
                ContractDeclaration {
                    id: "cli.label-proposals-show.output",
                    path: "kanban label proposals show --json stdout",
                    operation: None,
                    location: None,
                    operation_key: None,
                    parameters: &[],
                    direction: ContractDirection::Serialize,
                    strictness: ContractStrictness::DenyUnknownFields,
                    granularity: ContractGranularity::Exact,
                    binding: ContractBinding::ExactSurface,
                    schema_id: Some("urn:kanban-tool:schema:cli:label-proposals-show-output:v1"),
                    artifact_path: Some("cli/label-proposals-show-output.v1.schema.json"),
                    schema_title: Some("Kanban CLI label proposals show output v1"),
                    valid_fixture: Some("schemas/fixtures/cli/label-proposals-show-output.v1.valid.json"),
                    invalid_fixture: Some("schemas/fixtures/cli/label-proposals-show-output.v1.invalid.json"),
                    exclusion: None,
                    producer: Some(AdoptionLocator {
                        package: "kanban-cli",
                        test_target: "cli_label_contract_adoption",
                        exact_test: "labels_semantics_atoms_and_proposals_flow_through_real_cli",
                    }),
                    consumer: Some(AdoptionLocator {
                        package: "kanban-cli",
                        test_target: "cli_label_contract_adoption",
                        exact_test: "labels_semantics_atoms_and_proposals_flow_through_real_cli",
                    }),
                },
            ],
        },
        OperationDeclaration {
            operation_id: "cli.label-propose",
            surface: ContractSurface::Cli,
            method: None,
            path: None,
            operation: "label propose",
            key: "label propose",
            migration: MigrationState::Adopted,
            exclusion: None,
            shared_components: &[],
            header_profile: None,
            mcp_policy: None,
            obligation_overrides: &[],
            contracts: &[
                ContractDeclaration {
                    id: "cli.label-propose.output",
                    path: "kanban label propose --json stdout",
                    operation: None,
                    location: None,
                    operation_key: None,
                    parameters: &[],
                    direction: ContractDirection::Serialize,
                    strictness: ContractStrictness::DenyUnknownFields,
                    granularity: ContractGranularity::Exact,
                    binding: ContractBinding::ExactSurface,
                    schema_id: Some("urn:kanban-tool:schema:cli:label-propose-output:v1"),
                    artifact_path: Some("cli/label-propose-output.v1.schema.json"),
                    schema_title: Some("Kanban CLI label propose output v1"),
                    valid_fixture: Some("schemas/fixtures/cli/label-propose-output.v1.valid.json"),
                    invalid_fixture: Some("schemas/fixtures/cli/label-propose-output.v1.invalid.json"),
                    exclusion: None,
                    producer: Some(AdoptionLocator {
                        package: "kanban-cli",
                        test_target: "cli_label_contract_adoption",
                        exact_test: "labels_semantics_atoms_and_proposals_flow_through_real_cli",
                    }),
                    consumer: Some(AdoptionLocator {
                        package: "kanban-cli",
                        test_target: "cli_label_contract_adoption",
                        exact_test: "labels_semantics_atoms_and_proposals_flow_through_real_cli",
                    }),
                },
            ],
        },
        OperationDeclaration {
            operation_id: "cli.label-remove",
            surface: ContractSurface::Cli,
            method: None,
            path: None,
            operation: "label remove",
            key: "label remove",
            migration: MigrationState::Adopted,
            exclusion: None,
            shared_components: &[],
            header_profile: None,
            mcp_policy: None,
            obligation_overrides: &[],
            contracts: &[
                ContractDeclaration {
                    id: "cli.label-remove.output",
                    path: "kanban label remove --json stdout",
                    operation: None,
                    location: None,
                    operation_key: None,
                    parameters: &[],
                    direction: ContractDirection::Serialize,
                    strictness: ContractStrictness::DenyUnknownFields,
                    granularity: ContractGranularity::Exact,
                    binding: ContractBinding::ExactSurface,
                    schema_id: Some("urn:kanban-tool:schema:cli:label-remove-output:v1"),
                    artifact_path: Some("cli/label-remove-output.v1.schema.json"),
                    schema_title: Some("Kanban CLI label remove output v1"),
                    valid_fixture: Some("schemas/fixtures/cli/label-remove-output.v1.valid.json"),
                    invalid_fixture: Some("schemas/fixtures/cli/label-remove-output.v1.invalid.json"),
                    exclusion: None,
                    producer: Some(AdoptionLocator {
                        package: "kanban-cli",
                        test_target: "cli_label_contract_adoption",
                        exact_test: "labels_semantics_atoms_and_proposals_flow_through_real_cli",
                    }),
                    consumer: Some(AdoptionLocator {
                        package: "kanban-cli",
                        test_target: "cli_label_contract_adoption",
                        exact_test: "labels_semantics_atoms_and_proposals_flow_through_real_cli",
                    }),
                },
            ],
        },
        OperationDeclaration {
            operation_id: "cli.label-semantics-delete",
            surface: ContractSurface::Cli,
            method: None,
            path: None,
            operation: "label semantics delete",
            key: "label semantics delete",
            migration: MigrationState::Adopted,
            exclusion: None,
            shared_components: &[],
            header_profile: None,
            mcp_policy: None,
            obligation_overrides: &[],
            contracts: &[
                ContractDeclaration {
                    id: "cli.label-semantics-delete.output",
                    path: "kanban label semantics delete --json stdout",
                    operation: None,
                    location: None,
                    operation_key: None,
                    parameters: &[],
                    direction: ContractDirection::Serialize,
                    strictness: ContractStrictness::DenyUnknownFields,
                    granularity: ContractGranularity::Exact,
                    binding: ContractBinding::ExactSurface,
                    schema_id: Some("urn:kanban-tool:schema:cli:label-semantics-delete-output:v1"),
                    artifact_path: Some("cli/label-semantics-delete-output.v1.schema.json"),
                    schema_title: Some("Kanban CLI label semantics delete output v1"),
                    valid_fixture: Some("schemas/fixtures/cli/label-semantics-delete-output.v1.valid.json"),
                    invalid_fixture: Some("schemas/fixtures/cli/label-semantics-delete-output.v1.invalid.json"),
                    exclusion: None,
                    producer: Some(AdoptionLocator {
                        package: "kanban-cli",
                        test_target: "cli_label_contract_adoption",
                        exact_test: "labels_semantics_atoms_and_proposals_flow_through_real_cli",
                    }),
                    consumer: Some(AdoptionLocator {
                        package: "kanban-cli",
                        test_target: "cli_label_contract_adoption",
                        exact_test: "labels_semantics_atoms_and_proposals_flow_through_real_cli",
                    }),
                },
            ],
        },
        OperationDeclaration {
            operation_id: "cli.label-semantics-list",
            surface: ContractSurface::Cli,
            method: None,
            path: None,
            operation: "label semantics list",
            key: "label semantics list",
            migration: MigrationState::Adopted,
            exclusion: None,
            shared_components: &[],
            header_profile: None,
            mcp_policy: None,
            obligation_overrides: &[],
            contracts: &[
                ContractDeclaration {
                    id: "cli.label-semantics-list.output",
                    path: "kanban label semantics list --json stdout",
                    operation: None,
                    location: None,
                    operation_key: None,
                    parameters: &[],
                    direction: ContractDirection::Serialize,
                    strictness: ContractStrictness::DenyUnknownFields,
                    granularity: ContractGranularity::Exact,
                    binding: ContractBinding::ExactSurface,
                    schema_id: Some("urn:kanban-tool:schema:cli:label-semantics-list-output:v1"),
                    artifact_path: Some("cli/label-semantics-list-output.v1.schema.json"),
                    schema_title: Some("Kanban CLI label semantics list output v1"),
                    valid_fixture: Some("schemas/fixtures/cli/label-semantics-list-output.v1.valid.json"),
                    invalid_fixture: Some("schemas/fixtures/cli/label-semantics-list-output.v1.invalid.json"),
                    exclusion: None,
                    producer: Some(AdoptionLocator {
                        package: "kanban-cli",
                        test_target: "cli_label_contract_adoption",
                        exact_test: "labels_semantics_atoms_and_proposals_flow_through_real_cli",
                    }),
                    consumer: Some(AdoptionLocator {
                        package: "kanban-cli",
                        test_target: "cli_label_contract_adoption",
                        exact_test: "labels_semantics_atoms_and_proposals_flow_through_real_cli",
                    }),
                },
            ],
        },
        OperationDeclaration {
            operation_id: "cli.label-semantics-show",
            surface: ContractSurface::Cli,
            method: None,
            path: None,
            operation: "label semantics show",
            key: "label semantics show",
            migration: MigrationState::Adopted,
            exclusion: None,
            shared_components: &[],
            header_profile: None,
            mcp_policy: None,
            obligation_overrides: &[],
            contracts: &[
                ContractDeclaration {
                    id: "cli.label-semantics-show.output",
                    path: "kanban label semantics show --json stdout",
                    operation: None,
                    location: None,
                    operation_key: None,
                    parameters: &[],
                    direction: ContractDirection::Serialize,
                    strictness: ContractStrictness::DenyUnknownFields,
                    granularity: ContractGranularity::Exact,
                    binding: ContractBinding::ExactSurface,
                    schema_id: Some("urn:kanban-tool:schema:cli:label-semantics-show-output:v1"),
                    artifact_path: Some("cli/label-semantics-show-output.v1.schema.json"),
                    schema_title: Some("Kanban CLI label semantics show output v1"),
                    valid_fixture: Some("schemas/fixtures/cli/label-semantics-show-output.v1.valid.json"),
                    invalid_fixture: Some("schemas/fixtures/cli/label-semantics-show-output.v1.invalid.json"),
                    exclusion: None,
                    producer: Some(AdoptionLocator {
                        package: "kanban-cli",
                        test_target: "cli_label_contract_adoption",
                        exact_test: "labels_semantics_atoms_and_proposals_flow_through_real_cli",
                    }),
                    consumer: Some(AdoptionLocator {
                        package: "kanban-cli",
                        test_target: "cli_label_contract_adoption",
                        exact_test: "labels_semantics_atoms_and_proposals_flow_through_real_cli",
                    }),
                },
            ],
        },
        OperationDeclaration {
            operation_id: "cli.label-semantics-upsert",
            surface: ContractSurface::Cli,
            method: None,
            path: None,
            operation: "label semantics upsert",
            key: "label semantics upsert",
            migration: MigrationState::Adopted,
            exclusion: None,
            shared_components: &[],
            header_profile: None,
            mcp_policy: None,
            obligation_overrides: &[],
            contracts: &[
                ContractDeclaration {
                    id: "cli.label-semantics-upsert.output",
                    path: "kanban label semantics upsert --json stdout",
                    operation: None,
                    location: None,
                    operation_key: None,
                    parameters: &[],
                    direction: ContractDirection::Serialize,
                    strictness: ContractStrictness::DenyUnknownFields,
                    granularity: ContractGranularity::Exact,
                    binding: ContractBinding::ExactSurface,
                    schema_id: Some("urn:kanban-tool:schema:cli:label-semantics-upsert-output:v1"),
                    artifact_path: Some("cli/label-semantics-upsert-output.v1.schema.json"),
                    schema_title: Some("Kanban CLI label semantics upsert output v1"),
                    valid_fixture: Some("schemas/fixtures/cli/label-semantics-upsert-output.v1.valid.json"),
                    invalid_fixture: Some("schemas/fixtures/cli/label-semantics-upsert-output.v1.invalid.json"),
                    exclusion: None,
                    producer: Some(AdoptionLocator {
                        package: "kanban-cli",
                        test_target: "cli_label_contract_adoption",
                        exact_test: "labels_semantics_atoms_and_proposals_flow_through_real_cli",
                    }),
                    consumer: Some(AdoptionLocator {
                        package: "kanban-cli",
                        test_target: "cli_label_contract_adoption",
                        exact_test: "labels_semantics_atoms_and_proposals_flow_through_real_cli",
                    }),
                },
            ],
        },
        OperationDeclaration {
            operation_id: "cli.label-suggest",
            surface: ContractSurface::Cli,
            method: None,
            path: None,
            operation: "label suggest",
            key: "label suggest",
            migration: MigrationState::Adopted,
            exclusion: None,
            shared_components: &[],
            header_profile: None,
            mcp_policy: None,
            obligation_overrides: &[],
            contracts: &[
                ContractDeclaration {
                    id: "cli.label-suggest.output",
                    path: "kanban label suggest --json stdout",
                    operation: None,
                    location: None,
                    operation_key: None,
                    parameters: &[],
                    direction: ContractDirection::Serialize,
                    strictness: ContractStrictness::DenyUnknownFields,
                    granularity: ContractGranularity::Exact,
                    binding: ContractBinding::ExactSurface,
                    schema_id: Some("urn:kanban-tool:schema:cli:label-suggest-output:v1"),
                    artifact_path: Some("cli/label-suggest-output.v1.schema.json"),
                    schema_title: Some("Kanban CLI label suggest output v1"),
                    valid_fixture: Some("schemas/fixtures/cli/label-suggest-output.v1.valid.json"),
                    invalid_fixture: Some("schemas/fixtures/cli/label-suggest-output.v1.invalid.json"),
                    exclusion: None,
                    producer: Some(AdoptionLocator {
                        package: "kanban-cli",
                        test_target: "cli_label_contract_adoption",
                        exact_test: "labels_semantics_atoms_and_proposals_flow_through_real_cli",
                    }),
                    consumer: Some(AdoptionLocator {
                        package: "kanban-cli",
                        test_target: "cli_label_contract_adoption",
                        exact_test: "labels_semantics_atoms_and_proposals_flow_through_real_cli",
                    }),
                },
            ],
        },
        OperationDeclaration {
            operation_id: "cli.run-logs",
            surface: ContractSurface::Cli,
            method: None,
            path: None,
            operation: "run logs",
            key: "run logs",
            migration: MigrationState::Adopted,
            exclusion: None,
            shared_components: &[],
            header_profile: None,
            mcp_policy: None,
            obligation_overrides: &[],
            contracts: &[
                ContractDeclaration {
                    id: "cli.run-logs.output",
                    path: "kanban run logs --json stdout",
                    operation: None,
                    location: None,
                    operation_key: None,
                    parameters: &[],
                    direction: ContractDirection::Serialize,
                    strictness: ContractStrictness::DenyUnknownFields,
                    granularity: ContractGranularity::Exact,
                    binding: ContractBinding::ExactSurface,
                    schema_id: Some("urn:kanban-tool:schema:cli:run-logs-output:v1"),
                    artifact_path: Some("cli/run-logs-output.v1.schema.json"),
                    schema_title: Some("Kanban CLI run logs output v1"),
                    valid_fixture: Some("schemas/fixtures/cli/run-logs-output.v1.valid.json"),
                    invalid_fixture: Some("schemas/fixtures/cli/run-logs-output.v1.invalid.json"),
                    exclusion: None,
                    producer: Some(AdoptionLocator {
                        package: "kanban-cli",
                        test_target: "cli_history_adoption",
                        exact_test: "history_cli_covers_runs_logs_comments_attachments_events_and_stats",
                    }),
                    consumer: Some(AdoptionLocator {
                        package: "kanban-cli",
                        test_target: "cli_history_adoption",
                        exact_test: "history_cli_covers_runs_logs_comments_attachments_events_and_stats",
                    }),
                },
            ],
        },
        OperationDeclaration {
            operation_id: "cli.run-show",
            surface: ContractSurface::Cli,
            method: None,
            path: None,
            operation: "run show",
            key: "run show",
            migration: MigrationState::Adopted,
            exclusion: None,
            shared_components: &[],
            header_profile: None,
            mcp_policy: None,
            obligation_overrides: &[],
            contracts: &[
                ContractDeclaration {
                    id: "cli.run-show.output",
                    path: "kanban run show --json stdout",
                    operation: None,
                    location: None,
                    operation_key: None,
                    parameters: &[],
                    direction: ContractDirection::Serialize,
                    strictness: ContractStrictness::DenyUnknownFields,
                    granularity: ContractGranularity::Exact,
                    binding: ContractBinding::ExactSurface,
                    schema_id: Some("urn:kanban-tool:schema:cli:run-show-output:v1"),
                    artifact_path: Some("cli/run-show-output.v1.schema.json"),
                    schema_title: Some("Kanban CLI run show output v1"),
                    valid_fixture: Some("schemas/fixtures/cli/run-show-output.v1.valid.json"),
                    invalid_fixture: Some("schemas/fixtures/cli/run-show-output.v1.invalid.json"),
                    exclusion: None,
                    producer: Some(AdoptionLocator {
                        package: "kanban-cli",
                        test_target: "cli_history_adoption",
                        exact_test: "history_cli_covers_runs_logs_comments_attachments_events_and_stats",
                    }),
                    consumer: Some(AdoptionLocator {
                        package: "kanban-cli",
                        test_target: "cli_history_adoption",
                        exact_test: "history_cli_covers_runs_logs_comments_attachments_events_and_stats",
                    }),
                },
            ],
        },
        OperationDeclaration {
            operation_id: "cli.runs",
            surface: ContractSurface::Cli,
            method: None,
            path: None,
            operation: "runs",
            key: "runs",
            migration: MigrationState::Adopted,
            exclusion: None,
            shared_components: &[],
            header_profile: None,
            mcp_policy: None,
            obligation_overrides: &[],
            contracts: &[
                ContractDeclaration {
                    id: "cli.runs.output",
                    path: "kanban runs --json stdout",
                    operation: None,
                    location: None,
                    operation_key: None,
                    parameters: &[],
                    direction: ContractDirection::Serialize,
                    strictness: ContractStrictness::DenyUnknownFields,
                    granularity: ContractGranularity::Exact,
                    binding: ContractBinding::ExactSurface,
                    schema_id: Some("urn:kanban-tool:schema:cli:runs-output:v1"),
                    artifact_path: Some("cli/runs-output.v1.schema.json"),
                    schema_title: Some("Kanban CLI runs output v1"),
                    valid_fixture: Some("schemas/fixtures/cli/runs-output.v1.valid.json"),
                    invalid_fixture: Some("schemas/fixtures/cli/runs-output.v1.invalid.json"),
                    exclusion: None,
                    producer: Some(AdoptionLocator {
                        package: "kanban-cli",
                        test_target: "cli_history_adoption",
                        exact_test: "history_cli_covers_runs_logs_comments_attachments_events_and_stats",
                    }),
                    consumer: Some(AdoptionLocator {
                        package: "kanban-cli",
                        test_target: "cli_history_adoption",
                        exact_test: "history_cli_covers_runs_logs_comments_attachments_events_and_stats",
                    }),
                },
            ],
        },
        OperationDeclaration {
            operation_id: "cli.search",
            surface: ContractSurface::Cli,
            method: None,
            path: None,
            operation: "search",
            key: "search",
            migration: MigrationState::Adopted,
            exclusion: None,
            shared_components: &[],
            header_profile: None,
            mcp_policy: None,
            obligation_overrides: &[],
            contracts: &[
                ContractDeclaration {
                    id: "cli.search.output",
                    path: "kanban search --json stdout",
                    operation: None,
                    location: None,
                    operation_key: None,
                    parameters: &[],
                    direction: ContractDirection::Serialize,
                    strictness: ContractStrictness::DenyUnknownFields,
                    granularity: ContractGranularity::Exact,
                    binding: ContractBinding::ExactSurface,
                    schema_id: Some("urn:kanban-tool:schema:cli:search-output:v1"),
                    artifact_path: Some("cli/search-output.v1.schema.json"),
                    schema_title: Some("Kanban CLI search output v1"),
                    valid_fixture: Some("schemas/fixtures/cli/search-output.v1.valid.json"),
                    invalid_fixture: Some("schemas/fixtures/cli/search-output.v1.invalid.json"),
                    exclusion: None,
                    producer: Some(AdoptionLocator {
                        package: "kanban-cli",
                        test_target: "cli_queue_adoption",
                        exact_test: "queue_cli_uses_real_host_for_config_board_and_task_commands",
                    }),
                    consumer: Some(AdoptionLocator {
                        package: "kanban-cli",
                        test_target: "cli_queue_adoption",
                        exact_test: "queue_cli_uses_real_host_for_config_board_and_task_commands",
                    }),
                },
            ],
        },
        OperationDeclaration {
            operation_id: "cli.serve",
            surface: ContractSurface::Cli,
            method: None,
            path: None,
            operation: "serve",
            key: "serve",
            migration: MigrationState::Excluded,
            exclusion: Some("daemon lifecycle 不产生有限 JSON document；运行诊断固定写 stderr"),
            shared_components: &[],
            header_profile: None,
            mcp_policy: None,
            obligation_overrides: &[],
            contracts: &[],
        },
        OperationDeclaration {
            operation_id: "cli.signal-confirm",
            surface: ContractSurface::Cli,
            method: None,
            path: None,
            operation: "signal confirm",
            key: "signal confirm",
            migration: MigrationState::Adopted,
            exclusion: None,
            shared_components: &[],
            header_profile: None,
            mcp_policy: None,
            obligation_overrides: &[],
            contracts: &[
                ContractDeclaration {
                    id: "cli.signal-confirm.output",
                    path: "kanban signal confirm --json stdout",
                    operation: None,
                    location: None,
                    operation_key: None,
                    parameters: &[],
                    direction: ContractDirection::Serialize,
                    strictness: ContractStrictness::DenyUnknownFields,
                    granularity: ContractGranularity::Exact,
                    binding: ContractBinding::ExactSurface,
                    schema_id: Some("urn:kanban-tool:schema:cli:signal-confirm-output:v1"),
                    artifact_path: Some("cli/signal-confirm-output.v1.schema.json"),
                    schema_title: Some("Kanban CLI signal confirm output v1"),
                    valid_fixture: Some("schemas/fixtures/cli/signal-confirm-output.v1.valid.json"),
                    invalid_fixture: Some("schemas/fixtures/cli/signal-confirm-output.v1.invalid.json"),
                    exclusion: None,
                    producer: Some(AdoptionLocator {
                        package: "kanban-cli",
                        test_target: "cli_label_contract_adoption",
                        exact_test: "generic_signals_record_review_and_confirm_flow_through_real_cli",
                    }),
                    consumer: Some(AdoptionLocator {
                        package: "kanban-cli",
                        test_target: "cli_label_contract_adoption",
                        exact_test: "generic_signals_record_review_and_confirm_flow_through_real_cli",
                    }),
                },
            ],
        },
        OperationDeclaration {
            operation_id: "cli.signal-list",
            surface: ContractSurface::Cli,
            method: None,
            path: None,
            operation: "signal list",
            key: "signal list",
            migration: MigrationState::Adopted,
            exclusion: None,
            shared_components: &[],
            header_profile: None,
            mcp_policy: None,
            obligation_overrides: &[],
            contracts: &[
                ContractDeclaration {
                    id: "cli.signal-list.output",
                    path: "kanban signal list --json stdout",
                    operation: None,
                    location: None,
                    operation_key: None,
                    parameters: &[],
                    direction: ContractDirection::Serialize,
                    strictness: ContractStrictness::DenyUnknownFields,
                    granularity: ContractGranularity::Exact,
                    binding: ContractBinding::ExactSurface,
                    schema_id: Some("urn:kanban-tool:schema:cli:signal-list-output:v1"),
                    artifact_path: Some("cli/signal-list-output.v1.schema.json"),
                    schema_title: Some("Kanban CLI signal list output v1"),
                    valid_fixture: Some("schemas/fixtures/cli/signal-list-output.v1.valid.json"),
                    invalid_fixture: Some("schemas/fixtures/cli/signal-list-output.v1.invalid.json"),
                    exclusion: None,
                    producer: Some(AdoptionLocator {
                        package: "kanban-cli",
                        test_target: "cli_label_contract_adoption",
                        exact_test: "generic_signals_record_review_and_confirm_flow_through_real_cli",
                    }),
                    consumer: Some(AdoptionLocator {
                        package: "kanban-cli",
                        test_target: "cli_label_contract_adoption",
                        exact_test: "generic_signals_record_review_and_confirm_flow_through_real_cli",
                    }),
                },
            ],
        },
        OperationDeclaration {
            operation_id: "cli.signal-record",
            surface: ContractSurface::Cli,
            method: None,
            path: None,
            operation: "signal record",
            key: "signal record",
            migration: MigrationState::Adopted,
            exclusion: None,
            shared_components: &[],
            header_profile: None,
            mcp_policy: None,
            obligation_overrides: &[],
            contracts: &[
                ContractDeclaration {
                    id: "cli.signal-record.output",
                    path: "kanban signal record --json stdout",
                    operation: None,
                    location: None,
                    operation_key: None,
                    parameters: &[],
                    direction: ContractDirection::Serialize,
                    strictness: ContractStrictness::DenyUnknownFields,
                    granularity: ContractGranularity::Exact,
                    binding: ContractBinding::ExactSurface,
                    schema_id: Some("urn:kanban-tool:schema:cli:signal-record-output:v1"),
                    artifact_path: Some("cli/signal-record-output.v1.schema.json"),
                    schema_title: Some("Kanban CLI signal record output v1"),
                    valid_fixture: Some("schemas/fixtures/cli/signal-record-output.v1.valid.json"),
                    invalid_fixture: Some("schemas/fixtures/cli/signal-record-output.v1.invalid.json"),
                    exclusion: None,
                    producer: Some(AdoptionLocator {
                        package: "kanban-cli",
                        test_target: "cli_label_contract_adoption",
                        exact_test: "generic_signals_record_review_and_confirm_flow_through_real_cli",
                    }),
                    consumer: Some(AdoptionLocator {
                        package: "kanban-cli",
                        test_target: "cli_label_contract_adoption",
                        exact_test: "generic_signals_record_review_and_confirm_flow_through_real_cli",
                    }),
                },
            ],
        },
        OperationDeclaration {
            operation_id: "cli.signal-reject",
            surface: ContractSurface::Cli,
            method: None,
            path: None,
            operation: "signal reject",
            key: "signal reject",
            migration: MigrationState::Adopted,
            exclusion: None,
            shared_components: &[],
            header_profile: None,
            mcp_policy: None,
            obligation_overrides: &[],
            contracts: &[
                ContractDeclaration {
                    id: "cli.signal-reject.output",
                    path: "kanban signal reject --json stdout",
                    operation: None,
                    location: None,
                    operation_key: None,
                    parameters: &[],
                    direction: ContractDirection::Serialize,
                    strictness: ContractStrictness::DenyUnknownFields,
                    granularity: ContractGranularity::Exact,
                    binding: ContractBinding::ExactSurface,
                    schema_id: Some("urn:kanban-tool:schema:cli:signal-reject-output:v1"),
                    artifact_path: Some("cli/signal-reject-output.v1.schema.json"),
                    schema_title: Some("Kanban CLI signal reject output v1"),
                    valid_fixture: Some("schemas/fixtures/cli/signal-reject-output.v1.valid.json"),
                    invalid_fixture: Some("schemas/fixtures/cli/signal-reject-output.v1.invalid.json"),
                    exclusion: None,
                    producer: Some(AdoptionLocator {
                        package: "kanban-cli",
                        test_target: "cli_label_contract_adoption",
                        exact_test: "generic_signals_record_review_and_confirm_flow_through_real_cli",
                    }),
                    consumer: Some(AdoptionLocator {
                        package: "kanban-cli",
                        test_target: "cli_label_contract_adoption",
                        exact_test: "generic_signals_record_review_and_confirm_flow_through_real_cli",
                    }),
                },
            ],
        },
        OperationDeclaration {
            operation_id: "cli.signal-resolve",
            surface: ContractSurface::Cli,
            method: None,
            path: None,
            operation: "signal resolve",
            key: "signal resolve",
            migration: MigrationState::Adopted,
            exclusion: None,
            shared_components: &[],
            header_profile: None,
            mcp_policy: None,
            obligation_overrides: &[],
            contracts: &[
                ContractDeclaration {
                    id: "cli.signal-resolve.output",
                    path: "kanban signal resolve --json stdout",
                    operation: None,
                    location: None,
                    operation_key: None,
                    parameters: &[],
                    direction: ContractDirection::Serialize,
                    strictness: ContractStrictness::DenyUnknownFields,
                    granularity: ContractGranularity::Exact,
                    binding: ContractBinding::ExactSurface,
                    schema_id: Some("urn:kanban-tool:schema:cli:signal-resolve-output:v1"),
                    artifact_path: Some("cli/signal-resolve-output.v1.schema.json"),
                    schema_title: Some("Kanban CLI signal resolve output v1"),
                    valid_fixture: Some("schemas/fixtures/cli/signal-resolve-output.v1.valid.json"),
                    invalid_fixture: Some("schemas/fixtures/cli/signal-resolve-output.v1.invalid.json"),
                    exclusion: None,
                    producer: Some(AdoptionLocator {
                        package: "kanban-cli",
                        test_target: "cli_label_contract_adoption",
                        exact_test: "generic_signals_record_review_and_confirm_flow_through_real_cli",
                    }),
                    consumer: Some(AdoptionLocator {
                        package: "kanban-cli",
                        test_target: "cli_label_contract_adoption",
                        exact_test: "generic_signals_record_review_and_confirm_flow_through_real_cli",
                    }),
                },
            ],
        },
        OperationDeclaration {
            operation_id: "cli.signal-review",
            surface: ContractSurface::Cli,
            method: None,
            path: None,
            operation: "signal review",
            key: "signal review",
            migration: MigrationState::Adopted,
            exclusion: None,
            shared_components: &[],
            header_profile: None,
            mcp_policy: None,
            obligation_overrides: &[],
            contracts: &[
                ContractDeclaration {
                    id: "cli.signal-review.output",
                    path: "kanban signal review --json stdout",
                    operation: None,
                    location: None,
                    operation_key: None,
                    parameters: &[],
                    direction: ContractDirection::Serialize,
                    strictness: ContractStrictness::DenyUnknownFields,
                    granularity: ContractGranularity::Exact,
                    binding: ContractBinding::ExactSurface,
                    schema_id: Some("urn:kanban-tool:schema:cli:signal-review-output:v1"),
                    artifact_path: Some("cli/signal-review-output.v1.schema.json"),
                    schema_title: Some("Kanban CLI signal review output v1"),
                    valid_fixture: Some("schemas/fixtures/cli/signal-review-output.v1.valid.json"),
                    invalid_fixture: Some("schemas/fixtures/cli/signal-review-output.v1.invalid.json"),
                    exclusion: None,
                    producer: Some(AdoptionLocator {
                        package: "kanban-cli",
                        test_target: "cli_label_contract_adoption",
                        exact_test: "generic_signals_record_review_and_confirm_flow_through_real_cli",
                    }),
                    consumer: Some(AdoptionLocator {
                        package: "kanban-cli",
                        test_target: "cli_label_contract_adoption",
                        exact_test: "generic_signals_record_review_and_confirm_flow_through_real_cli",
                    }),
                },
            ],
        },
        OperationDeclaration {
            operation_id: "cli.signal-show",
            surface: ContractSurface::Cli,
            method: None,
            path: None,
            operation: "signal show",
            key: "signal show",
            migration: MigrationState::Adopted,
            exclusion: None,
            shared_components: &[],
            header_profile: None,
            mcp_policy: None,
            obligation_overrides: &[],
            contracts: &[
                ContractDeclaration {
                    id: "cli.signal-show.output",
                    path: "kanban signal show --json stdout",
                    operation: None,
                    location: None,
                    operation_key: None,
                    parameters: &[],
                    direction: ContractDirection::Serialize,
                    strictness: ContractStrictness::DenyUnknownFields,
                    granularity: ContractGranularity::Exact,
                    binding: ContractBinding::ExactSurface,
                    schema_id: Some("urn:kanban-tool:schema:cli:signal-show-output:v1"),
                    artifact_path: Some("cli/signal-show-output.v1.schema.json"),
                    schema_title: Some("Kanban CLI signal show output v1"),
                    valid_fixture: Some("schemas/fixtures/cli/signal-show-output.v1.valid.json"),
                    invalid_fixture: Some("schemas/fixtures/cli/signal-show-output.v1.invalid.json"),
                    exclusion: None,
                    producer: Some(AdoptionLocator {
                        package: "kanban-cli",
                        test_target: "cli_label_contract_adoption",
                        exact_test: "generic_signals_record_review_and_confirm_flow_through_real_cli",
                    }),
                    consumer: Some(AdoptionLocator {
                        package: "kanban-cli",
                        test_target: "cli_label_contract_adoption",
                        exact_test: "generic_signals_record_review_and_confirm_flow_through_real_cli",
                    }),
                },
            ],
        },
        OperationDeclaration {
            operation_id: "cli.signal-supersede",
            surface: ContractSurface::Cli,
            method: None,
            path: None,
            operation: "signal supersede",
            key: "signal supersede",
            migration: MigrationState::Adopted,
            exclusion: None,
            shared_components: &[],
            header_profile: None,
            mcp_policy: None,
            obligation_overrides: &[],
            contracts: &[
                ContractDeclaration {
                    id: "cli.signal-supersede.output",
                    path: "kanban signal supersede --json stdout",
                    operation: None,
                    location: None,
                    operation_key: None,
                    parameters: &[],
                    direction: ContractDirection::Serialize,
                    strictness: ContractStrictness::DenyUnknownFields,
                    granularity: ContractGranularity::Exact,
                    binding: ContractBinding::ExactSurface,
                    schema_id: Some("urn:kanban-tool:schema:cli:signal-supersede-output:v1"),
                    artifact_path: Some("cli/signal-supersede-output.v1.schema.json"),
                    schema_title: Some("Kanban CLI signal supersede output v1"),
                    valid_fixture: Some("schemas/fixtures/cli/signal-supersede-output.v1.valid.json"),
                    invalid_fixture: Some("schemas/fixtures/cli/signal-supersede-output.v1.invalid.json"),
                    exclusion: None,
                    producer: Some(AdoptionLocator {
                        package: "kanban-cli",
                        test_target: "cli_label_contract_adoption",
                        exact_test: "generic_signals_record_review_and_confirm_flow_through_real_cli",
                    }),
                    consumer: Some(AdoptionLocator {
                        package: "kanban-cli",
                        test_target: "cli_label_contract_adoption",
                        exact_test: "generic_signals_record_review_and_confirm_flow_through_real_cli",
                    }),
                },
            ],
        },
    ]
}

/// The inventory rows of the catalog, operation by operation.
pub fn operation_contracts() -> (r: Vec<OperationContract>)
    ensures
        r@ == catalog_contracts(cli_labels_operations()),
{
    let ops = operation_declarations();
    project_contracts(&ops)
}

/// The surface rows of the catalog, one per operation.
pub fn surface_catalog() -> (r: Vec<SurfaceOperation>)
    ensures
        r@.len() == cli_labels_operations().len(),
        forall|i: int| 0 <= i < cli_labels_operations().len() ==> (#[trigger] r@[i])@ == projected_surface(cli_labels_operations()[i]),
{
    let ops = operation_declarations();
    project_surfaces(&ops)
}

/// The schema roots that the catalog's children declare.
pub fn schema_roots() -> (r: Vec<SchemaRoot>)
    ensures
        r@ == catalog_schemas(cli_labels_operations()),
{
    proof {
        lemma_cli_labels_operations_ready();
    }
    let ops = operation_declarations();
    project_schemas(&ops)
}

/// Whether some child of the catalog has the given id.
pub fn owns_contract(id: &str) -> (r: bool)
    ensures
        r == catalog_owns_contract(cli_labels_operations(), id@),
{
    let ops = operation_declarations();
    catalog_has_contract(&ops, id)
}

/// Whether some operation of the catalog has the given id.
pub fn owns_operation(id: &str) -> (r: bool)
    ensures
        r == catalog_owns_operation(cli_labels_operations(), id@),
{
    let ops = operation_declarations();
    catalog_has_operation(&ops, id)
}


/// This catalog has no API or SSE operation, so it projects no endpoint.
pub proof fn lemma_cli_labels_endpoint_ids()
    ensures
        endpoint_ids(cli_labels_operations()) == Seq::<Seq<char>>::empty(),
{
    reveal(cli_labels_operations);
    let ops = cli_labels_operations();
    assert forall|i: int| 0 <= i < ops.len() implies !is_http_surface(#[trigger] ops[i].surface) by {
        if i == 0 {} else if i == 1 {} else if i == 2 {} else if i == 3 {} else if i == 4 {} else if i == 5 {} else if i == 6 {} else if i == 7 {} else if i == 8 {} else if i == 9 {} else if i == 10 {} else if i == 11 {} else if i == 12 {} else if i == 13 {} else if i == 14 {} else if i == 15 {} else if i == 16 {} else if i == 17 {} else if i == 18 {} else if i == 19 {} else if i == 20 {} else if i == 21 {} else if i == 22 {} else if i == 23 {} else if i == 24 {} else if i == 25 {} else if i == 26 {} else if i == 27 {} else if i == 28 {} else if i == 29 {} else if i == 30 {} else if i == 31 {} else if i == 32 {} else if i == 33 {} else if i == 34 {} else if i == 35 {} else if i == 36 {} else if i == 37 {} else if i == 38 {} else if i == 39 {} else if i == 40 {} else if i == 41 {} else if i == 42 {} else if i == 43 {} else if i == 44 {}
    }
    lemma_endpoint_ids_prefix(ops, 0);
    assert(ops.take(0).map_values(|o: OperationDeclaration| o.operation_id@) =~= Seq::<Seq<char>>::empty());
}

} // verus!
