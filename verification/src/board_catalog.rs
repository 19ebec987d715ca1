//! Board list, create, show, archive and columns operations, API and CLI.

use vstd::prelude::*;

use crate::contract_catalog::{
    is_header_child, lemma_header_contract_is_catalog_row, lemma_operation_found, lemma_row_found, projected_endpoint,
    endpoint_ids, lemma_endpoint_ids_prefix,
    catalog_contracts, catalog_endpoints, catalog_header_contract, catalog_header_profile,
    catalog_has_contract, catalog_has_operation, catalog_owns_contract, catalog_owns_operation,
    catalog_schemas, endpoint_ready, endpoints_ready, find_contract, find_endpoint, find_surface,
    has_contract_id, has_endpoint_id, has_surface_key, lookup_header_contract,
    lookup_header_profile, project_contracts, project_endpoints, project_schemas,
    project_surfaces, projected_surface, schema_ready, schemas_ready, ContractDeclaration,
    McpExposure, McpOperationInvariant, McpPolicy, McpToolBinding, OperationDeclaration,
    SchemaRoot, SurfaceOperation,
};
use crate::endpoint::{
    endpoint_operation_key, method_name, EndpointDescriptor, EndpointObligation, EndpointObligationKind, HttpMethod,
};
use crate::headers::{profile_parameters, ApiHeaderProfile};
use crate::inventory::{
    is_http_surface, AdoptionLocator, ContractBinding, ContractDirection, ContractGranularity,
    ContractStrictness, ContractSurface, ContractTransport, HttpTransportLocation, MigrationState,
    OperationContract, WireParameter, WireParameterCardinality,
};
use crate::seqs::{first_index, flatten, lemma_first_index_is, lemma_first_index_none};
use crate::text::str_eq;

verus! {

/// The operations of this catalog, in source order.
#[verifier::opaque]
pub open spec fn board_operations() -> Seq<OperationDeclaration> {
    seq![
        OperationDeclaration {
            operation_id: "api.list-boards",
            surface: ContractSurface::Api,
            method: Some(HttpMethod::Get),
            path: Some("/api/v1/boards"),
            operation: "GET /api/v1/boards",
            key: "GET /api/v1/boards",
            migration: MigrationState::Generated,
            exclusion: None,
            shared_components: &[],
            header_profile: Some(ApiHeaderProfile::Locale),
            mcp_policy: Some(McpPolicy {
                exposure: McpExposure::Domain,
                tool_bindings: &[
                    McpToolBinding {
                        tool_name: "board_list",
                        http_operations: &[
                            "api.list-boards",
                        ],
                    },
                ],
                invariants: &[
                    McpOperationInvariant::CanonicalHostOnly,
                    McpOperationInvariant::SharedApplicationService,
                    McpOperationInvariant::NoHostAdminSurface,
                ],
            }),
            obligation_overrides: &[],
            contracts: &[
                ContractDeclaration {
                    id: "api.list-boards.query",
                    path: "GET /api/v1/boards query",
                    operation: None,
                    location: Some(HttpTransportLocation::Query),
                    operation_key: None,
                    parameters: &[
                        WireParameter {
                            name: "include_archived",
                            cardinality: Some(WireParameterCardinality::OptionalOne),
                        },
                    ],
                    direction: ContractDirection::Deserialize,
                    strictness: ContractStrictness::DenyUnknownFields,
                    granularity: ContractGranularity::Exact,
                    binding: ContractBinding::ExactSurface,
                    schema_id: Some("urn:kanban-tool:schema:api:list-boards-query:v1"),
                    artifact_path: Some("api/list-boards-query.v1.schema.json"),
                    schema_title: Some("Kanban list boards query v1"),
                    valid_fixture: Some("schemas/fixtures/api/list-boards-query.v1.valid.json"),
                    invalid_fixture: Some("schemas/fixtures/api/list-boards-query.v1.invalid.json"),
                    exclusion: None,
                    producer: None,
                    consumer: None,
                },
                ContractDeclaration {
                    id: "api.list-boards.headers",
                    path: "GET /api/v1/boards headers",
                    operation: None,
                    location: Some(HttpTransportLocation::Headers),
                    operation_key: None,
                    parameters: &[
                        WireParameter {
                            name: "Accept-Language",
                            cardinality: Some(WireParameterCardinality::OptionalOne),
                        },
                    ],
                    direction: ContractDirection::Deserialize,
                    strictness: ContractStrictness::DenyUnknownFields,
                    granularity: ContractGranularity::Exact,
                    binding: ContractBinding::ExactSurface,
                    schema_id: Some("urn:kanban-tool:schema:api:list-boards-headers:v1"),
                    artifact_path: Some("api/list-boards-headers.v1.schema.json"),
                    schema_title: Some("Kanban api.list-boards request headers v1"),
                    valid_fixture: Some("schemas/fixtures/api/headers/locale-headers.v1.valid.json"),
                    invalid_fixture: Some("schemas/fixtures/api/headers/locale-headers.v1.invalid.json"),
                    exclusion: None,
                    producer: None,
                    consumer: None,
                },
                ContractDeclaration {
                    id: "api.list-boards.response",
                    path: "GET /api/v1/boards response",
                    operation: None,
                    location: Some(HttpTransportLocation::Success),
                    operation_key: None,
                    parameters: &[],
                    direction: ContractDirection::Serialize,
                    strictness: ContractStrictness::DenyUnknownFields,
                    granularity: ContractGranularity::Exact,
                    binding: ContractBinding::ExactSurface,
                    schema_id: Some("urn:kanban-tool:schema:api:list-boards-response:v1"),
                    artifact_path: Some("api/list-boards-response.v1.schema.json"),
                    schema_title: Some("Kanban list boards response v1"),
                    valid_fixture: Some("schemas/fixtures/api/list-boards-response.v1.valid.json"),
                    invalid_fixture: Some("schemas/fixtures/api/list-boards-response.v1.invalid.json"),
                    exclusion: None,
                    producer: None,
                    consumer: None,
                },
            ],
        },
        OperationDeclaration {
            operation_id: "api.create-board",
            surface: ContractSurface::Api,
            method: Some(HttpMethod::Post),
            path: Some("/api/v1/boards"),
            operation: "POST /api/v1/boards",
            key: "POST /api/v1/boards",
            migration: MigrationState::Generated,
            exclusion: None,
            shared_components: &[],
            header_profile: Some(ApiHeaderProfile::LocaleActorJson),
            mcp_policy: Some(McpPolicy {
                exposure: McpExposure::Domain,
                tool_bindings: &[
                    McpToolBinding {
                        tool_name: "board_create",
                        http_operations: &[
                            "api.create-board",
                        ],
                    },
                ],
                invariants: &[
                    McpOperationInvariant::CanonicalHostOnly,
                    McpOperationInvariant::SharedApplicationService,
                    McpOperationInvariant::NoHostAdminSurface,
                ],
            }),
            obligation_overrides: &[],
            contracts: &[
                ContractDeclaration {
                    id: "api.create-board.headers",
                    path: "POST /api/v1/boards headers",
                    operation: None,
                    location: Some(HttpTransportLocation::Headers),
                    operation_key: None,
                    parameters: &[
                        WireParameter {
                            name: "Accept-Language",
                            cardinality: Some(WireParameterCardinality::OptionalOne),
                        },
                        WireParameter {
                            name: "X-KB-Actor",
                            cardinality: Some(WireParameterCardinality::OptionalOne),
                        },
                        WireParameter {
                            name: "Content-Type",
                            cardinality: Some(WireParameterCardinality::RequiredOne),
                        },
                    ],
                    direction: ContractDirection::Deserialize,
                    strictness: ContractStrictness::DenyUnknownFields,
                    granularity: ContractGranularity::Exact,
                    binding: ContractBinding::ExactSurface,
                    schema_id: Some("urn:kanban-tool:schema:api:create-board-headers:v1"),
                    artifact_path: Some("api/create-board-headers.v1.schema.json"),
                    schema_title: Some("Kanban api.create-board request headers v1"),
                    valid_fixture: Some("schemas/fixtures/api/headers/locale-actor-json-headers.v1.valid.json"),
                    invalid_fixture: Some("schemas/fixtures/api/headers/locale-actor-json-headers.v1.invalid.json"),
                    exclusion: None,
                    producer: None,
                    consumer: None,
                },
                ContractDeclaration {
                    id: "api.create-board.request",
                    path: "POST /api/v1/boards request",
                    operation: None,
                    location: Some(HttpTransportLocation::Body),
                    operation_key: None,
                    parameters: &[],
                    direction: ContractDirection::Deserialize,
                    strictness: ContractStrictness::DenyUnknownFields,
                    granularity: ContractGranularity::Exact,
                    binding: ContractBinding::ExactSurface,
                    schema_id: Some("urn:kanban-tool:schema:api:create-board-request:v1"),
                    artifact_path: Some("api/create-board-request.v1.schema.json"),
                    schema_title: Some("Kanban create board request v1"),
                    valid_fixture: Some("schemas/fixtures/api/create-board-request.v1.valid.json"),
                    invalid_fixture: Some("schemas/fixtures/api/create-board-request.v1.invalid.json"),
                    exclusion: None,
                    producer: None,
                    consumer: None,
                },
                ContractDeclaration {
                    id: "api.create-board.response",
                    path: "POST /api/v1/boards response",
                    operation: None,
                    location: Some(HttpTransportLocation::Success),
                    operation_key: None,
                    parameters: &[],
                    direction: ContractDirection::Serialize,
                    strictness: ContractStrictness::DenyUnknownFields,
                    granularity: ContractGranularity::Exact,
                    binding: ContractBinding::ExactSurface,
                    schema_id: Some("urn:kanban-tool:schema:api:create-board-response:v1"),
                    artifact_path: Some("api/create-board-response.v1.schema.json"),
                    schema_title: Some("Kanban create board response v1"),
                    valid_fixture: Some("schemas/fixtures/api/create-board-response.v1.valid.json"),
                    invalid_fixture: Some("schemas/fixtures/api/create-board-response.v1.invalid.json"),
                    exclusion: None,
                    producer: None,
                    consumer: None,
                },
            ],
        },
        OperationDeclaration {
            operation_id: "api.get-board",
            surface: ContractSurface::Api,
            method: Some(HttpMethod::Get),
            path: Some("/api/v1/boards/:board"),
            operation: "GET /api/v1/boards/:board",
            key: "GET /api/v1/boards/:board",
            migration: MigrationState::Generated,
            exclusion: None,
            shared_components: &[],
            header_profile: Some(ApiHeaderProfile::Locale),
            mcp_policy: Some(McpPolicy {
                exposure: McpExposure::Domain,
                tool_bindings: &[
                    McpToolBinding {
                        tool_name: "board_show",
                        http_operations: &[
                            "api.get-board",
                        ],
                    },
                ],
                invariants: &[
                    McpOperationInvariant::CanonicalHostOnly,
                    McpOperationInvariant::SharedApplicationService,
                    McpOperationInvariant::NoHostAdminSurface,
                ],
            }),
            obligation_overrides: &[],
            contracts: &[
                ContractDeclaration {
                    id: "api.get-board.path",
                    path: "GET /api/v1/boards/:board path",
                    operation: None,
                    location: Some(HttpTransportLocation::Path),
                    operation_key: None,
                    parameters: &[
                        WireParameter {
                            name: "board",
                            cardinality: Some(WireParameterCardinality::RequiredOne),
                        },
                    ],
                    direction: ContractDirection::Deserialize,
                    strictness: ContractStrictness::DenyUnknownFields,
                    granularity: ContractGranularity::Exact,
                    binding: ContractBinding::ExactSurface,
                    schema_id: Some("urn:kanban-tool:schema:api:get-board-path:v1"),
                    artifact_path: Some("api/get-board-path.v1.schema.json"),
                    schema_title: Some("Kanban get board path v1"),
                    valid_fixture: Some("schemas/fixtures/api/get-board-path.v1.valid.json"),
                    invalid_fixture: Some("schemas/fixtures/api/get-board-path.v1.invalid.json"),
                    exclusion: None,
                    producer: None,
                    consumer: None,
                },
                ContractDeclaration {
                    id: "api.get-board.headers",
                    path: "GET /api/v1/boards/:board headers",
                    operation: None,
                    location: Some(HttpTransportLocation::Headers),
                    operation_key: None,
                    parameters: &[
                        WireParameter {
                            name: "Accept-Language",
                            cardinality: Some(WireParameterCardinality::OptionalOne),
                        },
                    ],
                    direction: ContractDirection::Deserialize,
                    strictness: ContractStrictness::DenyUnknownFields,
                    granularity: ContractGranularity::Exact,
                    binding: ContractBinding::ExactSurface,
                    schema_id: Some("urn:kanban-tool:schema:api:get-board-headers:v1"),
                    artifact_path: Some("api/get-board-headers.v1.schema.json"),
                    schema_title: Some("Kanban api.get-board request headers v1"),
                    valid_fixture: Some("schemas/fixtures/api/headers/locale-headers.v1.valid.json"),
                    invalid_fixture: Some("schemas/fixtures/api/headers/locale-headers.v1.invalid.json"),
                    exclusion: None,
                    producer: None,
                    consumer: None,
                },
                ContractDeclaration {
                    id: "api.get-board.response",
                    path: "GET /api/v1/boards/:board response",
                    operation: None,
                    location: Some(HttpTransportLocation::Success),
                    operation_key: None,
                    parameters: &[],
                    direction: ContractDirection::Serialize,
                    strictness: ContractStrictness::DenyUnknownFields,
                    granularity: ContractGranularity::Exact,
                    binding: ContractBinding::ExactSurface,
                    schema_id: Some("urn:kanban-tool:schema:api:get-board-response:v1"),
                    artifact_path: Some("api/get-board-response.v1.schema.json"),
                    schema_title: Some("Kanban get board response v1"),
                    valid_fixture: Some("schemas/fixtures/api/get-board-response.v1.valid.json"),
                    invalid_fixture: Some("schemas/fixtures/api/get-board-response.v1.invalid.json"),
                    exclusion: None,
                    producer: None,
                    consumer: None,
                },
            ],
        },
        OperationDeclaration {
            operation_id: "api.archive-board",
            surface: ContractSurface::Api,
            method: Some(HttpMethod::Post),
            path: Some("/api/v1/boards/:board/archive"),
            operation: "POST /api/v1/boards/:board/archive",
            key: "POST /api/v1/boards/:board/archive",
            migration: MigrationState::Generated,
            exclusion: None,
            shared_components: &[],
            header_profile: Some(ApiHeaderProfile::LocaleActorOptionalJson),
            mcp_policy: Some(McpPolicy {
                exposure: McpExposure::Domain,
                tool_bindings: &[
                    McpToolBinding {
                        tool_name: "board_archive",
                        http_operations: &[
                            "api.archive-board",
                        ],
                    },
                ],
                invariants: &[
                    McpOperationInvariant::CanonicalHostOnly,
                    McpOperationInvariant::SharedApplicationService,
                    McpOperationInvariant::NoHostAdminSurface,
                ],
            }),
            obligation_overrides: &[],
            contracts: &[
                ContractDeclaration {
                    id: "api.archive-board.path",
                    path: "POST /api/v1/boards/:board/archive path",
                    operation: None,
                    location: Some(HttpTransportLocation::Path),
                    operation_key: None,
                    parameters: &[
                        WireParameter {
                            name: "board",
                            cardinality: Some(WireParameterCardinality::RequiredOne),
                        },
                    ],
                    direction: ContractDirection::Deserialize,
                    strictness: ContractStrictness::DenyUnknownFields,
                    granularity: ContractGranularity::Exact,
                    binding: ContractBinding::ExactSurface,
                    schema_id: Some("urn:kanban-tool:schema:api:archive-board-path:v1"),
                    artifact_path: Some("api/archive-board-path.v1.schema.json"),
                    schema_title: Some("Kanban archive board path v1"),
                    valid_fixture: Some("schemas/fixtures/api/archive-board-path.v1.valid.json"),
                    invalid_fixture: Some("schemas/fixtures/api/archive-board-path.v1.invalid.json"),
                    exclusion: None,
                    producer: None,
                    consumer: None,
                },
                ContractDeclaration {
                    id: "api.archive-board.headers",
                    path: "POST /api/v1/boards/:board/archive headers",
                    operation: None,
                    location: Some(HttpTransportLocation::Headers),
                    operation_key: None,
                    parameters: &[
                        WireParameter {
                            name: "Accept-Language",
                            cardinality: Some(WireParameterCardinality::OptionalOne),
                        },
                        WireParameter {
                            name: "X-KB-Actor",
                            cardinality: Some(WireParameterCardinality::OptionalOne),
                        },
                        WireParameter {
                            name: "Content-Type",
                            cardinality: Some(WireParameterCardinality::OptionalOne),
                        },
                    ],
                    direction: ContractDirection::Deserialize,
                    strictness: ContractStrictness::DenyUnknownFields,
                    granularity: ContractGranularity::Exact,
                    binding: ContractBinding::ExactSurface,
                    schema_id: Some("urn:kanban-tool:schema:api:archive-board-headers:v1"),
                    artifact_path: Some("api/archive-board-headers.v1.schema.json"),
                    schema_title: Some("Kanban api.archive-board request headers v1"),
                    valid_fixture: Some("schemas/fixtures/api/headers/locale-actor-optional-json-headers.v1.valid.json"),
                    invalid_fixture: Some("schemas/fixtures/api/headers/locale-actor-optional-json-headers.v1.invalid.json"),
                    exclusion: None,
                    producer: None,
                    consumer: None,
                },
                ContractDeclaration {
                    id: "api.archive-board.request",
                    path: "POST /api/v1/boards/:board/archive",
                    operation: None,
                    location: Some(HttpTransportLocation::Body),
                    operation_key: None,
                    parameters: &[],
                    direction: ContractDirection::Deserialize,
                    strictness: ContractStrictness::DenyUnknownFields,
                    granularity: ContractGranularity::Exact,
                    binding: ContractBinding::ExactSurface,
                    schema_id: Some("urn:kanban-tool:schema:api:archive-board-request:v1"),
                    artifact_path: Some("api/archive-board-request.v1.schema.json"),
                    schema_title: Some("Kanban archive board request v1"),
                    valid_fixture: Some("schemas/fixtures/api/archive-board-request.v1.valid.json"),
                    invalid_fixture: Some("schemas/fixtures/api/archive-board-request.v1.invalid.json"),
                    exclusion: None,
                    producer: None,
                    consumer: None,
                },
                ContractDeclaration {
                    id: "api.archive-board.response",
                    path: "POST /api/v1/boards/:board/archive response",
                    operation: None,
                    location: Some(HttpTransportLocation::Success),
                    operation_key: None,
                    parameters: &[],
                    direction: ContractDirection::Serialize,
                    strictness: ContractStrictness::DenyUnknownFields,
                    granularity: ContractGranularity::Exact,
                    binding: ContractBinding::ExactSurface,
                    schema_id: Some("urn:kanban-tool:schema:api:archive-board-response:v1"),
                    artifact_path: Some("api/archive-board-response.v1.schema.json"),
                    schema_title: Some("Kanban archive board response v1"),
                    valid_fixture: Some("schemas/fixtures/api/archive-board-response.v1.valid.json"),
                    invalid_fixture: Some("schemas/fixtures/api/archive-board-response.v1.invalid.json"),
                    exclusion: None,
                    producer: None,
                    consumer: None,
                },
            ],
        },
        OperationDeclaration {
            operation_id: "api.list-board-columns",
            surface: ContractSurface::Api,
            method: Some(HttpMethod::Get),
            path: Some("/api/v1/boards/:board/columns"),
            operation: "GET /api/v1/boards/:board/columns",
            key: "GET /api/v1/boards/:board/columns",
            migration: MigrationState::Generated,
            exclusion: None,
            shared_components: &[],
            header_profile: Some(ApiHeaderProfile::Locale),
            mcp_policy: Some(McpPolicy {
                exposure: McpExposure::Domain,
                tool_bindings: &[
                    McpToolBinding {
                        tool_name: "board_columns",
                        http_operations: &[
                            "api.list-board-columns",
                        ],
                    },
                ],
                invariants: &[
                    McpOperationInvariant::CanonicalHostOnly,
                    McpOperationInvariant::SharedApplicationService,
                    McpOperationInvariant::NoHostAdminSurface,
                ],
            }),
            obligation_overrides: &[],
            contracts: &[
                ContractDeclaration {
                    id: "api.list-board-columns.path",
                    path: "GET /api/v1/boards/:board/columns path",
                    operation: None,
                    location: Some(HttpTransportLocation::Path),
                    operation_key: None,
                    parameters: &[
                        WireParameter {
                            name: "board",
                            cardinality: Some(WireParameterCardinality::RequiredOne),
                        },
                    ],
                    direction: ContractDirection::Deserialize,
                    strictness: ContractStrictness::DenyUnknownFields,
                    granularity: ContractGranularity::Exact,
                    binding: ContractBinding::ExactSurface,
                    schema_id: Some("urn:kanban-tool:schema:api:list-board-columns-path:v1"),
                    artifact_path: Some("api/list-board-columns-path.v1.schema.json"),
                    schema_title: Some("Kanban API list board columns path v1"),
                    valid_fixture: Some("schemas/fixtures/api/list-board-columns-path.v1.valid.json"),
                    invalid_fixture: Some("schemas/fixtures/api/list-board-columns-path.v1.invalid.json"),
                    exclusion: None,
                    producer: None,
                    consumer: None,
                },
                ContractDeclaration {
                    id: "api.list-board-columns.headers",
                    path: "GET /api/v1/boards/:board/columns headers",
                    operation: None,
                    location: Some(HttpTransportLocation::Headers),
                    operation_key: None,
                    parameters: &[
                        WireParameter {
                            name: "Accept-Language",
                            cardinality: Some(WireParameterCardinality::OptionalOne),
                        },
                    ],
                    direction: ContractDirection::Deserialize,
                    strictness: ContractStrictness::DenyUnknownFields,
                    granularity: ContractGranularity::Exact,
                    binding: ContractBinding::ExactSurface,
                    schema_id: Some("urn:kanban-tool:schema:api:list-board-columns-headers:v1"),
                    artifact_path: Some("api/list-board-columns-headers.v1.schema.json"),
                    schema_title: Some("Kanban api.list-board-columns request headers v1"),
                    valid_fixture: Some("schemas/fixtures/api/headers/locale-headers.v1.valid.json"),
                    invalid_fixture: Some("schemas/fixtures/api/headers/locale-headers.v1.invalid.json"),
                    exclusion: None,
                    producer: None,
                    consumer: None,
                },
                ContractDeclaration {
                    id: "api.list-board-columns.response",
                    path: "GET /api/v1/boards/:board/columns response",
                    operation: None,
                    location: Some(HttpTransportLocation::Success),
                    operation_key: None,
                    parameters: &[],
                    direction: ContractDirection::Serialize,
                    strictness: ContractStrictness::DenyUnknownFields,
                    granularity: ContractGranularity::Exact,
                    binding: ContractBinding::ExactSurface,
                    schema_id: Some("urn:kanban-tool:schema:api:list-board-columns-response:v1"),
                    artifact_path: Some("api/list-board-columns-response.v1.schema.json"),
                    schema_title: Some("Kanban API list board columns response v1"),
                    valid_fixture: Some("schemas/fixtures/api/list-board-columns-response.v1.valid.json"),
                    invalid_fixture: Some("schemas/fixtures/api/list-board-columns-response.v1.invalid.json"),
                    exclusion: None,
                    producer: None,
                    consumer: None,
                },
            ],
        },
        OperationDeclaration {
            operation_id: "cli.board-list",
            surface: ContractSurface::Cli,
            method: None,
            path: None,
            operation: "board list",
            key: "board list",
            migration: MigrationState::Generated,
            exclusion: None,
            shared_components: &[],
            header_profile: None,
            mcp_policy: None,
            obligation_overrides: &[],
            contracts: &[
                ContractDeclaration {
                    id: "cli.board-list.output",
                    path: "kanban board list --json stdout",
                    operation: None,
                    location: None,
                    operation_key: None,
                    parameters: &[],
                    direction: ContractDirection::Serialize,
                    strictness: ContractStrictness::DenyUnknownFields,
                    granularity: ContractGranularity::Exact,
                    binding: ContractBinding::ExactSurface,
                    schema_id: Some("urn:kanban-tool:schema:cli:board-list-output:v1"),
                    artifact_path: Some("cli/board-list-output.v1.schema.json"),
                    schema_title: Some("Kanban CLI board list output v1"),
                    valid_fixture: Some("schemas/fixtures/cli/board-list-output.v1.valid.json"),
                    invalid_fixture: Some("schemas/fixtures/cli/board-list-output.v1.invalid.json"),
                    exclusion: None,
                    producer: None,
                    consumer: None,
                },
            ],
        },
        OperationDeclaration {
            operation_id: "cli.board-create",
            surface: ContractSurface::Cli,
            method: None,
            path: None,
            operation: "board create",
            key: "board create",
            migration: MigrationState::Generated,
            exclusion: None,
            shared_components: &[],
            header_profile: None,
            mcp_policy: None,
            obligation_overrides: &[],
            contracts: &[
                ContractDeclaration {
                    id: "cli.board-create.output",
                    path: "kanban board create --json stdout",
                    operation: None,
                    location: None,
                    operation_key: None,
                    parameters: &[],
                    direction: ContractDirection::Serialize,
                    strictness: ContractStrictness::DenyUnknownFields,
                    granularity: ContractGranularity::Exact,
                    binding: ContractBinding::ExactSurface,
                    schema_id: Some("urn:kanban-tool:schema:cli:board-create-output:v1"),
                    artifact_path: Some("cli/board-create-output.v1.schema.json"),
                    schema_title: Some("Kanban CLI board create output v1"),
                    valid_fixture: Some("schemas/fixtures/cli/board-create-output.v1.valid.json"),
                    invalid_fixture: Some("schemas/fixtures/cli/board-create-output.v1.invalid.json"),
                    exclusion: None,
                    producer: None,
                    consumer: None,
                },
            ],
        },
        OperationDeclaration {
            operation_id: "cli.board-show",
            surface: ContractSurface::Cli,
            method: None,
            path: None,
            operation: "board show",
            key: "board show",
            migration: MigrationState::Generated,
            exclusion: None,
            shared_components: &[],
            header_profile: None,
            mcp_policy: None,
            obligation_overrides: &[],
            contracts: &[
                ContractDeclaration {
                    id: "cli.board-show.output",
                    path: "kanban board show --json stdout",
                    operation: None,
                    location: None,
                    operation_key: None,
                    parameters: &[],
                    direction: ContractDirection::Serialize,
                    strictness: ContractStrictness::DenyUnknownFields,
                    granularity: ContractGranularity::Exact,
                    binding: ContractBinding::ExactSurface,
                    schema_id: Some("urn:kanban-tool:schema:cli:board-show-output:v1"),
                    artifact_path: Some("cli/board-show-output.v1.schema.json"),
                    schema_title: Some("Kanban CLI board show output v1"),
                    valid_fixture: Some("schemas/fixtures/cli/board-show-output.v1.valid.json"),
                    invalid_fixture: Some("schemas/fixtures/cli/board-show-output.v1.invalid.json"),
                    exclusion: None,
                    producer: None,
                    consumer: None,
                },
            ],
        },
        OperationDeclaration {
            operation_id: "cli.board-archive",
            surface: ContractSurface::Cli,
            method: None,
            path: None,
            operation: "board archive",
            key: "board archive",
            migration: MigrationState::Generated,
            exclusion: None,
            shared_components: &[],
            header_profile: None,
            mcp_policy: None,
            obligation_overrides: &[],
            contracts: &[
                ContractDeclaration {
                    id: "cli.board-archive.output",
                    path: "kanban board archive --json stdout",
                    operation: None,
                    location: None,
                    operation_key: None,
                    parameters: &[],
                    direction: ContractDirection::Serialize,
                    strictness: ContractStrictness::DenyUnknownFields,
                    granularity: ContractGranularity::Exact,
                    binding: ContractBinding::ExactSurface,
                    schema_id: Some("urn:kanban-tool:schema:cli:board-archive-output:v1"),
                    artifact_path: Some("cli/board-archive-output.v1.schema.json"),
                    schema_title: Some("Kanban CLI board archive output v1"),
                    valid_fixture: Some("schemas/fixtures/cli/board-archive-output.v1.valid.json"),
                    invalid_fixture: Some("schemas/fixtures/cli/board-archive-output.v1.invalid.json"),
                    exclusion: None,
                    producer: None,
                    consumer: None,
                },
            ],
        },
        OperationDeclaration {
            operation_id: "cli.board-columns",
            surface: ContractSurface::Cli,
            method: None,
            path: None,
            operation: "board columns",
            key: "board columns",
            migration: MigrationState::Generated,
            exclusion: None,
            shared_components: &[],
            header_profile: None,
            mcp_policy: None,
            obligation_overrides: &[],
            contracts: &[
                ContractDeclaration {
                    id: "cli.board-columns.output",
                    path: "kanban board columns --json stdout",
                    operation: None,
                    location: None,
                    operation_key: None,
                    parameters: &[],
                    direction: ContractDirection::Serialize,
                    strictness: ContractStrictness::DenyUnknownFields,
                    granularity: ContractGranularity::Exact,
                    binding: ContractBinding::ExactSurface,
                    schema_id: Some("urn:kanban-tool:schema:cli:board-columns-output:v1"),
                    artifact_path: Some("cli/board-columns-output.v1.schema.json"),
                    schema_title: Some("Kanban CLI board columns output v1"),
                    valid_fixture: Some("schemas/fixtures/cli/board-columns-output.v1.valid.json"),
                    invalid_fixture: Some("schemas/fixtures/cli/board-columns-output.v1.invalid.json"),
                    exclusion: None,
                    producer: None,
                    consumer: None,
                },
            ],
        },
    ]
}

/// Every API or SSE operation of the catalog names a method and a path, and every
/// child that declares a schema declares its full metadata.
pub proof fn lemma_board_operations_ready()
    ensures
        endpoints_ready(board_operations()),
        schemas_ready(board_operations()),
{
    reveal(board_operations);
    let ops = board_operations();
    assert forall|i: int| 0 <= i < ops.len() && is_http_surface(#[trigger] ops[i].surface) implies endpoint_ready(ops[i]) by {
        if i == 0 {
        } else if i == 1 {
        } else if i == 2 {
        } else if i == 3 {
        } else if i == 4 {
        } else if i == 5 {
        } else if i == 6 {
        } else if i == 7 {
        } else if i == 8 {
        } else if i == 9 {
        }
    }
    assert forall|i: int, j: int| 0 <= i < ops.len() && 0 <= j < ops[i].contracts@.len() implies schema_ready(#[trigger] ops[i].contracts@[j]) by {
        if i == 0 {
            if j == 0 {
            } else if j == 1 {
            } else if j == 2 {
            }
        } else if i == 1 {
            if j == 0 {
            } else if j == 1 {
            } else if j == 2 {
            }
        } else if i == 2 {
            if j == 0 {
            } else if j == 1 {
            } else if j == 2 {
            }
        } else if i == 3 {
            if j == 0 {
            } else if j == 1 {
            } else if j == 2 {
            } else if j == 3 {
            }
        } else if i == 4 {
            if j == 0 {
            } else if j == 1 {
            } else if j == 2 {
            }
        } else if i == 5 {
            if j == 0 {
            }
        } else if i == 6 {
            if j == 0 {
            }
        } else if i == 7 {
            if j == 0 {
            }
        } else if i == 8 {
            if j == 0 {
            }
        } else if i == 9 {
            if j == 0 {
            }
        }
    }
}

/// The operation declarations of this catalog, in source order.
pub fn operation_declarations() -> (r: Vec<OperationDeclaration>)
    ensures
        r@ == board_operations(),
{
    reveal(board_operations);
    vec![
        OperationDeclaration {
            operation_id: "api.list-boards",
            surface: ContractSurface::Api,
            method: Some(HttpMethod::Get),
            path: Some("/api/v1/boards"),
            operation: "GET /api/v1/boards",
            key: "GET /api/v1/boards",
            migration: MigrationState::Generated,
            exclusion: None,
            shared_components: &[],
            header_profile: Some(ApiHeaderProfile::Locale),
            mcp_policy: Some(McpPolicy {
                exposure: McpExposure::Domain,
                tool_bindings: &[
                    McpToolBinding {
                        tool_name: "board_list",
                        http_operations: &[
                            "api.list-boards",
                        ],
                    },
                ],
                invariants: &[
                    McpOperationInvariant::CanonicalHostOnly,
                    McpOperationInvariant::SharedApplicationService,
                    McpOperationInvariant::NoHostAdminSurface,
                ],
            }),
            obligation_overrides: &[],
            contracts: &[
                ContractDeclaration {
                    id: "api.list-boards.query",
                    path: "GET /api/v1/boards query",
                    operation: None,
                    location: Some(HttpTransportLocation::Query),
                    operation_key: None,
                    parameters: &[
                        WireParameter {
                            name: "include_archived",
                            cardinality: Some(WireParameterCardinality::OptionalOne),
                        },
                    ],
                    direction: ContractDirection::Deserialize,
                    strictness: ContractStrictness::DenyUnknownFields,
                    granularity: ContractGranularity::Exact,
                    binding: ContractBinding::ExactSurface,
                    schema_id: Some("urn:kanban-tool:schema:api:list-boards-query:v1"),
                    artifact_path: Some("api/list-boards-query.v1.schema.json"),
                    schema_title: Some("Kanban list boards query v1"),
                    valid_fixture: Some("schemas/fixtures/api/list-boards-query.v1.valid.json"),
                    invalid_fixture: Some("schemas/fixtures/api/list-boards-query.v1.invalid.json"),
                    exclusion: None,
                    producer: None,
                    consumer: None,
                },
                ContractDeclaration {
                    id: "api.list-boards.headers",
                    path: "GET /api/v1/boards headers",
                    operation: None,
                    location: Some(HttpTransportLocation::Headers),
                    operation_key: None,
                    parameters: &[
                        WireParameter {
                            name: "Accept-Language",
                            cardinality: Some(WireParameterCardinality::OptionalOne),
                        },
                    ],
                    direction: ContractDirection::Deserialize,
                    strictness: ContractStrictness::DenyUnknownFields,
                    granularity: ContractGranularity::Exact,
                    binding: ContractBinding::ExactSurface,
                    schema_id: Some("urn:kanban-tool:schema:api:list-boards-headers:v1"),
                    artifact_path: Some("api/list-boards-headers.v1.schema.json"),
                    schema_title: Some("Kanban api.list-boards request headers v1"),
                    valid_fixture: Some("schemas/fixtures/api/headers/locale-headers.v1.valid.json"),
                    invalid_fixture: Some("schemas/fixtures/api/headers/locale-headers.v1.invalid.json"),
                    exclusion: None,
                    producer: None,
                    consumer: None,
                },
                ContractDeclaration {
                    id: "api.list-boards.response",
                    path: "GET /api/v1/boards response",
                    operation: None,
                    location: Some(HttpTransportLocation::Success),
                    operation_key: None,
                    parameters: &[],
                    direction: ContractDirection::Serialize,
                    strictness: ContractStrictness::DenyUnknownFields,
                    granularity: ContractGranularity::Exact,
                    binding: ContractBinding::ExactSurface,
                    schema_id: Some("urn:kanban-tool:schema:api:list-boards-response:v1"),
                    artifact_path: Some("api/list-boards-response.v1.schema.json"),
                    schema_title: Some("Kanban list boards response v1"),
                    valid_fixture: Some("schemas/fixtures/api/list-boards-response.v1.valid.json"),
                    invalid_fixture: Some("schemas/fixtures/api/list-boards-response.v1.invalid.json"),
                    exclusion: None,
                    producer: None,
                    consumer: None,
                },
            ],
        },
        OperationDeclaration {
            operation_id: "api.create-board",
            surface: ContractSurface::Api,
            method: Some(HttpMethod::Post),
            path: Some("/api/v1/boards"),
            operation: "POST /api/v1/boards",
            key: "POST /api/v1/boards",
            migration: MigrationState::Generated,
            exclusion: None,
            shared_components: &[],
            header_profile: Some(ApiHeaderProfile::LocaleActorJson),
            mcp_policy: Some(McpPolicy {
                exposure: McpExposure::Domain,
                tool_bindings: &[
                    McpToolBinding {
                        tool_name: "board_create",
                        http_operations: &[
                            "api.create-board",
                        ],
                    },
                ],
                invariants: &[
                    McpOperationInvariant::CanonicalHostOnly,
                    McpOperationInvariant::SharedApplicationService,
                    McpOperationInvariant::NoHostAdminSurface,
                ],
            }),
            obligation_overrides: &[],
            contracts: &[
                ContractDeclaration {
                    id: "api.create-board.headers",
                    path: "POST /api/v1/boards headers",
                    operation: None,
                    location: Some(HttpTransportLocation::Headers),
                    operation_key: None,
                    parameters: &[
                        WireParameter {
                            name: "Accept-Language",
                            cardinality: Some(WireParameterCardinality::OptionalOne),
                        },
                        WireParameter {
                            name: "X-KB-Actor",
                            cardinality: Some(WireParameterCardinality::OptionalOne),
                        },
                        WireParameter {
                            name: "Content-Type",
                            cardinality: Some(WireParameterCardinality::RequiredOne),
                        },
                    ],
                    direction: ContractDirection::Deserialize,
                    strictness: ContractStrictness::DenyUnknownFields,
                    granularity: ContractGranularity::Exact,
                    binding: ContractBinding::ExactSurface,
                    schema_id: Some("urn:kanban-tool:schema:api:create-board-headers:v1"),
                    artifact_path: Some("api/create-board-headers.v1.schema.json"),
                    schema_title: Some("Kanban api.create-board request headers v1"),
                    valid_fixture: Some("schemas/fixtures/api/headers/locale-actor-json-headers.v1.valid.json"),
                    invalid_fixture: Some("schemas/fixtures/api/headers/locale-actor-json-headers.v1.invalid.json"),
                    exclusion: None,
                    producer: None,
                    consumer: None,
                },
                ContractDeclaration {
                    id: "api.create-board.request",
                    path: "POST /api/v1/boards request",
                    operation: None,
                    location: Some(HttpTransportLocation::Body),
                    operation_key: None,
                    parameters: &[],
                    direction: ContractDirection::Deserialize,
                    strictness: ContractStrictness::DenyUnknownFields,
                    granularity: ContractGranularity::Exact,
                    binding: ContractBinding::ExactSurface,
                    schema_id: Some("urn:kanban-tool:schema:api:create-board-request:v1"),
                    artifact_path: Some("api/create-board-request.v1.schema.json"),
                    schema_title: Some("Kanban create board request v1"),
                    valid_fixture: Some("schemas/fixtures/api/create-board-request.v1.valid.json"),
                    invalid_fixture: Some("schemas/fixtures/api/create-board-request.v1.invalid.json"),
                    exclusion: None,
                    producer: None,
                    consumer: None,
                },
                ContractDeclaration {
                    id: "api.create-board.response",
                    path: "POST /api/v1/boards response",
                    operation: None,
                    location: Some(HttpTransportLocation::Success),
                    operation_key: None,
                    parameters: &[],
                    direction: ContractDirection::Serialize,
                    strictness: ContractStrictness::DenyUnknownFields,
                    granularity: ContractGranularity::Exact,
                    binding: ContractBinding::ExactSurface,
                    schema_id: Some("urn:kanban-tool:schema:api:create-board-response:v1"),
                    artifact_path: Some("api/create-board-response.v1.schema.json"),
                    schema_title: Some("Kanban create board response v1"),
                    valid_fixture: Some("schemas/fixtures/api/create-board-response.v1.valid.json"),
                    invalid_fixture: Some("schemas/fixtures/api/create-board-response.v1.invalid.json"),
                    exclusion: None,
                    producer: None,
                    consumer: None,
                },
            ],
        },
        OperationDeclaration {
            operation_id: "api.get-board",
            surface: ContractSurface::Api,
            method: Some(HttpMethod::Get),
            path: Some("/api/v1/boards/:board"),
            operation: "GET /api/v1/boards/:board",
            key: "GET /api/v1/boards/:board",
            migration: MigrationState::Generated,
            exclusion: None,
            shared_components: &[],
            header_profile: Some(ApiHeaderProfile::Locale),
            mcp_policy: Some(McpPolicy {
                exposure: McpExposure::Domain,
                tool_bindings: &[
                    McpToolBinding {
                        tool_name: "board_show",
                        http_operations: &[
                            "api.get-board",
                        ],
                    },
                ],
                invariants: &[
                    McpOperationInvariant::CanonicalHostOnly,
                    McpOperationInvariant::SharedApplicationService,
                    McpOperationInvariant::NoHostAdminSurface,
                ],
            }),
            obligation_overrides: &[],
            contracts: &[
                ContractDeclaration {
                    id: "api.get-board.path",
                    path: "GET /api/v1/boards/:board path",
                    operation: None,
                    location: Some(HttpTransportLocation::Path),
                    operation_key: None,
                    parameters: &[
                        WireParameter {
                            name: "board",
                            cardinality: Some(WireParameterCardinality::RequiredOne),
                        },
                    ],
                    direction: ContractDirection::Deserialize,
                    strictness: ContractStrictness::DenyUnknownFields,
                    granularity: ContractGranularity::Exact,
                    binding: ContractBinding::ExactSurface,
                    schema_id: Some("urn:kanban-tool:schema:api:get-board-path:v1"),
                    artifact_path: Some("api/get-board-path.v1.schema.json"),
                    schema_title: Some("Kanban get board path v1"),
                    valid_fixture: Some("schemas/fixtures/api/get-board-path.v1.valid.json"),
                    invalid_fixture: Some("schemas/fixtures/api/get-board-path.v1.invalid.json"),
                    exclusion: None,
                    producer: None,
                    consumer: None,
                },
                ContractDeclaration {
                    id: "api.get-board.headers",
                    path: "GET /api/v1/boards/:board headers",
                    operation: None,
                    location: Some(HttpTransportLocation::Headers),
                    operation_key: None,
                    parameters: &[
                        WireParameter {
                            name: "Accept-Language",
                            cardinality: Some(WireParameterCardinality::OptionalOne),
                        },
                    ],
                    direction: ContractDirection::Deserialize,
                    strictness: ContractStrictness::DenyUnknownFields,
                    granularity: ContractGranularity::Exact,
                    binding: ContractBinding::ExactSurface,
                    schema_id: Some("urn:kanban-tool:schema:api:get-board-headers:v1"),
                    artifact_path: Some("api/get-board-headers.v1.schema.json"),
                    schema_title: Some("Kanban api.get-board request headers v1"),
                    valid_fixture: Some("schemas/fixtures/api/headers/locale-headers.v1.valid.json"),
                    invalid_fixture: Some("schemas/fixtures/api/headers/locale-headers.v1.invalid.json"),
                    exclusion: None,
                    producer: None,
                    consumer: None,
                },
                ContractDeclaration {
                    id: "api.get-board.response",
                    path: "GET /api/v1/boards/:board response",
                    operation: None,
                    location: Some(HttpTransportLocation::Success),
                    operation_key: None,
                    parameters: &[],
                    direction: ContractDirection::Serialize,
                    strictness: ContractStrictness::DenyUnknownFields,
                    granularity: ContractGranularity::Exact,
                    binding: ContractBinding::ExactSurface,
                    schema_id: Some("urn:kanban-tool:schema:api:get-board-response:v1"),
                    artifact_path: Some("api/get-board-response.v1.schema.json"),
                    schema_title: Some("Kanban get board response v1"),
                    valid_fixture: Some("schemas/fixtures/api/get-board-response.v1.valid.json"),
                    invalid_fixture: Some("schemas/fixtures/api/get-board-response.v1.invalid.json"),
                    exclusion: None,
                    producer: None,
                    consumer: None,
                },
            ],
        },
        OperationDeclaration {
            operation_id: "api.archive-board",
            surface: ContractSurface::Api,
            method: Some(HttpMethod::Post),
            path: Some("/api/v1/boards/:board/archive"),
            operation: "POST /api/v1/boards/:board/archive",
            key: "POST /api/v1/boards/:board/archive",
            migration: MigrationState::Generated,
            exclusion: None,
            shared_components: &[],
            header_profile: Some(ApiHeaderProfile::LocaleActorOptionalJson),
            mcp_policy: Some(McpPolicy {
                exposure: McpExposure::Domain,
                tool_bindings: &[
                    McpToolBinding {
                        tool_name: "board_archive",
                        http_operations: &[
                            "api.archive-board",
                        ],
                    },
                ],
                invariants: &[
                    McpOperationInvariant::CanonicalHostOnly,
                    McpOperationInvariant::SharedApplicationService,
                    McpOperationInvariant::NoHostAdminSurface,
                ],
            }),
            obligation_overrides: &[],
            contracts: &[
                ContractDeclaration {
                    id: "api.archive-board.path",
                    path: "POST /api/v1/boards/:board/archive path",
                    operation: None,
                    location: Some(HttpTransportLocation::Path),
                    operation_key: None,
                    parameters: &[
                        WireParameter {
                            name: "board",
                            cardinality: Some(WireParameterCardinality::RequiredOne),
                        },
                    ],
                    direction: ContractDirection::Deserialize,
                    strictness: ContractStrictness::DenyUnknownFields,
                    granularity: ContractGranularity::Exact,
                    binding: ContractBinding::ExactSurface,
                    schema_id: Some("urn:kanban-tool:schema:api:archive-board-path:v1"),
                    artifact_path: Some("api/archive-board-path.v1.schema.json"),
                    schema_title: Some("Kanban archive board path v1"),
                    valid_fixture: Some("schemas/fixtures/api/archive-board-path.v1.valid.json"),
                    invalid_fixture: Some("schemas/fixtures/api/archive-board-path.v1.invalid.json"),
                    exclusion: None,
                    producer: None,
                    consumer: None,
                },
                ContractDeclaration {
                    id: "api.archive-board.headers",
                    path: "POST /api/v1/boards/:board/archive headers",
                    operation: None,
                    location: Some(HttpTransportLocation::Headers),
                    operation_key: None,
                    parameters: &[
                        WireParameter {
                            name: "Accept-Language",
                            cardinality: Some(WireParameterCardinality::OptionalOne),
                        },
                        WireParameter {
                            name: "X-KB-Actor",
                            cardinality: Some(WireParameterCardinality::OptionalOne),
                        },
                        WireParameter {
                            name: "Content-Type",
                            cardinality: Some(WireParameterCardinality::OptionalOne),
                        },
                    ],
                    direction: ContractDirection::Deserialize,
                    strictness: ContractStrictness::DenyUnknownFields,
                    granularity: ContractGranularity::Exact,
                    binding: ContractBinding::ExactSurface,
                    schema_id: Some("urn:kanban-tool:schema:api:archive-board-headers:v1"),
                    artifact_path: Some("api/archive-board-headers.v1.schema.json"),
                    schema_title: Some("Kanban api.archive-board request headers v1"),
                    valid_fixture: Some("schemas/fixtures/api/headers/locale-actor-optional-json-headers.v1.valid.json"),
                    invalid_fixture: Some("schemas/fixtures/api/headers/locale-actor-optional-json-headers.v1.invalid.json"),
                    exclusion: None,
                    producer: None,
                    consumer: None,
                },
                ContractDeclaration {
                    id: "api.archive-board.request",
                    path: "POST /api/v1/boards/:board/archive",
                    operation: None,
                    location: Some(HttpTransportLocation::Body),
                    operation_key: None,
                    parameters: &[],
                    direction: ContractDirection::Deserialize,
                    strictness: ContractStrictness::DenyUnknownFields,
                    granularity: ContractGranularity::Exact,
                    binding: ContractBinding::ExactSurface,
                    schema_id: Some("urn:kanban-tool:schema:api:archive-board-request:v1"),
                    artifact_path: Some("api/archive-board-request.v1.schema.json"),
                    schema_title: Some("Kanban archive board request v1"),
                    valid_fixture: Some("schemas/fixtures/api/archive-board-request.v1.valid.json"),
                    invalid_fixture: Some("schemas/fixtures/api/archive-board-request.v1.invalid.json"),
                    exclusion: None,
                    producer: None,
                    consumer: None,
                },
                ContractDeclaration {
                    id: "api.archive-board.response",
                    path: "POST /api/v1/boards/:board/archive response",
                    operation: None,
                    location: Some(HttpTransportLocation::Success),
                    operation_key: None,
                    parameters: &[],
                    direction: ContractDirection::Serialize,
                    strictness: ContractStrictness::DenyUnknownFields,
                    granularity: ContractGranularity::Exact,
                    binding: ContractBinding::ExactSurface,
                    schema_id: Some("urn:kanban-tool:schema:api:archive-board-response:v1"),
                    artifact_path: Some("api/archive-board-response.v1.schema.json"),
                    schema_title: Some("Kanban archive board response v1"),
                    valid_fixture: Some("schemas/fixtures/api/archive-board-response.v1.valid.json"),
                    invalid_fixture: Some("schemas/fixtures/api/archive-board-response.v1.invalid.json"),
                    exclusion: None,
                    producer: None,
                    consumer: None,
                },
            ],
        },
        OperationDeclaration {
            operation_id: "api.list-board-columns",
            surface: ContractSurface::Api,
            method: Some(HttpMethod::Get),
            path: Some("/api/v1/boards/:board/columns"),
            operation: "GET /api/v1/boards/:board/columns",
            key: "GET /api/v1/boards/:board/columns",
            migration: MigrationState::Generated,
            exclusion: None,
            shared_components: &[],
            header_profile: Some(ApiHeaderProfile::Locale),
            mcp_policy: Some(McpPolicy {
                exposure: McpExposure::Domain,
                tool_bindings: &[
                    McpToolBinding {
                        tool_name: "board_columns",
                        http_operations: &[
                            "api.list-board-columns",
                        ],
                    },
                ],
                invariants: &[
                    McpOperationInvariant::CanonicalHostOnly,
                    McpOperationInvariant::SharedApplicationService,
                    McpOperationInvariant::NoHostAdminSurface,
                ],
            }),
            obligation_overrides: &[],
            contracts: &[
                ContractDeclaration {
                    id: "api.list-board-columns.path",
                    path: "GET /api/v1/boards/:board/columns path",
                    operation: None,
                    location: Some(HttpTransportLocation::Path),
                    operation_key: None,
                    parameters: &[
                        WireParameter {
                            name: "board",
                            cardinality: Some(WireParameterCardinality::RequiredOne),
                        },
                    ],
                    direction: ContractDirection::Deserialize,
                    strictness: ContractStrictness::DenyUnknownFields,
                    granularity: ContractGranularity::Exact,
                    binding: ContractBinding::ExactSurface,
                    schema_id: Some("urn:kanban-tool:schema:api:list-board-columns-path:v1"),
                    artifact_path: Some("api/list-board-columns-path.v1.schema.json"),
                    schema_title: Some("Kanban API list board columns path v1"),
                    valid_fixture: Some("schemas/fixtures/api/list-board-columns-path.v1.valid.json"),
                    invalid_fixture: Some("schemas/fixtures/api/list-board-columns-path.v1.invalid.json"),
                    exclusion: None,
                    producer: None,
                    consumer: None,
                },
                ContractDeclaration {
                    id: "api.list-board-columns.headers",
                    path: "GET /api/v1/boards/:board/columns headers",
                    operation: None,
                    location: Some(HttpTransportLocation::Headers),
                    operation_key: None,
                    parameters: &[
                        WireParameter {
                            name: "Accept-Language",
                            cardinality: Some(WireParameterCardinality::OptionalOne),
                        },
                    ],
                    direction: ContractDirection::Deserialize,
                    strictness: ContractStrictness::DenyUnknownFields,
                    granularity: ContractGranularity::Exact,
                    binding: ContractBinding::ExactSurface,
                    schema_id: Some("urn:kanban-tool:schema:api:list-board-columns-headers:v1"),
                    artifact_path: Some("api/list-board-columns-headers.v1.schema.json"),
                    schema_title: Some("Kanban api.list-board-columns request headers v1"),
                    valid_fixture: Some("schemas/fixtures/api/headers/locale-headers.v1.valid.json"),
                    invalid_fixture: Some("schemas/fixtures/api/headers/locale-headers.v1.invalid.json"),
                    exclusion: None,
                    producer: None,
                    consumer: None,
                },
                ContractDeclaration {
                    id: "api.list-board-columns.response",
                    path: "GET /api/v1/boards/:board/columns response",
                    operation: None,
                    location: Some(HttpTransportLocation::Success),
                    operation_key: None,
                    parameters: &[],
                    direction: ContractDirection::Serialize,
                    strictness: ContractStrictness::DenyUnknownFields,
                    granularity: ContractGranularity::Exact,
                    binding: ContractBinding::ExactSurface,
                    schema_id: Some("urn:kanban-tool:schema:api:list-board-columns-response:v1"),
                    artifact_path: Some("api/list-board-columns-response.v1.schema.json"),
                    schema_title: Some("Kanban API list board columns response v1"),
                    valid_fixture: Some("schemas/fixtures/api/list-board-columns-response.v1.valid.json"),
                    invalid_fixture: Some("schemas/fixtures/api/list-board-columns-response.v1.invalid.json"),
                    exclusion: None,
                    producer: None,
                    consumer: None,
                },
            ],
        },
        OperationDeclaration {
            operation_id: "cli.board-list",
            surface: ContractSurface::Cli,
            method: None,
            path: None,
            operation: "board list",
            key: "board list",
            migration: MigrationState::Generated,
            exclusion: None,
            shared_components: &[],
            header_profile: None,
            mcp_policy: None,
            obligation_overrides: &[],
            contracts: &[
                ContractDeclaration {
                    id: "cli.board-list.output",
                    path: "kanban board list --json stdout",
                    operation: None,
                    location: None,
                    operation_key: None,
                    parameters: &[],
                    direction: ContractDirection::Serialize,
                    strictness: ContractStrictness::DenyUnknownFields,
                    granularity: ContractGranularity::Exact,
                    binding: ContractBinding::ExactSurface,
                    schema_id: Some("urn:kanban-tool:schema:cli:board-list-output:v1"),
                    artifact_path: Some("cli/board-list-output.v1.schema.json"),
                    schema_title: Some("Kanban CLI board list output v1"),
                    valid_fixture: Some("schemas/fixtures/cli/board-list-output.v1.valid.json"),
                    invalid_fixture: Some("schemas/fixtures/cli/board-list-output.v1.invalid.json"),
                    exclusion: None,
                    producer: None,
                    consumer: None,
                },
            ],
        },
        OperationDeclaration {
            operation_id: "cli.board-create",
            surface: ContractSurface::Cli,
            method: None,
            path: None,
            operation: "board create",
            key: "board create",
            migration: MigrationState::Generated,
            exclusion: None,
            shared_components: &[],
            header_profile: None,
            mcp_policy: None,
            obligation_overrides: &[],
            contracts: &[
                ContractDeclaration {
                    id: "cli.board-create.output",
                    path: "kanban board create --json stdout",
                    operation: None,
                    location: None,
                    operation_key: None,
                    parameters: &[],
                    direction: ContractDirection::Serialize,
                    strictness: ContractStrictness::DenyUnknownFields,
                    granularity: ContractGranularity::Exact,
                    binding: ContractBinding::ExactSurface,
                    schema_id: Some("urn:kanban-tool:schema:cli:board-create-output:v1"),
                    artifact_path: Some("cli/board-create-output.v1.schema.json"),
                    schema_title: Some("Kanban CLI board create output v1"),
                    valid_fixture: Some("schemas/fixtures/cli/board-create-output.v1.valid.json"),
                    invalid_fixture: Some("schemas/fixtures/cli/board-create-output.v1.invalid.json"),
                    exclusion: None,
                    producer: None,
                    consumer: None,
                },
            ],
        },
        OperationDeclaration {
            operation_id: "cli.board-show",
            surface: ContractSurface::Cli,
            method: None,
            path: None,
            operation: "board show",
            key: "board show",
            migration: MigrationState::Generated,
            exclusion: None,
            shared_components: &[],
            header_profile: None,
            mcp_policy: None,
            obligation_overrides: &[],
            contracts: &[
                ContractDeclaration {
                    id: "cli.board-show.output",
                    path: "kanban board show --json stdout",
                    operation: None,
                    location: None,
                    operation_key: None,
                    parameters: &[],
                    direction: ContractDirection::Serialize,
                    strictness: ContractStrictness::DenyUnknownFields,
                    granularity: ContractGranularity::Exact,
                    binding: ContractBinding::ExactSurface,
                    schema_id: Some("urn:kanban-tool:schema:cli:board-show-output:v1"),
                    artifact_path: Some("cli/board-show-output.v1.schema.json"),
                    schema_title: Some("Kanban CLI board show output v1"),
                    valid_fixture: Some("schemas/fixtures/cli/board-show-output.v1.valid.json"),
                    invalid_fixture: Some("schemas/fixtures/cli/board-show-output.v1.invalid.json"),
                    exclusion: None,
                    producer: None,
                    consumer: None,
                },
            ],
        },
        OperationDeclaration {
            operation_id: "cli.board-archive",
            surface: ContractSurface::Cli,
            method: None,
            path: None,
            operation: "board archive",
            key: "board archive",
            migration: MigrationState::Generated,
            exclusion: None,
            shared_components: &[],
            header_profile: None,
            mcp_policy: None,
            obligation_overrides: &[],
            contracts: &[
                ContractDeclaration {
                    id: "cli.board-archive.output",
                    path: "kanban board archive --json stdout",
                    operation: None,
                    location: None,
                    operation_key: None,
                    parameters: &[],
                    direction: ContractDirection::Serialize,
                    strictness: ContractStrictness::DenyUnknownFields,
                    granularity: ContractGranularity::Exact,
                    binding: ContractBinding::ExactSurface,
                    schema_id: Some("urn:kanban-tool:schema:cli:board-archive-output:v1"),
                    artifact_path: Some("cli/board-archive-output.v1.schema.json"),
                    schema_title: Some("Kanban CLI board archive output v1"),
                    valid_fixture: Some("schemas/fixtures/cli/board-archive-output.v1.valid.json"),
                    invalid_fixture: Some("schemas/fixtures/cli/board-archive-output.v1.invalid.json"),
                    exclusion: None,
                    producer: None,
                    consumer: None,
                },
            ],
        },
        OperationDeclaration {
            operation_id: "cli.board-columns",
            surface: ContractSurface::Cli,
            method: None,
            path: None,
            operation: "board columns",
            key: "board columns",
            migration: MigrationState::Generated,
            exclusion: None,
            shared_components: &[],
            header_profile: None,
            mcp_policy: None,
            obligation_overrides: &[],
            contracts: &[
                ContractDeclaration {
                    id: "cli.board-columns.output",
                    path: "kanban board columns --json stdout",
                    operation: None,
                    location: None,
                    operation_key: None,
                    parameters: &[],
                    direction: ContractDirection::Serialize,
                    strictness: ContractStrictness::DenyUnknownFields,
                    granularity: ContractGranularity::Exact,
                    binding: ContractBinding::ExactSurface,
                    schema_id: Some("urn:kanban-tool:schema:cli:board-columns-output:v1"),
                    artifact_path: Some("cli/board-columns-output.v1.schema.json"),
                    schema_title: Some("Kanban CLI board columns output v1"),
                    valid_fixture: Some("schemas/fixtures/cli/board-columns-output.v1.valid.json"),
                    invalid_fixture: Some("schemas/fixtures/cli/board-columns-output.v1.invalid.json"),
                    exclusion: None,
                    producer: None,
                    consumer: None,
                },
            ],
        },
    ]
}

/// The inventory rows of the catalog, operation by operation.
pub fn operation_contracts() -> (r: Vec<OperationContract>)
    ensures
        r@ == catalog_contracts(board_operations()),
{
    let ops = operation_declarations();
    project_contracts(&ops)
}

/// The inventory row with the given id.
pub fn operation_contract(id: &str) -> (r: Option<OperationContract>)
    ensures
        match first_index(catalog_contracts(board_operations()), has_contract_id(id@)) {
            Some(i) => r == Some(catalog_contracts(board_operations())[i]),
            None => r is None,
        },
{
    let rows = operation_contracts();
    find_contract(&rows, id)
}

/// The endpoint descriptor with the given operation id.
pub fn endpoint_descriptor(id: &str) -> (r: Option<EndpointDescriptor>)
    ensures
        match first_index(catalog_endpoints(board_operations()), has_endpoint_id(id@)) {
            Some(i) => r == Some(catalog_endpoints(board_operations())[i]),
            None => r is None,
        },
{
    let endpoints = endpoint_catalog();
    find_endpoint(&endpoints, id)
}

/// The header profile declared on the operation with the given id.
pub fn header_profile(id: &str) -> (r: Option<ApiHeaderProfile>)
    ensures
        r == catalog_header_profile(board_operations(), id@),
{
    let ops = operation_declarations();
    lookup_header_profile(&ops, id)
}

/// The header contract row of the operation with the given id.
pub fn header_contract(id: &str) -> (r: Option<OperationContract>)
    ensures
        r == catalog_header_contract(board_operations(), id@),
{
    let ops = operation_declarations();
    lookup_header_contract(&ops, id)
}

/// The endpoint descriptors of the catalog's API and SSE operations.
pub fn endpoint_catalog() -> (r: Vec<EndpointDescriptor>)
    ensures
        r@ == catalog_endpoints(board_operations()),
{
    proof {
        lemma_board_operations_ready();
    }
    let ops = operation_declarations();
    project_endpoints(&ops)
}

/// The surface rows of the catalog, one per operation.
pub fn surface_catalog() -> (r: Vec<SurfaceOperation>)
    ensures
        r@.len() == board_operations().len(),
        forall|i: int| 0 <= i < board_operations().len() ==> (#[trigger] r@[i])@ == projected_surface(board_operations()[i]),
{
    let ops = operation_declarations();
    project_surfaces(&ops)
}

/// The surface row of the operation with the given key; the key must be declared.
pub fn surface_operation(key: &str) -> (r: SurfaceOperation)
    requires
        first_index(board_operations(), has_surface_key(key@)) is Some,
    ensures
        r@ == projected_surface(board_operations()[first_index(board_operations(), has_surface_key(key@)).unwrap()]),
{
    let ops = operation_declarations();
    find_surface(&ops, key).unwrap()
}

/// The schema roots that the catalog's children declare.
pub fn schema_roots() -> (r: Vec<SchemaRoot>)
    ensures
        r@ == catalog_schemas(board_operations()),
{
    proof {
        lemma_board_operations_ready();
    }
    let ops = operation_declarations();
    project_schemas(&ops)
}

/// Whether some child of the catalog has the given id.
pub fn owns_contract(id: &str) -> (r: bool)
    ensures
        r == catalog_owns_contract(board_operations(), id@),
{
    let ops = operation_declarations();
    catalog_has_contract(&ops, id)
}


/// The endpoint ids of this catalog, in order: those of its API and SSE operations.
pub proof fn lemma_board_endpoint_ids()
    ensures
        endpoint_ids(board_operations()) == seq![
            "api.list-boards"@,
            "api.create-board"@,
            "api.get-board"@,
            "api.archive-board"@,
            "api.list-board-columns"@,
        ],
{
    reveal(board_operations);
    let ops = board_operations();
    assert forall|i: int| 0 <= i < 5 implies is_http_surface(#[trigger] ops[i].surface) by {
        if i == 0 {} else if i == 1 {} else if i == 2 {} else if i == 3 {} else if i == 4 {}
    }
    assert forall|i: int| 5 <= i < ops.len() implies !is_http_surface(#[trigger] ops[i].surface) by {
        if i == 5 {} else if i == 6 {} else if i == 7 {} else if i == 8 {} else if i == 9 {}
    }
    lemma_endpoint_ids_prefix(ops, 5);
    let ids: Seq<Seq<char>> = seq![
        "api.list-boards"@,
        "api.create-board"@,
        "api.get-board"@,
        "api.archive-board"@,
        "api.list-board-columns"@,
    ];
    assert forall|i: int| 0 <= i < 5 implies ops.take(5).map_values(|o: OperationDeclaration| o.operation_id@)[i] == ids[i] by {
        if i == 0 {} else if i == 1 {} else if i == 2 {} else if i == 3 {} else if i == 4 {}
    }
    assert(ops.take(5).map_values(|o: OperationDeclaration| o.operation_id@) =~= ids);
}


/// The operation ids of this catalog, in source order.
pub open spec fn board_operation_ids() -> Seq<Seq<char>> {
    seq![
        "api.list-boards"@,
        "api.create-board"@,
        "api.get-board"@,
        "api.archive-board"@,
        "api.list-board-columns"@,
        "cli.board-list"@,
        "cli.board-create"@,
        "cli.board-show"@,
        "cli.board-archive"@,
        "cli.board-columns"@,
    ]
}

/// The inventory row ids of this catalog, in order.
pub open spec fn board_contract_ids() -> Seq<Seq<char>> {
    seq![
        "api.list-boards.query"@,
        "api.list-boards.headers"@,
        "api.list-boards.response"@,
        "api.create-board.headers"@,
        "api.create-board.request"@,
        "api.create-board.response"@,
        "api.get-board.path"@,
        "api.get-board.headers"@,
        "api.get-board.response"@,
        "api.archive-board.path"@,
        "api.archive-board.headers"@,
        "api.archive-board.request"@,
        "api.archive-board.response"@,
        "api.list-board-columns.path"@,
        "api.list-board-columns.headers"@,
        "api.list-board-columns.response"@,
        "cli.board-list.output"@,
        "cli.board-create.output"@,
        "cli.board-show.output"@,
        "cli.board-archive.output"@,
        "cli.board-columns.output"@,
    ]
}

/// The ids of this catalog's operations.
pub proof fn lemma_board_operation_ids()
    ensures
        board_operations().map_values(|o: OperationDeclaration| o.operation_id@) == board_operation_ids(),
{
    reveal(board_operations);
    let ops = board_operations();
    let ids = board_operation_ids();
    assert forall|i: int| 0 <= i < 10 implies ops.map_values(|o: OperationDeclaration| o.operation_id@)[i] == ids[i] by {
        if i == 0 {} else if i == 1 {} else if i == 2 {} else if i == 3 {} else if i == 4 {} else if i == 5 {} else if i == 6 {} else if i == 7 {} else if i == 8 {} else if i == 9 {}
    }
    assert(ops.map_values(|o: OperationDeclaration| o.operation_id@) =~= ids);
}

/// The ids of this catalog's inventory rows.
#[verifier::rlimit(100)]
pub proof fn lemma_board_contract_ids()
    ensures
        catalog_contracts(board_operations()).map_values(|r: OperationContract| r.id@) == board_contract_ids(),
{
    reveal(board_operations);
    reveal_with_fuel(flatten, 11);
    let rows = catalog_contracts(board_operations());
    let ids = board_contract_ids();
    assert(rows.len() == 21);
    assert forall|i: int| 0 <= i < 21 implies rows.map_values(|r: OperationContract| r.id@)[i] == ids[i] by {
        if i == 0 {} else if i == 1 {} else if i == 2 {} else if i == 3 {} else if i == 4 {} else if i == 5 {} else if i == 6 {} else if i == 7 {} else if i == 8 {} else if i == 9 {} else if i == 10 {} else if i == 11 {} else if i == 12 {} else if i == 13 {} else if i == 14 {} else if i == 15 {} else if i == 16 {} else if i == 17 {} else if i == 18 {} else if i == 19 {} else if i == 20 {}
    }
    assert(rows.map_values(|r: OperationContract| r.id@) =~= ids);
}

/// `api.create-board` differs from every operation id of this catalog before it.
proof fn lemma_board_operation_id_api_create_board_is_new()
    ensures
        forall|j: int| 0 <= j < 1 ==> #[trigger] board_operation_ids()[j] != board_operation_ids()[1],
{
    reveal_strlit("api.create-board");
    reveal_strlit("api.list-boards");
    assert("api.create-board"@.len() == 16);
    assert("api.list-boards"@.len() == 15);
    let ids = board_operation_ids();
    assert forall|j: int| 0 <= j < 1 implies #[trigger] ids[j] != ids[1] by {
        if j == 0 {}
    }
}

/// `api.get-board` differs from every operation id of this catalog before it.
proof fn lemma_board_operation_id_api_get_board_is_new()
    ensures
        forall|j: int| 0 <= j < 2 ==> #[trigger] board_operation_ids()[j] != board_operation_ids()[2],
{
    reveal_strlit("api.get-board");
    reveal_strlit("api.list-boards");
    reveal_strlit("api.create-board");
    assert("api.get-board"@.len() == 13);
    assert("api.list-boards"@.len() == 15);
    assert("api.create-board"@.len() == 16);
    let ids = board_operation_ids();
    assert forall|j: int| 0 <= j < 2 implies #[trigger] ids[j] != ids[2] by {
        if j == 0 {} else if j == 1 {}
    }
}

/// `api.archive-board` differs from every operation id of this catalog before it.
proof fn lemma_board_operation_id_api_archive_board_is_new()
    ensures
        forall|j: int| 0 <= j < 3 ==> #[trigger] board_operation_ids()[j] != board_operation_ids()[3],
{
    reveal_strlit("api.archive-board");
    reveal_strlit("api.list-boards");
    reveal_strlit("api.create-board");
    reveal_strlit("api.get-board");
    assert("api.archive-board"@.len() == 17);
    assert("api.list-boards"@.len() == 15);
    assert("api.create-board"@.len() == 16);
    assert("api.get-board"@.len() == 13);
    let ids = board_operation_ids();
    assert forall|j: int| 0 <= j < 3 implies #[trigger] ids[j] != ids[3] by {
        if j == 0 {} else if j == 1 {} else if j == 2 {}
    }
}

/// `api.list-board-columns` differs from every operation id of this catalog before it.
proof fn lemma_board_operation_id_api_list_board_columns_is_new()
    ensures
        forall|j: int| 0 <= j < 4 ==> #[trigger] board_operation_ids()[j] != board_operation_ids()[4],
{
    reveal_strlit("api.list-board-columns");
    reveal_strlit("api.list-boards");
    reveal_strlit("api.create-board");
    reveal_strlit("api.get-board");
    reveal_strlit("api.archive-board");
    assert("api.list-board-columns"@.len() == 22);
    assert("api.list-boards"@.len() == 15);
    assert("api.create-board"@.len() == 16);
    assert("api.get-board"@.len() == 13);
    assert("api.archive-board"@.len() == 17);
    let ids = board_operation_ids();
    assert forall|j: int| 0 <= j < 4 implies #[trigger] ids[j] != ids[4] by {
        if j == 0 {} else if j == 1 {} else if j == 2 {} else if j == 3 {}
    }
}

/// `cli.board-list` differs from every operation id of this catalog before it.
proof fn lemma_board_operation_id_cli_board_list_is_new()
    ensures
        forall|j: int| 0 <= j < 5 ==> #[trigger] board_operation_ids()[j] != board_operation_ids()[5],
{
    reveal_strlit("cli.board-list");
    reveal_strlit("api.list-boards");
    reveal_strlit("api.create-board");
    reveal_strlit("api.get-board");
    reveal_strlit("api.archive-board");
    reveal_strlit("api.list-board-columns");
    assert("cli.board-list"@.len() == 14);
    assert("api.list-boards"@.len() == 15);
    assert("api.create-board"@.len() == 16);
    assert("api.get-board"@.len() == 13);
    assert("api.archive-board"@.len() == 17);
    assert("api.list-board-columns"@.len() == 22);
    let ids = board_operation_ids();
    assert forall|j: int| 0 <= j < 5 implies #[trigger] ids[j] != ids[5] by {
        if j == 0 {} else if j == 1 {} else if j == 2 {} else if j == 3 {} else if j == 4 {}
    }
}

/// `cli.board-create` differs from every operation id of this catalog before it.
proof fn lemma_board_operation_id_cli_board_create_is_new()
    ensures
        forall|j: int| 0 <= j < 6 ==> #[trigger] board_operation_ids()[j] != board_operation_ids()[6],
{
    reveal_strlit("cli.board-create");
    reveal_strlit("api.list-boards");
    reveal_strlit("api.create-board");
    reveal_strlit("api.get-board");
    reveal_strlit("api.archive-board");
    reveal_strlit("api.list-board-columns");
    reveal_strlit("cli.board-list");
    assert("cli.board-create"@.len() == 16);
    assert("api.list-boards"@.len() == 15);
    assert("api.create-board"@.len() == 16);
    assert("api.get-board"@.len() == 13);
    assert("api.archive-board"@.len() == 17);
    assert("api.list-board-columns"@.len() == 22);
    assert("cli.board-list"@.len() == 14);
    assert("cli.board-create"@[0] == 'c');
    assert("api.create-board"@[0] == 'a');
    let ids = board_operation_ids();
    assert forall|j: int| 0 <= j < 6 implies #[trigger] ids[j] != ids[6] by {
        if j == 0 {} else if j == 1 {} else if j == 2 {} else if j == 3 {} else if j == 4 {} else if j == 5 {}
    }
}

/// `cli.board-show` differs from every operation id of this catalog before it.
proof fn lemma_board_operation_id_cli_board_show_is_new()
    ensures
        forall|j: int| 0 <= j < 7 ==> #[trigger] board_operation_ids()[j] != board_operation_ids()[7],
{
    reveal_strlit("cli.board-show");
    reveal_strlit("api.list-boards");
    reveal_strlit("api.create-board");
    reveal_strlit("api.get-board");
    reveal_strlit("api.archive-board");
    reveal_strlit("api.list-board-columns");
    reveal_strlit("cli.board-list");
    reveal_strlit("cli.board-create");
    assert("cli.board-show"@.len() == 14);
    assert("api.list-boards"@.len() == 15);
    assert("api.create-board"@.len() == 16);
    assert("api.get-board"@.len() == 13);
    assert("api.archive-board"@.len() == 17);
    assert("api.list-board-columns"@.len() == 22);
    assert("cli.board-list"@.len() == 14);
    assert("cli.board-create"@.len() == 16);
    assert("cli.board-show"@[10] == 's');
    assert("cli.board-list"@[10] == 'l');
    let ids = board_operation_ids();
    assert forall|j: int| 0 <= j < 7 implies #[trigger] ids[j] != ids[7] by {
        if j == 0 {} else if j == 1 {} else if j == 2 {} else if j == 3 {} else if j == 4 {} else if j == 5 {} else if j == 6 {}
    }
}

/// `cli.board-archive` differs from every operation id of this catalog before it.
proof fn lemma_board_operation_id_cli_board_archive_is_new()
    ensures
        forall|j: int| 0 <= j < 8 ==> #[trigger] board_operation_ids()[j] != board_operation_ids()[8],
{
    reveal_strlit("cli.board-archive");
    reveal_strlit("api.list-boards");
    reveal_strlit("api.create-board");
    reveal_strlit("api.get-board");
    reveal_strlit("api.archive-board");
    reveal_strlit("api.list-board-columns");
    reveal_strlit("cli.board-list");
    reveal_strlit("cli.board-create");
    reveal_strlit("cli.board-show");
    assert("cli.board-archive"@.len() == 17);
    assert("api.list-boards"@.len() == 15);
    assert("api.create-board"@.len() == 16);
    assert("api.get-board"@.len() == 13);
    assert("api.archive-board"@.len() == 17);
    assert("api.list-board-columns"@.len() == 22);
    assert("cli.board-list"@.len() == 14);
    assert("cli.board-create"@.len() == 16);
    assert("cli.board-show"@.len() == 14);
    assert("cli.board-archive"@[0] == 'c');
    assert("api.archive-board"@[0] == 'a');
    let ids = board_operation_ids();
    assert forall|j: int| 0 <= j < 8 implies #[trigger] ids[j] != ids[8] by {
        if j == 0 {} else if j == 1 {} else if j == 2 {} else if j == 3 {} else if j == 4 {} else if j == 5 {} else if j == 6 {} else if j == 7 {}
    }
}

/// `cli.board-columns` differs from every operation id of this catalog before it.
proof fn lemma_board_operation_id_cli_board_columns_is_new()
    ensures
        forall|j: int| 0 <= j < 9 ==> #[trigger] board_operation_ids()[j] != board_operation_ids()[9],
{
    reveal_strlit("cli.board-columns");
    reveal_strlit("api.list-boards");
    reveal_strlit("api.create-board");
    reveal_strlit("api.get-board");
    reveal_strlit("api.archive-board");
    reveal_strlit("api.list-board-columns");
    reveal_strlit("cli.board-list");
    reveal_strlit("cli.board-create");
    reveal_strlit("cli.board-show");
    reveal_strlit("cli.board-archive");
    assert("cli.board-columns"@.len() == 17);
    assert("api.list-boards"@.len() == 15);
    assert("api.create-board"@.len() == 16);
    assert("api.get-board"@.len() == 13);
    assert("api.archive-board"@.len() == 17);
    assert("api.list-board-columns"@.len() == 22);
    assert("cli.board-list"@.len() == 14);
    assert("cli.board-create"@.len() == 16);
    assert("cli.board-show"@.len() == 14);
    assert("cli.board-archive"@.len() == 17);
    assert("cli.board-columns"@[0] == 'c');
    assert("api.archive-board"@[0] == 'a');
    assert("cli.board-columns"@[10] == 'c');
    assert("cli.board-archive"@[10] == 'a');
    let ids = board_operation_ids();
    assert forall|j: int| 0 <= j < 9 implies #[trigger] ids[j] != ids[9] by {
        if j == 0 {} else if j == 1 {} else if j == 2 {} else if j == 3 {} else if j == 4 {} else if j == 5 {} else if j == 6 {} else if j == 7 {} else if j == 8 {}
    }
}

/// Each operation id of this catalog differs from those before it.
proof fn lemma_board_operation_id_is_new(k: int)
    requires
        0 <= k < board_operation_ids().len(),
    ensures
        forall|j: int| 0 <= j < k ==> #[trigger] board_operation_ids()[j] != board_operation_ids()[k],
{
    if k == 1 {
        lemma_board_operation_id_api_create_board_is_new();
    } else if k == 2 {
        lemma_board_operation_id_api_get_board_is_new();
    } else if k == 3 {
        lemma_board_operation_id_api_archive_board_is_new();
    } else if k == 4 {
        lemma_board_operation_id_api_list_board_columns_is_new();
    } else if k == 5 {
        lemma_board_operation_id_cli_board_list_is_new();
    } else if k == 6 {
        lemma_board_operation_id_cli_board_create_is_new();
    } else if k == 7 {
        lemma_board_operation_id_cli_board_show_is_new();
    } else if k == 8 {
        lemma_board_operation_id_cli_board_archive_is_new();
    } else if k == 9 {
        lemma_board_operation_id_cli_board_columns_is_new();
    }
}

/// No two operation id of this catalogs are the same.
pub proof fn lemma_board_operation_ids_distinct()
    ensures
        board_operation_ids().no_duplicates(),
{
    let ids = board_operation_ids();
    assert forall|i: int, j: int| 0 <= i < ids.len() && 0 <= j < ids.len() && i != j implies ids[i] != ids[j] by {
        if i < j {
            lemma_board_operation_id_is_new(j);
        } else {
            lemma_board_operation_id_is_new(i);
        }
    }
}

/// `api.list-boards.headers` differs from every inventory row id of this catalog before it.
proof fn lemma_board_contract_id_api_list_boards_headers_is_new()
    ensures
        forall|j: int| 0 <= j < 1 ==> #[trigger] board_contract_ids()[j] != board_contract_ids()[1],
{
    reveal_strlit("api.list-boards.headers");
    reveal_strlit("api.list-boards.query");
    assert("api.list-boards.headers"@.len() == 23);
    assert("api.list-boards.query"@.len() == 21);
    let ids = board_contract_ids();
    assert forall|j: int| 0 <= j < 1 implies #[trigger] ids[j] != ids[1] by {
        if j == 0 {}
    }
}

/// `api.list-boards.response` differs from every inventory row id of this catalog before it.
proof fn lemma_board_contract_id_api_list_boards_response_is_new()
    ensures
        forall|j: int| 0 <= j < 2 ==> #[trigger] board_contract_ids()[j] != board_contract_ids()[2],
{
    reveal_strlit("api.list-boards.response");
    reveal_strlit("api.list-boards.query");
    reveal_strlit("api.list-boards.headers");
    assert("api.list-boards.response"@.len() == 24);
    assert("api.list-boards.query"@.len() == 21);
    assert("api.list-boards.headers"@.len() == 23);
    let ids = board_contract_ids();
    assert forall|j: int| 0 <= j < 2 implies #[trigger] ids[j] != ids[2] by {
        if j == 0 {} else if j == 1 {}
    }
}

/// `api.create-board.headers` differs from every inventory row id of this catalog before it.
proof fn lemma_board_contract_id_api_create_board_headers_is_new()
    ensures
        forall|j: int| 0 <= j < 3 ==> #[trigger] board_contract_ids()[j] != board_contract_ids()[3],
{
    reveal_strlit("api.create-board.headers");
    reveal_strlit("api.list-boards.query");
    reveal_strlit("api.list-boards.headers");
    reveal_strlit("api.list-boards.response");
    assert("api.create-board.headers"@.len() == 24);
    assert("api.list-boards.query"@.len() == 21);
    assert("api.list-boards.headers"@.len() == 23);
    assert("api.list-boards.response"@.len() == 24);
    assert("api.create-board.headers"@[4] == 'c');
    assert("api.list-boards.response"@[4] == 'l');
    let ids = board_contract_ids();
    assert forall|j: int| 0 <= j < 3 implies #[trigger] ids[j] != ids[3] by {
        if j == 0 {} else if j == 1 {} else if j == 2 {}
    }
}

/// `api.create-board.request` differs from every inventory row id of this catalog before it.
proof fn lemma_board_contract_id_api_create_board_request_is_new()
    ensures
        forall|j: int| 0 <= j < 4 ==> #[trigger] board_contract_ids()[j] != board_contract_ids()[4],
{
    reveal_strlit("api.create-board.request");
    reveal_strlit("api.list-boards.query");
    reveal_strlit("api.list-boards.headers");
    reveal_strlit("api.list-boards.response");
    reveal_strlit("api.create-board.headers");
    assert("api.create-board.request"@.len() == 24);
    assert("api.list-boards.query"@.len() == 21);
    assert("api.list-boards.headers"@.len() == 23);
    assert("api.list-boards.response"@.len() == 24);
    assert("api.create-board.headers"@.len() == 24);
    assert("api.create-board.request"@[4] == 'c');
    assert("api.list-boards.response"@[4] == 'l');
    assert("api.create-board.request"@[17] == 'r');
    assert("api.create-board.headers"@[17] == 'h');
    let ids = board_contract_ids();
    assert forall|j: int| 0 <= j < 4 implies #[trigger] ids[j] != ids[4] by {
        if j == 0 {} else if j == 1 {} else if j == 2 {} else if j == 3 {}
    }
}

/// `api.create-board.response` differs from every inventory row id of this catalog before it.
proof fn lemma_board_contract_id_api_create_board_response_is_new()
    ensures
        forall|j: int| 0 <= j < 5 ==> #[trigger] board_contract_ids()[j] != board_contract_ids()[5],
{
    reveal_strlit("api.create-board.response");
    reveal_strlit("api.list-boards.query");
    reveal_strlit("api.list-boards.headers");
    reveal_strlit("api.list-boards.response");
    reveal_strlit("api.create-board.headers");
    reveal_strlit("api.create-board.request");
    assert("api.create-board.response"@.len() == 25);
    assert("api.list-boards.query"@.len() == 21);
    assert("api.list-boards.headers"@.len() == 23);
    assert("api.list-boards.response"@.len() == 24);
    assert("api.create-board.headers"@.len() == 24);
    assert("api.create-board.request"@.len() == 24);
    let ids = board_contract_ids();
    assert forall|j: int| 0 <= j < 5 implies #[trigger] ids[j] != ids[5] by {
        if j == 0 {} else if j == 1 {} else if j == 2 {} else if j == 3 {} else if j == 4 {}
    }
}

/// `api.get-board.path` differs from every inventory row id of this catalog before it.
proof fn lemma_board_contract_id_api_get_board_path_is_new()
    ensures
        forall|j: int| 0 <= j < 6 ==> #[trigger] board_contract_ids()[j] != board_contract_ids()[6],
{
    reveal_strlit("api.get-board.path");
    reveal_strlit("api.list-boards.query");
    reveal_strlit("api.list-boards.headers");
    reveal_strlit("api.list-boards.response");
    reveal_strlit("api.create-board.headers");
    reveal_strlit("api.create-board.request");
    reveal_strlit("api.create-board.response");
    assert("api.get-board.path"@.len() == 18);
    assert("api.list-boards.query"@.len() == 21);
    assert("api.list-boards.headers"@.len() == 23);
    assert("api.list-boards.response"@.len() == 24);
    assert("api.create-board.headers"@.len() == 24);
    assert("api.create-board.request"@.len() == 24);
    assert("api.create-board.response"@.len() == 25);
    let ids = board_contract_ids();
    assert forall|j: int| 0 <= j < 6 implies #[trigger] ids[j] != ids[6] by {
        if j == 0 {} else if j == 1 {} else if j == 2 {} else if j == 3 {} else if j == 4 {} else if j == 5 {}
    }
}

/// `api.get-board.headers` differs from every inventory row id of this catalog before it.
proof fn lemma_board_contract_id_api_get_board_headers_is_new()
    ensures
        forall|j: int| 0 <= j < 7 ==> #[trigger] board_contract_ids()[j] != board_contract_ids()[7],
{
    reveal_strlit("api.get-board.headers");
    reveal_strlit("api.list-boards.query");
    reveal_strlit("api.list-boards.headers");
    reveal_strlit("api.list-boards.response");
    reveal_strlit("api.create-board.headers");
    reveal_strlit("api.create-board.request");
    reveal_strlit("api.create-board.response");
    reveal_strlit("api.get-board.path");
    assert("api.get-board.headers"@.len() == 21);
    assert("api.list-boards.query"@.len() == 21);
    assert("api.list-boards.headers"@.len() == 23);
    assert("api.list-boards.response"@.len() == 24);
    assert("api.create-board.headers"@.len() == 24);
    assert("api.create-board.request"@.len() == 24);
    assert("api.create-board.response"@.len() == 25);
    assert("api.get-board.path"@.len() == 18);
    assert("api.get-board.headers"@[4] == 'g');
    assert("api.list-boards.query"@[4] == 'l');
    let ids = board_contract_ids();
    assert forall|j: int| 0 <= j < 7 implies #[trigger] ids[j] != ids[7] by {
        if j == 0 {} else if j == 1 {} else if j == 2 {} else if j == 3 {} else if j == 4 {} else if j == 5 {} else if j == 6 {}
    }
}

/// `api.get-board.response` differs from every inventory row id of this catalog before it.
proof fn lemma_board_contract_id_api_get_board_response_is_new()
    ensures
        forall|j: int| 0 <= j < 8 ==> #[trigger] board_contract_ids()[j] != board_contract_ids()[8],
{
    reveal_strlit("api.get-board.response");
    reveal_strlit("api.list-boards.query");
    reveal_strlit("api.list-boards.headers");
    reveal_strlit("api.list-boards.response");
    reveal_strlit("api.create-board.headers");
    reveal_strlit("api.create-board.request");
    reveal_strlit("api.create-board.response");
    reveal_strlit("api.get-board.path");
    reveal_strlit("api.get-board.headers");
    assert("api.get-board.response"@.len() == 22);
    assert("api.list-boards.query"@.len() == 21);
    assert("api.list-boards.headers"@.len() == 23);
    assert("api.list-boards.response"@.len() == 24);
    assert("api.create-board.headers"@.len() == 24);
    assert("api.create-board.request"@.len() == 24);
    assert("api.create-board.response"@.len() == 25);
    assert("api.get-board.path"@.len() == 18);
    assert("api.get-board.headers"@.len() == 21);
    let ids = board_contract_ids();
    assert forall|j: int| 0 <= j < 8 implies #[trigger] ids[j] != ids[8] by {
        if j == 0 {} else if j == 1 {} else if j == 2 {} else if j == 3 {} else if j == 4 {} else if j == 5 {} else if j == 6 {} else if j == 7 {}
    }
}

/// `api.archive-board.path` differs from every inventory row id of this catalog before it.
proof fn lemma_board_contract_id_api_archive_board_path_is_new()
    ensures
        forall|j: int| 0 <= j < 9 ==> #[trigger] board_contract_ids()[j] != board_contract_ids()[9],
{
    reveal_strlit("api.archive-board.path");
    reveal_strlit("api.list-boards.query");
    reveal_strlit("api.list-boards.headers");
    reveal_strlit("api.list-boards.response");
    reveal_strlit("api.create-board.headers");
    reveal_strlit("api.create-board.request");
    reveal_strlit("api.create-board.response");
    reveal_strlit("api.get-board.path");
    reveal_strlit("api.get-board.headers");
    reveal_strlit("api.get-board.response");
    assert("api.archive-board.path"@.len() == 22);
    assert("api.list-boards.query"@.len() == 21);
    assert("api.list-boards.headers"@.len() == 23);
    assert("api.list-boards.response"@.len() == 24);
    assert("api.create-board.headers"@.len() == 24);
    assert("api.create-board.request"@.len() == 24);
    assert("api.create-board.response"@.len() == 25);
    assert("api.get-board.path"@.len() == 18);
    assert("api.get-board.headers"@.len() == 21);
    assert("api.get-board.response"@.len() == 22);
    assert("api.archive-board.path"@[4] == 'a');
    assert("api.get-board.response"@[4] == 'g');
    let ids = board_contract_ids();
    assert forall|j: int| 0 <= j < 9 implies #[trigger] ids[j] != ids[9] by {
        if j == 0 {} else if j == 1 {} else if j == 2 {} else if j == 3 {} else if j == 4 {} else if j == 5 {} else if j == 6 {} else if j == 7 {} else if j == 8 {}
    }
}

/// `api.archive-board.headers` differs from every inventory row id of this catalog before it.
proof fn lemma_board_contract_id_api_archive_board_headers_is_new()
    ensures
        forall|j: int| 0 <= j < 10 ==> #[trigger] board_contract_ids()[j] != board_contract_ids()[10],
{
    reveal_strlit("api.archive-board.headers");
    reveal_strlit("api.list-boards.query");
    reveal_strlit("api.list-boards.headers");
    reveal_strlit("api.list-boards.response");
    reveal_strlit("api.create-board.headers");
    reveal_strlit("api.create-board.request");
    reveal_strlit("api.create-board.response");
    reveal_strlit("api.get-board.path");
    reveal_strlit("api.get-board.headers");
    reveal_strlit("api.get-board.response");
    reveal_strlit("api.archive-board.path");
    assert("api.archive-board.headers"@.len() == 25);
    assert("api.list-boards.query"@.len() == 21);
    assert("api.list-boards.headers"@.len() == 23);
    assert("api.list-boards.response"@.len() == 24);
    assert("api.create-board.headers"@.len() == 24);
    assert("api.create-board.request"@.len() == 24);
    assert("api.create-board.response"@.len() == 25);
    assert("api.get-board.path"@.len() == 18);
    assert("api.get-board.headers"@.len() == 21);
    assert("api.get-board.response"@.len() == 22);
    assert("api.archive-board.path"@.len() == 22);
    assert("api.archive-board.headers"@[4] == 'a');
    assert("api.create-board.response"@[4] == 'c');
    let ids = board_contract_ids();
    assert forall|j: int| 0 <= j < 10 implies #[trigger] ids[j] != ids[10] by {
        if j == 0 {} else if j == 1 {} else if j == 2 {} else if j == 3 {} else if j == 4 {} else if j == 5 {} else if j == 6 {} else if j == 7 {} else if j == 8 {} else if j == 9 {}
    }
}

/// `api.archive-board.request` differs from every inventory row id of this catalog before it.
proof fn lemma_board_contract_id_api_archive_board_request_is_new()
    ensures
        forall|j: int| 0 <= j < 11 ==> #[trigger] board_contract_ids()[j] != board_contract_ids()[11],
{
    reveal_strlit("api.archive-board.request");
    reveal_strlit("api.list-boards.query");
    reveal_strlit("api.list-boards.headers");
    reveal_strlit("api.list-boards.response");
    reveal_strlit("api.create-board.headers");
    reveal_strlit("api.create-board.request");
    reveal_strlit("api.create-board.response");
    reveal_strlit("api.get-board.path");
    reveal_strlit("api.get-board.headers");
    reveal_strlit("api.get-board.response");
    reveal_strlit("api.archive-board.path");
    reveal_strlit("api.archive-board.headers");
    assert("api.archive-board.request"@.len() == 25);
    assert("api.list-boards.query"@.len() == 21);
    assert("api.list-boards.headers"@.len() == 23);
    assert("api.list-boards.response"@.len() == 24);
    assert("api.create-board.headers"@.len() == 24);
    assert("api.create-board.request"@.len() == 24);
    assert("api.create-board.response"@.len() == 25);
    assert("api.get-board.path"@.len() == 18);
    assert("api.get-board.headers"@.len() == 21);
    assert("api.get-board.response"@.len() == 22);
    assert("api.archive-board.path"@.len() == 22);
    assert("api.archive-board.headers"@.len() == 25);
    assert("api.archive-board.request"@[4] == 'a');
    assert("api.create-board.response"@[4] == 'c');
    assert("api.archive-board.request"@[18] == 'r');
    assert("api.archive-board.headers"@[18] == 'h');
    let ids = board_contract_ids();
    assert forall|j: int| 0 <= j < 11 implies #[trigger] ids[j] != ids[11] by {
        if j == 0 {} else if j == 1 {} else if j == 2 {} else if j == 3 {} else if j == 4 {} else if j == 5 {} else if j == 6 {} else if j == 7 {} else if j == 8 {} else if j == 9 {} else if j == 10 {}
    }
}

/// `api.archive-board.response` differs from every inventory row id of this catalog before it.
proof fn lemma_board_contract_id_api_archive_board_response_is_new()
    ensures
        forall|j: int| 0 <= j < 12 ==> #[trigger] board_contract_ids()[j] != board_contract_ids()[12],
{
    reveal_strlit("api.archive-board.response");
    reveal_strlit("api.list-boards.query");
    reveal_strlit("api.list-boards.headers");
    reveal_strlit("api.list-boards.response");
    reveal_strlit("api.create-board.headers");
    reveal_strlit("api.create-board.request");
    reveal_strlit("api.create-board.response");
    reveal_strlit("api.get-board.path");
    reveal_strlit("api.get-board.headers");
    reveal_strlit("api.get-board.response");
    reveal_strlit("api.archive-board.path");
    reveal_strlit("api.archive-board.headers");
    reveal_strlit("api.archive-board.request");
    assert("api.archive-board.response"@.len() == 26);
    assert("api.list-boards.query"@.len() == 21);
    assert("api.list-boards.headers"@.len() == 23);
    assert("api.list-boards.response"@.len() == 24);
    assert("api.create-board.headers"@.len() == 24);
    assert("api.create-board.request"@.len() == 24);
    assert("api.create-board.response"@.len() == 25);
    assert("api.get-board.path"@.len() == 18);
    assert("api.get-board.headers"@.len() == 21);
    assert("api.get-board.response"@.len() == 22);
    assert("api.archive-board.path"@.len() == 22);
    assert("api.archive-board.headers"@.len() == 25);
    assert("api.archive-board.request"@.len() == 25);
    let ids = board_contract_ids();
    assert forall|j: int| 0 <= j < 12 implies #[trigger] ids[j] != ids[12] by {
        if j == 0 {} else if j == 1 {} else if j == 2 {} else if j == 3 {} else if j == 4 {} else if j == 5 {} else if j == 6 {} else if j == 7 {} else if j == 8 {} else if j == 9 {} else if j == 10 {} else if j == 11 {}
    }
}

/// `api.list-board-columns.path` differs from every inventory row id of this catalog before it.
proof fn lemma_board_contract_id_api_list_board_columns_path_is_new()
    ensures
        forall|j: int| 0 <= j < 13 ==> #[trigger] board_contract_ids()[j] != board_contract_ids()[13],
{
    reveal_strlit("api.list-board-columns.path");
    reveal_strlit("api.list-boards.query");
    reveal_strlit("api.list-boards.headers");
    reveal_strlit("api.list-boards.response");
    reveal_strlit("api.create-board.headers");
    reveal_strlit("api.create-board.request");
    reveal_strlit("api.create-board.response");
    reveal_strlit("api.get-board.path");
    reveal_strlit("api.get-board.headers");
    reveal_strlit("api.get-board.response");
    reveal_strlit("api.archive-board.path");
    reveal_strlit("api.archive-board.headers");
    reveal_strlit("api.archive-board.request");
    reveal_strlit("api.archive-board.response");
    assert("api.list-board-columns.path"@.len() == 27);
    assert("api.list-boards.query"@.len() == 21);
    assert("api.list-boards.headers"@.len() == 23);
    assert("api.list-boards.response"@.len() == 24);
    assert("api.create-board.headers"@.len() == 24);
    assert("api.create-board.request"@.len() == 24);
    assert("api.create-board.response"@.len() == 25);
    assert("api.get-board.path"@.len() == 18);
    assert("api.get-board.headers"@.len() == 21);
    assert("api.get-board.response"@.len() == 22);
    assert("api.archive-board.path"@.len() == 22);
    assert("api.archive-board.headers"@.len() == 25);
    assert("api.archive-board.request"@.len() == 25);
    assert("api.archive-board.response"@.len() == 26);
    let ids = board_contract_ids();
    assert forall|j: int| 0 <= j < 13 implies #[trigger] ids[j] != ids[13] by {
        if j == 0 {} else if j == 1 {} else if j == 2 {} else if j == 3 {} else if j == 4 {} else if j == 5 {} else if j == 6 {} else if j == 7 {} else if j == 8 {} else if j == 9 {} else if j == 10 {} else if j == 11 {} else if j == 12 {}
    }
}

/// `api.list-board-columns.headers` differs from every inventory row id of this catalog before it.
proof fn lemma_board_contract_id_api_list_board_columns_headers_is_new()
    ensures
        forall|j: int| 0 <= j < 14 ==> #[trigger] board_contract_ids()[j] != board_contract_ids()[14],
{
    reveal_strlit("api.list-board-columns.headers");
    reveal_strlit("api.list-boards.query");
    reveal_strlit("api.list-boards.headers");
    reveal_strlit("api.list-boards.response");
    reveal_strlit("api.create-board.headers");
    reveal_strlit("api.create-board.request");
    reveal_strlit("api.create-board.response");
    reveal_strlit("api.get-board.path");
    reveal_strlit("api.get-board.headers");
    reveal_strlit("api.get-board.response");
    reveal_strlit("api.archive-board.path");
    reveal_strlit("api.archive-board.headers");
    reveal_strlit("api.archive-board.request");
    reveal_strlit("api.archive-board.response");
    reveal_strlit("api.list-board-columns.path");
    assert("api.list-board-columns.headers"@.len() == 30);
    assert("api.list-boards.query"@.len() == 21);
    assert("api.list-boards.headers"@.len() == 23);
    assert("api.list-boards.response"@.len() == 24);
    assert("api.create-board.headers"@.len() == 24);
    assert("api.create-board.request"@.len() == 24);
    assert("api.create-board.response"@.len() == 25);
    assert("api.get-board.path"@.len() == 18);
    assert("api.get-board.headers"@.len() == 21);
    assert("api.get-board.response"@.len() == 22);
    assert("api.archive-board.path"@.len() == 22);
    assert("api.archive-board.headers"@.len() == 25);
    assert("api.archive-board.request"@.len() == 25);
    assert("api.archive-board.response"@.len() == 26);
    assert("api.list-board-columns.path"@.len() == 27);
    let ids = board_contract_ids();
    assert forall|j: int| 0 <= j < 14 implies #[trigger] ids[j] != ids[14] by {
        if j == 0 {} else if j == 1 {} else if j == 2 {} else if j == 3 {} else if j == 4 {} else if j == 5 {} else if j == 6 {} else if j == 7 {} else if j == 8 {} else if j == 9 {} else if j == 10 {} else if j == 11 {} else if j == 12 {} else if j == 13 {}
    }
}

/// `api.list-board-columns.response` differs from every inventory row id of this catalog before it.
proof fn lemma_board_contract_id_api_list_board_columns_response_is_new()
    ensures
        forall|j: int| 0 <= j < 15 ==> #[trigger] board_contract_ids()[j] != board_contract_ids()[15],
{
    reveal_strlit("api.list-board-columns.response");
    reveal_strlit("api.list-boards.query");
    reveal_strlit("api.list-boards.headers");
    reveal_strlit("api.list-boards.response");
    reveal_strlit("api.create-board.headers");
    reveal_strlit("api.create-board.request");
    reveal_strlit("api.create-board.response");
    reveal_strlit("api.get-board.path");
    reveal_strlit("api.get-board.headers");
    reveal_strlit("api.get-board.response");
    reveal_strlit("api.archive-board.path");
    reveal_strlit("api.archive-board.headers");
    reveal_strlit("api.archive-board.request");
    reveal_strlit("api.archive-board.response");
    reveal_strlit("api.list-board-columns.path");
    reveal_strlit("api.list-board-columns.headers");
    assert("api.list-board-columns.response"@.len() == 31);
    assert("api.list-boards.query"@.len() == 21);
    assert("api.list-boards.headers"@.len() == 23);
    assert("api.list-boards.response"@.len() == 24);
    assert("api.create-board.headers"@.len() == 24);
    assert("api.create-board.request"@.len() == 24);
    assert("api.create-board.response"@.len() == 25);
    assert("api.get-board.path"@.len() == 18);
    assert("api.get-board.headers"@.len() == 21);
    assert("api.get-board.response"@.len() == 22);
    assert("api.archive-board.path"@.len() == 22);
    assert("api.archive-board.headers"@.len() == 25);
    assert("api.archive-board.request"@.len() == 25);
    assert("api.archive-board.response"@.len() == 26);
    assert("api.list-board-columns.path"@.len() == 27);
    assert("api.list-board-columns.headers"@.len() == 30);
    let ids = board_contract_ids();
    assert forall|j: int| 0 <= j < 15 implies #[trigger] ids[j] != ids[15] by {
        if j == 0 {} else if j == 1 {} else if j == 2 {} else if j == 3 {} else if j == 4 {} else if j == 5 {} else if j == 6 {} else if j == 7 {} else if j == 8 {} else if j == 9 {} else if j == 10 {} else if j == 11 {} else if j == 12 {} else if j == 13 {} else if j == 14 {}
    }
}

/// `cli.board-list.output` differs from every inventory row id of this catalog before it.
proof fn lemma_board_contract_id_cli_board_list_output_is_new()
    ensures
        forall|j: int| 0 <= j < 16 ==> #[trigger] board_contract_ids()[j] != board_contract_ids()[16],
{
    reveal_strlit("cli.board-list.output");
    reveal_strlit("api.list-boards.query");
    reveal_strlit("api.list-boards.headers");
    reveal_strlit("api.list-boards.response");
    reveal_strlit("api.create-board.headers");
    reveal_strlit("api.create-board.request");
    reveal_strlit("api.create-board.response");
    reveal_strlit("api.get-board.path");
    reveal_strlit("api.get-board.headers");
    reveal_strlit("api.get-board.response");
    reveal_strlit("api.archive-board.path");
    reveal_strlit("api.archive-board.headers");
    reveal_strlit("api.archive-board.request");
    reveal_strlit("api.archive-board.response");
    reveal_strlit("api.list-board-columns.path");
    reveal_strlit("api.list-board-columns.headers");
    reveal_strlit("api.list-board-columns.response");
    assert("cli.board-list.output"@.len() == 21);
    assert("api.list-boards.query"@.len() == 21);
    assert("api.list-boards.headers"@.len() == 23);
    assert("api.list-boards.response"@.len() == 24);
    assert("api.create-board.headers"@.len() == 24);
    assert("api.create-board.request"@.len() == 24);
    assert("api.create-board.response"@.len() == 25);
    assert("api.get-board.path"@.len() == 18);
    assert("api.get-board.headers"@.len() == 21);
    assert("api.get-board.response"@.len() == 22);
    assert("api.archive-board.path"@.len() == 22);
    assert("api.archive-board.headers"@.len() == 25);
    assert("api.archive-board.request"@.len() == 25);
    assert("api.archive-board.response"@.len() == 26);
    assert("api.list-board-columns.path"@.len() == 27);
    assert("api.list-board-columns.headers"@.len() == 30);
    assert("api.list-board-columns.response"@.len() == 31);
    assert("cli.board-list.output"@[0] == 'c');
    assert("api.list-boards.query"@[0] == 'a');
    assert("cli.board-list.output"@[0] == 'c');
    assert("api.get-board.headers"@[0] == 'a');
    let ids = board_contract_ids();
    assert forall|j: int| 0 <= j < 16 implies #[trigger] ids[j] != ids[16] by {
        if j == 0 {} else if j == 1 {} else if j == 2 {} else if j == 3 {} else if j == 4 {} else if j == 5 {} else if j == 6 {} else if j == 7 {} else if j == 8 {} else if j == 9 {} else if j == 10 {} else if j == 11 {} else if j == 12 {} else if j == 13 {} else if j == 14 {} else if j == 15 {}
    }
}

/// `cli.board-create.output` differs from every inventory row id of this catalog before it.
proof fn lemma_board_contract_id_cli_board_create_output_is_new()
    ensures
        forall|j: int| 0 <= j < 17 ==> #[trigger] board_contract_ids()[j] != board_contract_ids()[17],
{
    reveal_strlit("cli.board-create.output");
    reveal_strlit("api.list-boards.query");
    reveal_strlit("api.list-boards.headers");
    reveal_strlit("api.list-boards.response");
    reveal_strlit("api.create-board.headers");
    reveal_strlit("api.create-board.request");
    reveal_strlit("api.create-board.response");
    reveal_strlit("api.get-board.path");
    reveal_strlit("api.get-board.headers");
    reveal_strlit("api.get-board.response");
    reveal_strlit("api.archive-board.path");
    reveal_strlit("api.archive-board.headers");
    reveal_strlit("api.archive-board.request");
    reveal_strlit("api.archive-board.response");
    reveal_strlit("api.list-board-columns.path");
    reveal_strlit("api.list-board-columns.headers");
    reveal_strlit("api.list-board-columns.response");
    reveal_strlit("cli.board-list.output");
    assert("cli.board-create.output"@.len() == 23);
    assert("api.list-boards.query"@.len() == 21);
    assert("api.list-boards.headers"@.len() == 23);
    assert("api.list-boards.response"@.len() == 24);
    assert("api.create-board.headers"@.len() == 24);
    assert("api.create-board.request"@.len() == 24);
    assert("api.create-board.response"@.len() == 25);
    assert("api.get-board.path"@.len() == 18);
    assert("api.get-board.headers"@.len() == 21);
    assert("api.get-board.response"@.len() == 22);
    assert("api.archive-board.path"@.len() == 22);
    assert("api.archive-board.headers"@.len() == 25);
    assert("api.archive-board.request"@.len() == 25);
    assert("api.archive-board.response"@.len() == 26);
    assert("api.list-board-columns.path"@.len() == 27);
    assert("api.list-board-columns.headers"@.len() == 30);
    assert("api.list-board-columns.response"@.len() == 31);
    assert("cli.board-list.output"@.len() == 21);
    assert("cli.board-create.output"@[0] == 'c');
    assert("api.list-boards.headers"@[0] == 'a');
    let ids = board_contract_ids();
    assert forall|j: int| 0 <= j < 17 implies #[trigger] ids[j] != ids[17] by {
        if j == 0 {} else if j == 1 {} else if j == 2 {} else if j == 3 {} else if j == 4 {} else if j == 5 {} else if j == 6 {} else if j == 7 {} else if j == 8 {} else if j == 9 {} else if j == 10 {} else if j == 11 {} else if j == 12 {} else if j == 13 {} else if j == 14 {} else if j == 15 {} else if j == 16 {}
    }
}

/// `cli.board-show.output` differs from every inventory row id of this catalog before it.
proof fn lemma_board_contract_id_cli_board_show_output_is_new()
    ensures
        forall|j: int| 0 <= j < 18 ==> #[trigger] board_contract_ids()[j] != board_contract_ids()[18],
{
    reveal_strlit("cli.board-show.output");
    reveal_strlit("api.list-boards.query");
    reveal_strlit("api.list-boards.headers");
    reveal_strlit("api.list-boards.response");
    reveal_strlit("api.create-board.headers");
    reveal_strlit("api.create-board.request");
    reveal_strlit("api.create-board.response");
    reveal_strlit("api.get-board.path");
    reveal_strlit("api.get-board.headers");
    reveal_strlit("api.get-board.response");
    reveal_strlit("api.archive-board.path");
    reveal_strlit("api.archive-board.headers");
    reveal_strlit("api.archive-board.request");
    reveal_strlit("api.archive-board.response");
    reveal_strlit("api.list-board-columns.path");
    reveal_strlit("api.list-board-columns.headers");
    reveal_strlit("api.list-board-columns.response");
    reveal_strlit("cli.board-list.output");
    reveal_strlit("cli.board-create.output");
    assert("cli.board-show.output"@.len() == 21);
    assert("api.list-boards.query"@.len() == 21);
    assert("api.list-boards.headers"@.len() == 23);
    assert("api.list-boards.response"@.len() == 24);
    assert("api.create-board.headers"@.len() == 24);
    assert("api.create-board.request"@.len() == 24);
    assert("api.create-board.response"@.len() == 25);
    assert("api.get-board.path"@.len() == 18);
    assert("api.get-board.headers"@.len() == 21);
    assert("api.get-board.response"@.len() == 22);
    assert("api.archive-board.path"@.len() == 22);
    assert("api.archive-board.headers"@.len() == 25);
    assert("api.archive-board.request"@.len() == 25);
    assert("api.archive-board.response"@.len() == 26);
    assert("api.list-board-columns.path"@.len() == 27);
    assert("api.list-board-columns.headers"@.len() == 30);
    assert("api.list-board-columns.response"@.len() == 31);
    assert("cli.board-list.output"@.len() == 21);
    assert("cli.board-create.output"@.len() == 23);
    assert("cli.board-show.output"@[0] == 'c');
    assert("api.list-boards.query"@[0] == 'a');
    assert("cli.board-show.output"@[0] == 'c');
    assert("api.get-board.headers"@[0] == 'a');
    assert("cli.board-show.output"@[10] == 's');
    assert("cli.board-list.output"@[10] == 'l');
    let ids = board_contract_ids();
    assert forall|j: int| 0 <= j < 18 implies #[trigger] ids[j] != ids[18] by {
        if j == 0 {} else if j == 1 {} else if j == 2 {} else if j == 3 {} else if j == 4 {} else if j == 5 {} else if j == 6 {} else if j == 7 {} else if j == 8 {} else if j == 9 {} else if j == 10 {} else if j == 11 {} else if j == 12 {} else if j == 13 {} else if j == 14 {} else if j == 15 {} else if j == 16 {} else if j == 17 {}
    }
}

/// `cli.board-archive.output` differs from every inventory row id of this catalog before it.
proof fn lemma_board_contract_id_cli_board_archive_output_is_new()
    ensures
        forall|j: int| 0 <= j < 19 ==> #[trigger] board_contract_ids()[j] != board_contract_ids()[19],
{
    reveal_strlit("cli.board-archive.output");
    reveal_strlit("api.list-boards.query");
    reveal_strlit("api.list-boards.headers");
    reveal_strlit("api.list-boards.response");
    reveal_strlit("api.create-board.headers");
    reveal_strlit("api.create-board.request");
    reveal_strlit("api.create-board.response");
    reveal_strlit("api.get-board.path");
    reveal_strlit("api.get-board.headers");
    reveal_strlit("api.get-board.response");
    reveal_strlit("api.archive-board.path");
    reveal_strlit("api.archive-board.headers");
    reveal_strlit("api.archive-board.request");
    reveal_strlit("api.archive-board.response");
    reveal_strlit("api.list-board-columns.path");
    reveal_strlit("api.list-board-columns.headers");
    reveal_strlit("api.list-board-columns.response");
    reveal_strlit("cli.board-list.output");
    reveal_strlit("cli.board-create.output");
    reveal_strlit("cli.board-show.output");
    assert("cli.board-archive.output"@.len() == 24);
    assert("api.list-boards.query"@.len() == 21);
    assert("api.list-boards.headers"@.len() == 23);
    assert("api.list-boards.response"@.len() == 24);
    assert("api.create-board.headers"@.len() == 24);
    assert("api.create-board.request"@.len() == 24);
    assert("api.create-board.response"@.len() == 25);
    assert("api.get-board.path"@.len() == 18);
    assert("api.get-board.headers"@.len() == 21);
    assert("api.get-board.response"@.len() == 22);
    assert("api.archive-board.path"@.len() == 22);
    assert("api.archive-board.headers"@.len() == 25);
    assert("api.archive-board.request"@.len() == 25);
    assert("api.archive-board.response"@.len() == 26);
    assert("api.list-board-columns.path"@.len() == 27);
    assert("api.list-board-columns.headers"@.len() == 30);
    assert("api.list-board-columns.response"@.len() == 31);
    assert("cli.board-list.output"@.len() == 21);
    assert("cli.board-create.output"@.len() == 23);
    assert("cli.board-show.output"@.len() == 21);
    assert("cli.board-archive.output"@[0] == 'c');
    assert("api.list-boards.response"@[0] == 'a');
    assert("cli.board-archive.output"@[0] == 'c');
    assert("api.create-board.headers"@[0] == 'a');
    assert("cli.board-archive.output"@[0] == 'c');
    assert("api.create-board.request"@[0] == 'a');
    let ids = board_contract_ids();
    assert forall|j: int| 0 <= j < 19 implies #[trigger] ids[j] != ids[19] by {
        if j == 0 {} else if j == 1 {} else if j == 2 {} else if j == 3 {} else if j == 4 {} else if j == 5 {} else if j == 6 {} else if j == 7 {} else if j == 8 {} else if j == 9 {} else if j == 10 {} else if j == 11 {} else if j == 12 {} else if j == 13 {} else if j == 14 {} else if j == 15 {} else if j == 16 {} else if j == 17 {} else if j == 18 {}
    }
}

/// `cli.board-columns.output` differs from every inventory row id of this catalog before it.
proof fn lemma_board_contract_id_cli_board_columns_output_is_new()
    ensures
        forall|j: int| 0 <= j < 20 ==> #[trigger] board_contract_ids()[j] != board_contract_ids()[20],
{
    reveal_strlit("cli.board-columns.output");
    reveal_strlit("api.list-boards.query");
    reveal_strlit("api.list-boards.headers");
    reveal_strlit("api.list-boards.response");
    reveal_strlit("api.create-board.headers");
    reveal_strlit("api.create-board.request");
    reveal_strlit("api.create-board.response");
    reveal_strlit("api.get-board.path");
    reveal_strlit("api.get-board.headers");
    reveal_strlit("api.get-board.response");
    reveal_strlit("api.archive-board.path");
    reveal_strlit("api.archive-board.headers");
    reveal_strlit("api.archive-board.request");
    reveal_strlit("api.archive-board.response");
    reveal_strlit("api.list-board-columns.path");
    reveal_strlit("api.list-board-columns.headers");
    reveal_strlit("api.list-board-columns.response");
    reveal_strlit("cli.board-list.output");
    reveal_strlit("cli.board-create.output");
    reveal_strlit("cli.board-show.output");
    reveal_strlit("cli.board-archive.output");
    assert("cli.board-columns.output"@.len() == 24);
    assert("api.list-boards.query"@.len() == 21);
    assert("api.list-boards.headers"@.len() == 23);
    assert("api.list-boards.response"@.len() == 24);
    assert("api.create-board.headers"@.len() == 24);
    assert("api.create-board.request"@.len() == 24);
    assert("api.create-board.response"@.len() == 25);
    assert("api.get-board.path"@.len() == 18);
    assert("api.get-board.headers"@.len() == 21);
    assert("api.get-board.response"@.len() == 22);
    assert("api.archive-board.path"@.len() == 22);
    assert("api.archive-board.headers"@.len() == 25);
    assert("api.archive-board.request"@.len() == 25);
    assert("api.archive-board.response"@.len() == 26);
    assert("api.list-board-columns.path"@.len() == 27);
    assert("api.list-board-columns.headers"@.len() == 30);
    assert("api.list-board-columns.response"@.len() == 31);
    assert("cli.board-list.output"@.len() == 21);
    assert("cli.board-create.output"@.len() == 23);
    assert("cli.board-show.output"@.len() == 21);
    assert("cli.board-archive.output"@.len() == 24);
    assert("cli.board-columns.output"@[0] == 'c');
    assert("api.list-boards.response"@[0] == 'a');
    assert("cli.board-columns.output"@[0] == 'c');
    assert("api.create-board.headers"@[0] == 'a');
    assert("cli.board-columns.output"@[0] == 'c');
    assert("api.create-board.request"@[0] == 'a');
    assert("cli.board-columns.output"@[10] == 'c');
    assert("cli.board-archive.output"@[10] == 'a');
    let ids = board_contract_ids();
    assert forall|j: int| 0 <= j < 20 implies #[trigger] ids[j] != ids[20] by {
        if j == 0 {} else if j == 1 {} else if j == 2 {} else if j == 3 {} else if j == 4 {} else if j == 5 {} else if j == 6 {} else if j == 7 {} else if j == 8 {} else if j == 9 {} else if j == 10 {} else if j == 11 {} else if j == 12 {} else if j == 13 {} else if j == 14 {} else if j == 15 {} else if j == 16 {} else if j == 17 {} else if j == 18 {} else if j == 19 {}
    }
}

/// Each inventory row id of this catalog differs from those before it.
proof fn lemma_board_contract_id_is_new(k: int)
    requires
        0 <= k < board_contract_ids().len(),
    ensures
        forall|j: int| 0 <= j < k ==> #[trigger] board_contract_ids()[j] != board_contract_ids()[k],
{
    if k == 1 {
        lemma_board_contract_id_api_list_boards_headers_is_new();
    } else if k == 2 {
        lemma_board_contract_id_api_list_boards_response_is_new();
    } else if k == 3 {
        lemma_board_contract_id_api_create_board_headers_is_new();
    } else if k == 4 {
        lemma_board_contract_id_api_create_board_request_is_new();
    } else if k == 5 {
        lemma_board_contract_id_api_create_board_response_is_new();
    } else if k == 6 {
        lemma_board_contract_id_api_get_board_path_is_new();
    } else if k == 7 {
        lemma_board_contract_id_api_get_board_headers_is_new();
    } else if k == 8 {
        lemma_board_contract_id_api_get_board_response_is_new();
    } else if k == 9 {
        lemma_board_contract_id_api_archive_board_path_is_new();
    } else if k == 10 {
        lemma_board_contract_id_api_archive_board_headers_is_new();
    } else if k == 11 {
        lemma_board_contract_id_api_archive_board_request_is_new();
    } else if k == 12 {
        lemma_board_contract_id_api_archive_board_response_is_new();
    } else if k == 13 {
        lemma_board_contract_id_api_list_board_columns_path_is_new();
    } else if k == 14 {
        lemma_board_contract_id_api_list_board_columns_headers_is_new();
    } else if k == 15 {
        lemma_board_contract_id_api_list_board_columns_response_is_new();
    } else if k == 16 {
        lemma_board_contract_id_cli_board_list_output_is_new();
    } else if k == 17 {
        lemma_board_contract_id_cli_board_create_output_is_new();
    } else if k == 18 {
        lemma_board_contract_id_cli_board_show_output_is_new();
    } else if k == 19 {
        lemma_board_contract_id_cli_board_archive_output_is_new();
    } else if k == 20 {
        lemma_board_contract_id_cli_board_columns_output_is_new();
    }
}

/// No two inventory row id of this catalogs are the same.
pub proof fn lemma_board_contract_ids_distinct()
    ensures
        board_contract_ids().no_duplicates(),
{
    let ids = board_contract_ids();
    assert forall|i: int, j: int| 0 <= i < ids.len() && 0 <= j < ids.len() && i != j implies ids[i] != ids[j] by {
        if i < j {
            lemma_board_contract_id_is_new(j);
        } else {
            lemma_board_contract_id_is_new(i);
        }
    }
}


/// The header contract of the operation at position `i` of this catalog: for an API operation,
/// the catalog row `<operation id>.headers`, the row found by that id, travelling in the request
/// headers under the endpoint's operation key (method, a space, path) with the parameters of
/// the operation's header profile; for a CLI operation, none.
pub open spec fn board_header_contract_follows_endpoint(i: int) -> bool {
    let ops = board_operations();
    let rows = catalog_contracts(ops);
    let op = ops[i];
    let found = catalog_header_contract(ops, op.operation_id@);
    if op.surface == ContractSurface::Api {
        &&& found is Some
        &&& found->0.id@ == op.operation_id@ + ".headers"@
        &&& first_index(rows, has_contract_id(found->0.id@)) matches Some(k) && rows[k] == found->0
        &&& found->0.transport matches ContractTransport::Http {
            operation_key: Some(key),
            location: HttpTransportLocation::Headers,
            parameters,
        } && key@ == endpoint_operation_key(projected_endpoint(op)) && parameters@ == profile_parameters(
            op.header_profile->0,
        )
    } else {
        found is None
    }
}

/// The header contract of `api.list-boards`.
proof fn lemma_api_list_boards_header_contract()
    ensures
        board_header_contract_follows_endpoint(0),
{
    reveal(board_operations);
    let ops = board_operations();
    let op = ops[0];
    lemma_board_operation_ids();
    lemma_board_operation_ids_distinct();
    lemma_operation_found(ops, 0);
    lemma_first_index_is(op.contracts@, is_header_child(), 1);
    lemma_header_contract_is_catalog_row(ops, op.operation_id@);
    let r = catalog_header_contract(ops, op.operation_id@)->0;
    let rows = catalog_contracts(ops);
    let k = choose|k: int| 0 <= k < rows.len() && rows[k] == r;
    lemma_board_contract_ids();
    lemma_board_contract_ids_distinct();
    lemma_row_found(rows, k);
    reveal_strlit("api.list-boards");
    reveal_strlit(".headers");
    reveal_strlit("api.list-boards.headers");
    assert(r.id@ =~= op.operation_id@ + ".headers"@);
    reveal_strlit("GET");
    reveal_strlit("/api/v1/boards");
    reveal_strlit("GET /api/v1/boards");
    assert(op.operation@ =~= method_name(op.method->0)@ + seq![' '] + op.path->0@);
    assert(op.contracts@[1].parameters@ =~= profile_parameters(op.header_profile->0));
}

/// The header contract of `api.create-board`.
proof fn lemma_api_create_board_header_contract()
    ensures
        board_header_contract_follows_endpoint(1),
{
    reveal(board_operations);
    let ops = board_operations();
    let op = ops[1];
    lemma_board_operation_ids();
    lemma_board_operation_ids_distinct();
    lemma_operation_found(ops, 1);
    lemma_first_index_is(op.contracts@, is_header_child(), 0);
    lemma_header_contract_is_catalog_row(ops, op.operation_id@);
    let r = catalog_header_contract(ops, op.operation_id@)->0;
    let rows = catalog_contracts(ops);
    let k = choose|k: int| 0 <= k < rows.len() && rows[k] == r;
    lemma_board_contract_ids();
    lemma_board_contract_ids_distinct();
    lemma_row_found(rows, k);
    reveal_strlit("api.create-board");
    reveal_strlit(".headers");
    reveal_strlit("api.create-board.headers");
    assert(r.id@ =~= op.operation_id@ + ".headers"@);
    reveal_strlit("POST");
    reveal_strlit("/api/v1/boards");
    reveal_strlit("POST /api/v1/boards");
    assert(op.operation@ =~= method_name(op.method->0)@ + seq![' '] + op.path->0@);
    assert(op.contracts@[0].parameters@ =~= profile_parameters(op.header_profile->0));
}

/// The header contract of `api.get-board`.
proof fn lemma_api_get_board_header_contract()
    ensures
        board_header_contract_follows_endpoint(2),
{
    reveal(board_operations);
    let ops = board_operations();
    let op = ops[2];
    lemma_board_operation_ids();
    lemma_board_operation_ids_distinct();
    lemma_operation_found(ops, 2);
    lemma_first_index_is(op.contracts@, is_header_child(), 1);
    lemma_header_contract_is_catalog_row(ops, op.operation_id@);
    let r = catalog_header_contract(ops, op.operation_id@)->0;
    let rows = catalog_contracts(ops);
    let k = choose|k: int| 0 <= k < rows.len() && rows[k] == r;
    lemma_board_contract_ids();
    lemma_board_contract_ids_distinct();
    lemma_row_found(rows, k);
    reveal_strlit("api.get-board");
    reveal_strlit(".headers");
    reveal_strlit("api.get-board.headers");
    assert(r.id@ =~= op.operation_id@ + ".headers"@);
    reveal_strlit("GET");
    reveal_strlit("/api/v1/boards/:board");
    reveal_strlit("GET /api/v1/boards/:board");
    assert(op.operation@ =~= method_name(op.method->0)@ + seq![' '] + op.path->0@);
    assert(op.contracts@[1].parameters@ =~= profile_parameters(op.header_profile->0));
}

/// The header contract of `api.archive-board`.
proof fn lemma_api_archive_board_header_contract()
    ensures
        board_header_contract_follows_endpoint(3),
{
    reveal(board_operations);
    let ops = board_operations();
    let op = ops[3];
    lemma_board_operation_ids();
    lemma_board_operation_ids_distinct();
    lemma_operation_found(ops, 3);
    lemma_first_index_is(op.contracts@, is_header_child(), 1);
    lemma_header_contract_is_catalog_row(ops, op.operation_id@);
    let r = catalog_header_contract(ops, op.operation_id@)->0;
    let rows = catalog_contracts(ops);
    let k = choose|k: int| 0 <= k < rows.len() && rows[k] == r;
    lemma_board_contract_ids();
    lemma_board_contract_ids_distinct();
    lemma_row_found(rows, k);
    reveal_strlit("api.archive-board");
    reveal_strlit(".headers");
    reveal_strlit("api.archive-board.headers");
    assert(r.id@ =~= op.operation_id@ + ".headers"@);
    reveal_strlit("POST");
    reveal_strlit("/api/v1/boards/:board/archive");
    reveal_strlit("POST /api/v1/boards/:board/archive");
    assert(op.operation@ =~= method_name(op.method->0)@ + seq![' '] + op.path->0@);
    assert(op.contracts@[1].parameters@ =~= profile_parameters(op.header_profile->0));
}

/// The header contract of `api.list-board-columns`.
proof fn lemma_api_list_board_columns_header_contract()
    ensures
        board_header_contract_follows_endpoint(4),
{
    reveal(board_operations);
    let ops = board_operations();
    let op = ops[4];
    lemma_board_operation_ids();
    lemma_board_operation_ids_distinct();
    lemma_operation_found(ops, 4);
    lemma_first_index_is(op.contracts@, is_header_child(), 1);
    lemma_header_contract_is_catalog_row(ops, op.operation_id@);
    let r = catalog_header_contract(ops, op.operation_id@)->0;
    let rows = catalog_contracts(ops);
    let k = choose|k: int| 0 <= k < rows.len() && rows[k] == r;
    lemma_board_contract_ids();
    lemma_board_contract_ids_distinct();
    lemma_row_found(rows, k);
    reveal_strlit("api.list-board-columns");
    reveal_strlit(".headers");
    reveal_strlit("api.list-board-columns.headers");
    assert(r.id@ =~= op.operation_id@ + ".headers"@);
    reveal_strlit("GET");
    reveal_strlit("/api/v1/boards/:board/columns");
    reveal_strlit("GET /api/v1/boards/:board/columns");
    assert(op.operation@ =~= method_name(op.method->0)@ + seq![' '] + op.path->0@);
    assert(op.contracts@[1].parameters@ =~= profile_parameters(op.header_profile->0));
}

/// The header contract of `cli.board-list`.
proof fn lemma_cli_board_list_header_contract()
    ensures
        board_header_contract_follows_endpoint(5),
{
    reveal(board_operations);
    let ops = board_operations();
    let op = ops[5];
    lemma_board_operation_ids();
    lemma_board_operation_ids_distinct();
    lemma_operation_found(ops, 5);
    lemma_first_index_none(op.contracts@, is_header_child());
}

/// The header contract of `cli.board-create`.
proof fn lemma_cli_board_create_header_contract()
    ensures
        board_header_contract_follows_endpoint(6),
{
    reveal(board_operations);
    let ops = board_operations();
    let op = ops[6];
    lemma_board_operation_ids();
    lemma_board_operation_ids_distinct();
    lemma_operation_found(ops, 6);
    lemma_first_index_none(op.contracts@, is_header_child());
}

/// The header contract of `cli.board-show`.
proof fn lemma_cli_board_show_header_contract()
    ensures
        board_header_contract_follows_endpoint(7),
{
    reveal(board_operations);
    let ops = board_operations();
    let op = ops[7];
    lemma_board_operation_ids();
    lemma_board_operation_ids_distinct();
    lemma_operation_found(ops, 7);
    lemma_first_index_none(op.contracts@, is_header_child());
}

/// The header contract of `cli.board-archive`.
proof fn lemma_cli_board_archive_header_contract()
    ensures
        board_header_contract_follows_endpoint(8),
{
    reveal(board_operations);
    let ops = board_operations();
    let op = ops[8];
    lemma_board_operation_ids();
    lemma_board_operation_ids_distinct();
    lemma_operation_found(ops, 8);
    lemma_first_index_none(op.contracts@, is_header_child());
}

/// The header contract of `cli.board-columns`.
proof fn lemma_cli_board_columns_header_contract()
    ensures
        board_header_contract_follows_endpoint(9),
{
    reveal(board_operations);
    let ops = board_operations();
    let op = ops[9];
    lemma_board_operation_ids();
    lemma_board_operation_ids_distinct();
    lemma_operation_found(ops, 9);
    lemma_first_index_none(op.contracts@, is_header_child());
}

/// Each board API operation's header contract is the catalog row `<operation id>.headers`,
/// the row that `operation_contract` finds by that id; it travels in the request headers under
/// the operation key of the operation's endpoint (method, a space, path), with the parameters
/// of the operation's header profile. A board CLI operation has no header contract.
pub proof fn lemma_board_header_contracts(i: int)
    requires
        0 <= i < board_operations().len(),
    ensures
        board_header_contract_follows_endpoint(i),
{
    reveal(board_operations);
    if i == 0 {
        lemma_api_list_boards_header_contract();
    } else if i == 1 {
        lemma_api_create_board_header_contract();
    } else if i == 2 {
        lemma_api_get_board_header_contract();
    } else if i == 3 {
        lemma_api_archive_board_header_contract();
    } else if i == 4 {
        lemma_api_list_board_columns_header_contract();
    } else if i == 5 {
        lemma_cli_board_list_header_contract();
    } else if i == 6 {
        lemma_cli_board_create_header_contract();
    } else if i == 7 {
        lemma_cli_board_show_header_contract();
    } else if i == 8 {
        lemma_cli_board_archive_header_contract();
    } else if i == 9 {
        lemma_cli_board_columns_header_contract();
    }
}

} // verus!
