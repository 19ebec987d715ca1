//! Run, comment, attachment and event API operations, and the event stream.

use vstd::prelude::*;

use crate::contract_catalog::{
    endpoint_ids, lemma_endpoint_ids_prefix,
    catalog_contracts, catalog_endpoints, catalog_header_contract, catalog_header_profile,
    catalog_has_contract, catalog_has_operation, catalog_owns_contract, catalog_owns_operation,
    catalog_schemas, endpoint_ready, endpoints_ready, find_contract, find_endpoint, find_surface,
    has_contract_id, has_endpoint_id, has_surface_key, lookup_header_contract,
    lookup_header_profile, project_contracts, project_endpoints, project_schemas,
    project_surfaces, projected_surface, schema_ready, schemas_ready, ContractDeclaration,
    McpExposure, McpOperationInvariant, McpPolicy, McpToolBinding, OperationDeclaration,
    SchemaRoot, SurfaceOperation,
};
use crate::endpoint::{EndpointDescriptor, EndpointObligation, EndpointObligationKind, HttpMethod};
use crate::headers::ApiHeaderProfile;
use crate::inventory::{
    is_http_surface, AdoptionLocator, ContractBinding, ContractDirection, ContractGranularity,
    ContractStrictness, ContractSurface, ContractTransport, HttpTransportLocation, MigrationState,
    OperationContract, WireParameter, WireParameterCardinality,
};
use crate::seqs::first_index;
use crate::text::str_eq;

verus! {

/// The operations of this catalog, in source order.
#[verifier::opaque]
pub open spec fn history_operations() -> Seq<OperationDeclaration> {
    seq![
        OperationDeclaration {
            operation_id: "api.list-runs",
            surface: ContractSurface::Api,
            method: Some(HttpMethod::Get),
            path: Some("/api/v1/tasks/:task_id/runs"),
            operation: "GET /api/v1/tasks/:task_id/runs",
            key: "GET /api/v1/tasks/:task_id/runs",
            migration: MigrationState::Adopted,
            exclusion: None,
            shared_components: &[
                "api.error.response",
            ],
            header_profile: Some(ApiHeaderProfile::Locale),
            mcp_policy: Some(McpPolicy {
                exposure: McpExposure::Domain,
                tool_bindings: &[
                    McpToolBinding {
                        tool_name: "run_list",
                        http_operations: &[
                            "api.list-tasks",
                            "api.list-runs",
                        ],
                    },
                ],
                invariants: &[
                    McpOperationInvariant::CanonicalHostOnly,
                    McpOperationInvariant::SharedApplicationService,
                    McpOperationInvariant::NoHostAdminSurface,
                ],
            }),
            obligation_overrides: &[],
            contracts: &[
                ContractDeclaration {
                    id: "api.list-runs.path",
                    path: "GET /api/v1/tasks/:task_id/runs path",
                    operation: None,
                    location: Some(HttpTransportLocation::Path),
                    operation_key: None,
                    parameters: &[
                        WireParameter {
                            name: "task_id",
                            cardinality: Some(WireParameterCardinality::RequiredOne),
                        },
                    ],
                    direction: ContractDirection::Deserialize,
                    strictness: ContractStrictness::DenyUnknownFields,
                    granularity: ContractGranularity::Exact,
                    binding: ContractBinding::ExactSurface,
                    schema_id: Some("urn:kanban-tool:schema:api:list-runs-path:v1"),
                    artifact_path: Some("api/list-runs-path.v1.schema.json"),
                    schema_title: Some("Kanban list runs path v1"),
                    valid_fixture: Some("schemas/fixtures/api/list-runs-path.v1.valid.json"),
                    invalid_fixture: Some("schemas/fixtures/api/list-runs-path.v1.invalid.json"),
                    exclusion: None,
                    producer: Some(AdoptionLocator {
                        package: "kanban-server",
                        test_target: "lib",
                        exact_test: "http::operations::contract_adoption::suite_runs_and_logs_adoption_uses_real_router_paths_and_fixtures",
                    }),
                    consumer: Some(AdoptionLocator {
                        package: "kanban-server",
                        test_target: "lib",
                        exact_test: "http::operations::contract_adoption::suite_runs_and_logs_adoption_uses_real_router_paths_and_fixtures",
                    }),
                },
                ContractDeclaration {
                    id: "api.list-runs.headers",
                    path: "GET /api/v1/tasks/:task_id/runs headers",
                    operation: None,
                    location: Some(HttpTransportLocation::Headers),
                    operation_key: None,
                    parameters: &[
                        WireParameter {
                            name: "Accept-Language",
                            cardinality: Some(WireParameterCardinality::OptionalOne),
                        },
                    ],
                    direction: ContractDirection::Deserialize,
                    strictness: ContractStrictness::DenyUnknownFields,
                    granularity: ContractGranularity::Exact,
                    binding: ContractBinding::ExactSurface,
                    schema_id: Some("urn:kanban-tool:schema:api:list-runs-headers:v1"),
                    artifact_path: Some("api/list-runs-headers.v1.schema.json"),
                    schema_title: Some("Kanban api.list-runs request headers v1"),
                    valid_fixture: Some("schemas/fixtures/api/headers/locale-headers.v1.valid.json"),
                    invalid_fixture: Some("schemas/fixtures/api/headers/locale-headers.v1.invalid.json"),
                    exclusion: None,
                    producer: Some(AdoptionLocator {
                        package: "kanban-server",
                        test_target: "lib",
                        exact_test: "knowledge_adoption::locale_header_fixture_is_consumed_by_real_router",
                    }),
                    consumer: Some(AdoptionLocator {
                        package: "kanban-server",
                        test_target: "lib",
                        exact_test: "knowledge_adoption::locale_header_fixture_is_consumed_by_real_router",
                    }),
                },
                ContractDeclaration {
                    id: "api.list-runs.response",
                    path: "GET /api/v1/tasks/:task_id/runs response",
                    operation: None,
                    location: Some(HttpTransportLocation::Success),
                    operation_key: None,
                    parameters: &[],
                    direction: ContractDirection::Serialize,
                    strictness: ContractStrictness::DenyUnknownFields,
                    granularity: ContractGranularity::Exact,
                    binding: ContractBinding::ExactSurface,
                    schema_id: Some("urn:kanban-tool:schema:api:list-runs-response:v1"),
                    artifact_path: Some("api/list-runs-response.v1.schema.json"),
                    schema_title: Some("Kanban list runs response v1"),
                    valid_fixture: Some("schemas/fixtures/api/list-runs-response.v1.valid.json"),
                    invalid_fixture: Some("schemas/fixtures/api/list-runs-response.v1.invalid.json"),
                    exclusion: None,
                    producer: Some(AdoptionLocator {
                        package: "kanban-server",
                        test_target: "lib",
                        exact_test: "http::operations::contract_adoption::suite_runs_and_logs_adoption_uses_real_router_paths_and_fixtures",
                    }),
                    consumer: Some(AdoptionLocator {
                        package: "kanban-server",
                        test_target: "lib",
                        exact_test: "http::operations::contract_adoption::suite_runs_and_logs_adoption_uses_real_router_paths_and_fixtures",
                    }),
                },
            ],
        },
        OperationDeclaration {
            operation_id: "api.get-run",
            surface: ContractSurface::Api,
            method: Some(HttpMethod::Get),
            path: Some("/api/v1/runs/:run_id"),
            operation: "GET /api/v1/runs/:run_id",
            key: "GET /api/v1/runs/:run_id",
            migration: MigrationState::Adopted,
            exclusion: None,
            shared_components: &[
                "api.error.response",
            ],
            header_profile: Some(ApiHeaderProfile::Locale),
            mcp_policy: Some(McpPolicy {
                exposure: McpExposure::Domain,
                tool_bindings: &[
                    McpToolBinding {
                        tool_name: "run_show",
                        http_operations: &[
                            "api.get-run",
                        ],
                    },
                ],
                invariants: &[
                    McpOperationInvariant::CanonicalHostOnly,
                    McpOperationInvariant::SharedApplicationService,
                    McpOperationInvariant::NoHostAdminSurface,
                ],
            }),
            obligation_overrides: &[],
            contracts: &[
                ContractDeclaration {
                    id: "api.get-run.path",
                    path: "GET /api/v1/runs/:run_id path",
                    operation: None,
                    location: Some(HttpTransportLocation::Path),
                    operation_key: None,
                    parameters: &[
                        WireParameter {
                            name: "run_id",
                            cardinality: Some(WireParameterCardinality::RequiredOne),
                        },
                    ],
                    direction: ContractDirection::Deserialize,
                    strictness: ContractStrictness::DenyUnknownFields,
                    granularity: ContractGranularity::Exact,
                    binding: ContractBinding::ExactSurface,
                    schema_id: Some("urn:kanban-tool:schema:api:get-run-path:v1"),
                    artifact_path: Some("api/get-run-path.v1.schema.json"),
                    schema_title: Some("Kanban get run path v1"),
                    valid_fixture: Some("schemas/fixtures/api/get-run-path.v1.valid.json"),
                    invalid_fixture: Some("schemas/fixtures/api/get-run-path.v1.invalid.json"),
                    exclusion: None,
                    producer: Some(AdoptionLocator {
                        package: "kanban-server",
                        test_target: "lib",
                        exact_test: "http::operations::contract_adoption::suite_runs_and_logs_adoption_uses_real_router_paths_and_fixtures",
                    }),
                    consumer: Some(AdoptionLocator {
                        package: "kanban-server",
                        test_target: "lib",
                        exact_test: "http::operations::contract_adoption::suite_runs_and_logs_adoption_uses_real_router_paths_and_fixtures",
                    }),
                },
                ContractDeclaration {
                    id: "api.get-run.headers",
                    path: "GET /api/v1/runs/:run_id headers",
                    operation: None,
                    location: Some(HttpTransportLocation::Headers),
                    operation_key: None,
                    parameters: &[
                        WireParameter {
                            name: "Accept-Language",
                            cardinality: Some(WireParameterCardinality::OptionalOne),
                        },
                    ],
                    direction: ContractDirection::Deserialize,
                    strictness: ContractStrictness::DenyUnknownFields,
                    granularity: ContractGranularity::Exact,
                    binding: ContractBinding::ExactSurface,
                    schema_id: Some("urn:kanban-tool:schema:api:get-run-headers:v1"),
                    artifact_path: Some("api/get-run-headers.v1.schema.json"),
                    schema_title: Some("Kanban api.get-run request headers v1"),
                    valid_fixture: Some("schemas/fixtures/api/headers/locale-headers.v1.valid.json"),
                    invalid_fixture: Some("schemas/fixtures/api/headers/locale-headers.v1.invalid.json"),
                    exclusion: None,
                    producer: Some(AdoptionLocator {
                        package: "kanban-server",
                        test_target: "lib",
                        exact_test: "knowledge_adoption::locale_header_fixture_is_consumed_by_real_router",
                    }),
                    consumer: Some(AdoptionLocator {
                        package: "kanban-server",
                        test_target: "lib",
                        exact_test: "knowledge_adoption::locale_header_fixture_is_consumed_by_real_router",
                    }),
                },
                ContractDeclaration {
                    id: "api.get-run.response",
                    path: "GET /api/v1/runs/:run_id response",
                    operation: None,
                    location: Some(HttpTransportLocation::Success),
                    operation_key: None,
                    parameters: &[],
                    direction: ContractDirection::Serialize,
                    strictness: ContractStrictness::DenyUnknownFields,
                    granularity: ContractGranularity::Exact,
                    binding: ContractBinding::ExactSurface,
                    schema_id: Some("urn:kanban-tool:schema:api:get-run-response:v1"),
                    artifact_path: Some("api/get-run-response.v1.schema.json"),
                    schema_title: Some("Kanban get run response v1"),
                    valid_fixture: Some("schemas/fixtures/api/get-run-response.v1.valid.json"),
                    invalid_fixture: Some("schemas/fixtures/api/get-run-response.v1.invalid.json"),
                    exclusion: None,
                    producer: Some(AdoptionLocator {
                        package: "kanban-server",
                        test_target: "lib",
                        exact_test: "http::operations::contract_adoption::suite_runs_and_logs_adoption_uses_real_router_paths_and_fixtures",
                    }),
                    consumer: Some(AdoptionLocator {
                        package: "kanban-server",
                        test_target: "lib",
                        exact_test: "http::operations::contract_adoption::suite_runs_and_logs_adoption_uses_real_router_paths_and_fixtures",
                    }),
                },
            ],
        },
        OperationDeclaration {
            operation_id: "api.get-run-log",
            surface: ContractSurface::Api,
            method: Some(HttpMethod::Get),
            path: Some("/api/v1/runs/:run_id/log"),
            operation: "GET /api/v1/runs/:run_id/log",
            key: "GET /api/v1/runs/:run_id/log",
            migration: MigrationState::Adopted,
            exclusion: None,
            shared_components: &[],
            header_profile: Some(ApiHeaderProfile::Locale),
            mcp_policy: Some(McpPolicy {
                exposure: McpExposure::Domain,
                tool_bindings: &[
                    McpToolBinding {
                        tool_name: "run_log",
                        http_operations: &[
                            "api.get-run-log",
                        ],
                    },
                ],
                invariants: &[
                    McpOperationInvariant::CanonicalHostOnly,
                    McpOperationInvariant::SharedApplicationService,
                    McpOperationInvariant::NoHostAdminSurface,
                ],
            }),
            obligation_overrides: &[],
            contracts: &[
                ContractDeclaration {
                    id: "api.get-run-log.path",
                    path: "GET /api/v1/runs/:run_id/log path",
                    operation: None,
                    location: Some(HttpTransportLocation::Path),
                    operation_key: None,
                    parameters: &[
                        WireParameter {
                            name: "run_id",
                            cardinality: Some(WireParameterCardinality::RequiredOne),
                        },
                    ],
                    direction: ContractDirection::Deserialize,
                    strictness: ContractStrictness::DenyUnknownFields,
                    granularity: ContractGranularity::Exact,
                    binding: ContractBinding::ExactSurface,
                    schema_id: Some("urn:kanban-tool:schema:api:get-run-log-path:v1"),
                    artifact_path: Some("api/get-run-log-path.v1.schema.json"),
                    schema_title: Some("Kanban API get run log path v1"),
                    valid_fixture: Some("schemas/fixtures/api/get-run-log-path.v1.valid.json"),
                    invalid_fixture: Some("schemas/fixtures/api/get-run-log-path.v1.invalid.json"),
                    exclusion: None,
                    producer: Some(AdoptionLocator {
                        package: "kanban-server",
                        test_target: "lib",
                        exact_test: "http::operations::contract_adoption::suite_runs_and_logs_adoption_uses_real_router_paths_and_fixtures",
                    }),
                    consumer: Some(AdoptionLocator {
                        package: "kanban-server",
                        test_target: "lib",
                        exact_test: "http::operations::contract_adoption::suite_runs_and_logs_adoption_uses_real_router_paths_and_fixtures",
                    }),
                },
                ContractDeclaration {
                    id: "api.get-run-log.headers",
                    path: "GET /api/v1/runs/:run_id/log headers",
                    operation: None,
                    location: Some(HttpTransportLocation::Headers),
                    operation_key: None,
                    parameters: &[
                        WireParameter {
                            name: "Accept-Language",
                            cardinality: Some(WireParameterCardinality::OptionalOne),
                        },
                    ],
                    direction: ContractDirection::Deserialize,
                    strictness: ContractStrictness::DenyUnknownFields,
                    granularity: ContractGranularity::Exact,
                    binding: ContractBinding::ExactSurface,
                    schema_id: Some("urn:kanban-tool:schema:api:get-run-log-headers:v1"),
                    artifact_path: Some("api/get-run-log-headers.v1.schema.json"),
                    schema_title: Some("Kanban api.get-run-log request headers v1"),
                    valid_fixture: Some("schemas/fixtures/api/headers/locale-headers.v1.valid.json"),
                    invalid_fixture: Some("schemas/fixtures/api/headers/locale-headers.v1.invalid.json"),
                    exclusion: None,
                    producer: Some(AdoptionLocator {
                        package: "kanban-server",
                        test_target: "lib",
                        exact_test: "knowledge_adoption::locale_header_fixture_is_consumed_by_real_router",
                    }),
                    consumer: Some(AdoptionLocator {
                        package: "kanban-server",
                        test_target: "lib",
                        exact_test: "knowledge_adoption::locale_header_fixture_is_consumed_by_real_router",
                    }),
                },
                ContractDeclaration {
                    id: "api.get-run-log.response",
                    path: "GET /api/v1/runs/:run_id/log response",
                    operation: None,
                    location: Some(HttpTransportLocation::Success),
                    operation_key: None,
                    parameters: &[],
                    direction: ContractDirection::Serialize,
                    strictness: ContractStrictness::DenyUnknownFields,
                    granularity: ContractGranularity::Exact,
                    binding: ContractBinding::ExactSurface,
                    schema_id: Some("urn:kanban-tool:schema:api:get-run-log-response:v1"),
                    artifact_path: Some("api/get-run-log-response.v1.schema.json"),
                    schema_title: Some("Kanban API get run log response v1"),
                    valid_fixture: Some("schemas/fixtures/api/get-run-log-response.v1.valid.json"),
                    invalid_fixture: Some("schemas/fixtures/api/get-run-log-response.v1.invalid.json"),
                    exclusion: None,
                    producer: Some(AdoptionLocator {
                        package: "kanban-server",
                        test_target: "lib",
                        exact_test: "http::operations::contract_adoption::suite_runs_and_logs_adoption_uses_real_router_paths_and_fixtures",
                    }),
                    consumer: Some(AdoptionLocator {
                        package: "kanban-server",
                        test_target: "lib",
                        exact_test: "http::operations::contract_adoption::suite_runs_and_logs_adoption_uses_real_router_paths_and_fixtures",
                    }),
                },
            ],
        },
        OperationDeclaration {
            operation_id: "api.list-comments",
            surface: ContractSurface::Api,
            method: Some(HttpMethod::Get),
            path: Some("/api/v1/tasks/:task_id/comments"),
            operation: "GET /api/v1/tasks/:task_id/comments",
            key: "GET /api/v1/tasks/:task_id/comments",
            migration: MigrationState::Adopted,
            exclusion: None,
            shared_components: &[
                "api.error.response",
            ],
            header_profile: Some(ApiHeaderProfile::Locale),
            mcp_policy: Some(McpPolicy {
                exposure: McpExposure::Domain,
                tool_bindings: &[
                    McpToolBinding {
                        tool_name: "comment_list",
                        http_operations: &[
                            "api.list-tasks",
                            "api.list-comments",
                        ],
                    },
                ],
                invariants: &[
                    McpOperationInvariant::CanonicalHostOnly,
                    McpOperationInvariant::SharedApplicationService,
                    McpOperationInvariant::NoHostAdminSurface,
                ],
            }),
            obligation_overrides: &[],
            contracts: &[
                ContractDeclaration {
                    id: "api.list-comments.path",
                    path: "GET /api/v1/tasks/:task_id/comments path",
                    operation: None,
                    location: Some(HttpTransportLocation::Path),
                    operation_key: None,
                    parameters: &[
                        WireParameter {
                            name: "task_id",
                            cardinality: Some(WireParameterCardinality::RequiredOne),
                        },
                    ],
                    direction: ContractDirection::Deserialize,
                    strictness: ContractStrictness::DenyUnknownFields,
                    granularity: ContractGranularity::Exact,
                    binding: ContractBinding::ExactSurface,
                    schema_id: Some("urn:kanban-tool:schema:api:list-comments-path:v1"),
                    artifact_path: Some("api/list-comments-path.v1.schema.json"),
                    schema_title: Some("Kanban list comments path v1"),
                    valid_fixture: Some("schemas/fixtures/api/list-comments-path.v1.valid.json"),
                    invalid_fixture: Some("schemas/fixtures/api/list-comments-path.v1.invalid.json"),
                    exclusion: None,
                    producer: Some(AdoptionLocator {
                        package: "kanban-server",
                        test_target: "lib",
                        exact_test: "http::operations::contract_adoption::suite_comments_and_attachments_adoption_uses_real_router_fixtures",
                    }),
                    consumer: Some(AdoptionLocator {
                        package: "kanban-server",
                        test_target: "lib",
                        exact_test: "http::operations::contract_adoption::suite_comments_and_attachments_adoption_uses_real_router_fixtures",
                    }),
                },
                ContractDeclaration {
                    id: "api.list-comments.headers",
                    path: "GET /api/v1/tasks/:task_id/comments headers",
                    operation: None,
                    location: Some(HttpTransportLocation::Headers),
                    operation_key: None,
                    parameters: &[
                        WireParameter {
                            name: "Accept-Language",
                            cardinality: Some(WireParameterCardinality::OptionalOne),
                        },
                    ],
                    direction: ContractDirection::Deserialize,
                    strictness: ContractStrictness::DenyUnknownFields,
                    granularity: ContractGranularity::Exact,
                    binding: ContractBinding::ExactSurface,
                    schema_id: Some("urn:kanban-tool:schema:api:list-comments-headers:v1"),
                    artifact_path: Some("api/list-comments-headers.v1.schema.json"),
                    schema_title: Some("Kanban api.list-comments request headers v1"),
                    valid_fixture: Some("schemas/fixtures/api/headers/locale-headers.v1.valid.json"),
                    invalid_fixture: Some("schemas/fixtures/api/headers/locale-headers.v1.invalid.json"),
                    exclusion: None,
                    producer: Some(AdoptionLocator {
                        package: "kanban-server",
                        test_target: "lib",
                        exact_test: "knowledge_adoption::locale_header_fixture_is_consumed_by_real_router",
                    }),
                    consumer: Some(AdoptionLocator {
                        package: "kanban-server",
                        test_target: "lib",
                        exact_test: "knowledge_adoption::locale_header_fixture_is_consumed_by_real_router",
                    }),
                },
                ContractDeclaration {
                    id: "api.list-comments.response",
                    path: "GET /api/v1/tasks/:task_id/comments response",
                    operation: None,
                    location: Some(HttpTransportLocation::Success),
                    operation_key: None,
                    parameters: &[],
                    direction: ContractDirection::Serialize,
                    strictness: ContractStrictness::DenyUnknownFields,
                    granularity: ContractGranularity::Exact,
                    binding: ContractBinding::ExactSurface,
                    schema_id: Some("urn:kanban-tool:schema:api:list-comments-response:v1"),
                    artifact_path: Some("api/list-comments-response.v1.schema.json"),
                    schema_title: Some("Kanban list comments response v1"),
                    valid_fixture: Some("schemas/fixtures/api/list-comments-response.v1.valid.json"),
                    invalid_fixture: Some("schemas/fixtures/api/list-comments-response.v1.invalid.json"),
                    exclusion: None,
                    producer: Some(AdoptionLocator {
                        package: "kanban-server",
                        test_target: "lib",
                        exact_test: "http::operations::contract_adoption::suite_comments_and_attachments_adoption_uses_real_router_fixtures",
                    }),
                    consumer: Some(AdoptionLocator {
                        package: "kanban-server",
                        test_target: "lib",
                        exact_test: "http::operations::contract_adoption::suite_comments_and_attachments_adoption_uses_real_router_fixtures",
                    }),
                },
            ],
        },
        OperationDeclaration {
            operation_id: "api.create-comment",
            surface: ContractSurface::Api,
            method: Some(HttpMethod::Post),
            path: Some("/api/v1/tasks/:task_id/comments"),
            operation: "POST /api/v1/tasks/:task_id/comments",
            key: "POST /api/v1/tasks/:task_id/comments",
            migration: MigrationState::Adopted,
            exclusion: None,
            shared_components: &[
                "api.error.response",
            ],
            header_profile: Some(ApiHeaderProfile::LocaleActorJson),
            mcp_policy: Some(McpPolicy {
                exposure: McpExposure::Domain,
                tool_bindings: &[
                    McpToolBinding {
                        tool_name: "comment_create",
                        http_operations: &[
                            "api.list-tasks",
                            "api.create-comment",
                        ],
                    },
                ],
                invariants: &[
                    McpOperationInvariant::CanonicalHostOnly,
                    McpOperationInvariant::SharedApplicationService,
                    McpOperationInvariant::NoHostAdminSurface,
                ],
            }),
            obligation_overrides: &[],
            contracts: &[
                ContractDeclaration {
                    id: "api.create-comment.path",
                    path: "POST /api/v1/tasks/:task_id/comments path",
                    operation: None,
                    location: Some(HttpTransportLocation::Path),
                    operation_key: None,
                    parameters: &[
                        WireParameter {
                            name: "task_id",
                            cardinality: Some(WireParameterCardinality::RequiredOne),
                        },
                    ],
                    direction: ContractDirection::Deserialize,
                    strictness: ContractStrictness::DenyUnknownFields,
                    granularity: ContractGranularity::Exact,
                    binding: ContractBinding::ExactSurface,
                    schema_id: Some("urn:kanban-tool:schema:api:create-comment-path:v1"),
                    artifact_path: Some("api/create-comment-path.v1.schema.json"),
                    schema_title: Some("Kanban create comment path v1"),
                    valid_fixture: Some("schemas/fixtures/api/create-comment-path.v1.valid.json"),
                    invalid_fixture: Some("schemas/fixtures/api/create-comment-path.v1.invalid.json"),
                    exclusion: None,
                    producer: Some(AdoptionLocator {
                        package: "kanban-server",
                        test_target: "lib",
                        exact_test: "http::operations::contract_adoption::suite_comments_and_attachments_adoption_uses_real_router_fixtures",
                    }),
                    consumer: Some(AdoptionLocator {
                        package: "kanban-server",
                        test_target: "lib",
                        exact_test: "http::operations::contract_adoption::suite_comments_and_attachments_adoption_uses_real_router_fixtures",
                    }),
                },
                ContractDeclaration {
                    id: "api.create-comment.headers",
                    path: "POST /api/v1/tasks/:task_id/comments headers",
                    operation: None,
                    location: Some(HttpTransportLocation::Headers),
                    operation_key: None,
                    parameters: &[
                        WireParameter {
                            name: "Accept-Language",
                            cardinality: Some(WireParameterCardinality::OptionalOne),
                        },
                        WireParameter {
                            name: "X-KB-Actor",
                            cardinality: Some(WireParameterCardinality::OptionalOne),
                        },
                        WireParameter {
                            name: "Content-Type",
                            cardinality: Some(WireParameterCardinality::RequiredOne),
                        },
                    ],
                    direction: ContractDirection::Deserialize,
                    strictness: ContractStrictness::DenyUnknownFields,
                    granularity: ContractGranularity::Exact,
                    binding: ContractBinding::ExactSurface,
                    schema_id: Some("urn:kanban-tool:schema:api:create-comment-headers:v1"),
                    artifact_path: Some("api/create-comment-headers.v1.schema.json"),
                    schema_title: Some("Kanban api.create-comment request headers v1"),
                    valid_fixture: Some("schemas/fixtures/api/headers/locale-actor-json-headers.v1.valid.json"),
                    invalid_fixture: Some("schemas/fixtures/api/headers/locale-actor-json-headers.v1.invalid.json"),
                    exclusion: None,
                    producer: Some(AdoptionLocator {
                        package: "kanban-server",
                        test_target: "lib",
                        exact_test: "knowledge_adoption::locale_actor_json_header_fixture_is_consumed_by_real_router",
                    }),
                    consumer: Some(AdoptionLocator {
                        package: "kanban-server",
                        test_target: "lib",
                        exact_test: "knowledge_adoption::locale_actor_json_header_fixture_is_consumed_by_real_router",
                    }),
                },
                ContractDeclaration {
                    id: "api.create-comment.request",
                    path: "POST /api/v1/tasks/:task_id/comments request",
                    operation: None,
                    location: Some(HttpTransportLocation::Body),
                    operation_key: None,
                    parameters: &[],
                    direction: ContractDirection::Deserialize,
                    strictness: ContractStrictness::DenyUnknownFields,
                    granularity: ContractGranularity::Exact,
                    binding: ContractBinding::ExactSurface,
                    schema_id: Some("urn:kanban-tool:schema:api:create-comment-request:v1"),
                    artifact_path: Some("api/create-comment-request.v1.schema.json"),
                    schema_title: Some("Kanban create comment request v1"),
                    valid_fixture: Some("schemas/fixtures/api/create-comment-request.v1.valid.json"),
                    invalid_fixture: Some("schemas/fixtures/api/create-comment-request.v1.invalid.json"),
                    exclusion: None,
                    producer: Some(AdoptionLocator {
                        package: "kanban-server",
                        test_target: "lib",
                        exact_test: "http::operations::contract_adoption::suite_comments_and_attachments_adoption_uses_real_router_fixtures",
                    }),
                    consumer: Some(AdoptionLocator {
                        package: "kanban-server",
                        test_target: "lib",
                        exact_test: "http::operations::contract_adoption::suite_comments_and_attachments_adoption_uses_real_router_fixtures",
                    }),
                },
                ContractDeclaration {
                    id: "api.create-comment.response",
                    path: "POST /api/v1/tasks/:task_id/comments response",
                    operation: None,
                    location: Some(HttpTransportLocation::Success),
                    operation_key: None,
                    parameters: &[],
                    direction: ContractDirection::Serialize,
                    strictness: ContractStrictness::DenyUnknownFields,
                    granularity: ContractGranularity::Exact,
                    binding: ContractBinding::ExactSurface,
                    schema_id: Some("urn:kanban-tool:schema:api:create-comment-response:v1"),
                    artifact_path: Some("api/create-comment-response.v1.schema.json"),
                    schema_title: Some("Kanban create comment response v1"),
                    valid_fixture: Some("schemas/fixtures/api/create-comment-response.v1.valid.json"),
                    invalid_fixture: Some("schemas/fixtures/api/create-comment-response.v1.invalid.json"),
                    exclusion: None,
                    producer: Some(AdoptionLocator {
                        package: "kanban-server",
                        test_target: "lib",
                        exact_test: "http::operations::contract_adoption::suite_comments_and_attachments_adoption_uses_real_router_fixtures",
                    }),
                    consumer: Some(AdoptionLocator {
                        package: "kanban-server",
                        test_target: "lib",
                        exact_test: "http::operations::contract_adoption::suite_comments_and_attachments_adoption_uses_real_router_fixtures",
                    }),
                },
            ],
        },
        OperationDeclaration {
            operation_id: "api.list-attachments",
            surface: ContractSurface::Api,
            method: Some(HttpMethod::Get),
            path: Some("/api/v1/tasks/:task_id/attachments"),
            operation: "GET /api/v1/tasks/:task_id/attachments",
            key: "GET /api/v1/tasks/:task_id/attachments",
            migration: MigrationState::Adopted,
            exclusion: None,
            shared_components: &[],
            header_profile: Some(ApiHeaderProfile::Locale),
            mcp_policy: Some(McpPolicy {
                exposure: McpExposure::Domain,
                tool_bindings: &[
                    McpToolBinding {
                        tool_name: "attachment_list",
                        http_operations: &[
                            "api.list-tasks",
                            "api.list-attachments",
                        ],
                    },
                ],
                invariants: &[
                    McpOperationInvariant::CanonicalHostOnly,
                    McpOperationInvariant::SharedApplicationService,
                    McpOperationInvariant::NoHostAdminSurface,
                ],
            }),
            obligation_overrides: &[],
            contracts: &[
                ContractDeclaration {
                    id: "api.list-attachments.path",
                    path: "GET /api/v1/tasks/:task_id/attachments path",
                    operation: None,
                    location: Some(HttpTransportLocation::Path),
                    operation_key: None,
                    parameters: &[
                        WireParameter {
                            name: "task_id",
                            cardinality: Some(WireParameterCardinality::RequiredOne),
                        },
                    ],
                    direction: ContractDirection::Deserialize,
                    strictness: ContractStrictness::DenyUnknownFields,
                    granularity: ContractGranularity::Exact,
                    binding: ContractBinding::ExactSurface,
                    schema_id: Some("urn:kanban-tool:schema:api:list-attachments-path:v1"),
                    artifact_path: Some("api/list-attachments-path.v1.schema.json"),
                    schema_title: Some("Kanban API list attachments path v1"),
                    valid_fixture: Some("schemas/fixtures/api/list-attachments-path.v1.valid.json"),
                    invalid_fixture: Some("schemas/fixtures/api/list-attachments-path.v1.invalid.json"),
                    exclusion: None,
                    producer: Some(AdoptionLocator {
                        package: "kanban-server",
                        test_target: "lib",
                        exact_test: "http::operations::contract_adoption::suite_comments_and_attachments_adoption_uses_real_router_fixtures",
                    }),
                    consumer: Some(AdoptionLocator {
                        package: "kanban-server",
                        test_target: "lib",
                        exact_test: "http::operations::contract_adoption::suite_comments_and_attachments_adoption_uses_real_router_fixtures",
                    }),
                },
                ContractDeclaration {
                    id: "api.list-attachments.headers",
                    path: "GET /api/v1/tasks/:task_id/attachments headers",
                    operation: None,
                    location: Some(HttpTransportLocation::Headers),
                    operation_key: None,
                    parameters: &[
                        WireParameter {
                            name: "Accept-Language",
                            cardinality: Some(WireParameterCardinality::OptionalOne),
                        },
                    ],
                    direction: ContractDirection::Deserialize,
                    strictness: ContractStrictness::DenyUnknownFields,
                    granularity: ContractGranularity::Exact,
                    binding: ContractBinding::ExactSurface,
                    schema_id: Some("urn:kanban-tool:schema:api:list-attachments-headers:v1"),
                    artifact_path: Some("api/list-attachments-headers.v1.schema.json"),
                    schema_title: Some("Kanban api.list-attachments request headers v1"),
                    valid_fixture: Some("schemas/fixtures/api/headers/locale-headers.v1.valid.json"),
                    invalid_fixture: Some("schemas/fixtures/api/headers/locale-headers.v1.invalid.json"),
                    exclusion: None,
                    producer: Some(AdoptionLocator {
                        package: "kanban-server",
                        test_target: "lib",
                        exact_test: "knowledge_adoption::locale_header_fixture_is_consumed_by_real_router",
                    }),
                    consumer: Some(AdoptionLocator {
                        package: "kanban-server",
                        test_target: "lib",
                        exact_test: "knowledge_adoption::locale_header_fixture_is_consumed_by_real_router",
                    }),
                },
                ContractDeclaration {
                    id: "api.list-attachments.response",
                    path: "GET /api/v1/tasks/:task_id/attachments success",
                    operation: None,
                    location: Some(HttpTransportLocation::Success),
                    operation_key: None,
                    parameters: &[],
                    direction: ContractDirection::Serialize,
                    strictness: ContractStrictness::DenyUnknownFields,
                    granularity: ContractGranularity::Exact,
                    binding: ContractBinding::ExactSurface,
                    schema_id: Some("urn:kanban-tool:schema:api:list-attachments-response:v1"),
                    artifact_path: Some("api/list-attachments-response.v1.schema.json"),
                    schema_title: Some("Kanban API list attachments response v1"),
                    valid_fixture: Some("schemas/fixtures/api/list-attachments-response.v1.valid.json"),
                    invalid_fixture: Some("schemas/fixtures/api/list-attachments-response.v1.invalid.json"),
                    exclusion: None,
                    producer: Some(AdoptionLocator {
                        package: "kanban-server",
                        test_target: "lib",
                        exact_test: "http::operations::contract_adoption::suite_comments_and_attachments_adoption_uses_real_router_fixtures",
                    }),
                    consumer: Some(AdoptionLocator {
                        package: "kanban-server",
                        test_target: "lib",
                        exact_test: "http::operations::contract_adoption::suite_comments_and_attachments_adoption_uses_real_router_fixtures",
                    }),
                },
            ],
        },
        OperationDeclaration {
            operation_id: "api.create-attachment",
            surface: ContractSurface::Api,
            method: Some(HttpMethod::Post),
            path: Some("/api/v1/tasks/:task_id/attachments"),
            operation: "POST /api/v1/tasks/:task_id/attachments",
            key: "POST /api/v1/tasks/:task_id/attachments",
            migration: MigrationState::Adopted,
            exclusion: None,
            shared_components: &[],
            header_profile: Some(ApiHeaderProfile::LocaleActorJson),
            mcp_policy: Some(McpPolicy {
                exposure: McpExposure::Domain,
                tool_bindings: &[
                    McpToolBinding {
                        tool_name: "attachment_create",
                        http_operations: &[
                            "api.list-tasks",
                            "api.create-attachment",
                        ],
                    },
                ],
                invariants: &[
                    McpOperationInvariant::CanonicalHostOnly,
                    McpOperationInvariant::SharedApplicationService,
                    McpOperationInvariant::NoHostAdminSurface,
                ],
            }),
            obligation_overrides: &[],
            contracts: &[
                ContractDeclaration {
                    id: "api.create-attachment.path",
                    path: "POST /api/v1/tasks/:task_id/attachments path",
                    operation: None,
                    location: Some(HttpTransportLocation::Path),
                    operation_key: None,
                    parameters: &[
                        WireParameter {
                            name: "task_id",
                            cardinality: Some(WireParameterCardinality::RequiredOne),
                        },
                    ],
                    direction: ContractDirection::Deserialize,
                    strictness: ContractStrictness::DenyUnknownFields,
                    granularity: ContractGranularity::Exact,
                    binding: ContractBinding::ExactSurface,
                    schema_id: Some("urn:kanban-tool:schema:api:create-attachment-path:v1"),
                    artifact_path: Some("api/create-attachment-path.v1.schema.json"),
                    schema_title: Some("Kanban API create attachment path v1"),
                    valid_fixture: Some("schemas/fixtures/api/create-attachment-path.v1.valid.json"),
                    invalid_fixture: Some("schemas/fixtures/api/create-attachment-path.v1.invalid.json"),
                    exclusion: None,
                    producer: Some(AdoptionLocator {
                        package: "kanban-server",
                        test_target: "lib",
                        exact_test: "http::operations::contract_adoption::suite_comments_and_attachments_adoption_uses_real_router_fixtures",
                    }),
                    consumer: Some(AdoptionLocator {
                        package: "kanban-server",
                        test_target: "lib",
                        exact_test: "http::operations::contract_adoption::suite_comments_and_attachments_adoption_uses_real_router_fixtures",
                    }),
                },
                ContractDeclaration {
                    id: "api.create-attachment.headers",
                    path: "POST /api/v1/tasks/:task_id/attachments headers",
                    operation: None,
                    location: Some(HttpTransportLocation::Headers),
                    operation_key: None,
                    parameters: &[
                        WireParameter {
                            name: "Accept-Language",
                            cardinality: Some(WireParameterCardinality::OptionalOne),
                        },
                        WireParameter {
                            name: "X-KB-Actor",
                            cardinality: Some(WireParameterCardinality::OptionalOne),
                        },
                        WireParameter {
                            name: "Content-Type",
                            cardinality: Some(WireParameterCardinality::RequiredOne),
                        },
                    ],
                    direction: ContractDirection::Deserialize,
                    strictness: ContractStrictness::DenyUnknownFields,
                    granularity: ContractGranularity::Exact,
                    binding: ContractBinding::ExactSurface,
                    schema_id: Some("urn:kanban-tool:schema:api:create-attachment-headers:v1"),
                    artifact_path: Some("api/create-attachment-headers.v1.schema.json"),
                    schema_title: Some("Kanban api.create-attachment request headers v1"),
                    valid_fixture: Some("schemas/fixtures/api/headers/locale-actor-json-headers.v1.valid.json"),
                    invalid_fixture: Some("schemas/fixtures/api/headers/locale-actor-json-headers.v1.invalid.json"),
                    exclusion: None,
                    producer: Some(AdoptionLocator {
                        package: "kanban-server",
                        test_target: "lib",
                        exact_test: "knowledge_adoption::locale_actor_json_header_fixture_is_consumed_by_real_router",
                    }),
                    consumer: Some(AdoptionLocator {
                        package: "kanban-server",
                        test_target: "lib",
                        exact_test: "knowledge_adoption::locale_actor_json_header_fixture_is_consumed_by_real_router",
                    }),
                },
                ContractDeclaration {
                    id: "api.create-attachment.request",
                    path: "POST /api/v1/tasks/:task_id/attachments body",
                    operation: None,
                    location: Some(HttpTransportLocation::Body),
                    operation_key: None,
                    parameters: &[],
                    direction: ContractDirection::Deserialize,
                    strictness: ContractStrictness::DenyUnknownFields,
                    granularity: ContractGranularity::Exact,
                    binding: ContractBinding::ExactSurface,
                    schema_id: Some("urn:kanban-tool:schema:api:create-attachment-request:v1"),
                    artifact_path: Some("api/create-attachment-request.v1.schema.json"),
                    schema_title: Some("Kanban API create attachment request v1"),
                    valid_fixture: Some("schemas/fixtures/api/create-attachment-request.v1.valid.json"),
                    invalid_fixture: Some("schemas/fixtures/api/create-attachment-request.v1.invalid.json"),
                    exclusion: None,
                    producer: Some(AdoptionLocator {
                        package: "kanban-server",
                        test_target: "lib",
                        exact_test: "http::operations::contract_adoption::suite_comments_and_attachments_adoption_uses_real_router_fixtures",
                    }),
                    consumer: Some(AdoptionLocator {
                        package: "kanban-server",
                        test_target: "lib",
                        exact_test: "http::operations::contract_adoption::suite_comments_and_attachments_adoption_uses_real_router_fixtures",
                    }),
                },
                ContractDeclaration {
                    id: "api.create-attachment.response",
                    path: "POST /api/v1/tasks/:task_id/attachments success",
                    operation: None,
                    location: Some(HttpTransportLocation::Success),
                    operation_key: None,
                    parameters: &[],
                    direction: ContractDirection::Serialize,
                    strictness: ContractStrictness::DenyUnknownFields,
                    granularity: ContractGranularity::Exact,
                    binding: ContractBinding::ExactSurface,
                    schema_id: Some("urn:kanban-tool:schema:api:create-attachment-response:v1"),
                    artifact_path: Some("api/create-attachment-response.v1.schema.json"),
                    schema_title: Some("Kanban API create attachment response v1"),
                    valid_fixture: Some("schemas/fixtures/api/create-attachment-response.v1.valid.json"),
                    invalid_fixture: Some("schemas/fixtures/api/create-attachment-response.v1.invalid.json"),
                    exclusion: None,
                    producer: Some(AdoptionLocator {
                        package: "kanban-server",
                        test_target: "lib",
                        exact_test: "http::operations::contract_adoption::suite_comments_and_attachments_adoption_uses_real_router_fixtures",
                    }),
                    consumer: Some(AdoptionLocator {
                        package: "kanban-server",
                        test_target: "lib",
                        exact_test: "http::operations::contract_adoption::suite_comments_and_attachments_adoption_uses_real_router_fixtures",
                    }),
                },
            ],
        },
        OperationDeclaration {
            operation_id: "api.download-attachment",
            surface: ContractSurface::Api,
            method: Some(HttpMethod::Get),
            path: Some("/api/v1/tasks/:task_id/attachments/:attachment_id"),
            operation: "GET /api/v1/tasks/:task_id/attachments/:attachment_id",
            key: "GET /api/v1/tasks/:task_id/attachments/:attachment_id",
            migration: MigrationState::Adopted,
            exclusion: None,
            shared_components: &[],
            header_profile: Some(ApiHeaderProfile::Locale),
            mcp_policy: Some(McpPolicy {
                exposure: McpExposure::Domain,
                tool_bindings: &[
                    McpToolBinding {
                        tool_name: "attachment_download",
                        http_operations: &[
                            "api.list-tasks",
                            "api.download-attachment",
                        ],
                    },
                ],
                invariants: &[
                    McpOperationInvariant::CanonicalHostOnly,
                    McpOperationInvariant::SharedApplicationService,
                    McpOperationInvariant::NoHostAdminSurface,
                ],
            }),
            obligation_overrides: &[],
            contracts: &[
                ContractDeclaration {
                    id: "api.download-attachment.path",
                    path: "GET /api/v1/tasks/:task_id/attachments/:attachment_id path",
                    operation: None,
                    location: Some(HttpTransportLocation::Path),
                    operation_key: None,
                    parameters: &[
                        WireParameter {
                            name: "task_id",
                            cardinality: Some(WireParameterCardinality::RequiredOne),
                        },
                        WireParameter {
                            name: "attachment_id",
                            cardinality: Some(WireParameterCardinality::RequiredOne),
                        },
                    ],
                    direction: ContractDirection::Deserialize,
                    strictness: ContractStrictness::DenyUnknownFields,
                    granularity: ContractGranularity::Exact,
                    binding: ContractBinding::ExactSurface,
                    schema_id: Some("urn:kanban-tool:schema:api:download-attachment-path:v1"),
                    artifact_path: Some("api/download-attachment-path.v1.schema.json"),
                    schema_title: Some("Kanban API download attachment path v1"),
                    valid_fixture: Some("schemas/fixtures/api/download-attachment-path.v1.valid.json"),
                    invalid_fixture: Some("schemas/fixtures/api/download-attachment-path.v1.invalid.json"),
                    exclusion: None,
                    producer: Some(AdoptionLocator {
                        package: "kanban-server",
                        test_target: "lib",
                        exact_test: "http::operations::contract_adoption::suite_comments_and_attachments_adoption_uses_real_router_fixtures",
                    }),
                    consumer: Some(AdoptionLocator {
                        package: "kanban-server",
                        test_target: "lib",
                        exact_test: "http::operations::contract_adoption::suite_comments_and_attachments_adoption_uses_real_router_fixtures",
                    }),
                },
                ContractDeclaration {
                    id: "api.download-attachment.headers",
                    path: "GET /api/v1/tasks/:task_id/attachments/:attachment_id headers",
                    operation: None,
                    location: Some(HttpTransportLocation::Headers),
                    operation_key: None,
                    parameters: &[
                        WireParameter {
                            name: "Accept-Language",
                            cardinality: Some(WireParameterCardinality::OptionalOne),
                        },
                    ],
                    direction: ContractDirection::Deserialize,
                    strictness: ContractStrictness::DenyUnknownFields,
                    granularity: ContractGranularity::Exact,
                    binding: ContractBinding::ExactSurface,
                    schema_id: Some("urn:kanban-tool:schema:api:download-attachment-headers:v1"),
                    artifact_path: Some("api/download-attachment-headers.v1.schema.json"),
                    schema_title: Some("Kanban api.download-attachment request headers v1"),
                    valid_fixture: Some("schemas/fixtures/api/headers/locale-headers.v1.valid.json"),
                    invalid_fixture: Some("schemas/fixtures/api/headers/locale-headers.v1.invalid.json"),
                    exclusion: None,
                    producer: Some(AdoptionLocator {
                        package: "kanban-server",
                        test_target: "lib",
                        exact_test: "knowledge_adoption::locale_header_fixture_is_consumed_by_real_router",
                    }),
                    consumer: Some(AdoptionLocator {
                        package: "kanban-server",
                        test_target: "lib",
                        exact_test: "knowledge_adoption::locale_header_fixture_is_consumed_by_real_router",
                    }),
                },
                ContractDeclaration {
                    id: "api.download-attachment.response",
                    path: "GET /api/v1/tasks/:task_id/attachments/:attachment_id success",
                    operation: None,
                    location: Some(HttpTransportLocation::Success),
                    operation_key: None,
                    parameters: &[],
                    direction: ContractDirection::Serialize,
                    strictness: ContractStrictness::DenyUnknownFields,
                    granularity: ContractGranularity::Exact,
                    binding: ContractBinding::ExactSurface,
                    schema_id: Some("urn:kanban-tool:schema:api:download-attachment-response:v1"),
                    artifact_path: Some("api/download-attachment-response.v1.schema.json"),
                    schema_title: Some("Kanban API download attachment bytes v1"),
                    valid_fixture: Some("schemas/fixtures/api/download-attachment-response.v1.valid.json"),
                    invalid_fixture: Some("schemas/fixtures/api/download-attachment-response.v1.invalid.json"),
                    exclusion: None,
                    producer: Some(AdoptionLocator {
                        package: "kanban-server",
                        test_target: "lib",
                        exact_test: "http::operations::contract_adoption::suite_comments_and_attachments_adoption_uses_real_router_fixtures",
                    }),
                    consumer: Some(AdoptionLocator {
                        package: "kanban-server",
                        test_target: "lib",
                        exact_test: "http::operations::contract_adoption::suite_comments_and_attachments_adoption_uses_real_router_fixtures",
                    }),
                },
            ],
        },
        OperationDeclaration {
            operation_id: "api.delete-attachment",
            surface: ContractSurface::Api,
            method: Some(HttpMethod::Delete),
            path: Some("/api/v1/tasks/:task_id/attachments/:attachment_id"),
            operation: "DELETE /api/v1/tasks/:task_id/attachments/:attachment_id",
            key: "DELETE /api/v1/tasks/:task_id/attachments/:attachment_id",
            migration: MigrationState::Adopted,
            exclusion: None,
            shared_components: &[],
            header_profile: Some(ApiHeaderProfile::LocaleActor),
            mcp_policy: Some(McpPolicy {
                exposure: McpExposure::Domain,
                tool_bindings: &[
                    McpToolBinding {
                        tool_name: "attachment_remove",
                        http_operations: &[
                            "api.list-tasks",
                            "api.delete-attachment",
                        ],
                    },
                ],
                invariants: &[
                    McpOperationInvariant::CanonicalHostOnly,
                    McpOperationInvariant::SharedApplicationService,
                    McpOperationInvariant::NoHostAdminSurface,
                ],
            }),
            obligation_overrides: &[],
            contracts: &[
                ContractDeclaration {
                    id: "api.delete-attachment.path",
                    path: "DELETE /api/v1/tasks/:task_id/attachments/:attachment_id path",
                    operation: None,
                    location: Some(HttpTransportLocation::Path),
                    operation_key: None,
                    parameters: &[
                        WireParameter {
                            name: "task_id",
                            cardinality: Some(WireParameterCardinality::RequiredOne),
                        },
                        WireParameter {
                            name: "attachment_id",
                            cardinality: Some(WireParameterCardinality::RequiredOne),
                        },
                    ],
                    direction: ContractDirection::Deserialize,
                    strictness: ContractStrictness::DenyUnknownFields,
                    granularity: ContractGranularity::Exact,
                    binding: ContractBinding::ExactSurface,
                    schema_id: Some("urn:kanban-tool:schema:api:delete-attachment-path:v1"),
                    artifact_path: Some("api/delete-attachment-path.v1.schema.json"),
                    schema_title: Some("Kanban API delete attachment path v1"),
                    valid_fixture: Some("schemas/fixtures/api/delete-attachment-path.v1.valid.json"),
                    invalid_fixture: Some("schemas/fixtures/api/delete-attachment-path.v1.invalid.json"),
                    exclusion: None,
                    producer: Some(AdoptionLocator {
                        package: "kanban-server",
                        test_target: "lib",
                        exact_test: "http::operations::contract_adoption::suite_comments_and_attachments_adoption_uses_real_router_fixtures",
                    }),
                    consumer: Some(AdoptionLocator {
                        package: "kanban-server",
                        test_target: "lib",
                        exact_test: "http::operations::contract_adoption::suite_comments_and_attachments_adoption_uses_real_router_fixtures",
                    }),
                },
                ContractDeclaration {
                    id: "api.delete-attachment.headers",
                    path: "DELETE /api/v1/tasks/:task_id/attachments/:attachment_id headers",
                    operation: None,
                    location: Some(HttpTransportLocation::Headers),
                    operation_key: None,
                    parameters: &[
                        WireParameter {
                            name: "Accept-Language",
                            cardinality: Some(WireParameterCardinality::OptionalOne),
                        },
                        WireParameter {
                            name: "X-KB-Actor",
                            cardinality: Some(WireParameterCardinality::OptionalOne),
                        },
                    ],
                    direction: ContractDirection::Deserialize,
                    strictness: ContractStrictness::DenyUnknownFields,
                    granularity: ContractGranularity::Exact,
                    binding: ContractBinding::ExactSurface,
                    schema_id: Some("urn:kanban-tool:schema:api:delete-attachment-headers:v1"),
                    artifact_path: Some("api/delete-attachment-headers.v1.schema.json"),
                    schema_title: Some("Kanban api.delete-attachment request headers v1"),
                    valid_fixture: Some("schemas/fixtures/api/headers/locale-actor-headers.v1.valid.json"),
                    invalid_fixture: Some("schemas/fixtures/api/headers/locale-actor-headers.v1.invalid.json"),
                    exclusion: None,
                    producer: Some(AdoptionLocator {
                        package: "kanban-server",
                        test_target: "lib",
                        exact_test: "knowledge_adoption::locale_actor_header_fixture_is_consumed_by_real_router",
                    }),
                    consumer: Some(AdoptionLocator {
                        package: "kanban-server",
                        test_target: "lib",
                        exact_test: "knowledge_adoption::locale_actor_header_fixture_is_consumed_by_real_router",
                    }),
                },
                ContractDeclaration {
                    id: "api.delete-attachment.response",
                    path: "DELETE /api/v1/tasks/:task_id/attachments/:attachment_id success",
                    operation: None,
                    location: Some(HttpTransportLocation::Success),
                    operation_key: None,
                    parameters: &[],
                    direction: ContractDirection::Serialize,
                    strictness: ContractStrictness::DenyUnknownFields,
                    granularity: ContractGranularity::Exact,
                    binding: ContractBinding::ExactSurface,
                    schema_id: Some("urn:kanban-tool:schema:api:delete-attachment-response:v1"),
                    artifact_path: Some("api/delete-attachment-response.v1.schema.json"),
                    schema_title: Some("Kanban API delete attachment response v1"),
                    valid_fixture: Some("schemas/fixtures/api/delete-attachment-response.v1.valid.json"),
                    invalid_fixture: Some("schemas/fixtures/api/delete-attachment-response.v1.invalid.json"),
                    exclusion: None,
                    producer: Some(AdoptionLocator {
                        package: "kanban-server",
                        test_target: "lib",
                        exact_test: "http::operations::contract_adoption::suite_comments_and_attachments_adoption_uses_real_router_fixtures",
                    }),
                    consumer: Some(AdoptionLocator {
                        package: "kanban-server",
                        test_target: "lib",
                        exact_test: "http::operations::contract_adoption::suite_comments_and_attachments_adoption_uses_real_router_fixtures",
                    }),
                },
            ],
        },
        OperationDeclaration {
            operation_id: "api.list-events",
            surface: ContractSurface::Api,
            method: Some(HttpMethod::Get),
            path: Some("/api/v1/events"),
            operation: "GET /api/v1/events",
            key: "GET /api/v1/events",
            migration: MigrationState::Adopted,
            exclusion: None,
            shared_components: &[],
            header_profile: Some(ApiHeaderProfile::Locale),
            mcp_policy: Some(McpPolicy {
                exposure: McpExposure::Domain,
                tool_bindings: &[
                    McpToolBinding {
                        tool_name: "event_list",
                        http_operations: &[
                            "api.list-tasks",
                            "api.list-events",
                        ],
                    },
                ],
                invariants: &[
                    McpOperationInvariant::CanonicalHostOnly,
                    McpOperationInvariant::SharedApplicationService,
                    McpOperationInvariant::NoHostAdminSurface,
                ],
            }),
            obligation_overrides: &[],
            contracts: &[
                ContractDeclaration {
                    id: "api.list-events.query",
                    path: "GET /api/v1/events query",
                    operation: None,
                    location: Some(HttpTransportLocation::Query),
                    operation_key: None,
                    parameters: &[
                        WireParameter {
                            name: "board",
                            cardinality: Some(WireParameterCardinality::OptionalOne),
                        },
                        WireParameter {
                            name: "task_id",
                            cardinality: Some(WireParameterCardinality::OptionalOne),
                        },
                        WireParameter {
                            name: "after",
                            cardinality: Some(WireParameterCardinality::OptionalOne),
                        },
                        WireParameter {
                            name: "limit",
                            cardinality: Some(WireParameterCardinality::OptionalOne),
                        },
                    ],
                    direction: ContractDirection::Deserialize,
                    strictness: ContractStrictness::DenyUnknownFields,
                    granularity: ContractGranularity::Exact,
                    binding: ContractBinding::ExactSurface,
                    schema_id: Some("urn:kanban-tool:schema:api:list-events-query:v1"),
                    artifact_path: Some("api/list-events-query.v1.schema.json"),
                    schema_title: Some("Kanban list events query v1"),
                    valid_fixture: Some("schemas/fixtures/api/list-events-query.v1.valid.json"),
                    invalid_fixture: Some("schemas/fixtures/api/list-events-query.v1.invalid.json"),
                    exclusion: None,
                    producer: Some(AdoptionLocator {
                        package: "kanban-server",
                        test_target: "lib",
                        exact_test: "http::operations::contract_adoption::suite_events_sse_and_stats_adoption_use_query_fixtures",
                    }),
                    consumer: Some(AdoptionLocator {
                        package: "kanban-server",
                        test_target: "lib",
                        exact_test: "http::operations::contract_adoption::suite_events_sse_and_stats_adoption_use_query_fixtures",
                    }),
                },
                ContractDeclaration {
                    id: "api.list-events.headers",
                    path: "GET /api/v1/events headers",
                    operation: None,
                    location: Some(HttpTransportLocation::Headers),
                    operation_key: None,
                    parameters: &[
                        WireParameter {
                            name: "Accept-Language",
                            cardinality: Some(WireParameterCardinality::OptionalOne),
                        },
                    ],
                    direction: ContractDirection::Deserialize,
                    strictness: ContractStrictness::DenyUnknownFields,
                    granularity: ContractGranularity::Exact,
                    binding: ContractBinding::ExactSurface,
                    schema_id: Some("urn:kanban-tool:schema:api:list-events-headers:v1"),
                    artifact_path: Some("api/list-events-headers.v1.schema.json"),
                    schema_title: Some("Kanban api.list-events request headers v1"),
                    valid_fixture: Some("schemas/fixtures/api/headers/locale-headers.v1.valid.json"),
                    invalid_fixture: Some("schemas/fixtures/api/headers/locale-headers.v1.invalid.json"),
                    exclusion: None,
                    producer: Some(AdoptionLocator {
                        package: "kanban-server",
                        test_target: "lib",
                        exact_test: "knowledge_adoption::locale_header_fixture_is_consumed_by_real_router",
                    }),
                    consumer: Some(AdoptionLocator {
                        package: "kanban-server",
                        test_target: "lib",
                        exact_test: "knowledge_adoption::locale_header_fixture_is_consumed_by_real_router",
                    }),
                },
                ContractDeclaration {
                    id: "api.list-events.response",
                    path: "GET /api/v1/events response",
                    operation: None,
                    location: Some(HttpTransportLocation::Success),
                    operation_key: None,
                    parameters: &[],
                    direction: ContractDirection::Serialize,
                    strictness: ContractStrictness::DenyUnknownFields,
                    granularity: ContractGranularity::Exact,
                    binding: ContractBinding::ExactSurface,
                    schema_id: Some("urn:kanban-tool:schema:api:list-events-response:v1"),
                    artifact_path: Some("api/list-events-response.v1.schema.json"),
                    schema_title: Some("Kanban API list events response v1"),
                    valid_fixture: Some("schemas/fixtures/api/list-events-response.v1.valid.json"),
                    invalid_fixture: Some("schemas/fixtures/api/list-events-response.v1.invalid.json"),
                    exclusion: None,
                    producer: Some(AdoptionLocator {
                        package: "kanban-server",
                        test_target: "lib",
                        exact_test: "http::operations::contract_adoption::suite_events_sse_and_stats_adoption_use_query_fixtures",
                    }),
                    consumer: Some(AdoptionLocator {
                        package: "kanban-server",
                        test_target: "lib",
                        exact_test: "http::operations::contract_adoption::suite_events_sse_and_stats_adoption_use_query_fixtures",
                    }),
                },
            ],
        },
        OperationDeclaration {
            operation_id: "sse.stream-events",
            surface: ContractSurface::Sse,
            method: Some(HttpMethod::Get),
            path: Some("/api/v1/stream/events"),
            operation: "GET /api/v1/stream/events",
            key: "GET /api/v1/stream/events",
            migration: MigrationState::Adopted,
            exclusion: None,
            shared_components: &[],
            header_profile: None,
            mcp_policy: None,
            obligation_overrides: &[
                (EndpointObligationKind::Headers, EndpointObligation::Excluded {
                    reason: "V1 finite snapshot intentionally ignores Last-Event-ID; after query owns the cursor",
                }),
            ],
            contracts: &[
                ContractDeclaration {
                    id: "sse.stream-events.query",
                    path: "GET /api/v1/stream/events query",
                    operation: None,
                    location: Some(HttpTransportLocation::Query),
                    operation_key: None,
                    parameters: &[
                        WireParameter {
                            name: "board",
                            cardinality: Some(WireParameterCardinality::OptionalOne),
                        },
                        WireParameter {
                            name: "task_id",
                            cardinality: Some(WireParameterCardinality::OptionalOne),
                        },
                        WireParameter {
                            name: "after",
                            cardinality: Some(WireParameterCardinality::OptionalOne),
                        },
                        WireParameter {
                            name: "limit",
                            cardinality: Some(WireParameterCardinality::OptionalOne),
                        },
                    ],
                    direction: ContractDirection::Deserialize,
                    strictness: ContractStrictness::DenyUnknownFields,
                    granularity: ContractGranularity::Exact,
                    binding: ContractBinding::ExactSurface,
                    schema_id: Some("urn:kanban-tool:schema:sse:stream-events-query:v1"),
                    artifact_path: Some("sse/stream-events-query.v1.schema.json"),
                    schema_title: Some("Kanban SSE stream events query v1"),
                    valid_fixture: Some("schemas/fixtures/sse/stream-events-query.v1.valid.json"),
                    invalid_fixture: Some("schemas/fixtures/sse/stream-events-query.v1.invalid.json"),
                    exclusion: None,
                    producer: Some(AdoptionLocator {
                        package: "kanban-server",
                        test_target: "lib",
                        exact_test: "http::operations::contract_adoption::suite_events_sse_and_stats_adoption_use_query_fixtures",
                    }),
                    consumer: Some(AdoptionLocator {
                        package: "kanban-server",
                        test_target: "lib",
                        exact_test: "http::operations::contract_adoption::suite_events_sse_and_stats_adoption_use_query_fixtures",
                    }),
                },
                ContractDeclaration {
                    id: "sse.event.data",
                    path: "GET /api/v1/stream/events data",
                    operation: None,
                    location: Some(HttpTransportLocation::Sse),
                    operation_key: None,
                    parameters: &[],
                    direction: ContractDirection::Serialize,
                    strictness: ContractStrictness::DenyUnknownFields,
                    granularity: ContractGranularity::Exact,
                    binding: ContractBinding::ExactSurface,
                    schema_id: Some("urn:kanban-tool:schema:sse:stream-event-data:v1"),
                    artifact_path: Some("sse/stream-event-data.v1.schema.json"),
                    schema_title: Some("Kanban SSE stream event data v1"),
                    valid_fixture: Some("schemas/fixtures/sse/stream-event-data.v1.valid.json"),
                    invalid_fixture: Some("schemas/fixtures/sse/stream-event-data.v1.invalid.json"),
                    exclusion: None,
                    producer: Some(AdoptionLocator {
                        package: "kanban-server",
                        test_target: "lib",
                        exact_test: "http::operations::contract_adoption::suite_events_sse_and_stats_adoption_use_query_fixtures",
                    }),
                    consumer: Some(AdoptionLocator {
                        package: "kanban-server",
                        test_target: "lib",
                        exact_test: "http::operations::contract_adoption::suite_events_sse_and_stats_adoption_use_query_fixtures",
                    }),
                },
            ],
        },
    ]
}

/// Every API or SSE operation of the catalog names a method and a path, and every
/// child that declares a schema declares its full metadata.
pub proof fn lemma_history_operations_ready()
    ensures
        endpoints_ready(history_operations()),
        schemas_ready(history_operations()),
{
    reveal(history_operations);
    let ops = history_operations();
    assert forall|i: int| 0 <= i < ops.len() && is_http_surface(#[trigger] ops[i].surface) implies endpoint_ready(ops[i]) by {
        if i == 0 {
        } else if i == 1 {
        } else if i == 2 {
        } else if i == 3 {
        } else if i == 4 {
        } else if i == 5 {
        } else if i == 6 {
        } else if i == 7 {
        } else if i == 8 {
        } else if i == 9 {
        } else if i == 10 {
        }
    }
    assert forall|i: int, j: int| 0 <= i < ops.len() && 0 <= j < ops[i].contracts@.len() implies schema_ready(#[trigger] ops[i].contracts@[j]) by {
        if i == 0 {
            if j == 0 {
            } else if j == 1 {
            } else if j == 2 {
            }
        } else if i == 1 {
            if j == 0 {
            } else if j == 1 {
            } else if j == 2 {
            }
        } else if i == 2 {
            if j == 0 {
            } else if j == 1 {
            } else if j == 2 {
            }
        } else if i == 3 {
            if j == 0 {
            } else if j == 1 {
            } else if j == 2 {
            }
        } else if i == 4 {
            if j == 0 {
            } else if j == 1 {
            } else if j == 2 {
            } else if j == 3 {
            }
        } else if i == 5 {
            if j == 0 {
            } else if j == 1 {
            } else if j == 2 {
            }
        } else if i == 6 {
            if j == 0 {
            } else if j == 1 {
            } else if j == 2 {
            } else if j == 3 {
            }
        } else if i == 7 {
            if j == 0 {
            } else if j == 1 {
            } else if j == 2 {
            }
        } else if i == 8 {
            if j == 0 {
            } else if j == 1 {
            } else if j == 2 {
            }
        } else if i == 9 {
            if j == 0 {
            } else if j == 1 {
            } else if j == 2 {
            }
        } else if i == 10 {
            if j == 0 {
            } else if j == 1 {
            }
        }
    }
}

/// The operation declarations of this catalog, in source order.
pub fn operation_declarations() -> (r: Vec<OperationDeclaration>)
    ensures
        r@ == history_operations(),
{
    reveal(history_operations);
    vec![
        OperationDeclaration {
            operation_id: "api.list-runs",
            surface: ContractSurface::Api,
            method: Some(HttpMethod::Get),
            path: Some("/api/v1/tasks/:task_id/runs"),
            operation: "GET /api/v1/tasks/:task_id/runs",
            key: "GET /api/v1/tasks/:task_id/runs",
            migration: MigrationState::Adopted,
            exclusion: None,
            shared_components: &[
                "api.error.response",
            ],
            header_profile: Some(ApiHeaderProfile::Locale),
            mcp_policy: Some(McpPolicy {
                exposure: McpExposure::Domain,
                tool_bindings: &[
                    McpToolBinding {
                        tool_name: "run_list",
                        http_operations: &[
                            "api.list-tasks",
                            "api.list-runs",
                        ],
                    },
                ],
                invariants: &[
                    McpOperationInvariant::CanonicalHostOnly,
                    McpOperationInvariant::SharedApplicationService,
                    McpOperationInvariant::NoHostAdminSurface,
                ],
            }),
            obligation_overrides: &[],
            contracts: &[
                ContractDeclaration {
                    id: "api.list-runs.path",
                    path: "GET /api/v1/tasks/:task_id/runs path",
                    operation: None,
                    location: Some(HttpTransportLocation::Path),
                    operation_key: None,
                    parameters: &[
                        WireParameter {
                            name: "task_id",
                            cardinality: Some(WireParameterCardinality::RequiredOne),
                        },
                    ],
                    direction: ContractDirection::Deserialize,
                    strictness: ContractStrictness::DenyUnknownFields,
                    granularity: ContractGranularity::Exact,
                    binding: ContractBinding::ExactSurface,
                    schema_id: Some("urn:kanban-tool:schema:api:list-runs-path:v1"),
                    artifact_path: Some("api/list-runs-path.v1.schema.json"),
                    schema_title: Some("Kanban list runs path v1"),
                    valid_fixture: Some("schemas/fixtures/api/list-runs-path.v1.valid.json"),
                    invalid_fixture: Some("schemas/fixtures/api/list-runs-path.v1.invalid.json"),
                    exclusion: None,
                    producer: Some(AdoptionLocator {
                        package: "kanban-server",
                        test_target: "lib",
                        exact_test: "http::operations::contract_adoption::suite_runs_and_logs_adoption_uses_real_router_paths_and_fixtures",
                    }),
                    consumer: Some(AdoptionLocator {
                        package: "kanban-server",
                        test_target: "lib",
                        exact_test: "http::operations::contract_adoption::suite_runs_and_logs_adoption_uses_real_router_paths_and_fixtures",
                    }),
                },
                ContractDeclaration {
                    id: "api.list-runs.headers",
                    path: "GET /api/v1/tasks/:task_id/runs headers",
                    operation: None,
                    location: Some(HttpTransportLocation::Headers),
                    operation_key: None,
                    parameters: &[
                        WireParameter {
                            name: "Accept-Language",
                            cardinality: Some(WireParameterCardinality::OptionalOne),
                        },
                    ],
                    direction: ContractDirection::Deserialize,
                    strictness: ContractStrictness::DenyUnknownFields,
                    granularity: ContractGranularity::Exact,
                    binding: ContractBinding::ExactSurface,
                    schema_id: Some("urn:kanban-tool:schema:api:list-runs-headers:v1"),
                    artifact_path: Some("api/list-runs-headers.v1.schema.json"),
                    schema_title: Some("Kanban api.list-runs request headers v1"),
                    valid_fixture: Some("schemas/fixtures/api/headers/locale-headers.v1.valid.json"),
                    invalid_fixture: Some("schemas/fixtures/api/headers/locale-headers.v1.invalid.json"),
                    exclusion: None,
                    producer: Some(AdoptionLocator {
                        package: "kanban-server",
                        test_target: "lib",
                        exact_test: "knowledge_adoption::locale_header_fixture_is_consumed_by_real_router",
                    }),
                    consumer: Some(AdoptionLocator {
                        package: "kanban-server",
                        test_target: "lib",
                        exact_test: "knowledge_adoption::locale_header_fixture_is_consumed_by_real_router",
                    }),
                },
                ContractDeclaration {
                    id: "api.list-runs.response",
                    path: "GET /api/v1/tasks/:task_id/runs response",
                    operation: None,
                    location: Some(HttpTransportLocation::Success),
                    operation_key: None,
                    parameters: &[],
                    direction: ContractDirection::Serialize,
                    strictness: ContractStrictness::DenyUnknownFields,
                    granularity: ContractGranularity::Exact,
                    binding: ContractBinding::ExactSurface,
                    schema_id: Some("urn:kanban-tool:schema:api:list-runs-response:v1"),
                    artifact_path: Some("api/list-runs-response.v1.schema.json"),
                    schema_title: Some("Kanban list runs response v1"),
                    valid_fixture: Some("schemas/fixtures/api/list-runs-response.v1.valid.json"),
                    invalid_fixture: Some("schemas/fixtures/api/list-runs-response.v1.invalid.json"),
                    exclusion: None,
                    producer: Some(AdoptionLocator {
                        package: "kanban-server",
                        test_target: "lib",
                        exact_test: "http::operations::contract_adoption::suite_runs_and_logs_adoption_uses_real_router_paths_and_fixtures",
                    }),
                    consumer: Some(AdoptionLocator {
                        package: "kanban-server",
                        test_target: "lib",
                        exact_test: "http::operations::contract_adoption::suite_runs_and_logs_adoption_uses_real_router_paths_and_fixtures",
                    }),
                },
            ],
        },
        OperationDeclaration {
            operation_id: "api.get-run",
            surface: ContractSurface::Api,
            method: Some(HttpMethod::Get),
            path: Some("/api/v1/runs/:run_id"),
            operation: "GET /api/v1/runs/:run_id",
            key: "GET /api/v1/runs/:run_id",
            migration: MigrationState::Adopted,
            exclusion: None,
            shared_components: &[
                "api.error.response",
            ],
            header_profile: Some(ApiHeaderProfile::Locale),
            mcp_policy: Some(McpPolicy {
                exposure: McpExposure::Domain,
                tool_bindings: &[
                    McpToolBinding {
                        tool_name: "run_show",
                        http_operations: &[
                            "api.get-run",
                        ],
                    },
                ],
                invariants: &[
                    McpOperationInvariant::CanonicalHostOnly,
                    McpOperationInvariant::SharedApplicationService,
                    McpOperationInvariant::NoHostAdminSurface,
                ],
            }),
            obligation_overrides: &[],
            contracts: &[
                ContractDeclaration {
                    id: "api.get-run.path",
                    path: "GET /api/v1/runs/:run_id path",
                    operation: None,
                    location: Some(HttpTransportLocation::Path),
                    operation_key: None,
                    parameters: &[
                        WireParameter {
                            name: "run_id",
                            cardinality: Some(WireParameterCardinality::RequiredOne),
                        },
                    ],
                    direction: ContractDirection::Deserialize,
                    strictness: ContractStrictness::DenyUnknownFields,
                    granularity: ContractGranularity::Exact,
                    binding: ContractBinding::ExactSurface,
                    schema_id: Some("urn:kanban-tool:schema:api:get-run-path:v1"),
                    artifact_path: Some("api/get-run-path.v1.schema.json"),
                    schema_title: Some("Kanban get run path v1"),
                    valid_fixture: Some("schemas/fixtures/api/get-run-path.v1.valid.json"),
                    invalid_fixture: Some("schemas/fixtures/api/get-run-path.v1.invalid.json"),
                    exclusion: None,
                    producer: Some(AdoptionLocator {
                        package: "kanban-server",
                        test_target: "lib",
                        exact_test: "http::operations::contract_adoption::suite_runs_and_logs_adoption_uses_real_router_paths_and_fixtures",
                    }),
                    consumer: Some(AdoptionLocator {
                        package: "kanban-server",
                        test_target: "lib",
                        exact_test: "http::operations::contract_adoption::suite_runs_and_logs_adoption_uses_real_router_paths_and_fixtures",
                    }),
                },
                ContractDeclaration {
                    id: "api.get-run.headers",
                    path: "GET /api/v1/runs/:run_id headers",
                    operation: None,
                    location: Some(HttpTransportLocation::Headers),
                    operation_key: None,
                    parameters: &[
                        WireParameter {
                            name: "Accept-Language",
                            cardinality: Some(WireParameterCardinality::OptionalOne),
                        },
                    ],
                    direction: ContractDirection::Deserialize,
                    strictness: ContractStrictness::DenyUnknownFields,
                    granularity: ContractGranularity::Exact,
                    binding: ContractBinding::ExactSurface,
                    schema_id: Some("urn:kanban-tool:schema:api:get-run-headers:v1"),
                    artifact_path: Some("api/get-run-headers.v1.schema.json"),
                    schema_title: Some("Kanban api.get-run request headers v1"),
                    valid_fixture: Some("schemas/fixtures/api/headers/locale-headers.v1.valid.json"),
                    invalid_fixture: Some("schemas/fixtures/api/headers/locale-headers.v1.invalid.json"),
                    exclusion: None,
                    producer: Some(AdoptionLocator {
                        package: "kanban-server",
                        test_target: "lib",
                        exact_test: "knowledge_adoption::locale_header_fixture_is_consumed_by_real_router",
                    }),
                    consumer: Some(AdoptionLocator {
                        package: "kanban-server",
                        test_target: "lib",
                        exact_test: "knowledge_adoption::locale_header_fixture_is_consumed_by_real_router",
                    }),
                },
                ContractDeclaration {
                    id: "api.get-run.response",
                    path: "GET /api/v1/runs/:run_id response",
                    operation: None,
                    location: Some(HttpTransportLocation::Success),
                    operation_key: None,
                    parameters: &[],
                    direction: ContractDirection::Serialize,
                    strictness: ContractStrictness::DenyUnknownFields,
                    granularity: ContractGranularity::Exact,
                    binding: ContractBinding::ExactSurface,
                    schema_id: Some("urn:kanban-tool:schema:api:get-run-response:v1"),
                    artifact_path: Some("api/get-run-response.v1.schema.json"),
                    schema_title: Some("Kanban get run response v1"),
                    valid_fixture: Some("schemas/fixtures/api/get-run-response.v1.valid.json"),
                    invalid_fixture: Some("schemas/fixtures/api/get-run-response.v1.invalid.json"),
                    exclusion: None,
                    producer: Some(AdoptionLocator {
                        package: "kanban-server",
                        test_target: "lib",
                        exact_test: "http::operations::contract_adoption::suite_runs_and_logs_adoption_uses_real_router_paths_and_fixtures",
                    }),
                    consumer: Some(AdoptionLocator {
                        package: "kanban-server",
                        test_target: "lib",
                        exact_test: "http::operations::contract_adoption::suite_runs_and_logs_adoption_uses_real_router_paths_and_fixtures",
                    }),
                },
            ],
        },
        OperationDeclaration {
            operation_id: "api.get-run-log",
            surface: ContractSurface::Api,
            method: Some(HttpMethod::Get),
            path: Some("/api/v1/runs/:run_id/log"),
            operation: "GET /api/v1/runs/:run_id/log",
            key: "GET /api/v1/runs/:run_id/log",
            migration: MigrationState::Adopted,
            exclusion: None,
            shared_components: &[],
            header_profile: Some(ApiHeaderProfile::Locale),
            mcp_policy: Some(McpPolicy {
                exposure: McpExposure::Domain,
                tool_bindings: &[
                    McpToolBinding {
                        tool_name: "run_log",
                        http_operations: &[
                            "api.get-run-log",
                        ],
                    },
                ],
                invariants: &[
                    McpOperationInvariant::CanonicalHostOnly,
                    McpOperationInvariant::SharedApplicationService,
                    McpOperationInvariant::NoHostAdminSurface,
                ],
            }),
            obligation_overrides: &[],
            contracts: &[
                ContractDeclaration {
                    id: "api.get-run-log.path",
                    path: "GET /api/v1/runs/:run_id/log path",
                    operation: None,
                    location: Some(HttpTransportLocation::Path),
                    operation_key: None,
                    parameters: &[
                        WireParameter {
                            name: "run_id",
                            cardinality: Some(WireParameterCardinality::RequiredOne),
                        },
                    ],
                    direction: ContractDirection::Deserialize,
                    strictness: ContractStrictness::DenyUnknownFields,
                    granularity: ContractGranularity::Exact,
                    binding: ContractBinding::ExactSurface,
                    schema_id: Some("urn:kanban-tool:schema:api:get-run-log-path:v1"),
                    artifact_path: Some("api/get-run-log-path.v1.schema.json"),
                    schema_title: Some("Kanban API get run log path v1"),
                    valid_fixture: Some("schemas/fixtures/api/get-run-log-path.v1.valid.json"),
                    invalid_fixture: Some("schemas/fixtures/api/get-run-log-path.v1.invalid.json"),
                    exclusion: None,
                    producer: Some(AdoptionLocator {
                        package: "kanban-server",
                        test_target: "lib",
                        exact_test: "http::operations::contract_adoption::suite_runs_and_logs_adoption_uses_real_router_paths_and_fixtures",
                    }),
                    consumer: Some(AdoptionLocator {
                        package: "kanban-server",
                        test_target: "lib",
                        exact_test: "http::operations::contract_adoption::suite_runs_and_logs_adoption_uses_real_router_paths_and_fixtures",
                    }),
                },
                ContractDeclaration {
                    id: "api.get-run-log.headers",
                    path: "GET /api/v1/runs/:run_id/log headers",
                    operation: None,
                    location: Some(HttpTransportLocation::Headers),
                    operation_key: None,
                    parameters: &[
                        WireParameter {
                            name: "Accept-Language",
                            cardinality: Some(WireParameterCardinality::OptionalOne),
                        },
                    ],
                    direction: ContractDirection::Deserialize,
                    strictness: ContractStrictness::DenyUnknownFields,
                    granularity: ContractGranularity::Exact,
                    binding: ContractBinding::ExactSurface,
                    schema_id: Some("urn:kanban-tool:schema:api:get-run-log-headers:v1"),
                    artifact_path: Some("api/get-run-log-headers.v1.schema.json"),
                    schema_title: Some("Kanban api.get-run-log request headers v1"),
                    valid_fixture: Some("schemas/fixtures/api/headers/locale-headers.v1.valid.json"),
                    invalid_fixture: Some("schemas/fixtures/api/headers/locale-headers.v1.invalid.json"),
                    exclusion: None,
                    producer: Some(AdoptionLocator {
                        package: "kanban-server",
                        test_target: "lib",
                        exact_test: "knowledge_adoption::locale_header_fixture_is_consumed_by_real_router",
                    }),
                    consumer: Some(AdoptionLocator {
                        package: "kanban-server",
                        test_target: "lib",
                        exact_test: "knowledge_adoption::locale_header_fixture_is_consumed_by_real_router",
                    }),
                },
                ContractDeclaration {
                    id: "api.get-run-log.response",
                    path: "GET /api/v1/runs/:run_id/log response",
                    operation: None,
                    location: Some(HttpTransportLocation::Success),
                    operation_key: None,
                    parameters: &[],
                    direction: ContractDirection::Serialize,
                    strictness: ContractStrictness::DenyUnknownFields,
                    granularity: ContractGranularity::Exact,
                    binding: ContractBinding::ExactSurface,
                    schema_id: Some("urn:kanban-tool:schema:api:get-run-log-response:v1"),
                    artifact_path: Some("api/get-run-log-response.v1.schema.json"),
                    schema_title: Some("Kanban API get run log response v1"),
                    valid_fixture: Some("schemas/fixtures/api/get-run-log-response.v1.valid.json"),
                    invalid_fixture: Some("schemas/fixtures/api/get-run-log-response.v1.invalid.json"),
                    exclusion: None,
                    producer: Some(AdoptionLocator {
                        package: "kanban-server",
                        test_target: "lib",
                        exact_test: "http::operations::contract_adoption::suite_runs_and_logs_adoption_uses_real_router_paths_and_fixtures",
                    }),
                    consumer: Some(AdoptionLocator {
                        package: "kanban-server",
                        test_target: "lib",
                        exact_test: "http::operations::contract_adoption::suite_runs_and_logs_adoption_uses_real_router_paths_and_fixtures",
                    }),
                },
            ],
        },
        OperationDeclaration {
            operation_id: "api.list-comments",
            surface: ContractSurface::Api,
            method: Some(HttpMethod::Get),
            path: Some("/api/v1/tasks/:task_id/comments"),
            operation: "GET /api/v1/tasks/:task_id/comments",
            key: "GET /api/v1/tasks/:task_id/comments",
            migration: MigrationState::Adopted,
            exclusion: None,
            shared_components: &[
                "api.error.response",
            ],
            header_profile: Some(ApiHeaderProfile::Locale),
            mcp_policy: Some(McpPolicy {
                exposure: McpExposure::Domain,
                tool_bindings: &[
                    McpToolBinding {
                        tool_name: "comment_list",
                        http_operations: &[
                            "api.list-tasks",
                            "api.list-comments",
                        ],
                    },
                ],
                invariants: &[
                    McpOperationInvariant::CanonicalHostOnly,
                    McpOperationInvariant::SharedApplicationService,
                    McpOperationInvariant::NoHostAdminSurface,
                ],
            }),
            obligation_overrides: &[],
            contracts: &[
                ContractDeclaration {
                    id: "api.list-comments.path",
                    path: "GET /api/v1/tasks/:task_id/comments path",
                    operation: None,
                    location: Some(HttpTransportLocation::Path),
                    operation_key: None,
                    parameters: &[
                        WireParameter {
                            name: "task_id",
                            cardinality: Some(WireParameterCardinality::RequiredOne),
                        },
                    ],
                    direction: ContractDirection::Deserialize,
                    strictness: ContractStrictness::DenyUnknownFields,
                    granularity: ContractGranularity::Exact,
                    binding: ContractBinding::ExactSurface,
                    schema_id: Some("urn:kanban-tool:schema:api:list-comments-path:v1"),
                    artifact_path: Some("api/list-comments-path.v1.schema.json"),
                    schema_title: Some("Kanban list comments path v1"),
                    valid_fixture: Some("schemas/fixtures/api/list-comments-path.v1.valid.json"),
                    invalid_fixture: Some("schemas/fixtures/api/list-comments-path.v1.invalid.json"),
                    exclusion: None,
                    producer: Some(AdoptionLocator {
                        package: "kanban-server",
                        test_target: "lib",
                        exact_test: "http::operations::contract_adoption::suite_comments_and_attachments_adoption_uses_real_router_fixtures",
                    }),
                    consumer: Some(AdoptionLocator {
                        package: "kanban-server",
                        test_target: "lib",
                        exact_test: "http::operations::contract_adoption::suite_comments_and_attachments_adoption_uses_real_router_fixtures",
                    }),
                },
                ContractDeclaration {
                    id: "api.list-comments.headers",
                    path: "GET /api/v1/tasks/:task_id/comments headers",
                    operation: None,
                    location: Some(HttpTransportLocation::Headers),
                    operation_key: None,
                    parameters: &[
                        WireParameter {
                            name: "Accept-Language",
                            cardinality: Some(WireParameterCardinality::OptionalOne),
                        },
                    ],
                    direction: ContractDirection::Deserialize,
                    strictness: ContractStrictness::DenyUnknownFields,
                    granularity: ContractGranularity::Exact,
                    binding: ContractBinding::ExactSurface,
                    schema_id: Some("urn:kanban-tool:schema:api:list-comments-headers:v1"),
                    artifact_path: Some("api/list-comments-headers.v1.schema.json"),
                    schema_title: Some("Kanban api.list-comments request headers v1"),
                    valid_fixture: Some("schemas/fixtures/api/headers/locale-headers.v1.valid.json"),
                    invalid_fixture: Some("schemas/fixtures/api/headers/locale-headers.v1.invalid.json"),
                    exclusion: None,
                    producer: Some(AdoptionLocator {
                        package: "kanban-server",
                        test_target: "lib",
                        exact_test: "knowledge_adoption::locale_header_fixture_is_consumed_by_real_router",
                    }),
                    consumer: Some(AdoptionLocator {
                        package: "kanban-server",
                        test_target: "lib",
                        exact_test: "knowledge_adoption::locale_header_fixture_is_consumed_by_real_router",
                    }),
                },
                ContractDeclaration {
                    id: "api.list-comments.response",
                    path: "GET /api/v1/tasks/:task_id/comments response",
                    operation: None,
                    location: Some(HttpTransportLocation::Success),
                    operation_key: None,
                    parameters: &[],
                    direction: ContractDirection::Serialize,
                    strictness: ContractStrictness::DenyUnknownFields,
                    granularity: ContractGranularity::Exact,
                    binding: ContractBinding::ExactSurface,
                    schema_id: Some("urn:kanban-tool:schema:api:list-comments-response:v1"),
                    artifact_path: Some("api/list-comments-response.v1.schema.json"),
                    schema_title: Some("Kanban list comments response v1"),
                    valid_fixture: Some("schemas/fixtures/api/list-comments-response.v1.valid.json"),
                    invalid_fixture: Some("schemas/fixtures/api/list-comments-response.v1.invalid.json"),
                    exclusion: None,
                    producer: Some(AdoptionLocator {
                        package: "kanban-server",
                        test_target: "lib",
                        exact_test: "http::operations::contract_adoption::suite_comments_and_attachments_adoption_uses_real_router_fixtures",
                    }),
                    consumer: Some(AdoptionLocator {
                        package: "kanban-server",
                        test_target: "lib",
                        exact_test: "http::operations::contract_adoption::suite_comments_and_attachments_adoption_uses_real_router_fixtures",
                    }),
                },
            ],
        },
        OperationDeclaration {
            operation_id: "api.create-comment",
            surface: ContractSurface::Api,
            method: Some(HttpMethod::Post),
            path: Some("/api/v1/tasks/:task_id/comments"),
            operation: "POST /api/v1/tasks/:task_id/comments",
            key: "POST /api/v1/tasks/:task_id/comments",
            migration: MigrationState::Adopted,
            exclusion: None,
            shared_components: &[
                "api.error.response",
            ],
            header_profile: Some(ApiHeaderProfile::LocaleActorJson),
            mcp_policy: Some(McpPolicy {
                exposure: McpExposure::Domain,
                tool_bindings: &[
                    McpToolBinding {
                        tool_name: "comment_create",
                        http_operations: &[
                            "api.list-tasks",
                            "api.create-comment",
                        ],
                    },
                ],
                invariants: &[
                    McpOperationInvariant::CanonicalHostOnly,
                    McpOperationInvariant::SharedApplicationService,
                    McpOperationInvariant::NoHostAdminSurface,
                ],
            }),
            obligation_overrides: &[],
            contracts: &[
                ContractDeclaration {
                    id: "api.create-comment.path",
                    path: "POST /api/v1/tasks/:task_id/comments path",
                    operation: None,
                    location: Some(HttpTransportLocation::Path),
                    operation_key: None,
                    parameters: &[
                        WireParameter {
                            name: "task_id",
                            cardinality: Some(WireParameterCardinality::RequiredOne),
                        },
                    ],
                    direction: ContractDirection::Deserialize,
                    strictness: ContractStrictness::DenyUnknownFields,
                    granularity: ContractGranularity::Exact,
                    binding: ContractBinding::ExactSurface,
                    schema_id: Some("urn:kanban-tool:schema:api:create-comment-path:v1"),
                    artifact_path: Some("api/create-comment-path.v1.schema.json"),
                    schema_title: Some("Kanban create comment path v1"),
                    valid_fixture: Some("schemas/fixtures/api/create-comment-path.v1.valid.json"),
                    invalid_fixture: Some("schemas/fixtures/api/create-comment-path.v1.invalid.json"),
                    exclusion: None,
                    producer: Some(AdoptionLocator {
                        package: "kanban-server",
                        test_target: "lib",
                        exact_test: "http::operations::contract_adoption::suite_comments_and_attachments_adoption_uses_real_router_fixtures",
                    }),
                    consumer: Some(AdoptionLocator {
                        package: "kanban-server",
                        test_target: "lib",
                        exact_test: "http::operations::contract_adoption::suite_comments_and_attachments_adoption_uses_real_router_fixtures",
                    }),
                },
                ContractDeclaration {
                    id: "api.create-comment.headers",
                    path: "POST /api/v1/tasks/:task_id/comments headers",
                    operation: None,
                    location: Some(HttpTransportLocation::Headers),
                    operation_key: None,
                    parameters: &[
                        WireParameter {
                            name: "Accept-Language",
                            cardinality: Some(WireParameterCardinality::OptionalOne),
                        },
                        WireParameter {
                            name: "X-KB-Actor",
                            cardinality: Some(WireParameterCardinality::OptionalOne),
                        },
                        WireParameter {
                            name: "Content-Type",
                            cardinality: Some(WireParameterCardinality::RequiredOne),
                        },
                    ],
                    direction: ContractDirection::Deserialize,
                    strictness: ContractStrictness::DenyUnknownFields,
                    granularity: ContractGranularity::Exact,
                    binding: ContractBinding::ExactSurface,
                    schema_id: Some("urn:kanban-tool:schema:api:create-comment-headers:v1"),
                    artifact_path: Some("api/create-comment-headers.v1.schema.json"),
                    schema_title: Some("Kanban api.create-comment request headers v1"),
                    valid_fixture: Some("schemas/fixtures/api/headers/locale-actor-json-headers.v1.valid.json"),
                    invalid_fixture: Some("schemas/fixtures/api/headers/locale-actor-json-headers.v1.invalid.json"),
                    exclusion: None,
                    producer: Some(AdoptionLocator {
                        package: "kanban-server",
                        test_target: "lib",
                        exact_test: "knowledge_adoption::locale_actor_json_header_fixture_is_consumed_by_real_router",
                    }),
                    consumer: Some(AdoptionLocator {
                        package: "kanban-server",
                        test_target: "lib",
                        exact_test: "knowledge_adoption::locale_actor_json_header_fixture_is_consumed_by_real_router",
                    }),
                },
                ContractDeclaration {
                    id: "api.create-comment.request",
                    path: "POST /api/v1/tasks/:task_id/comments request",
                    operation: None,
                    location: Some(HttpTransportLocation::Body),
                    operation_key: None,
                    parameters: &[],
                    direction: ContractDirection::Deserialize,
                    strictness: ContractStrictness::DenyUnknownFields,
                    granularity: ContractGranularity::Exact,
                    binding: ContractBinding::ExactSurface,
                    schema_id: Some("urn:kanban-tool:schema:api:create-comment-request:v1"),
                    artifact_path: Some("api/create-comment-request.v1.schema.json"),
                    schema_title: Some("Kanban create comment request v1"),
                    valid_fixture: Some("schemas/fixtures/api/create-comment-request.v1.valid.json"),
                    invalid_fixture: Some("schemas/fixtures/api/create-comment-request.v1.invalid.json"),
                    exclusion: None,
                    producer: Some(AdoptionLocator {
                        package: "kanban-server",
                        test_target: "lib",
                        exact_test: "http::operations::contract_adoption::suite_comments_and_attachments_adoption_uses_real_router_fixtures",
                    }),
                    consumer: Some(AdoptionLocator {
                        package: "kanban-server",
                        test_target: "lib",
                        exact_test: "http::operations::contract_adoption::suite_comments_and_attachments_adoption_uses_real_router_fixtures",
                    }),
                },
                ContractDeclaration {
                    id: "api.create-comment.response",
                    path: "POST /api/v1/tasks/:task_id/comments response",
                    operation: None,
                    location: Some(HttpTransportLocation::Success),
                    operation_key: None,
                    parameters: &[],
                    direction: ContractDirection::Serialize,
                    strictness: ContractStrictness::DenyUnknownFields,
                    granularity: ContractGranularity::Exact,
                    binding: ContractBinding::ExactSurface,
                    schema_id: Some("urn:kanban-tool:schema:api:create-comment-response:v1"),
                    artifact_path: Some("api/create-comment-response.v1.schema.json"),
                    schema_title: Some("Kanban create comment response v1"),
                    valid_fixture: Some("schemas/fixtures/api/create-comment-response.v1.valid.json"),
                    invalid_fixture: Some("schemas/fixtures/api/create-comment-response.v1.invalid.json"),
                    exclusion: None,
                    producer: Some(AdoptionLocator {
                        package: "kanban-server",
                        test_target: "lib",
                        exact_test: "http::operations::contract_adoption::suite_comments_and_attachments_adoption_uses_real_router_fixtures",
                    }),
                    consumer: Some(AdoptionLocator {
                        package: "kanban-server",
                        test_target: "lib",
                        exact_test: "http::operations::contract_adoption::suite_comments_and_attachments_adoption_uses_real_router_fixtures",
                    }),
                },
            ],
        },
        OperationDeclaration {
            operation_id: "api.list-attachments",
            surface: ContractSurface::Api,
            method: Some(HttpMethod::Get),
            path: Some("/api/v1/tasks/:task_id/attachments"),
            operation: "GET /api/v1/tasks/:task_id/attachments",
            key: "GET /api/v1/tasks/:task_id/attachments",
            migration: MigrationState::Adopted,
            exclusion: None,
            shared_components: &[],
            header_profile: Some(ApiHeaderProfile::Locale),
            mcp_policy: Some(McpPolicy {
                exposure: McpExposure::Domain,
                tool_bindings: &[
                    McpToolBinding {
                        tool_name: "attachment_list",
                        http_operations: &[
                            "api.list-tasks",
                            "api.list-attachments",
                        ],
                    },
                ],
                invariants: &[
                    McpOperationInvariant::CanonicalHostOnly,
                    McpOperationInvariant::SharedApplicationService,
                    McpOperationInvariant::NoHostAdminSurface,
                ],
            }),
            obligation_overrides: &[],
            contracts: &[
                ContractDeclaration {
                    id: "api.list-attachments.path",
                    path: "GET /api/v1/tasks/:task_id/attachments path",
                    operation: None,
                    location: Some(HttpTransportLocation::Path),
                    operation_key: None,
                    parameters: &[
                        WireParameter {
                            name: "task_id",
                            cardinality: Some(WireParameterCardinality::RequiredOne),
                        },
                    ],
                    direction: ContractDirection::Deserialize,
                    strictness: ContractStrictness::DenyUnknownFields,
                    granularity: ContractGranularity::Exact,
                    binding: ContractBinding::ExactSurface,
                    schema_id: Some("urn:kanban-tool:schema:api:list-attachments-path:v1"),
                    artifact_path: Some("api/list-attachments-path.v1.schema.json"),
                    schema_title: Some("Kanban API list attachments path v1"),
                    valid_fixture: Some("schemas/fixtures/api/list-attachments-path.v1.valid.json"),
                    invalid_fixture: Some("schemas/fixtures/api/list-attachments-path.v1.invalid.json"),
                    exclusion: None,
                    producer: Some(AdoptionLocator {
                        package: "kanban-server",
                        test_target: "lib",
                        exact_test: "http::operations::contract_adoption::suite_comments_and_attachments_adoption_uses_real_router_fixtures",
                    }),
                    consumer: Some(AdoptionLocator {
                        package: "kanban-server",
                        test_target: "lib",
                        exact_test: "http::operations::contract_adoption::suite_comments_and_attachments_adoption_uses_real_router_fixtures",
                    }),
                },
                ContractDeclaration {
                    id: "api.list-attachments.headers",
                    path: "GET /api/v1/tasks/:task_id/attachments headers",
                    operation: None,
                    location: Some(HttpTransportLocation::Headers),
                    operation_key: None,
                    parameters: &[
                        WireParameter {
                            name: "Accept-Language",
                            cardinality: Some(WireParameterCardinality::OptionalOne),
                        },
                    ],
                    direction: ContractDirection::Deserialize,
                    strictness: ContractStrictness::DenyUnknownFields,
                    granularity: ContractGranularity::Exact,
                    binding: ContractBinding::ExactSurface,
                    schema_id: Some("urn:kanban-tool:schema:api:list-attachments-headers:v1"),
                    artifact_path: Some("api/list-attachments-headers.v1.schema.json"),
                    schema_title: Some("Kanban api.list-attachments request headers v1"),
                    valid_fixture: Some("schemas/fixtures/api/headers/locale-headers.v1.valid.json"),
                    invalid_fixture: Some("schemas/fixtures/api/headers/locale-headers.v1.invalid.json"),
                    exclusion: None,
                    producer: Some(AdoptionLocator {
                        package: "kanban-server",
                        test_target: "lib",
                        exact_test: "knowledge_adoption::locale_header_fixture_is_consumed_by_real_router",
                    }),
                    consumer: Some(AdoptionLocator {
                        package: "kanban-server",
                        test_target: "lib",
                        exact_test: "knowledge_adoption::locale_header_fixture_is_consumed_by_real_router",
                    }),
                },
                ContractDeclaration {
                    id: "api.list-attachments.response",
                    path: "GET /api/v1/tasks/:task_id/attachments success",
                    operation: None,
                    location: Some(HttpTransportLocation::Success),
                    operation_key: None,
                    parameters: &[],
                    direction: ContractDirection::Serialize,
                    strictness: ContractStrictness::DenyUnknownFields,
                    granularity: ContractGranularity::Exact,
                    binding: ContractBinding::ExactSurface,
                    schema_id: Some("urn:kanban-tool:schema:api:list-attachments-response:v1"),
                    artifact_path: Some("api/list-attachments-response.v1.schema.json"),
                    schema_title: Some("Kanban API list attachments response v1"),
                    valid_fixture: Some("schemas/fixtures/api/list-attachments-response.v1.valid.json"),
                    invalid_fixture: Some("schemas/fixtures/api/list-attachments-response.v1.invalid.json"),
                    exclusion: None,
                    producer: Some(AdoptionLocator {
                        package: "kanban-server",
                        test_target: "lib",
                        exact_test: "http::operations::contract_adoption::suite_comments_and_attachments_adoption_uses_real_router_fixtures",
                    }),
                    consumer: Some(AdoptionLocator {
                        package: "kanban-server",
                        test_target: "lib",
                        exact_test: "http::operations::contract_adoption::suite_comments_and_attachments_adoption_uses_real_router_fixtures",
                    }),
                },
            ],
        },
        OperationDeclaration {
            operation_id: "api.create-attachment",
            surface: ContractSurface::Api,
            method: Some(HttpMethod::Post),
            path: Some("/api/v1/tasks/:task_id/attachments"),
            operation: "POST /api/v1/tasks/:task_id/attachments",
            key: "POST /api/v1/tasks/:task_id/attachments",
            migration: MigrationState::Adopted,
            exclusion: None,
            shared_components: &[],
            header_profile: Some(ApiHeaderProfile::LocaleActorJson),
            mcp_policy: Some(McpPolicy {
                exposure: McpExposure::Domain,
                tool_bindings: &[
                    McpToolBinding {
                        tool_name: "attachment_create",
                        http_operations: &[
                            "api.list-tasks",
                            "api.create-attachment",
                        ],
                    },
                ],
                invariants: &[
                    McpOperationInvariant::CanonicalHostOnly,
                    McpOperationInvariant::SharedApplicationService,
                    McpOperationInvariant::NoHostAdminSurface,
                ],
            }),
            obligation_overrides: &[],
            contracts: &[
                ContractDeclaration {
                    id: "api.create-attachment.path",
                    path: "POST /api/v1/tasks/:task_id/attachments path",
                    operation: None,
                    location: Some(HttpTransportLocation::Path),
                    operation_key: None,
                    parameters: &[
                        WireParameter {
                            name: "task_id",
                            cardinality: Some(WireParameterCardinality::RequiredOne),
                        },
                    ],
                    direction: ContractDirection::Deserialize,
                    strictness: ContractStrictness::DenyUnknownFields,
                    granularity: ContractGranularity::Exact,
                    binding: ContractBinding::ExactSurface,
                    schema_id: Some("urn:kanban-tool:schema:api:create-attachment-path:v1"),
                    artifact_path: Some("api/create-attachment-path.v1.schema.json"),
                    schema_title: Some("Kanban API create attachment path v1"),
                    valid_fixture: Some("schemas/fixtures/api/create-attachment-path.v1.valid.json"),
                    invalid_fixture: Some("schemas/fixtures/api/create-attachment-path.v1.invalid.json"),
                    exclusion: None,
                    producer: Some(AdoptionLocator {
                        package: "kanban-server",
                        test_target: "lib",
                        exact_test: "http::operations::contract_adoption::suite_comments_and_attachments_adoption_uses_real_router_fixtures",
                    }),
                    consumer: Some(AdoptionLocator {
                        package: "kanban-server",
                        test_target: "lib",
                        exact_test: "http::operations::contract_adoption::suite_comments_and_attachments_adoption_uses_real_router_fixtures",
                    }),
                },
                ContractDeclaration {
                    id: "api.create-attachment.headers",
                    path: "POST /api/v1/tasks/:task_id/attachments headers",
                    operation: None,
                    location: Some(HttpTransportLocation::Headers),
                    operation_key: None,
                    parameters: &[
                        WireParameter {
                            name: "Accept-Language",
                            cardinality: Some(WireParameterCardinality::OptionalOne),
                        },
                        WireParameter {
                            name: "X-KB-Actor",
                            cardinality: Some(WireParameterCardinality::OptionalOne),
                        },
                        WireParameter {
                            name: "Content-Type",
                            cardinality: Some(WireParameterCardinality::RequiredOne),
                        },
                    ],
                    direction: ContractDirection::Deserialize,
                    strictness: ContractStrictness::DenyUnknownFields,
                    granularity: ContractGranularity::Exact,
                    binding: ContractBinding::ExactSurface,
                    schema_id: Some("urn:kanban-tool:schema:api:create-attachment-headers:v1"),
                    artifact_path: Some("api/create-attachment-headers.v1.schema.json"),
                    schema_title: Some("Kanban api.create-attachment request headers v1"),
                    valid_fixture: Some("schemas/fixtures/api/headers/locale-actor-json-headers.v1.valid.json"),
                    invalid_fixture: Some("schemas/fixtures/api/headers/locale-actor-json-headers.v1.invalid.json"),
                    exclusion: None,
                    producer: Some(AdoptionLocator {
                        package: "kanban-server",
                        test_target: "lib",
                        exact_test: "knowledge_adoption::locale_actor_json_header_fixture_is_consumed_by_real_router",
                    }),
                    consumer: Some(AdoptionLocator {
                        package: "kanban-server",
                        test_target: "lib",
                        exact_test: "knowledge_adoption::locale_actor_json_header_fixture_is_consumed_by_real_router",
                    }),
                },
                ContractDeclaration {
                    id: "api.create-attachment.request",
                    path: "POST /api/v1/tasks/:task_id/attachments body",
                    operation: None,
                    location: Some(HttpTransportLocation::Body),
                    operation_key: None,
                    parameters: &[],
                    direction: ContractDirection::Deserialize,
                    strictness: ContractStrictness::DenyUnknownFields,
                    granularity: ContractGranularity::Exact,
                    binding: ContractBinding::ExactSurface,
                    schema_id: Some("urn:kanban-tool:schema:api:create-attachment-request:v1"),
                    artifact_path: Some("api/create-attachment-request.v1.schema.json"),
                    schema_title: Some("Kanban API create attachment request v1"),
                    valid_fixture: Some("schemas/fixtures/api/create-attachment-request.v1.valid.json"),
                    invalid_fixture: Some("schemas/fixtures/api/create-attachment-request.v1.invalid.json"),
                    exclusion: None,
                    producer: Some(AdoptionLocator {
                        package: "kanban-server",
                        test_target: "lib",
                        exact_test: "http::operations::contract_adoption::suite_comments_and_attachments_adoption_uses_real_router_fixtures",
                    }),
                    consumer: Some(AdoptionLocator {
                        package: "kanban-server",
                        test_target: "lib",
                        exact_test: "http::operations::contract_adoption::suite_comments_and_attachments_adoption_uses_real_router_fixtures",
                    }),
                },
                ContractDeclaration {
                    id: "api.create-attachment.response",
                    path: "POST /api/v1/tasks/:task_id/attachments success",
                    operation: None,
                    location: Some(HttpTransportLocation::Success),
                    operation_key: None,
                    parameters: &[],
                    direction: ContractDirection::Serialize,
                    strictness: ContractStrictness::DenyUnknownFields,
                    granularity: ContractGranularity::Exact,
                    binding: ContractBinding::ExactSurface,
                    schema_id: Some("urn:kanban-tool:schema:api:create-attachment-response:v1"),
                    artifact_path: Some("api/create-attachment-response.v1.schema.json"),
                    schema_title: Some("Kanban API create attachment response v1"),
                    valid_fixture: Some("schemas/fixtures/api/create-attachment-response.v1.valid.json"),
                    invalid_fixture: Some("schemas/fixtures/api/create-attachment-response.v1.invalid.json"),
                    exclusion: None,
                    producer: Some(AdoptionLocator {
                        package: "kanban-server",
                        test_target: "lib",
                        exact_test: "http::operations::contract_adoption::suite_comments_and_attachments_adoption_uses_real_router_fixtures",
                    }),
                    consumer: Some(AdoptionLocator {
                        package: "kanban-server",
                        test_target: "lib",
                        exact_test: "http::operations::contract_adoption::suite_comments_and_attachments_adoption_uses_real_router_fixtures",
                    }),
                },
            ],
        },
        OperationDeclaration {
            operation_id: "api.download-attachment",
            surface: ContractSurface::Api,
            method: Some(HttpMethod::Get),
            path: Some("/api/v1/tasks/:task_id/attachments/:attachment_id"),
            operation: "GET /api/v1/tasks/:task_id/attachments/:attachment_id",
            key: "GET /api/v1/tasks/:task_id/attachments/:attachment_id",
            migration: MigrationState::Adopted,
            exclusion: None,
            shared_components: &[],
            header_profile: Some(ApiHeaderProfile::Locale),
            mcp_policy: Some(McpPolicy {
                exposure: McpExposure::Domain,
                tool_bindings: &[
                    McpToolBinding {
                        tool_name: "attachment_download",
                        http_operations: &[
                            "api.list-tasks",
                            "api.download-attachment",
                        ],
                    },
                ],
                invariants: &[
                    McpOperationInvariant::CanonicalHostOnly,
                    McpOperationInvariant::SharedApplicationService,
                    McpOperationInvariant::NoHostAdminSurface,
                ],
            }),
            obligation_overrides: &[],
            contracts: &[
                ContractDeclaration {
                    id: "api.download-attachment.path",
                    path: "GET /api/v1/tasks/:task_id/attachments/:attachment_id path",
                    operation: None,
                    location: Some(HttpTransportLocation::Path),
                    operation_key: None,
                    parameters: &[
                        WireParameter {
                            name: "task_id",
                            cardinality: Some(WireParameterCardinality::RequiredOne),
                        },
                        WireParameter {
                            name: "attachment_id",
                            cardinality: Some(WireParameterCardinality::RequiredOne),
                        },
                    ],
                    direction: ContractDirection::Deserialize,
                    strictness: ContractStrictness::DenyUnknownFields,
                    granularity: ContractGranularity::Exact,
                    binding: ContractBinding::ExactSurface,
                    schema_id: Some("urn:kanban-tool:schema:api:download-attachment-path:v1"),
                    artifact_path: Some("api/download-attachment-path.v1.schema.json"),
                    schema_title: Some("Kanban API download attachment path v1"),
                    valid_fixture: Some("schemas/fixtures/api/download-attachment-path.v1.valid.json"),
                    invalid_fixture: Some("schemas/fixtures/api/download-attachment-path.v1.invalid.json"),
                    exclusion: None,
                    producer: Some(AdoptionLocator {
                        package: "kanban-server",
                        test_target: "lib",
                        exact_test: "http::operations::contract_adoption::suite_comments_and_attachments_adoption_uses_real_router_fixtures",
                    }),
                    consumer: Some(AdoptionLocator {
                        package: "kanban-server",
                        test_target: "lib",
                        exact_test: "http::operations::contract_adoption::suite_comments_and_attachments_adoption_uses_real_router_fixtures",
                    }),
                },
                ContractDeclaration {
                    id: "api.download-attachment.headers",
                    path: "GET /api/v1/tasks/:task_id/attachments/:attachment_id headers",
                    operation: None,
                    location: Some(HttpTransportLocation::Headers),
                    operation_key: None,
                    parameters: &[
                        WireParameter {
                            name: "Accept-Language",
                            cardinality: Some(WireParameterCardinality::OptionalOne),
                        },
                    ],
                    direction: ContractDirection::Deserialize,
                    strictness: ContractStrictness::DenyUnknownFields,
                    granularity: ContractGranularity::Exact,
                    binding: ContractBinding::ExactSurface,
                    schema_id: Some("urn:kanban-tool:schema:api:download-attachment-headers:v1"),
                    artifact_path: Some("api/download-attachment-headers.v1.schema.json"),
                    schema_title: Some("Kanban api.download-attachment request headers v1"),
                    valid_fixture: Some("schemas/fixtures/api/headers/locale-headers.v1.valid.json"),
                    invalid_fixture: Some("schemas/fixtures/api/headers/locale-headers.v1.invalid.json"),
                    exclusion: None,
                    producer: Some(AdoptionLocator {
                        package: "kanban-server",
                        test_target: "lib",
                        exact_test: "knowledge_adoption::locale_header_fixture_is_consumed_by_real_router",
                    }),
                    consumer: Some(AdoptionLocator {
                        package: "kanban-server",
                        test_target: "lib",
                        exact_test: "knowledge_adoption::locale_header_fixture_is_consumed_by_real_router",
                    }),
                },
                ContractDeclaration {
                    id: "api.download-attachment.response",
                    path: "GET /api/v1/tasks/:task_id/attachments/:attachment_id success",
                    operation: None,
                    location: Some(HttpTransportLocation::Success),
                    operation_key: None,
                    parameters: &[],
                    direction: ContractDirection::Serialize,
                    strictness: ContractStrictness::DenyUnknownFields,
                    granularity: ContractGranularity::Exact,
                    binding: ContractBinding::ExactSurface,
                    schema_id: Some("urn:kanban-tool:schema:api:download-attachment-response:v1"),
                    artifact_path: Some("api/download-attachment-response.v1.schema.json"),
                    schema_title: Some("Kanban API download attachment bytes v1"),
                    valid_fixture: Some("schemas/fixtures/api/download-attachment-response.v1.valid.json"),
                    invalid_fixture: Some("schemas/fixtures/api/download-attachment-response.v1.invalid.json"),
                    exclusion: None,
                    producer: Some(AdoptionLocator {
                        package: "kanban-server",
                        test_target: "lib",
                        exact_test: "http::operations::contract_adoption::suite_comments_and_attachments_adoption_uses_real_router_fixtures",
                    }),
                    consumer: Some(AdoptionLocator {
                        package: "kanban-server",
                        test_target: "lib",
                        exact_test: "http::operations::contract_adoption::suite_comments_and_attachments_adoption_uses_real_router_fixtures",
                    }),
                },
            ],
        },
        OperationDeclaration {
            operation_id: "api.delete-attachment",
            surface: ContractSurface::Api,
            method: Some(HttpMethod::Delete),
            path: Some("/api/v1/tasks/:task_id/attachments/:attachment_id"),
            operation: "DELETE /api/v1/tasks/:task_id/attachments/:attachment_id",
            key: "DELETE /api/v1/tasks/:task_id/attachments/:attachment_id",
            migration: MigrationState::Adopted,
            exclusion: None,
            shared_components: &[],
            header_profile: Some(ApiHeaderProfile::LocaleActor),
            mcp_policy: Some(McpPolicy {
                exposure: McpExposure::Domain,
                tool_bindings: &[
                    McpToolBinding {
                        tool_name: "attachment_remove",
                        http_operations: &[
                            "api.list-tasks",
                            "api.delete-attachment",
                        ],
                    },
                ],
                invariants: &[
                    McpOperationInvariant::CanonicalHostOnly,
                    McpOperationInvariant::SharedApplicationService,
                    McpOperationInvariant::NoHostAdminSurface,
                ],
            }),
            obligation_overrides: &[],
            contracts: &[
                ContractDeclaration {
                    id: "api.delete-attachment.path",
                    path: "DELETE /api/v1/tasks/:task_id/attachments/:attachment_id path",
                    operation: None,
                    location: Some(HttpTransportLocation::Path),
                    operation_key: None,
                    parameters: &[
                        WireParameter {
                            name: "task_id",
                            cardinality: Some(WireParameterCardinality::RequiredOne),
                        },
                        WireParameter {
                            name: "attachment_id",
                            cardinality: Some(WireParameterCardinality::RequiredOne),
                        },
                    ],
                    direction: ContractDirection::Deserialize,
                    strictness: ContractStrictness::DenyUnknownFields,
                    granularity: ContractGranularity::Exact,
                    binding: ContractBinding::ExactSurface,
                    schema_id: Some("urn:kanban-tool:schema:api:delete-attachment-path:v1"),
                    artifact_path: Some("api/delete-attachment-path.v1.schema.json"),
                    schema_title: Some("Kanban API delete attachment path v1"),
                    valid_fixture: Some("schemas/fixtures/api/delete-attachment-path.v1.valid.json"),
                    invalid_fixture: Some("schemas/fixtures/api/delete-attachment-path.v1.invalid.json"),
                    exclusion: None,
                    producer: Some(AdoptionLocator {
                        package: "kanban-server",
                        test_target: "lib",
                        exact_test: "http::operations::contract_adoption::suite_comments_and_attachments_adoption_uses_real_router_fixtures",
                    }),
                    consumer: Some(AdoptionLocator {
                        package: "kanban-server",
                        test_target: "lib",
                        exact_test: "http::operations::contract_adoption::suite_comments_and_attachments_adoption_uses_real_router_fixtures",
                    }),
                },
                ContractDeclaration {
                    id: "api.delete-attachment.headers",
                    path: "DELETE /api/v1/tasks/:task_id/attachments/:attachment_id headers",
                    operation: None,
                    location: Some(HttpTransportLocation::Headers),
                    operation_key: None,
                    parameters: &[
                        WireParameter {
                            name: "Accept-Language",
                            cardinality: Some(WireParameterCardinality::OptionalOne),
                        },
                        WireParameter {
                            name: "X-KB-Actor",
                            cardinality: Some(WireParameterCardinality::OptionalOne),
                        },
                    ],
                    direction: ContractDirection::Deserialize,
                    strictness: ContractStrictness::DenyUnknownFields,
                    granularity: ContractGranularity::Exact,
                    binding: ContractBinding::ExactSurface,
                    schema_id: Some("urn:kanban-tool:schema:api:delete-attachment-headers:v1"),
                    artifact_path: Some("api/delete-attachment-headers.v1.schema.json"),
                    schema_title: Some("Kanban api.delete-attachment request headers v1"),
                    valid_fixture: Some("schemas/fixtures/api/headers/locale-actor-headers.v1.valid.json"),
                    invalid_fixture: Some("schemas/fixtures/api/headers/locale-actor-headers.v1.invalid.json"),
                    exclusion: None,
                    producer: Some(AdoptionLocator {
                        package: "kanban-server",
                        test_target: "lib",
                        exact_test: "knowledge_adoption::locale_actor_header_fixture_is_consumed_by_real_router",
                    }),
                    consumer: Some(AdoptionLocator {
                        package: "kanban-server",
                        test_target: "lib",
                        exact_test: "knowledge_adoption::locale_actor_header_fixture_is_consumed_by_real_router",
                    }),
                },
                ContractDeclaration {
                    id: "api.delete-attachment.response",
                    path: "DELETE /api/v1/tasks/:task_id/attachments/:attachment_id success",
                    operation: None,
                    location: Some(HttpTransportLocation::Success),
                    operation_key: None,
                    parameters: &[],
                    direction: ContractDirection::Serialize,
                    strictness: ContractStrictness::DenyUnknownFields,
                    granularity: ContractGranularity::Exact,
                    binding: ContractBinding::ExactSurface,
                    schema_id: Some("urn:kanban-tool:schema:api:delete-attachment-response:v1"),
                    artifact_path: Some("api/delete-attachment-response.v1.schema.json"),
                    schema_title: Some("Kanban API delete attachment response v1"),
                    valid_fixture: Some("schemas/fixtures/api/delete-attachment-response.v1.valid.json"),
                    invalid_fixture: Some("schemas/fixtures/api/delete-attachment-response.v1.invalid.json"),
                    exclusion: None,
                    producer: Some(AdoptionLocator {
                        package: "kanban-server",
                        test_target: "lib",
                        exact_test: "http::operations::contract_adoption::suite_comments_and_attachments_adoption_uses_real_router_fixtures",
                    }),
                    consumer: Some(AdoptionLocator {
                        package: "kanban-server",
                        test_target: "lib",
                        exact_test: "http::operations::contract_adoption::suite_comments_and_attachments_adoption_uses_real_router_fixtures",
                    }),
                },
            ],
        },
        OperationDeclaration {
            operation_id: "api.list-events",
            surface: ContractSurface::Api,
            method: Some(HttpMethod::Get),
            path: Some("/api/v1/events"),
            operation: "GET /api/v1/events",
            key: "GET /api/v1/events",
            migration: MigrationState::Adopted,
            exclusion: None,
            shared_components: &[],
            header_profile: Some(ApiHeaderProfile::Locale),
            mcp_policy: Some(McpPolicy {
                exposure: McpExposure::Domain,
                tool_bindings: &[
                    McpToolBinding {
                        tool_name: "event_list",
                        http_operations: &[
                            "api.list-tasks",
                            "api.list-events",
                        ],
                    },
                ],
                invariants: &[
                    McpOperationInvariant::CanonicalHostOnly,
                    McpOperationInvariant::SharedApplicationService,
                    McpOperationInvariant::NoHostAdminSurface,
                ],
            }),
            obligation_overrides: &[],
            contracts: &[
                ContractDeclaration {
                    id: "api.list-events.query",
                    path: "GET /api/v1/events query",
                    operation: None,
                    location: Some(HttpTransportLocation::Query),
                    operation_key: None,
                    parameters: &[
                        WireParameter {
                            name: "board",
                            cardinality: Some(WireParameterCardinality::OptionalOne),
                        },
                        WireParameter {
                            name: "task_id",
                            cardinality: Some(WireParameterCardinality::OptionalOne),
                        },
                        WireParameter {
                            name: "after",
                            cardinality: Some(WireParameterCardinality::OptionalOne),
                        },
                        WireParameter {
                            name: "limit",
                            cardinality: Some(WireParameterCardinality::OptionalOne),
                        },
                    ],
                    direction: ContractDirection::Deserialize,
                    strictness: ContractStrictness::DenyUnknownFields,
                    granularity: ContractGranularity::Exact,
                    binding: ContractBinding::ExactSurface,
                    schema_id: Some("urn:kanban-tool:schema:api:list-events-query:v1"),
                    artifact_path: Some("api/list-events-query.v1.schema.json"),
                    schema_title: Some("Kanban list events query v1"),
                    valid_fixture: Some("schemas/fixtures/api/list-events-query.v1.valid.json"),
                    invalid_fixture: Some("schemas/fixtures/api/list-events-query.v1.invalid.json"),
                    exclusion: None,
                    producer: Some(AdoptionLocator {
                        package: "kanban-server",
                        test_target: "lib",
                        exact_test: "http::operations::contract_adoption::suite_events_sse_and_stats_adoption_use_query_fixtures",
                    }),
                    consumer: Some(AdoptionLocator {
                        package: "kanban-server",
                        test_target: "lib",
                        exact_test: "http::operations::contract_adoption::suite_events_sse_and_stats_adoption_use_query_fixtures",
                    }),
                },
                ContractDeclaration {
                    id: "api.list-events.headers",
                    path: "GET /api/v1/events headers",
                    operation: None,
                    location: Some(HttpTransportLocation::Headers),
                    operation_key: None,
                    parameters: &[
                        WireParameter {
                            name: "Accept-Language",
                            cardinality: Some(WireParameterCardinality::OptionalOne),
                        },
                    ],
                    direction: ContractDirection::Deserialize,
                    strictness: ContractStrictness::DenyUnknownFields,
                    granularity: ContractGranularity::Exact,
                    binding: ContractBinding::ExactSurface,
                    schema_id: Some("urn:kanban-tool:schema:api:list-events-headers:v1"),
                    artifact_path: Some("api/list-events-headers.v1.schema.json"),
                    schema_title: Some("Kanban api.list-events request headers v1"),
                    valid_fixture: Some("schemas/fixtures/api/headers/locale-headers.v1.valid.json"),
                    invalid_fixture: Some("schemas/fixtures/api/headers/locale-headers.v1.invalid.json"),
                    exclusion: None,
                    producer: Some(AdoptionLocator {
                        package: "kanban-server",
                        test_target: "lib",
                        exact_test: "knowledge_adoption::locale_header_fixture_is_consumed_by_real_router",
                    }),
                    consumer: Some(AdoptionLocator {
                        package: "kanban-server",
                        test_target: "lib",
                        exact_test: "knowledge_adoption::locale_header_fixture_is_consumed_by_real_router",
                    }),
                },
                ContractDeclaration {
                    id: "api.list-events.response",
                    path: "GET /api/v1/events response",
                    operation: None,
                    location: Some(HttpTransportLocation::Success),
                    operation_key: None,
                    parameters: &[],
                    direction: ContractDirection::Serialize,
                    strictness: ContractStrictness::DenyUnknownFields,
                    granularity: ContractGranularity::Exact,
                    binding: ContractBinding::ExactSurface,
                    schema_id: Some("urn:kanban-tool:schema:api:list-events-response:v1"),
                    artifact_path: Some("api/list-events-response.v1.schema.json"),
                    schema_title: Some("Kanban API list events response v1"),
                    valid_fixture: Some("schemas/fixtures/api/list-events-response.v1.valid.json"),
                    invalid_fixture: Some("schemas/fixtures/api/list-events-response.v1.invalid.json"),
                    exclusion: None,
                    producer: Some(AdoptionLocator {
                        package: "kanban-server",
                        test_target: "lib",
                        exact_test: "http::operations::contract_adoption::suite_events_sse_and_stats_adoption_use_query_fixtures",
                    }),
                    consumer: Some(AdoptionLocator {
                        package: "kanban-server",
                        test_target: "lib",
                        exact_test: "http::operations::contract_adoption::suite_events_sse_and_stats_adoption_use_query_fixtures",
                    }),
                },
            ],
        },
        OperationDeclaration {
            operation_id: "sse.stream-events",
            surface: ContractSurface::Sse,
            method: Some(HttpMethod::Get),
            path: Some("/api/v1/stream/events"),
            operation: "GET /api/v1/stream/events",
            key: "GET /api/v1/stream/events",
            migration: MigrationState::Adopted,
            exclusion: None,
            shared_components: &[],
            header_profile: None,
            mcp_policy: None,
            obligation_overrides: &[
                (EndpointObligationKind::Headers, EndpointObligation::Excluded {
                    reason: "V1 finite snapshot intentionally ignores Last-Event-ID; after query owns the cursor",
                }),
            ],
            contracts: &[
                ContractDeclaration {
                    id: "sse.stream-events.query",
                    path: "GET /api/v1/stream/events query",
                    operation: None,
                    location: Some(HttpTransportLocation::Query),
                    operation_key: None,
                    parameters: &[
                        WireParameter {
                            name: "board",
                            cardinality: Some(WireParameterCardinality::OptionalOne),
                        },
                        WireParameter {
                            name: "task_id",
                            cardinality: Some(WireParameterCardinality::OptionalOne),
                        },
                        WireParameter {
                            name: "after",
                            cardinality: Some(WireParameterCardinality::OptionalOne),
                        },
                        WireParameter {
                            name: "limit",
                            cardinality: Some(WireParameterCardinality::OptionalOne),
                        },
                    ],
                    direction: ContractDirection::Deserialize,
                    strictness: ContractStrictness::DenyUnknownFields,
                    granularity: ContractGranularity::Exact,
                    binding: ContractBinding::ExactSurface,
                    schema_id: Some("urn:kanban-tool:schema:sse:stream-events-query:v1"),
                    artifact_path: Some("sse/stream-events-query.v1.schema.json"),
                    schema_title: Some("Kanban SSE stream events query v1"),
                    valid_fixture: Some("schemas/fixtures/sse/stream-events-query.v1.valid.json"),
                    invalid_fixture: Some("schemas/fixtures/sse/stream-events-query.v1.invalid.json"),
                    exclusion: None,
                    producer: Some(AdoptionLocator {
                        package: "kanban-server",
                        test_target: "lib",
                        exact_test: "http::operations::contract_adoption::suite_events_sse_and_stats_adoption_use_query_fixtures",
                    }),
                    consumer: Some(AdoptionLocator {
                        package: "kanban-server",
                        test_target: "lib",
                        exact_test: "http::operations::contract_adoption::suite_events_sse_and_stats_adoption_use_query_fixtures",
                    }),
                },
                ContractDeclaration {
                    id: "sse.event.data",
                    path: "GET /api/v1/stream/events data",
                    operation: None,
                    location: Some(HttpTransportLocation::Sse),
                    operation_key: None,
                    parameters: &[],
                    direction: ContractDirection::Serialize,
                    strictness: ContractStrictness::DenyUnknownFields,
                    granularity: ContractGranularity::Exact,
                    binding: ContractBinding::ExactSurface,
                    schema_id: Some("urn:kanban-tool:schema:sse:stream-event-data:v1"),
                    artifact_path: Some("sse/stream-event-data.v1.schema.json"),
                    schema_title: Some("Kanban SSE stream event data v1"),
                    valid_fixture: Some("schemas/fixtures/sse/stream-event-data.v1.valid.json"),
                    invalid_fixture: Some("schemas/fixtures/sse/stream-event-data.v1.invalid.json"),
                    exclusion: None,
                    producer: Some(AdoptionLocator {
                        package: "kanban-server",
                        test_target: "lib",
                        exact_test: "http::operations::contract_adoption::suite_events_sse_and_stats_adoption_use_query_fixtures",
                    }),
                    consumer: Some(AdoptionLocator {
                        package: "kanban-server",
                        test_target: "lib",
                        exact_test: "http::operations::contract_adoption::suite_events_sse_and_stats_adoption_use_query_fixtures",
                    }),
                },
            ],
        },
    ]
}

/// The inventory rows of the catalog, operation by operation.
pub fn operation_contracts() -> (r: Vec<OperationContract>)
    ensures
        r@ == catalog_contracts(history_operations()),
{
    let ops = operation_declarations();
    project_contracts(&ops)
}

/// The endpoint descriptors of the catalog's API and SSE operations.
pub fn endpoint_catalog() -> (r: Vec<EndpointDescriptor>)
    ensures
        r@ == catalog_endpoints(history_operations()),
{
    proof {
        lemma_history_operations_ready();
    }
    let ops = operation_declarations();
    project_endpoints(&ops)
}

/// The endpoint descriptor with the given operation id.
pub fn endpoint_descriptor(id: &str) -> (r: Option<EndpointDescriptor>)
    ensures
        match first_index(catalog_endpoints(history_operations()), has_endpoint_id(id@)) {
            Some(i) => r == Some(catalog_endpoints(history_operations())[i]),
            None => r is None,
        },
{
    let endpoints = endpoint_catalog();
    find_endpoint(&endpoints, id)
}

/// The surface rows of the catalog, one per operation.
pub fn surface_catalog() -> (r: Vec<SurfaceOperation>)
    ensures
        r@.len() == history_operations().len(),
        forall|i: int| 0 <= i < history_operations().len() ==> (#[trigger] r@[i])@ == projected_surface(history_operations()[i]),
{
    let ops = operation_declarations();
    project_surfaces(&ops)
}

/// The header profile declared on the operation with the given id.
pub fn header_profile(id: &str) -> (r: Option<ApiHeaderProfile>)
    ensures
        r == catalog_header_profile(history_operations(), id@),
{
    let ops = operation_declarations();
    lookup_header_profile(&ops, id)
}

/// The header contract row of the operation with the given id.
pub fn header_contract(id: &str) -> (r: Option<OperationContract>)
    ensures
        r == catalog_header_contract(history_operations(), id@),
{
    let ops = operation_declarations();
    lookup_header_contract(&ops, id)
}

/// The schema roots that the catalog's children declare.
pub fn schema_roots() -> (r: Vec<SchemaRoot>)
    ensures
        r@ == catalog_schemas(history_operations()),
{
    proof {
        lemma_history_operations_ready();
    }
    let ops = operation_declarations();
    project_schemas(&ops)
}

/// Whether some child of the catalog has the given id.
pub fn owns_contract(id: &str) -> (r: bool)
    ensures
        r == catalog_owns_contract(history_operations(), id@),
{
    let ops = operation_declarations();
    catalog_has_contract(&ops, id)
}

/// Whether some operation of the catalog has the given id.
pub fn owns_operation(id: &str) -> (r: bool)
    ensures
        r == catalog_owns_operation(history_operations(), id@),
{
    let ops = operation_declarations();
    catalog_has_operation(&ops, id)
}


/// The endpoint ids of this catalog, in order: those of its API and SSE operations.
pub proof fn lemma_history_endpoint_ids()
    ensures
        endpoint_ids(history_operations()) == seq![
            "api.list-runs"@,
            "api.get-run"@,
            "api.get-run-log"@,
            "api.list-comments"@,
            "api.create-comment"@,
            "api.list-attachments"@,
            "api.create-attachment"@,
            "api.download-attachment"@,
            "api.delete-attachment"@,
            "api.list-events"@,
            "sse.stream-events"@,
        ],
{
    reveal(history_operations);
    let ops = history_operations();
    assert forall|i: int| 0 <= i < 11 implies is_http_surface(#[trigger] ops[i].surface) by {
        if i == 0 {} else if i == 1 {} else if i == 2 {} else if i == 3 {} else if i == 4 {} else if i == 5 {} else if i == 6 {} else if i == 7 {} else if i == 8 {} else if i == 9 {} else if i == 10 {}
    }
    lemma_endpoint_ids_prefix(ops, 11);
    let ids: Seq<Seq<char>> = seq![
        "api.list-runs"@,
        "api.get-run"@,
        "api.get-run-log"@,
        "api.list-comments"@,
        "api.create-comment"@,
        "api.list-attachments"@,
        "api.create-attachment"@,
        "api.download-attachment"@,
        "api.delete-attachment"@,
        "api.list-events"@,
        "sse.stream-events"@,
    ];
    assert forall|i: int| 0 <= i < 11 implies ops.take(11).map_values(|o: OperationDeclaration| o.operation_id@)[i] == ids[i] by {
        if i == 0 {} else if i == 1 {} else if i == 2 {} else if i == 3 {} else if i == 4 {} else if i == 5 {} else if i == 6 {} else if i == 7 {} else if i == 8 {} else if i == 9 {} else if i == 10 {}
    }
    assert(ops.take(11).map_values(|o: OperationDeclaration| o.operation_id@) =~= ids);
}

} // verus!
