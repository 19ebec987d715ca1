//! Task dependency API operations.

use vstd::prelude::*;

use crate::contract_catalog::{
    endpoint_ids, lemma_endpoint_ids_prefix,
    catalog_contracts, catalog_endpoints, catalog_header_contract, catalog_header_profile,
    catalog_has_contract, catalog_has_operation, catalog_owns_contract, catalog_owns_operation,
    catalog_schemas, endpoint_ready, endpoints_ready, find_contract, find_endpoint, find_surface,
    has_contract_id, has_endpoint_id, has_surface_key, lookup_header_contract,
    lookup_header_profile, project_contracts, project_endpoints, project_schemas,
    project_surfaces, projected_surface, schema_ready, schemas_ready, ContractDeclaration,
    McpExposure, McpOperationInvariant, McpPolicy, McpToolBinding, OperationDeclaration,
    SchemaRoot, SurfaceOperation,
};
use crate::endpoint::{EndpointDescriptor, EndpointObligation, EndpointObligationKind, HttpMethod};
use crate::headers::ApiHeaderProfile;
use crate::inventory::{
    is_http_surface, AdoptionLocator, ContractBinding, ContractDirection, ContractGranularity,
    ContractStrictness, ContractSurface, ContractTransport, HttpTransportLocation, MigrationState,
    OperationContract, WireParameter, WireParameterCardinality,
};
use crate::seqs::first_index;
use crate::text::str_eq;

verus! {

/// The operations of this catalog, in source order.
#[verifier::opaque]
pub open spec fn dependency_operations() -> Seq<OperationDeclaration> {
    seq![
        OperationDeclaration {
            operation_id: "api.list-dependencies",
            surface: ContractSurface::Api,
            method: Some(HttpMethod::Get),
            path: Some("/api/v1/tasks/:task_id/dependencies"),
            operation: "GET /api/v1/tasks/:task_id/dependencies",
            key: "GET /api/v1/tasks/:task_id/dependencies",
            migration: MigrationState::Adopted,
            exclusion: None,
            shared_components: &[],
            header_profile: Some(ApiHeaderProfile::Locale),
            mcp_policy: Some(McpPolicy {
                exposure: McpExposure::Domain,
                tool_bindings: &[
                    McpToolBinding {
                        tool_name: "dependency_list",
                        http_operations: &[
                            "api.list-tasks",
                            "api.list-dependencies",
                        ],
                    },
                ],
                invariants: &[
                    McpOperationInvariant::CanonicalHostOnly,
                    McpOperationInvariant::SharedApplicationService,
                    McpOperationInvariant::NoHostAdminSurface,
                ],
            }),
            obligation_overrides: &[],
            contracts: &[
                ContractDeclaration {
                    id: "api.list-dependencies.path",
                    path: "GET /api/v1/tasks/:task_id/dependencies path",
                    operation: None,
                    location: Some(HttpTransportLocation::Path),
                    operation_key: None,
                    parameters: &[
                        WireParameter {
                            name: "task_id",
                            cardinality: Some(WireParameterCardinality::RequiredOne),
                        },
                    ],
                    direction: ContractDirection::Deserialize,
                    strictness: ContractStrictness::DenyUnknownFields,
                    granularity: ContractGranularity::Exact,
                    binding: ContractBinding::ExactSurface,
                    schema_id: Some("urn:kanban-tool:schema:api:list-dependencies-path:v1"),
                    artifact_path: Some("api/list-dependencies-path.v1.schema.json"),
                    schema_title: Some("Kanban API list dependencies path v1"),
                    valid_fixture: Some("schemas/fixtures/api/list-dependencies-path.v1.valid.json"),
                    invalid_fixture: Some("schemas/fixtures/api/list-dependencies-path.v1.invalid.json"),
                    exclusion: None,
                    producer: Some(AdoptionLocator {
                        package: "kanban-server",
                        test_target: "lib",
                        exact_test: "http::operations::contract_adoption::suite_dependencies_adoption_uses_path_body_and_response_fixtures",
                    }),
                    consumer: Some(AdoptionLocator {
                        package: "kanban-server",
                        test_target: "lib",
                        exact_test: "http::operations::contract_adoption::suite_dependencies_adoption_uses_path_body_and_response_fixtures",
                    }),
                },
                ContractDeclaration {
                    id: "api.list-dependencies.headers",
                    path: "GET /api/v1/tasks/:task_id/dependencies headers",
                    operation: None,
                    location: Some(HttpTransportLocation::Headers),
                    operation_key: None,
                    parameters: &[
                        WireParameter {
                            name: "Accept-Language",
                            cardinality: Some(WireParameterCardinality::OptionalOne),
                        },
                    ],
                    direction: ContractDirection::Deserialize,
                    strictness: ContractStrictness::DenyUnknownFields,
                    granularity: ContractGranularity::Exact,
                    binding: ContractBinding::ExactSurface,
                    schema_id: Some("urn:kanban-tool:schema:api:list-dependencies-headers:v1"),
                    artifact_path: Some("api/list-dependencies-headers.v1.schema.json"),
                    schema_title: Some("Kanban api.list-dependencies request headers v1"),
                    valid_fixture: Some("schemas/fixtures/api/headers/locale-headers.v1.valid.json"),
                    invalid_fixture: Some("schemas/fixtures/api/headers/locale-headers.v1.invalid.json"),
                    exclusion: None,
                    producer: Some(AdoptionLocator {
                        package: "kanban-server",
                        test_target: "lib",
                        exact_test: "knowledge_adoption::locale_header_fixture_is_consumed_by_real_router",
                    }),
                    consumer: Some(AdoptionLocator {
                        package: "kanban-server",
                        test_target: "lib",
                        exact_test: "knowledge_adoption::locale_header_fixture_is_consumed_by_real_router",
                    }),
                },
                ContractDeclaration {
                    id: "api.list-dependencies.response",
                    path: "GET /api/v1/tasks/:task_id/dependencies response",
                    operation: None,
                    location: Some(HttpTransportLocation::Success),
                    operation_key: None,
                    parameters: &[],
                    direction: ContractDirection::Serialize,
                    strictness: ContractStrictness::DenyUnknownFields,
                    granularity: ContractGranularity::Exact,
                    binding: ContractBinding::ExactSurface,
                    schema_id: Some("urn:kanban-tool:schema:api:list-dependencies-response:v1"),
                    artifact_path: Some("api/list-dependencies-response.v1.schema.json"),
                    schema_title: Some("Kanban API list dependencies response v1"),
                    valid_fixture: Some("schemas/fixtures/api/list-dependencies-response.v1.valid.json"),
                    invalid_fixture: Some("schemas/fixtures/api/list-dependencies-response.v1.invalid.json"),
                    exclusion: None,
                    producer: Some(AdoptionLocator {
                        package: "kanban-server",
                        test_target: "lib",
                        exact_test: "http::operations::contract_adoption::suite_dependencies_adoption_uses_path_body_and_response_fixtures",
                    }),
                    consumer: Some(AdoptionLocator {
                        package: "kanban-server",
                        test_target: "lib",
                        exact_test: "http::operations::contract_adoption::suite_dependencies_adoption_uses_path_body_and_response_fixtures",
                    }),
                },
            ],
        },
        OperationDeclaration {
            operation_id: "api.add-dependency",
            surface: ContractSurface::Api,
            method: Some(HttpMethod::Post),
            path: Some("/api/v1/tasks/:task_id/dependencies"),
            operation: "POST /api/v1/tasks/:task_id/dependencies",
            key: "POST /api/v1/tasks/:task_id/dependencies",
            migration: MigrationState::Adopted,
            exclusion: None,
            shared_components: &[],
            header_profile: Some(ApiHeaderProfile::LocaleActorJson),
            mcp_policy: Some(McpPolicy {
                exposure: McpExposure::Domain,
                tool_bindings: &[
                    McpToolBinding {
                        tool_name: "dependency_create",
                        http_operations: &[
                            "api.list-tasks",
                            "api.add-dependency",
                        ],
                    },
                ],
                invariants: &[
                    McpOperationInvariant::CanonicalHostOnly,
                    McpOperationInvariant::SharedApplicationService,
                    McpOperationInvariant::NoHostAdminSurface,
                ],
            }),
            obligation_overrides: &[],
            contracts: &[
                ContractDeclaration {
                    id: "api.add-dependency.path",
                    path: "POST /api/v1/tasks/:task_id/dependencies path",
                    operation: None,
                    location: Some(HttpTransportLocation::Path),
                    operation_key: None,
                    parameters: &[
                        WireParameter {
                            name: "task_id",
                            cardinality: Some(WireParameterCardinality::RequiredOne),
                        },
                    ],
                    direction: ContractDirection::Deserialize,
                    strictness: ContractStrictness::DenyUnknownFields,
                    granularity: ContractGranularity::Exact,
                    binding: ContractBinding::ExactSurface,
                    schema_id: Some("urn:kanban-tool:schema:api:add-dependency-path:v1"),
                    artifact_path: Some("api/add-dependency-path.v1.schema.json"),
                    schema_title: Some("Kanban API add dependency path v1"),
                    valid_fixture: Some("schemas/fixtures/api/add-dependency-path.v1.valid.json"),
                    invalid_fixture: Some("schemas/fixtures/api/add-dependency-path.v1.invalid.json"),
                    exclusion: None,
                    producer: Some(AdoptionLocator {
                        package: "kanban-server",
                        test_target: "lib",
                        exact_test: "http::operations::contract_adoption::suite_dependencies_adoption_uses_path_body_and_response_fixtures",
                    }),
                    consumer: Some(AdoptionLocator {
                        package: "kanban-server",
                        test_target: "lib",
                        exact_test: "http::operations::contract_adoption::suite_dependencies_adoption_uses_path_body_and_response_fixtures",
                    }),
                },
                ContractDeclaration {
                    id: "api.add-dependency.headers",
                    path: "POST /api/v1/tasks/:task_id/dependencies headers",
                    operation: None,
                    location: Some(HttpTransportLocation::Headers),
                    operation_key: None,
                    parameters: &[
                        WireParameter {
                            name: "Accept-Language",
                            cardinality: Some(WireParameterCardinality::OptionalOne),
                        },
                        WireParameter {
                            name: "X-KB-Actor",
                            cardinality: Some(WireParameterCardinality::OptionalOne),
                        },
                        WireParameter {
                            name: "Content-Type",
                            cardinality: Some(WireParameterCardinality::RequiredOne),
                        },
                    ],
                    direction: ContractDirection::Deserialize,
                    strictness: ContractStrictness::DenyUnknownFields,
                    granularity: ContractGranularity::Exact,
                    binding: ContractBinding::ExactSurface,
                    schema_id: Some("urn:kanban-tool:schema:api:add-dependency-headers:v1"),
                    artifact_path: Some("api/add-dependency-headers.v1.schema.json"),
                    schema_title: Some("Kanban api.add-dependency request headers v1"),
                    valid_fixture: Some("schemas/fixtures/api/headers/locale-actor-json-headers.v1.valid.json"),
                    invalid_fixture: Some("schemas/fixtures/api/headers/locale-actor-json-headers.v1.invalid.json"),
                    exclusion: None,
                    producer: Some(AdoptionLocator {
                        package: "kanban-server",
                        test_target: "lib",
                        exact_test: "knowledge_adoption::locale_actor_json_header_fixture_is_consumed_by_real_router",
                    }),
                    consumer: Some(AdoptionLocator {
                        package: "kanban-server",
                        test_target: "lib",
                        exact_test: "knowledge_adoption::locale_actor_json_header_fixture_is_consumed_by_real_router",
                    }),
                },
                ContractDeclaration {
                    id: "api.add-dependency.request",
                    path: "POST /api/v1/tasks/:task_id/dependencies",
                    operation: None,
                    location: Some(HttpTransportLocation::Body),
                    operation_key: None,
                    parameters: &[],
                    direction: ContractDirection::Deserialize,
                    strictness: ContractStrictness::DenyUnknownFields,
                    granularity: ContractGranularity::Exact,
                    binding: ContractBinding::ExactSurface,
                    schema_id: Some("urn:kanban-tool:schema:api:add-dependency-request:v1"),
                    artifact_path: Some("api/add-dependency-request.v1.schema.json"),
                    schema_title: Some("Kanban add dependency request v1"),
                    valid_fixture: Some("schemas/fixtures/api/add-dependency-request.v1.valid.json"),
                    invalid_fixture: Some("schemas/fixtures/api/add-dependency-request.v1.invalid.json"),
                    exclusion: None,
                    producer: Some(AdoptionLocator {
                        package: "kanban-server",
                        test_target: "lib",
                        exact_test: "http::operations::contract_adoption::suite_dependencies_adoption_uses_path_body_and_response_fixtures",
                    }),
                    consumer: Some(AdoptionLocator {
                        package: "kanban-server",
                        test_target: "lib",
                        exact_test: "http::operations::contract_adoption::suite_dependencies_adoption_uses_path_body_and_response_fixtures",
                    }),
                },
                ContractDeclaration {
                    id: "api.add-dependency.response",
                    path: "POST /api/v1/tasks/:task_id/dependencies response",
                    operation: None,
                    location: Some(HttpTransportLocation::Success),
                    operation_key: None,
                    parameters: &[],
                    direction: ContractDirection::Serialize,
                    strictness: ContractStrictness::DenyUnknownFields,
                    granularity: ContractGranularity::Exact,
                    binding: ContractBinding::ExactSurface,
                    schema_id: Some("urn:kanban-tool:schema:api:add-dependency-response:v1"),
                    artifact_path: Some("api/add-dependency-response.v1.schema.json"),
                    schema_title: Some("Kanban API add dependency response v1"),
                    valid_fixture: Some("schemas/fixtures/api/add-dependency-response.v1.valid.json"),
                    invalid_fixture: Some("schemas/fixtures/api/add-dependency-response.v1.invalid.json"),
                    exclusion: None,
                    producer: Some(AdoptionLocator {
                        package: "kanban-server",
                        test_target: "lib",
                        exact_test: "http::operations::contract_adoption::suite_dependencies_adoption_uses_path_body_and_response_fixtures",
                    }),
                    consumer: Some(AdoptionLocator {
                        package: "kanban-server",
                        test_target: "lib",
                        exact_test: "http::operations::contract_adoption::suite_dependencies_adoption_uses_path_body_and_response_fixtures",
                    }),
                },
            ],
        },
        OperationDeclaration {
            operation_id: "api.remove-dependency",
            surface: ContractSurface::Api,
            method: Some(HttpMethod::Delete),
            path: Some("/api/v1/tasks/:child_task_id/dependencies/:parent_task_id"),
            operation: "DELETE /api/v1/tasks/:child_task_id/dependencies/:parent_task_id",
            key: "DELETE /api/v1/tasks/:child_task_id/dependencies/:parent_task_id",
            migration: MigrationState::Adopted,
            exclusion: None,
            shared_components: &[],
            header_profile: Some(ApiHeaderProfile::LocaleActor),
            mcp_policy: Some(McpPolicy {
                exposure: McpExposure::Domain,
                tool_bindings: &[
                    McpToolBinding {
                        tool_name: "dependency_remove",
                        http_operations: &[
                            "api.list-tasks",
                            "api.remove-dependency",
                        ],
                    },
                ],
                invariants: &[
                    McpOperationInvariant::CanonicalHostOnly,
                    McpOperationInvariant::SharedApplicationService,
                    McpOperationInvariant::NoHostAdminSurface,
                ],
            }),
            obligation_overrides: &[],
            contracts: &[
                ContractDeclaration {
                    id: "api.remove-dependency.path",
                    path: "DELETE /api/v1/tasks/:child_task_id/dependencies/:parent_task_id path",
                    operation: None,
                    location: Some(HttpTransportLocation::Path),
                    operation_key: None,
                    parameters: &[
                        WireParameter {
                            name: "child_task_id",
                            cardinality: Some(WireParameterCardinality::RequiredOne),
                        },
                        WireParameter {
                            name: "parent_task_id",
                            cardinality: Some(WireParameterCardinality::RequiredOne),
                        },
                    ],
                    direction: ContractDirection::Deserialize,
                    strictness: ContractStrictness::DenyUnknownFields,
                    granularity: ContractGranularity::Exact,
                    binding: ContractBinding::ExactSurface,
                    schema_id: Some("urn:kanban-tool:schema:api:remove-dependency-path:v1"),
                    artifact_path: Some("api/remove-dependency-path.v1.schema.json"),
                    schema_title: Some("Kanban API remove dependency path v1"),
                    valid_fixture: Some("schemas/fixtures/api/remove-dependency-path.v1.valid.json"),
                    invalid_fixture: Some("schemas/fixtures/api/remove-dependency-path.v1.invalid.json"),
                    exclusion: None,
                    producer: Some(AdoptionLocator {
                        package: "kanban-server",
                        test_target: "lib",
                        exact_test: "http::operations::contract_adoption::suite_dependencies_adoption_uses_path_body_and_response_fixtures",
                    }),
                    consumer: Some(AdoptionLocator {
                        package: "kanban-server",
                        test_target: "lib",
                        exact_test: "http::operations::contract_adoption::suite_dependencies_adoption_uses_path_body_and_response_fixtures",
                    }),
                },
                ContractDeclaration {
                    id: "api.remove-dependency.headers",
                    path: "DELETE /api/v1/tasks/:child_task_id/dependencies/:parent_task_id headers",
                    operation: None,
                    location: Some(HttpTransportLocation::Headers),
                    operation_key: None,
                    parameters: &[
                        WireParameter {
                            name: "Accept-Language",
                            cardinality: Some(WireParameterCardinality::OptionalOne),
                        },
                        WireParameter {
                            name: "X-KB-Actor",
                            cardinality: Some(WireParameterCardinality::OptionalOne),
                        },
                    ],
                    direction: ContractDirection::Deserialize,
                    strictness: ContractStrictness::DenyUnknownFields,
                    granularity: ContractGranularity::Exact,
                    binding: ContractBinding::ExactSurface,
                    schema_id: Some("urn:kanban-tool:schema:api:remove-dependency-headers:v1"),
                    artifact_path: Some("api/remove-dependency-headers.v1.schema.json"),
                    schema_title: Some("Kanban api.remove-dependency request headers v1"),
                    valid_fixture: Some("schemas/fixtures/api/headers/locale-actor-headers.v1.valid.json"),
                    invalid_fixture: Some("schemas/fixtures/api/headers/locale-actor-headers.v1.invalid.json"),
                    exclusion: None,
                    producer: Some(AdoptionLocator {
                        package: "kanban-server",
                        test_target: "lib",
                        exact_test: "knowledge_adoption::locale_actor_header_fixture_is_consumed_by_real_router",
                    }),
                    consumer: Some(AdoptionLocator {
                        package: "kanban-server",
                        test_target: "lib",
                        exact_test: "knowledge_adoption::locale_actor_header_fixture_is_consumed_by_real_router",
                    }),
                },
                ContractDeclaration {
                    id: "api.remove-dependency.response",
                    path: "DELETE /api/v1/tasks/:child_task_id/dependencies/:parent_task_id response",
                    operation: None,
                    location: Some(HttpTransportLocation::Success),
                    operation_key: None,
                    parameters: &[],
                    direction: ContractDirection::Serialize,
                    strictness: ContractStrictness::DenyUnknownFields,
                    granularity: ContractGranularity::Exact,
                    binding: ContractBinding::ExactSurface,
                    schema_id: Some("urn:kanban-tool:schema:api:remove-dependency-response:v1"),
                    artifact_path: Some("api/remove-dependency-response.v1.schema.json"),
                    schema_title: Some("Kanban API remove dependency response v1"),
                    valid_fixture: Some("schemas/fixtures/api/remove-dependency-response.v1.valid.json"),
                    invalid_fixture: Some("schemas/fixtures/api/remove-dependency-response.v1.invalid.json"),
                    exclusion: None,
                    producer: Some(AdoptionLocator {
                        package: "kanban-server",
                        test_target: "lib",
                        exact_test: "http::operations::contract_adoption::suite_dependencies_adoption_uses_path_body_and_response_fixtures",
                    }),
                    consumer: Some(AdoptionLocator {
                        package: "kanban-server",
                        test_target: "lib",
                        exact_test: "http::operations::contract_adoption::suite_dependencies_adoption_uses_path_body_and_response_fixtures",
                    }),
                },
            ],
        },
    ]
}

/// Every API or SSE operation of the catalog names a method and a path, and every
/// child that declares a schema declares its full metadata.
pub proof fn lemma_dependency_operations_ready()
    ensures
        endpoints_ready(dependency_operations()),
        schemas_ready(dependency_operations()),
{
    reveal(dependency_operations);
    let ops = dependency_operations();
    assert forall|i: int| 0 <= i < ops.len() && is_http_surface(#[trigger] ops[i].surface) implies endpoint_ready(ops[i]) by {
        if i == 0 {
        } else if i == 1 {
        } else if i == 2 {
        }
    }
    assert forall|i: int, j: int| 0 <= i < ops.len() && 0 <= j < ops[i].contracts@.len() implies schema_ready(#[trigger] ops[i].contracts@[j]) by {
        if i == 0 {
            if j == 0 {
            } else if j == 1 {
            } else if j == 2 {
            }
        } else if i == 1 {
            if j == 0 {
            } else if j == 1 {
            } else if j == 2 {
            } else if j == 3 {
            }
        } else if i == 2 {
            if j == 0 {
            } else if j == 1 {
            } else if j == 2 {
            }
        }
    }
}

/// The operation declarations of this catalog, in source order.
pub fn operation_declarations() -> (r: Vec<OperationDeclaration>)
    ensures
        r@ == dependency_operations(),
{
    reveal(dependency_operations);
    vec![
        OperationDeclaration {
            operation_id: "api.list-dependencies",
            surface: ContractSurface::Api,
            method: Some(HttpMethod::Get),
            path: Some("/api/v1/tasks/:task_id/dependencies"),
            operation: "GET /api/v1/tasks/:task_id/dependencies",
            key: "GET /api/v1/tasks/:task_id/dependencies",
            migration: MigrationState::Adopted,
            exclusion: None,
            shared_components: &[],
            header_profile: Some(ApiHeaderProfile::Locale),
            mcp_policy: Some(McpPolicy {
                exposure: McpExposure::Domain,
                tool_bindings: &[
                    McpToolBinding {
                        tool_name: "dependency_list",
                        http_operations: &[
                            "api.list-tasks",
                            "api.list-dependencies",
                        ],
                    },
                ],
                invariants: &[
                    McpOperationInvariant::CanonicalHostOnly,
                    McpOperationInvariant::SharedApplicationService,
                    McpOperationInvariant::NoHostAdminSurface,
                ],
            }),
            obligation_overrides: &[],
            contracts: &[
                ContractDeclaration {
                    id: "api.list-dependencies.path",
                    path: "GET /api/v1/tasks/:task_id/dependencies path",
                    operation: None,
                    location: Some(HttpTransportLocation::Path),
                    operation_key: None,
                    parameters: &[
                        WireParameter {
                            name: "task_id",
                            cardinality: Some(WireParameterCardinality::RequiredOne),
                        },
                    ],
                    direction: ContractDirection::Deserialize,
                    strictness: ContractStrictness::DenyUnknownFields,
                    granularity: ContractGranularity::Exact,
                    binding: ContractBinding::ExactSurface,
                    schema_id: Some("urn:kanban-tool:schema:api:list-dependencies-path:v1"),
                    artifact_path: Some("api/list-dependencies-path.v1.schema.json"),
                    schema_title: Some("Kanban API list dependencies path v1"),
                    valid_fixture: Some("schemas/fixtures/api/list-dependencies-path.v1.valid.json"),
                    invalid_fixture: Some("schemas/fixtures/api/list-dependencies-path.v1.invalid.json"),
                    exclusion: None,
                    producer: Some(AdoptionLocator {
                        package: "kanban-server",
                        test_target: "lib",
                        exact_test: "http::operations::contract_adoption::suite_dependencies_adoption_uses_path_body_and_response_fixtures",
                    }),
                    consumer: Some(AdoptionLocator {
                        package: "kanban-server",
                        test_target: "lib",
                        exact_test: "http::operations::contract_adoption::suite_dependencies_adoption_uses_path_body_and_response_fixtures",
                    }),
                },
                ContractDeclaration {
                    id: "api.list-dependencies.headers",
                    path: "GET /api/v1/tasks/:task_id/dependencies headers",
                    operation: None,
                    location: Some(HttpTransportLocation::Headers),
                    operation_key: None,
                    parameters: &[
                        WireParameter {
                            name: "Accept-Language",
                            cardinality: Some(WireParameterCardinality::OptionalOne),
                        },
                    ],
                    direction: ContractDirection::Deserialize,
                    strictness: ContractStrictness::DenyUnknownFields,
                    granularity: ContractGranularity::Exact,
                    binding: ContractBinding::ExactSurface,
                    schema_id: Some("urn:kanban-tool:schema:api:list-dependencies-headers:v1"),
                    artifact_path: Some("api/list-dependencies-headers.v1.schema.json"),
                    schema_title: Some("Kanban api.list-dependencies request headers v1"),
                    valid_fixture: Some("schemas/fixtures/api/headers/locale-headers.v1.valid.json"),
                    invalid_fixture: Some("schemas/fixtures/api/headers/locale-headers.v1.invalid.json"),
                    exclusion: None,
                    producer: Some(AdoptionLocator {
                        package: "kanban-server",
                        test_target: "lib",
                        exact_test: "knowledge_adoption::locale_header_fixture_is_consumed_by_real_router",
                    }),
                    consumer: Some(AdoptionLocator {
                        package: "kanban-server",
                        test_target: "lib",
                        exact_test: "knowledge_adoption::locale_header_fixture_is_consumed_by_real_router",
                    }),
                },
                ContractDeclaration {
                    id: "api.list-dependencies.response",
                    path: "GET /api/v1/tasks/:task_id/dependencies response",
                    operation: None,
                    location: Some(HttpTransportLocation::Success),
                    operation_key: None,
                    parameters: &[],
                    direction: ContractDirection::Serialize,
                    strictness: ContractStrictness::DenyUnknownFields,
                    granularity: ContractGranularity::Exact,
                    binding: ContractBinding::ExactSurface,
                    schema_id: Some("urn:kanban-tool:schema:api:list-dependencies-response:v1"),
                    artifact_path: Some("api/list-dependencies-response.v1.schema.json"),
                    schema_title: Some("Kanban API list dependencies response v1"),
                    valid_fixture: Some("schemas/fixtures/api/list-dependencies-response.v1.valid.json"),
                    invalid_fixture: Some("schemas/fixtures/api/list-dependencies-response.v1.invalid.json"),
                    exclusion: None,
                    producer: Some(AdoptionLocator {
                        package: "kanban-server",
                        test_target: "lib",
                        exact_test: "http::operations::contract_adoption::suite_dependencies_adoption_uses_path_body_and_response_fixtures",
                    }),
                    consumer: Some(AdoptionLocator {
                        package: "kanban-server",
                        test_target: "lib",
                        exact_test: "http::operations::contract_adoption::suite_dependencies_adoption_uses_path_body_and_response_fixtures",
                    }),
                },
            ],
        },
        OperationDeclaration {
            operation_id: "api.add-dependency",
            surface: ContractSurface::Api,
            method: Some(HttpMethod::Post),
            path: Some("/api/v1/tasks/:task_id/dependencies"),
            operation: "POST /api/v1/tasks/:task_id/dependencies",
            key: "POST /api/v1/tasks/:task_id/dependencies",
            migration: MigrationState::Adopted,
            exclusion: None,
            shared_components: &[],
            header_profile: Some(ApiHeaderProfile::LocaleActorJson),
            mcp_policy: Some(McpPolicy {
                exposure: McpExposure::Domain,
                tool_bindings: &[
                    McpToolBinding {
                        tool_name: "dependency_create",
                        http_operations: &[
                            "api.list-tasks",
                            "api.add-dependency",
                        ],
                    },
                ],
                invariants: &[
                    McpOperationInvariant::CanonicalHostOnly,
                    McpOperationInvariant::SharedApplicationService,
                    McpOperationInvariant::NoHostAdminSurface,
                ],
            }),
            obligation_overrides: &[],
            contracts: &[
                ContractDeclaration {
                    id: "api.add-dependency.path",
                    path: "POST /api/v1/tasks/:task_id/dependencies path",
                    operation: None,
                    location: Some(HttpTransportLocation::Path),
                    operation_key: None,
                    parameters: &[
                        WireParameter {
                            name: "task_id",
                            cardinality: Some(WireParameterCardinality::RequiredOne),
                        },
                    ],
                    direction: ContractDirection::Deserialize,
                    strictness: ContractStrictness::DenyUnknownFields,
                    granularity: ContractGranularity::Exact,
                    binding: ContractBinding::ExactSurface,
                    schema_id: Some("urn:kanban-tool:schema:api:add-dependency-path:v1"),
                    artifact_path: Some("api/add-dependency-path.v1.schema.json"),
                    schema_title: Some("Kanban API add dependency path v1"),
                    valid_fixture: Some("schemas/fixtures/api/add-dependency-path.v1.valid.json"),
                    invalid_fixture: Some("schemas/fixtures/api/add-dependency-path.v1.invalid.json"),
                    exclusion: None,
                    producer: Some(AdoptionLocator {
                        package: "kanban-server",
                        test_target: "lib",
                        exact_test: "http::operations::contract_adoption::suite_dependencies_adoption_uses_path_body_and_response_fixtures",
                    }),
                    consumer: Some(AdoptionLocator {
                        package: "kanban-server",
                        test_target: "lib",
                        exact_test: "http::operations::contract_adoption::suite_dependencies_adoption_uses_path_body_and_response_fixtures",
                    }),
                },
                ContractDeclaration {
                    id: "api.add-dependency.headers",
                    path: "POST /api/v1/tasks/:task_id/dependencies headers",
                    operation: None,
                    location: Some(HttpTransportLocation::Headers),
                    operation_key: None,
                    parameters: &[
                        WireParameter {
                            name: "Accept-Language",
                            cardinality: Some(WireParameterCardinality::OptionalOne),
                        },
                        WireParameter {
                            name: "X-KB-Actor",
                            cardinality: Some(WireParameterCardinality::OptionalOne),
                        },
                        WireParameter {
                            name: "Content-Type",
                            cardinality: Some(WireParameterCardinality::RequiredOne),
                        },
                    ],
                    direction: ContractDirection::Deserialize,
                    strictness: ContractStrictness::DenyUnknownFields,
                    granularity: ContractGranularity::Exact,
                    binding: ContractBinding::ExactSurface,
                    schema_id: Some("urn:kanban-tool:schema:api:add-dependency-headers:v1"),
                    artifact_path: Some("api/add-dependency-headers.v1.schema.json"),
                    schema_title: Some("Kanban api.add-dependency request headers v1"),
                    valid_fixture: Some("schemas/fixtures/api/headers/locale-actor-json-headers.v1.valid.json"),
                    invalid_fixture: Some("schemas/fixtures/api/headers/locale-actor-json-headers.v1.invalid.json"),
                    exclusion: None,
                    producer: Some(AdoptionLocator {
                        package: "kanban-server",
                        test_target: "lib",
                        exact_test: "knowledge_adoption::locale_actor_json_header_fixture_is_consumed_by_real_router",
                    }),
                    consumer: Some(AdoptionLocator {
                        package: "kanban-server",
                        test_target: "lib",
                        exact_test: "knowledge_adoption::locale_actor_json_header_fixture_is_consumed_by_real_router",
                    }),
                },
                ContractDeclaration {
                    id: "api.add-dependency.request",
                    path: "POST /api/v1/tasks/:task_id/dependencies",
                    operation: None,
                    location: Some(HttpTransportLocation::Body),
                    operation_key: None,
                    parameters: &[],
                    direction: ContractDirection::Deserialize,
                    strictness: ContractStrictness::DenyUnknownFields,
                    granularity: ContractGranularity::Exact,
                    binding: ContractBinding::ExactSurface,
                    schema_id: Some("urn:kanban-tool:schema:api:add-dependency-request:v1"),
                    artifact_path: Some("api/add-dependency-request.v1.schema.json"),
                    schema_title: Some("Kanban add dependency request v1"),
                    valid_fixture: Some("schemas/fixtures/api/add-dependency-request.v1.valid.json"),
                    invalid_fixture: Some("schemas/fixtures/api/add-dependency-request.v1.invalid.json"),
                    exclusion: None,
                    producer: Some(AdoptionLocator {
                        package: "kanban-server",
                        test_target: "lib",
                        exact_test: "http::operations::contract_adoption::suite_dependencies_adoption_uses_path_body_and_response_fixtures",
                    }),
                    consumer: Some(AdoptionLocator {
                        package: "kanban-server",
                        test_target: "lib",
                        exact_test: "http::operations::contract_adoption::suite_dependencies_adoption_uses_path_body_and_response_fixtures",
                    }),
                },
                ContractDeclaration {
                    id: "api.add-dependency.response",
                    path: "POST /api/v1/tasks/:task_id/dependencies response",
                    operation: None,
                    location: Some(HttpTransportLocation::Success),
                    operation_key: None,
                    parameters: &[],
                    direction: ContractDirection::Serialize,
                    strictness: ContractStrictness::DenyUnknownFields,
                    granularity: ContractGranularity::Exact,
                    binding: ContractBinding::ExactSurface,
                    schema_id: Some("urn:kanban-tool:schema:api:add-dependency-response:v1"),
                    artifact_path: Some("api/add-dependency-response.v1.schema.json"),
                    schema_title: Some("Kanban API add dependency response v1"),
                    valid_fixture: Some("schemas/fixtures/api/add-dependency-response.v1.valid.json"),
                    invalid_fixture: Some("schemas/fixtures/api/add-dependency-response.v1.invalid.json"),
                    exclusion: None,
                    producer: Some(AdoptionLocator {
                        package: "kanban-server",
                        test_target: "lib",
                        exact_test: "http::operations::contract_adoption::suite_dependencies_adoption_uses_path_body_and_response_fixtures",
                    }),
                    consumer: Some(AdoptionLocator {
                        package: "kanban-server",
                        test_target: "lib",
                        exact_test: "http::operations::contract_adoption::suite_dependencies_adoption_uses_path_body_and_response_fixtures",
                    }),
                },
            ],
        },
        OperationDeclaration {
            operation_id: "api.remove-dependency",
            surface: ContractSurface::Api,
            method: Some(HttpMethod::Delete),
            path: Some("/api/v1/tasks/:child_task_id/dependencies/:parent_task_id"),
            operation: "DELETE /api/v1/tasks/:child_task_id/dependencies/:parent_task_id",
            key: "DELETE /api/v1/tasks/:child_task_id/dependencies/:parent_task_id",
            migration: MigrationState::Adopted,
            exclusion: None,
            shared_components: &[],
            header_profile: Some(ApiHeaderProfile::LocaleActor),
            mcp_policy: Some(McpPolicy {
                exposure: McpExposure::Domain,
                tool_bindings: &[
                    McpToolBinding {
                        tool_name: "dependency_remove",
                        http_operations: &[
                            "api.list-tasks",
                            "api.remove-dependency",
                        ],
                    },
                ],
                invariants: &[
                    McpOperationInvariant::CanonicalHostOnly,
                    McpOperationInvariant::SharedApplicationService,
                    McpOperationInvariant::NoHostAdminSurface,
                ],
            }),
            obligation_overrides: &[],
            contracts: &[
                ContractDeclaration {
                    id: "api.remove-dependency.path",
                    path: "DELETE /api/v1/tasks/:child_task_id/dependencies/:parent_task_id path",
                    operation: None,
                    location: Some(HttpTransportLocation::Path),
                    operation_key: None,
                    parameters: &[
                        WireParameter {
                            name: "child_task_id",
                            cardinality: Some(WireParameterCardinality::RequiredOne),
                        },
                        WireParameter {
                            name: "parent_task_id",
                            cardinality: Some(WireParameterCardinality::RequiredOne),
                        },
                    ],
                    direction: ContractDirection::Deserialize,
                    strictness: ContractStrictness::DenyUnknownFields,
                    granularity: ContractGranularity::Exact,
                    binding: ContractBinding::ExactSurface,
                    schema_id: Some("urn:kanban-tool:schema:api:remove-dependency-path:v1"),
                    artifact_path: Some("api/remove-dependency-path.v1.schema.json"),
                    schema_title: Some("Kanban API remove dependency path v1"),
                    valid_fixture: Some("schemas/fixtures/api/remove-dependency-path.v1.valid.json"),
                    invalid_fixture: Some("schemas/fixtures/api/remove-dependency-path.v1.invalid.json"),
                    exclusion: None,
                    producer: Some(AdoptionLocator {
                        package: "kanban-server",
                        test_target: "lib",
                        exact_test: "http::operations::contract_adoption::suite_dependencies_adoption_uses_path_body_and_response_fixtures",
                    }),
                    consumer: Some(AdoptionLocator {
                        package: "kanban-server",
                        test_target: "lib",
                        exact_test: "http::operations::contract_adoption::suite_dependencies_adoption_uses_path_body_and_response_fixtures",
                    }),
                },
                ContractDeclaration {
                    id: "api.remove-dependency.headers",
                    path: "DELETE /api/v1/tasks/:child_task_id/dependencies/:parent_task_id headers",
                    operation: None,
                    location: Some(HttpTransportLocation::Headers),
                    operation_key: None,
                    parameters: &[
                        WireParameter {
                            name: "Accept-Language",
                            cardinality: Some(WireParameterCardinality::OptionalOne),
                        },
                        WireParameter {
                            name: "X-KB-Actor",
                            cardinality: Some(WireParameterCardinality::OptionalOne),
                        },
                    ],
                    direction: ContractDirection::Deserialize,
                    strictness: ContractStrictness::DenyUnknownFields,
                    granularity: ContractGranularity::Exact,
                    binding: ContractBinding::ExactSurface,
                    schema_id: Some("urn:kanban-tool:schema:api:remove-dependency-headers:v1"),
                    artifact_path: Some("api/remove-dependency-headers.v1.schema.json"),
                    schema_title: Some("Kanban api.remove-dependency request headers v1"),
                    valid_fixture: Some("schemas/fixtures/api/headers/locale-actor-headers.v1.valid.json"),
                    invalid_fixture: Some("schemas/fixtures/api/headers/locale-actor-headers.v1.invalid.json"),
                    exclusion: None,
                    producer: Some(AdoptionLocator {
                        package: "kanban-server",
                        test_target: "lib",
                        exact_test: "knowledge_adoption::locale_actor_header_fixture_is_consumed_by_real_router",
                    }),
                    consumer: Some(AdoptionLocator {
                        package: "kanban-server",
                        test_target: "lib",
                        exact_test: "knowledge_adoption::locale_actor_header_fixture_is_consumed_by_real_router",
                    }),
                },
                ContractDeclaration {
                    id: "api.remove-dependency.response",
                    path: "DELETE /api/v1/tasks/:child_task_id/dependencies/:parent_task_id response",
                    operation: None,
                    location: Some(HttpTransportLocation::Success),
                    operation_key: None,
                    parameters: &[],
                    direction: ContractDirection::Serialize,
                    strictness: ContractStrictness::DenyUnknownFields,
                    granularity: ContractGranularity::Exact,
                    binding: ContractBinding::ExactSurface,
                    schema_id: Some("urn:kanban-tool:schema:api:remove-dependency-response:v1"),
                    artifact_path: Some("api/remove-dependency-response.v1.schema.json"),
                    schema_title: Some("Kanban API remove dependency response v1"),
                    valid_fixture: Some("schemas/fixtures/api/remove-dependency-response.v1.valid.json"),
                    invalid_fixture: Some("schemas/fixtures/api/remove-dependency-response.v1.invalid.json"),
                    exclusion: None,
                    producer: Some(AdoptionLocator {
                        package: "kanban-server",
                        test_target: "lib",
                        exact_test: "http::operations::contract_adoption::suite_dependencies_adoption_uses_path_body_and_response_fixtures",
                    }),
                    consumer: Some(AdoptionLocator {
                        package: "kanban-server",
                        test_target: "lib",
                        exact_test: "http::operations::contract_adoption::suite_dependencies_adoption_uses_path_body_and_response_fixtures",
                    }),
                },
            ],
        },
    ]
}

/// The inventory rows of the catalog, operation by operation.
pub fn operation_contracts() -> (r: Vec<OperationContract>)
    ensures
        r@ == catalog_contracts(dependency_operations()),
{
    let ops = operation_declarations();
    project_contracts(&ops)
}

/// The endpoint descriptors of the catalog's API and SSE operations.
pub fn endpoint_catalog() -> (r: Vec<EndpointDescriptor>)
    ensures
        r@ == catalog_endpoints(dependency_operations()),
{
    proof {
        lemma_dependency_operations_ready();
    }
    let ops = operation_declarations();
    project_endpoints(&ops)
}

/// The endpoint descriptor with the given operation id.
pub fn endpoint_descriptor(id: &str) -> (r: Option<EndpointDescriptor>)
    ensures
        match first_index(catalog_endpoints(dependency_operations()), has_endpoint_id(id@)) {
            Some(i) => r == Some(catalog_endpoints(dependency_operations())[i]),
            None => r is None,
        },
{
    let endpoints = endpoint_catalog();
    find_endpoint(&endpoints, id)
}

/// The surface rows of the catalog, one per operation.
pub fn surface_catalog() -> (r: Vec<SurfaceOperation>)
    ensures
        r@.len() == dependency_operations().len(),
        forall|i: int| 0 <= i < dependency_operations().len() ==> (#[trigger] r@[i])@ == projected_surface(dependency_operations()[i]),
{
    let ops = operation_declarations();
    project_surfaces(&ops)
}

/// The header profile declared on the operation with the given id.
pub fn header_profile(id: &str) -> (r: Option<ApiHeaderProfile>)
    ensures
        r == catalog_header_profile(dependency_operations(), id@),
{
    let ops = operation_declarations();
    lookup_header_profile(&ops, id)
}

/// The header contract row of the operation with the given id.
pub fn header_contract(id: &str) -> (r: Option<OperationContract>)
    ensures
        r == catalog_header_contract(dependency_operations(), id@),
{
    let ops = operation_declarations();
    lookup_header_contract(&ops, id)
}

/// The schema roots that the catalog's children declare.
pub fn schema_roots() -> (r: Vec<SchemaRoot>)
    ensures
        r@ == catalog_schemas(dependency_operations()),
{
    proof {
        lemma_dependency_operations_ready();
    }
    let ops = operation_declarations();
    project_schemas(&ops)
}

/// Whether some child of the catalog has the given id.
pub fn owns_contract(id: &str) -> (r: bool)
    ensures
        r == catalog_owns_contract(dependency_operations(), id@),
{
    let ops = operation_declarations();
    catalog_has_contract(&ops, id)
}

/// Whether some operation of the catalog has the given id.
pub fn owns_operation(id: &str) -> (r: bool)
    ensures
        r == catalog_owns_operation(dependency_operations(), id@),
{
    let ops = operation_declarations();
    catalog_has_operation(&ops, id)
}


/// The endpoint ids of this catalog, in order: those of its API and SSE operations.
pub proof fn lemma_dependency_endpoint_ids()
    ensures
        endpoint_ids(dependency_operations()) == seq![
            "api.list-dependencies"@,
            "api.add-dependency"@,
            "api.remove-dependency"@,
        ],
{
    reveal(dependency_operations);
    let ops = dependency_operations();
    assert forall|i: int| 0 <= i < 3 implies is_http_surface(#[trigger] ops[i].surface) by {
        if i == 0 {} else if i == 1 {} else if i == 2 {}
    }
    lemma_endpoint_ids_prefix(ops, 3);
    let ids: Seq<Seq<char>> = seq![
        "api.list-dependencies"@,
        "api.add-dependency"@,
        "api.remove-dependency"@,
    ];
    assert forall|i: int| 0 <= i < 3 implies ops.take(3).map_values(|o: OperationDeclaration| o.operation_id@)[i] == ids[i] by {
        if i == 0 {} else if i == 1 {} else if i == 2 {}
    }
    assert(ops.take(3).map_values(|o: OperationDeclaration| o.operation_id@) =~= ids);
}

} // verus!
