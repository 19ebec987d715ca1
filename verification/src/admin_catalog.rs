//! Stats, health and host-admin maintenance operations.

use vstd::prelude::*;

use crate::contract_catalog::{
    endpoint_ids, lemma_endpoint_ids_prefix,
    catalog_contracts, catalog_endpoints, catalog_header_contract, catalog_header_profile,
    catalog_has_contract, catalog_has_operation, catalog_owns_contract, catalog_owns_operation,
    catalog_schemas, endpoint_ready, endpoints_ready, find_contract, find_endpoint, find_surface,
    has_contract_id, has_endpoint_id, has_surface_key, lookup_header_contract,
    lookup_header_profile, project_contracts, project_endpoints, project_schemas,
    project_surfaces, projected_surface, schema_ready, schemas_ready, ContractDeclaration,
    McpExposure, McpOperationInvariant, McpPolicy, McpToolBinding, OperationDeclaration,
    SchemaRoot, SurfaceOperation,
};
use crate::endpoint::{EndpointDescriptor, EndpointObligation, EndpointObligationKind, HttpMethod};
use crate::headers::ApiHeaderProfile;
use crate::inventory::{
    is_http_surface, AdoptionLocator, ContractBinding, ContractDirection, ContractGranularity,
    ContractStrictness, ContractSurface, ContractTransport, HttpTransportLocation, MigrationState,
    OperationContract, WireParameter, WireParameterCardinality,
};
use crate::seqs::first_index;
use crate::text::str_eq;

verus! {

/// The operations of this catalog, in source order.
#[verifier::opaque]
pub open spec fn admin_operations() -> Seq<OperationDeclaration> {
    seq![
        OperationDeclaration {
            operation_id: "api.health",
            surface: ContractSurface::Api,
            method: Some(HttpMethod::Get),
            path: Some("/health"),
            operation: "GET /health",
            key: "GET /health",
            migration: MigrationState::Generated,
            exclusion: None,
            shared_components: &[],
            header_profile: Some(ApiHeaderProfile::Locale),
            mcp_policy: Some(McpPolicy {
                exposure: McpExposure::HostAdmin,
                tool_bindings: &[],
                invariants: &[],
            }),
            obligation_overrides: &[],
            contracts: &[
                ContractDeclaration {
                    id: "api.health.headers",
                    path: "GET /health headers",
                    operation: Some("GET /health"),
                    location: Some(HttpTransportLocation::Headers),
                    operation_key: Some("GET /health"),
                    parameters: &[
                        WireParameter {
                            name: "Accept-Language",
                            cardinality: Some(WireParameterCardinality::OptionalOne),
                        },
                    ],
                    direction: ContractDirection::Deserialize,
                    strictness: ContractStrictness::DenyUnknownFields,
                    granularity: ContractGranularity::Exact,
                    binding: ContractBinding::ExactSurface,
                    schema_id: Some("urn:kanban-tool:schema:api:health-headers:v1"),
                    artifact_path: Some("api/health-headers.v1.schema.json"),
                    schema_title: Some("Kanban api.health request headers v1"),
                    valid_fixture: Some("schemas/fixtures/api/headers/locale-headers.v1.valid.json"),
                    invalid_fixture: Some("schemas/fixtures/api/headers/locale-headers.v1.invalid.json"),
                    exclusion: None,
                    producer: None,
                    consumer: None,
                },
                ContractDeclaration {
                    id: "api.health.response",
                    path: "GET /health response",
                    operation: Some("localhost health report"),
                    location: Some(HttpTransportLocation::Success),
                    operation_key: Some("GET /health"),
                    parameters: &[],
                    direction: ContractDirection::Serialize,
                    strictness: ContractStrictness::DenyUnknownFields,
                    granularity: ContractGranularity::Exact,
                    binding: ContractBinding::ExactSurface,
                    schema_id: Some("urn:kanban-tool:schema:api:health-response:v1"),
                    artifact_path: Some("api/health-response.v1.schema.json"),
                    schema_title: Some("Kanban API health response v1"),
                    valid_fixture: Some("schemas/fixtures/api/health-response.v1.valid.json"),
                    invalid_fixture: Some("schemas/fixtures/api/health-response.v1.invalid.json"),
                    exclusion: None,
                    producer: None,
                    consumer: None,
                },
            ],
        },
        OperationDeclaration {
            operation_id: "api.get-stats",
            surface: ContractSurface::Api,
            method: Some(HttpMethod::Get),
            path: Some("/api/v1/stats"),
            operation: "GET /api/v1/stats",
            key: "GET /api/v1/stats",
            migration: MigrationState::Generated,
            exclusion: None,
            shared_components: &[],
            header_profile: Some(ApiHeaderProfile::Locale),
            mcp_policy: Some(McpPolicy {
                exposure: McpExposure::Domain,
                tool_bindings: &[
                    McpToolBinding {
                        tool_name: "stats",
                        http_operations: &[
                            "api.get-stats",
                        ],
                    },
                ],
                invariants: &[
                    McpOperationInvariant::CanonicalHostOnly,
                    McpOperationInvariant::SharedApplicationService,
                    McpOperationInvariant::NoHostAdminSurface,
                ],
            }),
            obligation_overrides: &[],
            contracts: &[
                ContractDeclaration {
                    id: "api.get-stats.query",
                    path: "GET /api/v1/stats query",
                    operation: Some("GET /api/v1/stats"),
                    location: Some(HttpTransportLocation::Query),
                    operation_key: Some("GET /api/v1/stats"),
                    parameters: &[
                        WireParameter {
                            name: "board",
                            cardinality: Some(WireParameterCardinality::OptionalOne),
                        },
                    ],
                    direction: ContractDirection::Deserialize,
                    strictness: ContractStrictness::DenyUnknownFields,
                    granularity: ContractGranularity::Exact,
                    binding: ContractBinding::ExactSurface,
                    schema_id: Some("urn:kanban-tool:schema:api:get-stats-query:v1"),
                    artifact_path: Some("api/get-stats-query.v1.schema.json"),
                    schema_title: Some("Kanban get stats query v1"),
                    valid_fixture: Some("schemas/fixtures/api/get-stats-query.v1.valid.json"),
                    invalid_fixture: Some("schemas/fixtures/api/get-stats-query.v1.invalid.json"),
                    exclusion: None,
                    producer: None,
                    consumer: None,
                },
                ContractDeclaration {
                    id: "api.get-stats.headers",
                    path: "GET /api/v1/stats headers",
                    operation: Some("GET /api/v1/stats"),
                    location: Some(HttpTransportLocation::Headers),
                    operation_key: Some("GET /api/v1/stats"),
                    parameters: &[
                        WireParameter {
                            name: "Accept-Language",
                            cardinality: Some(WireParameterCardinality::OptionalOne),
                        },
                    ],
                    direction: ContractDirection::Deserialize,
                    strictness: ContractStrictness::DenyUnknownFields,
                    granularity: ContractGranularity::Exact,
                    binding: ContractBinding::ExactSurface,
                    schema_id: Some("urn:kanban-tool:schema:api:get-stats-headers:v1"),
                    artifact_path: Some("api/get-stats-headers.v1.schema.json"),
                    schema_title: Some("Kanban api.get-stats request headers v1"),
                    valid_fixture: Some("schemas/fixtures/api/headers/locale-headers.v1.valid.json"),
                    invalid_fixture: Some("schemas/fixtures/api/headers/locale-headers.v1.invalid.json"),
                    exclusion: None,
                    producer: None,
                    consumer: None,
                },
                ContractDeclaration {
                    id: "api.get-stats.response",
                    path: "GET /api/v1/stats response",
                    operation: Some("GET /api/v1/stats"),
                    location: Some(HttpTransportLocation::Success),
                    operation_key: Some("GET /api/v1/stats"),
                    parameters: &[],
                    direction: ContractDirection::Serialize,
                    strictness: ContractStrictness::DenyUnknownFields,
                    granularity: ContractGranularity::Exact,
                    binding: ContractBinding::ExactSurface,
                    schema_id: Some("urn:kanban-tool:schema:api:get-stats-response:v1"),
                    artifact_path: Some("api/get-stats-response.v1.schema.json"),
                    schema_title: Some("Kanban get stats response v1"),
                    valid_fixture: Some("schemas/fixtures/api/get-stats-response.v1.valid.json"),
                    invalid_fixture: Some("schemas/fixtures/api/get-stats-response.v1.invalid.json"),
                    exclusion: None,
                    producer: None,
                    consumer: None,
                },
            ],
        },
        OperationDeclaration {
            operation_id: "api.doctor",
            surface: ContractSurface::Api,
            method: Some(HttpMethod::Get),
            path: Some("/api/v1/maintenance/doctor"),
            operation: "GET /api/v1/maintenance/doctor",
            key: "GET /api/v1/maintenance/doctor",
            migration: MigrationState::Generated,
            exclusion: None,
            shared_components: &[],
            header_profile: Some(ApiHeaderProfile::Locale),
            mcp_policy: Some(McpPolicy {
                exposure: McpExposure::HostAdmin,
                tool_bindings: &[],
                invariants: &[],
            }),
            obligation_overrides: &[],
            contracts: &[
                ContractDeclaration {
                    id: "api.doctor.headers",
                    path: "GET /api/v1/maintenance/doctor headers",
                    operation: Some("GET /api/v1/maintenance/doctor"),
                    location: Some(HttpTransportLocation::Headers),
                    operation_key: Some("GET /api/v1/maintenance/doctor"),
                    parameters: &[
                        WireParameter {
                            name: "Accept-Language",
                            cardinality: Some(WireParameterCardinality::OptionalOne),
                        },
                    ],
                    direction: ContractDirection::Deserialize,
                    strictness: ContractStrictness::DenyUnknownFields,
                    granularity: ContractGranularity::Exact,
                    binding: ContractBinding::ExactSurface,
                    schema_id: Some("urn:kanban-tool:schema:api:doctor-headers:v1"),
                    artifact_path: Some("api/doctor-headers.v1.schema.json"),
                    schema_title: Some("Kanban api.doctor request headers v1"),
                    valid_fixture: Some("schemas/fixtures/api/headers/locale-headers.v1.valid.json"),
                    invalid_fixture: Some("schemas/fixtures/api/headers/locale-headers.v1.invalid.json"),
                    exclusion: None,
                    producer: None,
                    consumer: None,
                },
                ContractDeclaration {
                    id: "api.doctor.response",
                    path: "GET /api/v1/maintenance/doctor response",
                    operation: Some("GET /api/v1/maintenance/doctor"),
                    location: Some(HttpTransportLocation::Success),
                    operation_key: Some("GET /api/v1/maintenance/doctor"),
                    parameters: &[],
                    direction: ContractDirection::Serialize,
                    strictness: ContractStrictness::DenyUnknownFields,
                    granularity: ContractGranularity::Exact,
                    binding: ContractBinding::ExactSurface,
                    schema_id: Some("urn:kanban-tool:schema:api:doctor-response:v1"),
                    artifact_path: Some("api/doctor-response.v1.schema.json"),
                    schema_title: Some("Kanban doctor response v1"),
                    valid_fixture: Some("schemas/fixtures/api/doctor-response.v1.valid.json"),
                    invalid_fixture: Some("schemas/fixtures/api/doctor-response.v1.invalid.json"),
                    exclusion: None,
                    producer: None,
                    consumer: None,
                },
            ],
        },
        OperationDeclaration {
            operation_id: "api.checkpoint",
            surface: ContractSurface::Api,
            method: Some(HttpMethod::Post),
            path: Some("/api/v1/maintenance/checkpoint"),
            operation: "POST /api/v1/maintenance/checkpoint",
            key: "POST /api/v1/maintenance/checkpoint",
            migration: MigrationState::Generated,
            exclusion: None,
            shared_components: &[],
            header_profile: Some(ApiHeaderProfile::Locale),
            mcp_policy: Some(McpPolicy {
                exposure: McpExposure::HostAdmin,
                tool_bindings: &[],
                invariants: &[],
            }),
            obligation_overrides: &[],
            contracts: &[
                ContractDeclaration {
                    id: "api.checkpoint.headers",
                    path: "POST /api/v1/maintenance/checkpoint headers",
                    operation: Some("POST /api/v1/maintenance/checkpoint"),
                    location: Some(HttpTransportLocation::Headers),
                    operation_key: Some("POST /api/v1/maintenance/checkpoint"),
                    parameters: &[
                        WireParameter {
                            name: "Accept-Language",
                            cardinality: Some(WireParameterCardinality::OptionalOne),
                        },
                    ],
                    direction: ContractDirection::Deserialize,
                    strictness: ContractStrictness::DenyUnknownFields,
                    granularity: ContractGranularity::Exact,
                    binding: ContractBinding::ExactSurface,
                    schema_id: Some("urn:kanban-tool:schema:api:checkpoint-headers:v1"),
                    artifact_path: Some("api/checkpoint-headers.v1.schema.json"),
                    schema_title: Some("Kanban api.checkpoint request headers v1"),
                    valid_fixture: Some("schemas/fixtures/api/headers/locale-headers.v1.valid.json"),
                    invalid_fixture: Some("schemas/fixtures/api/headers/locale-headers.v1.invalid.json"),
                    exclusion: None,
                    producer: None,
                    consumer: None,
                },
                ContractDeclaration {
                    id: "api.checkpoint.response",
                    path: "POST /api/v1/maintenance/checkpoint response",
                    operation: Some("POST /api/v1/maintenance/checkpoint"),
                    location: Some(HttpTransportLocation::Success),
                    operation_key: Some("POST /api/v1/maintenance/checkpoint"),
                    parameters: &[],
                    direction: ContractDirection::Serialize,
                    strictness: ContractStrictness::DenyUnknownFields,
                    granularity: ContractGranularity::Exact,
                    binding: ContractBinding::ExactSurface,
                    schema_id: Some("urn:kanban-tool:schema:api:checkpoint-response:v1"),
                    artifact_path: Some("api/checkpoint-response.v1.schema.json"),
                    schema_title: Some("Kanban checkpoint response v1"),
                    valid_fixture: Some("schemas/fixtures/api/checkpoint-response.v1.valid.json"),
                    invalid_fixture: Some("schemas/fixtures/api/checkpoint-response.v1.invalid.json"),
                    exclusion: None,
                    producer: None,
                    consumer: None,
                },
            ],
        },
        OperationDeclaration {
            operation_id: "api.maintenance-backup",
            surface: ContractSurface::Api,
            method: Some(HttpMethod::Post),
            path: Some("/api/v1/maintenance/backup"),
            operation: "POST /api/v1/maintenance/backup",
            key: "POST /api/v1/maintenance/backup",
            migration: MigrationState::Generated,
            exclusion: None,
            shared_components: &[],
            header_profile: Some(ApiHeaderProfile::LocaleJson),
            mcp_policy: Some(McpPolicy {
                exposure: McpExposure::HostAdmin,
                tool_bindings: &[],
                invariants: &[],
            }),
            obligation_overrides: &[],
            contracts: &[
                ContractDeclaration {
                    id: "api.maintenance-backup.headers",
                    path: "POST /api/v1/maintenance/backup headers",
                    operation: Some("POST /api/v1/maintenance/backup"),
                    location: Some(HttpTransportLocation::Headers),
                    operation_key: Some("POST /api/v1/maintenance/backup"),
                    parameters: &[
                        WireParameter {
                            name: "Accept-Language",
                            cardinality: Some(WireParameterCardinality::OptionalOne),
                        },
                        WireParameter {
                            name: "Content-Type",
                            cardinality: Some(WireParameterCardinality::RequiredOne),
                        },
                    ],
                    direction: ContractDirection::Deserialize,
                    strictness: ContractStrictness::DenyUnknownFields,
                    granularity: ContractGranularity::Exact,
                    binding: ContractBinding::ExactSurface,
                    schema_id: Some("urn:kanban-tool:schema:api:maintenance-backup-headers:v1"),
                    artifact_path: Some("api/maintenance-backup-headers.v1.schema.json"),
                    schema_title: Some("Kanban api.maintenance-backup request headers v1"),
                    valid_fixture: Some("schemas/fixtures/api/headers/locale-json-headers.v1.valid.json"),
                    invalid_fixture: Some("schemas/fixtures/api/headers/locale-json-headers.v1.invalid.json"),
                    exclusion: None,
                    producer: None,
                    consumer: None,
                },
                ContractDeclaration {
                    id: "api.maintenance-backup.request",
                    path: "POST /api/v1/maintenance/backup body",
                    operation: Some("POST /api/v1/maintenance/backup"),
                    location: Some(HttpTransportLocation::Body),
                    operation_key: Some("POST /api/v1/maintenance/backup"),
                    parameters: &[],
                    direction: ContractDirection::Deserialize,
                    strictness: ContractStrictness::DenyUnknownFields,
                    granularity: ContractGranularity::Exact,
                    binding: ContractBinding::ExactSurface,
                    schema_id: Some("urn:kanban-tool:schema:api:maintenance-backup-request:v1"),
                    artifact_path: Some("api/maintenance-backup-request.v1.schema.json"),
                    schema_title: Some("Kanban maintenance backup request v1"),
                    valid_fixture: Some("schemas/fixtures/api/maintenance-backup-request.v1.valid.json"),
                    invalid_fixture: Some("schemas/fixtures/api/maintenance-backup-request.v1.invalid.json"),
                    exclusion: None,
                    producer: None,
                    consumer: None,
                },
                ContractDeclaration {
                    id: "api.maintenance-backup.response",
                    path: "POST /api/v1/maintenance/backup response",
                    operation: Some("POST /api/v1/maintenance/backup"),
                    location: Some(HttpTransportLocation::Success),
                    operation_key: Some("POST /api/v1/maintenance/backup"),
                    parameters: &[],
                    direction: ContractDirection::Serialize,
                    strictness: ContractStrictness::DenyUnknownFields,
                    granularity: ContractGranularity::Exact,
                    binding: ContractBinding::ExactSurface,
                    schema_id: Some("urn:kanban-tool:schema:api:maintenance-backup-response:v1"),
                    artifact_path: Some("api/maintenance-backup-response.v1.schema.json"),
                    schema_title: Some("Kanban maintenance backup response v1"),
                    valid_fixture: Some("schemas/fixtures/api/maintenance-backup-response.v1.valid.json"),
                    invalid_fixture: Some("schemas/fixtures/api/maintenance-backup-response.v1.invalid.json"),
                    exclusion: None,
                    producer: None,
                    consumer: None,
                },
            ],
        },
        OperationDeclaration {
            operation_id: "api.maintenance-export",
            surface: ContractSurface::Api,
            method: Some(HttpMethod::Post),
            path: Some("/api/v1/maintenance/export"),
            operation: "POST /api/v1/maintenance/export",
            key: "POST /api/v1/maintenance/export",
            migration: MigrationState::Generated,
            exclusion: None,
            shared_components: &[],
            header_profile: Some(ApiHeaderProfile::LocaleJson),
            mcp_policy: Some(McpPolicy {
                exposure: McpExposure::HostAdmin,
                tool_bindings: &[],
                invariants: &[],
            }),
            obligation_overrides: &[],
            contracts: &[
                ContractDeclaration {
                    id: "api.maintenance-export.headers",
                    path: "POST /api/v1/maintenance/export headers",
                    operation: Some("POST /api/v1/maintenance/export"),
                    location: Some(HttpTransportLocation::Headers),
                    operation_key: Some("POST /api/v1/maintenance/export"),
                    parameters: &[
                        WireParameter {
                            name: "Accept-Language",
                            cardinality: Some(WireParameterCardinality::OptionalOne),
                        },
                        WireParameter {
                            name: "Content-Type",
                            cardinality: Some(WireParameterCardinality::RequiredOne),
                        },
                    ],
                    direction: ContractDirection::Deserialize,
                    strictness: ContractStrictness::DenyUnknownFields,
                    granularity: ContractGranularity::Exact,
                    binding: ContractBinding::ExactSurface,
                    schema_id: Some("urn:kanban-tool:schema:api:maintenance-export-headers:v1"),
                    artifact_path: Some("api/maintenance-export-headers.v1.schema.json"),
                    schema_title: Some("Kanban api.maintenance-export request headers v1"),
                    valid_fixture: Some("schemas/fixtures/api/headers/locale-json-headers.v1.valid.json"),
                    invalid_fixture: Some("schemas/fixtures/api/headers/locale-json-headers.v1.invalid.json"),
                    exclusion: None,
                    producer: None,
                    consumer: None,
                },
                ContractDeclaration {
                    id: "api.maintenance-export.request",
                    path: "POST /api/v1/maintenance/export body",
                    operation: Some("POST /api/v1/maintenance/export"),
                    location: Some(HttpTransportLocation::Body),
                    operation_key: Some("POST /api/v1/maintenance/export"),
                    parameters: &[],
                    direction: ContractDirection::Deserialize,
                    strictness: ContractStrictness::DenyUnknownFields,
                    granularity: ContractGranularity::Exact,
                    binding: ContractBinding::ExactSurface,
                    schema_id: Some("urn:kanban-tool:schema:api:maintenance-export-request:v1"),
                    artifact_path: Some("api/maintenance-export-request.v1.schema.json"),
                    schema_title: Some("Kanban maintenance export request v1"),
                    valid_fixture: Some("schemas/fixtures/api/maintenance-export-request.v1.valid.json"),
                    invalid_fixture: Some("schemas/fixtures/api/maintenance-export-request.v1.invalid.json"),
                    exclusion: None,
                    producer: None,
                    consumer: None,
                },
                ContractDeclaration {
                    id: "api.maintenance-export.response",
                    path: "POST /api/v1/maintenance/export response",
                    operation: Some("POST /api/v1/maintenance/export"),
                    location: Some(HttpTransportLocation::Success),
                    operation_key: Some("POST /api/v1/maintenance/export"),
                    parameters: &[],
                    direction: ContractDirection::Serialize,
                    strictness: ContractStrictness::DenyUnknownFields,
                    granularity: ContractGranularity::Exact,
                    binding: ContractBinding::ExactSurface,
                    schema_id: Some("urn:kanban-tool:schema:api:maintenance-export-response:v1"),
                    artifact_path: Some("api/maintenance-export-response.v1.schema.json"),
                    schema_title: Some("Kanban maintenance export response v1"),
                    valid_fixture: Some("schemas/fixtures/api/maintenance-export-response.v1.valid.json"),
                    invalid_fixture: Some("schemas/fixtures/api/maintenance-export-response.v1.invalid.json"),
                    exclusion: None,
                    producer: None,
                    consumer: None,
                },
            ],
        },
        OperationDeclaration {
            operation_id: "api.maintenance-import",
            surface: ContractSurface::Api,
            method: Some(HttpMethod::Post),
            path: Some("/api/v1/maintenance/import"),
            operation: "POST /api/v1/maintenance/import",
            key: "POST /api/v1/maintenance/import",
            migration: MigrationState::Generated,
            exclusion: None,
            shared_components: &[],
            header_profile: Some(ApiHeaderProfile::LocaleJson),
            mcp_policy: Some(McpPolicy {
                exposure: McpExposure::HostAdmin,
                tool_bindings: &[],
                invariants: &[],
            }),
            obligation_overrides: &[],
            contracts: &[
                ContractDeclaration {
                    id: "api.maintenance-import.headers",
                    path: "POST /api/v1/maintenance/import headers",
                    operation: Some("POST /api/v1/maintenance/import"),
                    location: Some(HttpTransportLocation::Headers),
                    operation_key: Some("POST /api/v1/maintenance/import"),
                    parameters: &[
                        WireParameter {
                            name: "Accept-Language",
                            cardinality: Some(WireParameterCardinality::OptionalOne),
                        },
                        WireParameter {
                            name: "Content-Type",
                            cardinality: Some(WireParameterCardinality::RequiredOne),
                        },
                    ],
                    direction: ContractDirection::Deserialize,
                    strictness: ContractStrictness::DenyUnknownFields,
                    granularity: ContractGranularity::Exact,
                    binding: ContractBinding::ExactSurface,
                    schema_id: Some("urn:kanban-tool:schema:api:maintenance-import-headers:v1"),
                    artifact_path: Some("api/maintenance-import-headers.v1.schema.json"),
                    schema_title: Some("Kanban api.maintenance-import request headers v1"),
                    valid_fixture: Some("schemas/fixtures/api/headers/locale-json-headers.v1.valid.json"),
                    invalid_fixture: Some("schemas/fixtures/api/headers/locale-json-headers.v1.invalid.json"),
                    exclusion: None,
                    producer: None,
                    consumer: None,
                },
                ContractDeclaration {
                    id: "api.maintenance-import.request",
                    path: "POST /api/v1/maintenance/import body",
                    operation: Some("POST /api/v1/maintenance/import"),
                    location: Some(HttpTransportLocation::Body),
                    operation_key: Some("POST /api/v1/maintenance/import"),
                    parameters: &[],
                    direction: ContractDirection::Deserialize,
                    strictness: ContractStrictness::DenyUnknownFields,
                    granularity: ContractGranularity::Exact,
                    binding: ContractBinding::ExactSurface,
                    schema_id: Some("urn:kanban-tool:schema:api:maintenance-import-request:v1"),
                    artifact_path: Some("api/maintenance-import-request.v1.schema.json"),
                    schema_title: Some("Kanban maintenance import request v1"),
                    valid_fixture: Some("schemas/fixtures/api/maintenance-import-request.v1.valid.json"),
                    invalid_fixture: Some("schemas/fixtures/api/maintenance-import-request.v1.invalid.json"),
                    exclusion: None,
                    producer: None,
                    consumer: None,
                },
                ContractDeclaration {
                    id: "api.maintenance-import.response",
                    path: "POST /api/v1/maintenance/import response",
                    operation: Some("POST /api/v1/maintenance/import"),
                    location: Some(HttpTransportLocation::Success),
                    operation_key: Some("POST /api/v1/maintenance/import"),
                    parameters: &[],
                    direction: ContractDirection::Serialize,
                    strictness: ContractStrictness::DenyUnknownFields,
                    granularity: ContractGranularity::Exact,
                    binding: ContractBinding::ExactSurface,
                    schema_id: Some("urn:kanban-tool:schema:api:maintenance-import-response:v1"),
                    artifact_path: Some("api/maintenance-import-response.v1.schema.json"),
                    schema_title: Some("Kanban maintenance import response v1"),
                    valid_fixture: Some("schemas/fixtures/api/maintenance-import-response.v1.valid.json"),
                    invalid_fixture: Some("schemas/fixtures/api/maintenance-import-response.v1.invalid.json"),
                    exclusion: None,
                    producer: None,
                    consumer: None,
                },
            ],
        },
        OperationDeclaration {
            operation_id: "api.maintenance-vacuum",
            surface: ContractSurface::Api,
            method: Some(HttpMethod::Post),
            path: Some("/api/v1/maintenance/vacuum"),
            operation: "POST /api/v1/maintenance/vacuum",
            key: "POST /api/v1/maintenance/vacuum",
            migration: MigrationState::Generated,
            exclusion: None,
            shared_components: &[],
            header_profile: Some(ApiHeaderProfile::Locale),
            mcp_policy: Some(McpPolicy {
                exposure: McpExposure::HostAdmin,
                tool_bindings: &[],
                invariants: &[],
            }),
            obligation_overrides: &[],
            contracts: &[
                ContractDeclaration {
                    id: "api.maintenance-vacuum.headers",
                    path: "POST /api/v1/maintenance/vacuum headers",
                    operation: Some("POST /api/v1/maintenance/vacuum"),
                    location: Some(HttpTransportLocation::Headers),
                    operation_key: Some("POST /api/v1/maintenance/vacuum"),
                    parameters: &[
                        WireParameter {
                            name: "Accept-Language",
                            cardinality: Some(WireParameterCardinality::OptionalOne),
                        },
                    ],
                    direction: ContractDirection::Deserialize,
                    strictness: ContractStrictness::DenyUnknownFields,
                    granularity: ContractGranularity::Exact,
                    binding: ContractBinding::ExactSurface,
                    schema_id: Some("urn:kanban-tool:schema:api:maintenance-vacuum-headers:v1"),
                    artifact_path: Some("api/maintenance-vacuum-headers.v1.schema.json"),
                    schema_title: Some("Kanban api.maintenance-vacuum request headers v1"),
                    valid_fixture: Some("schemas/fixtures/api/headers/locale-headers.v1.valid.json"),
                    invalid_fixture: Some("schemas/fixtures/api/headers/locale-headers.v1.invalid.json"),
                    exclusion: None,
                    producer: None,
                    consumer: None,
                },
                ContractDeclaration {
                    id: "api.maintenance-vacuum.response",
                    path: "POST /api/v1/maintenance/vacuum response",
                    operation: Some("POST /api/v1/maintenance/vacuum"),
                    location: Some(HttpTransportLocation::Success),
                    operation_key: Some("POST /api/v1/maintenance/vacuum"),
                    parameters: &[],
                    direction: ContractDirection::Serialize,
                    strictness: ContractStrictness::DenyUnknownFields,
                    granularity: ContractGranularity::Exact,
                    binding: ContractBinding::ExactSurface,
                    schema_id: Some("urn:kanban-tool:schema:api:maintenance-vacuum-response:v1"),
                    artifact_path: Some("api/maintenance-vacuum-response.v1.schema.json"),
                    schema_title: Some("Kanban maintenance vacuum response v1"),
                    valid_fixture: Some("schemas/fixtures/api/maintenance-vacuum-response.v1.valid.json"),
                    invalid_fixture: Some("schemas/fixtures/api/maintenance-vacuum-response.v1.invalid.json"),
                    exclusion: None,
                    producer: None,
                    consumer: None,
                },
            ],
        },
        OperationDeclaration {
            operation_id: "api.maintenance-status",
            surface: ContractSurface::Api,
            method: Some(HttpMethod::Get),
            path: Some("/api/v1/maintenance/status"),
            operation: "GET /api/v1/maintenance/status",
            key: "GET /api/v1/maintenance/status",
            migration: MigrationState::Generated,
            exclusion: None,
            shared_components: &[],
            header_profile: Some(ApiHeaderProfile::Locale),
            mcp_policy: Some(McpPolicy {
                exposure: McpExposure::HostAdmin,
                tool_bindings: &[],
                invariants: &[],
            }),
            obligation_overrides: &[],
            contracts: &[
                ContractDeclaration {
                    id: "api.maintenance-status.headers",
                    path: "GET /api/v1/maintenance/status headers",
                    operation: Some("GET /api/v1/maintenance/status"),
                    location: Some(HttpTransportLocation::Headers),
                    operation_key: Some("GET /api/v1/maintenance/status"),
                    parameters: &[
                        WireParameter {
                            name: "Accept-Language",
                            cardinality: Some(WireParameterCardinality::OptionalOne),
                        },
                    ],
                    direction: ContractDirection::Deserialize,
                    strictness: ContractStrictness::DenyUnknownFields,
                    granularity: ContractGranularity::Exact,
                    binding: ContractBinding::ExactSurface,
                    schema_id: Some("urn:kanban-tool:schema:api:maintenance-status-headers:v1"),
                    artifact_path: Some("api/maintenance-status-headers.v1.schema.json"),
                    schema_title: Some("Kanban api.maintenance-status request headers v1"),
                    valid_fixture: Some("schemas/fixtures/api/headers/locale-headers.v1.valid.json"),
                    invalid_fixture: Some("schemas/fixtures/api/headers/locale-headers.v1.invalid.json"),
                    exclusion: None,
                    producer: None,
                    consumer: None,
                },
                ContractDeclaration {
                    id: "api.maintenance-status.response",
                    path: "GET /api/v1/maintenance/status response",
                    operation: Some("GET /api/v1/maintenance/status"),
                    location: Some(HttpTransportLocation::Success),
                    operation_key: Some("GET /api/v1/maintenance/status"),
                    parameters: &[],
                    direction: ContractDirection::Serialize,
                    strictness: ContractStrictness::DenyUnknownFields,
                    granularity: ContractGranularity::Exact,
                    binding: ContractBinding::ExactSurface,
                    schema_id: Some("urn:kanban-tool:schema:api:maintenance-status-response:v1"),
                    artifact_path: Some("api/maintenance-status-response.v1.schema.json"),
                    schema_title: Some("Kanban maintenance status response v1"),
                    valid_fixture: Some("schemas/fixtures/api/maintenance-status-response.v1.valid.json"),
                    invalid_fixture: Some("schemas/fixtures/api/maintenance-status-response.v1.invalid.json"),
                    exclusion: None,
                    producer: None,
                    consumer: None,
                },
            ],
        },
        OperationDeclaration {
            operation_id: "api.maintenance-run",
            surface: ContractSurface::Api,
            method: Some(HttpMethod::Post),
            path: Some("/api/v1/maintenance/run"),
            operation: "POST /api/v1/maintenance/run",
            key: "POST /api/v1/maintenance/run",
            migration: MigrationState::Generated,
            exclusion: None,
            shared_components: &[],
            header_profile: Some(ApiHeaderProfile::LocaleJson),
            mcp_policy: Some(McpPolicy {
                exposure: McpExposure::HostAdmin,
                tool_bindings: &[],
                invariants: &[],
            }),
            obligation_overrides: &[],
            contracts: &[
                ContractDeclaration {
                    id: "api.maintenance-run.headers",
                    path: "POST /api/v1/maintenance/run headers",
                    operation: Some("POST /api/v1/maintenance/run"),
                    location: Some(HttpTransportLocation::Headers),
                    operation_key: Some("POST /api/v1/maintenance/run"),
                    parameters: &[
                        WireParameter {
                            name: "Accept-Language",
                            cardinality: Some(WireParameterCardinality::OptionalOne),
                        },
                        WireParameter {
                            name: "Content-Type",
                            cardinality: Some(WireParameterCardinality::RequiredOne),
                        },
                    ],
                    direction: ContractDirection::Deserialize,
                    strictness: ContractStrictness::DenyUnknownFields,
                    granularity: ContractGranularity::Exact,
                    binding: ContractBinding::ExactSurface,
                    schema_id: Some("urn:kanban-tool:schema:api:maintenance-run-headers:v1"),
                    artifact_path: Some("api/maintenance-run-headers.v1.schema.json"),
                    schema_title: Some("Kanban api.maintenance-run request headers v1"),
                    valid_fixture: Some("schemas/fixtures/api/headers/locale-json-headers.v1.valid.json"),
                    invalid_fixture: Some("schemas/fixtures/api/headers/locale-json-headers.v1.invalid.json"),
                    exclusion: None,
                    producer: None,
                    consumer: None,
                },
                ContractDeclaration {
                    id: "api.maintenance-run.request",
                    path: "POST /api/v1/maintenance/run body",
                    operation: Some("POST /api/v1/maintenance/run"),
                    location: Some(HttpTransportLocation::Body),
                    operation_key: Some("POST /api/v1/maintenance/run"),
                    parameters: &[],
                    direction: ContractDirection::Deserialize,
                    strictness: ContractStrictness::DenyUnknownFields,
                    granularity: ContractGranularity::Exact,
                    binding: ContractBinding::ExactSurface,
                    schema_id: Some("urn:kanban-tool:schema:api:maintenance-run-request:v1"),
                    artifact_path: Some("api/maintenance-run-request.v1.schema.json"),
                    schema_title: Some("Kanban maintenance run request v1"),
                    valid_fixture: Some("schemas/fixtures/api/maintenance-run-request.v1.valid.json"),
                    invalid_fixture: Some("schemas/fixtures/api/maintenance-run-request.v1.invalid.json"),
                    exclusion: None,
                    producer: None,
                    consumer: None,
                },
                ContractDeclaration {
                    id: "api.maintenance-run.response",
                    path: "POST /api/v1/maintenance/run response",
                    operation: Some("POST /api/v1/maintenance/run"),
                    location: Some(HttpTransportLocation::Success),
                    operation_key: Some("POST /api/v1/maintenance/run"),
                    parameters: &[],
                    direction: ContractDirection::Serialize,
                    strictness: ContractStrictness::DenyUnknownFields,
                    granularity: ContractGranularity::Exact,
                    binding: ContractBinding::ExactSurface,
                    schema_id: Some("urn:kanban-tool:schema:api:maintenance-run-response:v1"),
                    artifact_path: Some("api/maintenance-run-response.v1.schema.json"),
                    schema_title: Some("Kanban maintenance run response v1"),
                    valid_fixture: Some("schemas/fixtures/api/maintenance-run-response.v1.valid.json"),
                    invalid_fixture: Some("schemas/fixtures/api/maintenance-run-response.v1.invalid.json"),
                    exclusion: None,
                    producer: None,
                    consumer: None,
                },
            ],
        },
        OperationDeclaration {
            operation_id: "api.maintenance-rebuild",
            surface: ContractSurface::Api,
            method: Some(HttpMethod::Post),
            path: Some("/api/v1/maintenance/rebuild"),
            operation: "POST /api/v1/maintenance/rebuild",
            key: "POST /api/v1/maintenance/rebuild",
            migration: MigrationState::Generated,
            exclusion: None,
            shared_components: &[],
            header_profile: Some(ApiHeaderProfile::LocaleJson),
            mcp_policy: Some(McpPolicy {
                exposure: McpExposure::HostAdmin,
                tool_bindings: &[],
                invariants: &[],
            }),
            obligation_overrides: &[],
            contracts: &[
                ContractDeclaration {
                    id: "api.maintenance-rebuild.headers",
                    path: "POST /api/v1/maintenance/rebuild headers",
                    operation: Some("POST /api/v1/maintenance/rebuild"),
                    location: Some(HttpTransportLocation::Headers),
                    operation_key: Some("POST /api/v1/maintenance/rebuild"),
                    parameters: &[
                        WireParameter {
                            name: "Accept-Language",
                            cardinality: Some(WireParameterCardinality::OptionalOne),
                        },
                        WireParameter {
                            name: "Content-Type",
                            cardinality: Some(WireParameterCardinality::RequiredOne),
                        },
                    ],
                    direction: ContractDirection::Deserialize,
                    strictness: ContractStrictness::DenyUnknownFields,
                    granularity: ContractGranularity::Exact,
                    binding: ContractBinding::ExactSurface,
                    schema_id: Some("urn:kanban-tool:schema:api:maintenance-rebuild-headers:v1"),
                    artifact_path: Some("api/maintenance-rebuild-headers.v1.schema.json"),
                    schema_title: Some("Kanban api.maintenance-rebuild request headers v1"),
                    valid_fixture: Some("schemas/fixtures/api/headers/locale-json-headers.v1.valid.json"),
                    invalid_fixture: Some("schemas/fixtures/api/headers/locale-json-headers.v1.invalid.json"),
                    exclusion: None,
                    producer: None,
                    consumer: None,
                },
                ContractDeclaration {
                    id: "api.maintenance-rebuild.request",
                    path: "POST /api/v1/maintenance/rebuild body",
                    operation: Some("POST /api/v1/maintenance/rebuild"),
                    location: Some(HttpTransportLocation::Body),
                    operation_key: Some("POST /api/v1/maintenance/rebuild"),
                    parameters: &[],
                    direction: ContractDirection::Deserialize,
                    strictness: ContractStrictness::DenyUnknownFields,
                    granularity: ContractGranularity::Exact,
                    binding: ContractBinding::ExactSurface,
                    schema_id: Some("urn:kanban-tool:schema:api:maintenance-rebuild-request:v1"),
                    artifact_path: Some("api/maintenance-rebuild-request.v1.schema.json"),
                    schema_title: Some("Kanban maintenance rebuild request v1"),
                    valid_fixture: Some("schemas/fixtures/api/maintenance-rebuild-request.v1.valid.json"),
                    invalid_fixture: Some("schemas/fixtures/api/maintenance-rebuild-request.v1.invalid.json"),
                    exclusion: None,
                    producer: None,
                    consumer: None,
                },
                ContractDeclaration {
                    id: "api.maintenance-rebuild.response",
                    path: "POST /api/v1/maintenance/rebuild response",
                    operation: Some("POST /api/v1/maintenance/rebuild"),
                    location: Some(HttpTransportLocation::Success),
                    operation_key: Some("POST /api/v1/maintenance/rebuild"),
                    parameters: &[],
                    direction: ContractDirection::Serialize,
                    strictness: ContractStrictness::DenyUnknownFields,
                    granularity: ContractGranularity::Exact,
                    binding: ContractBinding::ExactSurface,
                    schema_id: Some("urn:kanban-tool:schema:api:maintenance-rebuild-response:v1"),
                    artifact_path: Some("api/maintenance-rebuild-response.v1.schema.json"),
                    schema_title: Some("Kanban maintenance rebuild response v1"),
                    valid_fixture: Some("schemas/fixtures/api/maintenance-rebuild-response.v1.valid.json"),
                    invalid_fixture: Some("schemas/fixtures/api/maintenance-rebuild-response.v1.invalid.json"),
                    exclusion: None,
                    producer: None,
                    consumer: None,
                },
            ],
        },
        OperationDeclaration {
            operation_id: "api.maintenance-cleanup",
            surface: ContractSurface::Api,
            method: Some(HttpMethod::Post),
            path: Some("/api/v1/maintenance/cleanup"),
            operation: "POST /api/v1/maintenance/cleanup",
            key: "POST /api/v1/maintenance/cleanup",
            migration: MigrationState::Generated,
            exclusion: None,
            shared_components: &[],
            header_profile: Some(ApiHeaderProfile::LocaleJson),
            mcp_policy: Some(McpPolicy {
                exposure: McpExposure::HostAdmin,
                tool_bindings: &[],
                invariants: &[],
            }),
            obligation_overrides: &[],
            contracts: &[
                ContractDeclaration {
                    id: "api.maintenance-cleanup.headers",
                    path: "POST /api/v1/maintenance/cleanup headers",
                    operation: Some("POST /api/v1/maintenance/cleanup"),
                    location: Some(HttpTransportLocation::Headers),
                    operation_key: Some("POST /api/v1/maintenance/cleanup"),
                    parameters: &[
                        WireParameter {
                            name: "Accept-Language",
                            cardinality: Some(WireParameterCardinality::OptionalOne),
                        },
                        WireParameter {
                            name: "Content-Type",
                            cardinality: Some(WireParameterCardinality::RequiredOne),
                        },
                    ],
                    direction: ContractDirection::Deserialize,
                    strictness: ContractStrictness::DenyUnknownFields,
                    granularity: ContractGranularity::Exact,
                    binding: ContractBinding::ExactSurface,
                    schema_id: Some("urn:kanban-tool:schema:api:maintenance-cleanup-headers:v1"),
                    artifact_path: Some("api/maintenance-cleanup-headers.v1.schema.json"),
                    schema_title: Some("Kanban api.maintenance-cleanup request headers v1"),
                    valid_fixture: Some("schemas/fixtures/api/headers/locale-json-headers.v1.valid.json"),
                    invalid_fixture: Some("schemas/fixtures/api/headers/locale-json-headers.v1.invalid.json"),
                    exclusion: None,
                    producer: None,
                    consumer: None,
                },
                ContractDeclaration {
                    id: "api.maintenance-cleanup.request",
                    path: "POST /api/v1/maintenance/cleanup body",
                    operation: Some("POST /api/v1/maintenance/cleanup"),
                    location: Some(HttpTransportLocation::Body),
                    operation_key: Some("POST /api/v1/maintenance/cleanup"),
                    parameters: &[],
                    direction: ContractDirection::Deserialize,
                    strictness: ContractStrictness::DenyUnknownFields,
                    granularity: ContractGranularity::Exact,
                    binding: ContractBinding::ExactSurface,
                    schema_id: Some("urn:kanban-tool:schema:api:maintenance-cleanup-request:v1"),
                    artifact_path: Some("api/maintenance-cleanup-request.v1.schema.json"),
                    schema_title: Some("Kanban maintenance cleanup request v1"),
                    valid_fixture: Some("schemas/fixtures/api/maintenance-cleanup-request.v1.valid.json"),
                    invalid_fixture: Some("schemas/fixtures/api/maintenance-cleanup-request.v1.invalid.json"),
                    exclusion: None,
                    producer: None,
                    consumer: None,
                },
                ContractDeclaration {
                    id: "api.maintenance-cleanup.response",
                    path: "POST /api/v1/maintenance/cleanup response",
                    operation: Some("POST /api/v1/maintenance/cleanup"),
                    location: Some(HttpTransportLocation::Success),
                    operation_key: Some("POST /api/v1/maintenance/cleanup"),
                    parameters: &[],
                    direction: ContractDirection::Serialize,
                    strictness: ContractStrictness::DenyUnknownFields,
                    granularity: ContractGranularity::Exact,
                    binding: ContractBinding::ExactSurface,
                    schema_id: Some("urn:kanban-tool:schema:api:maintenance-cleanup-response:v1"),
                    artifact_path: Some("api/maintenance-cleanup-response.v1.schema.json"),
                    schema_title: Some("Kanban maintenance cleanup response v1"),
                    valid_fixture: Some("schemas/fixtures/api/maintenance-cleanup-response.v1.valid.json"),
                    invalid_fixture: Some("schemas/fixtures/api/maintenance-cleanup-response.v1.invalid.json"),
                    exclusion: None,
                    producer: None,
                    consumer: None,
                },
            ],
        },
        OperationDeclaration {
            operation_id: "api.maintenance-import-v30",
            surface: ContractSurface::Api,
            method: Some(HttpMethod::Post),
            path: Some("/api/v1/maintenance/import-v30"),
            operation: "POST /api/v1/maintenance/import-v30",
            key: "POST /api/v1/maintenance/import-v30",
            migration: MigrationState::Generated,
            exclusion: None,
            shared_components: &[],
            header_profile: Some(ApiHeaderProfile::LocaleJson),
            mcp_policy: Some(McpPolicy {
                exposure: McpExposure::HostAdmin,
                tool_bindings: &[],
                invariants: &[],
            }),
            obligation_overrides: &[],
            contracts: &[
                ContractDeclaration {
                    id: "api.maintenance-import-v30.headers",
                    path: "POST /api/v1/maintenance/import-v30 headers",
                    operation: Some("POST /api/v1/maintenance/import-v30"),
                    location: Some(HttpTransportLocation::Headers),
                    operation_key: Some("POST /api/v1/maintenance/import-v30"),
                    parameters: &[
                        WireParameter {
                            name: "Accept-Language",
                            cardinality: Some(WireParameterCardinality::OptionalOne),
                        },
                        WireParameter {
                            name: "Content-Type",
                            cardinality: Some(WireParameterCardinality::RequiredOne),
                        },
                    ],
                    direction: ContractDirection::Deserialize,
                    strictness: ContractStrictness::DenyUnknownFields,
                    granularity: ContractGranularity::Exact,
                    binding: ContractBinding::ExactSurface,
                    schema_id: Some("urn:kanban-tool:schema:api:maintenance-import-v30-headers:v1"),
                    artifact_path: Some("api/maintenance-import-v30-headers.v1.schema.json"),
                    schema_title: Some("Kanban api.maintenance-import-v30 request headers v1"),
                    valid_fixture: Some("schemas/fixtures/api/headers/locale-json-headers.v1.valid.json"),
                    invalid_fixture: Some("schemas/fixtures/api/headers/locale-json-headers.v1.invalid.json"),
                    exclusion: None,
                    producer: None,
                    consumer: None,
                },
                ContractDeclaration {
                    id: "api.maintenance-import-v30.request",
                    path: "POST /api/v1/maintenance/import-v30 body",
                    operation: Some("POST /api/v1/maintenance/import-v30"),
                    location: Some(HttpTransportLocation::Body),
                    operation_key: Some("POST /api/v1/maintenance/import-v30"),
                    parameters: &[],
                    direction: ContractDirection::Deserialize,
                    strictness: ContractStrictness::DenyUnknownFields,
                    granularity: ContractGranularity::Exact,
                    binding: ContractBinding::ExactSurface,
                    schema_id: Some("urn:kanban-tool:schema:api:maintenance-import-v30-request:v1"),
                    artifact_path: Some("api/maintenance-import-v30-request.v1.schema.json"),
                    schema_title: Some("Kanban legacy SQLite v30 import request v1"),
                    valid_fixture: Some("schemas/fixtures/api/maintenance-import-v30-request.v1.valid.json"),
                    invalid_fixture: Some("schemas/fixtures/api/maintenance-import-v30-request.v1.invalid.json"),
                    exclusion: None,
                    producer: None,
                    consumer: None,
                },
                ContractDeclaration {
                    id: "api.maintenance-import-v30.response",
                    path: "POST /api/v1/maintenance/import-v30 response",
                    operation: Some("POST /api/v1/maintenance/import-v30"),
                    location: Some(HttpTransportLocation::Success),
                    operation_key: Some("POST /api/v1/maintenance/import-v30"),
                    parameters: &[],
                    direction: ContractDirection::Serialize,
                    strictness: ContractStrictness::DenyUnknownFields,
                    granularity: ContractGranularity::Exact,
                    binding: ContractBinding::ExactSurface,
                    schema_id: Some("urn:kanban-tool:schema:api:maintenance-import-v30-response:v1"),
                    artifact_path: Some("api/maintenance-import-v30-response.v1.schema.json"),
                    schema_title: Some("Kanban legacy SQLite v30 import response v1"),
                    valid_fixture: Some("schemas/fixtures/api/maintenance-import-v30-response.v1.valid.json"),
                    invalid_fixture: Some("schemas/fixtures/api/maintenance-import-v30-response.v1.invalid.json"),
                    exclusion: None,
                    producer: None,
                    consumer: None,
                },
            ],
        },
    ]
}

/// Every API or SSE operation of the catalog names a method and a path, and every
/// child that declares a schema declares its full metadata.
pub proof fn lemma_admin_operations_ready()
    ensures
        endpoints_ready(admin_operations()),
        schemas_ready(admin_operations()),
{
    reveal(admin_operations);
    let ops = admin_operations();
    assert forall|i: int| 0 <= i < ops.len() && is_http_surface(#[trigger] ops[i].surface) implies endpoint_ready(ops[i]) by {
        if i == 0 {
        } else if i == 1 {
        } else if i == 2 {
        } else if i == 3 {
        } else if i == 4 {
        } else if i == 5 {
        } else if i == 6 {
        } else if i == 7 {
        } else if i == 8 {
        } else if i == 9 {
        } else if i == 10 {
        } else if i == 11 {
        } else if i == 12 {
        }
    }
    assert forall|i: int, j: int| 0 <= i < ops.len() && 0 <= j < ops[i].contracts@.len() implies schema_ready(#[trigger] ops[i].contracts@[j]) by {
        if i == 0 {
            if j == 0 {
            } else if j == 1 {
            }
        } else if i == 1 {
            if j == 0 {
            } else if j == 1 {
            } else if j == 2 {
            }
        } else if i == 2 {
            if j == 0 {
            } else if j == 1 {
            }
        } else if i == 3 {
            if j == 0 {
            } else if j == 1 {
            }
        } else if i == 4 {
            if j == 0 {
            } else if j == 1 {
            } else if j == 2 {
            }
        } else if i == 5 {
            if j == 0 {
            } else if j == 1 {
            } else if j == 2 {
            }
        } else if i == 6 {
            if j == 0 {
            } else if j == 1 {
            } else if j == 2 {
            }
        } else if i == 7 {
            if j == 0 {
            } else if j == 1 {
            }
        } else if i == 8 {
            if j == 0 {
            } else if j == 1 {
            }
        } else if i == 9 {
            if j == 0 {
            } else if j == 1 {
            } else if j == 2 {
            }
        } else if i == 10 {
            if j == 0 {
            } else if j == 1 {
            } else if j == 2 {
            }
        } else if i == 11 {
            if j == 0 {
            } else if j == 1 {
            } else if j == 2 {
            }
        } else if i == 12 {
            if j == 0 {
            } else if j == 1 {
            } else if j == 2 {
            }
        }
    }
}

/// The operation declarations of this catalog, in source order.
pub fn operation_declarations() -> (r: Vec<OperationDeclaration>)
    ensures
        r@ == admin_operations(),
{
    reveal(admin_operations);
    vec![
        OperationDeclaration {
            operation_id: "api.health",
            surface: ContractSurface::Api,
            method: Some(HttpMethod::Get),
            path: Some("/health"),
            operation: "GET /health",
            key: "GET /health",
            migration: MigrationState::Generated,
            exclusion: None,
            shared_components: &[],
            header_profile: Some(ApiHeaderProfile::Locale),
            mcp_policy: Some(McpPolicy {
                exposure: McpExposure::HostAdmin,
                tool_bindings: &[],
                invariants: &[],
            }),
            obligation_overrides: &[],
            contracts: &[
                ContractDeclaration {
                    id: "api.health.headers",
                    path: "GET /health headers",
                    operation: Some("GET /health"),
                    location: Some(HttpTransportLocation::Headers),
                    operation_key: Some("GET /health"),
                    parameters: &[
                        WireParameter {
                            name: "Accept-Language",
                            cardinality: Some(WireParameterCardinality::OptionalOne),
                        },
                    ],
                    direction: ContractDirection::Deserialize,
                    strictness: ContractStrictness::DenyUnknownFields,
                    granularity: ContractGranularity::Exact,
                    binding: ContractBinding::ExactSurface,
                    schema_id: Some("urn:kanban-tool:schema:api:health-headers:v1"),
                    artifact_path: Some("api/health-headers.v1.schema.json"),
                    schema_title: Some("Kanban api.health request headers v1"),
                    valid_fixture: Some("schemas/fixtures/api/headers/locale-headers.v1.valid.json"),
                    invalid_fixture: Some("schemas/fixtures/api/headers/locale-headers.v1.invalid.json"),
                    exclusion: None,
                    producer: None,
                    consumer: None,
                },
                ContractDeclaration {
                    id: "api.health.response",
                    path: "GET /health response",
                    operation: Some("localhost health report"),
                    location: Some(HttpTransportLocation::Success),
                    operation_key: Some("GET /health"),
                    parameters: &[],
                    direction: ContractDirection::Serialize,
                    strictness: ContractStrictness::DenyUnknownFields,
                    granularity: ContractGranularity::Exact,
                    binding: ContractBinding::ExactSurface,
                    schema_id: Some("urn:kanban-tool:schema:api:health-response:v1"),
                    artifact_path: Some("api/health-response.v1.schema.json"),
                    schema_title: Some("Kanban API health response v1"),
                    valid_fixture: Some("schemas/fixtures/api/health-response.v1.valid.json"),
                    invalid_fixture: Some("schemas/fixtures/api/health-response.v1.invalid.json"),
                    exclusion: None,
                    producer: None,
                    consumer: None,
                },
            ],
        },
        OperationDeclaration {
            operation_id: "api.get-stats",
            surface: ContractSurface::Api,
            method: Some(HttpMethod::Get),
            path: Some("/api/v1/stats"),
            operation: "GET /api/v1/stats",
            key: "GET /api/v1/stats",
            migration: MigrationState::Generated,
            exclusion: None,
            shared_components: &[],
            header_profile: Some(ApiHeaderProfile::Locale),
            mcp_policy: Some(McpPolicy {
                exposure: McpExposure::Domain,
                tool_bindings: &[
                    McpToolBinding {
                        tool_name: "stats",
                        http_operations: &[
                            "api.get-stats",
                        ],
                    },
                ],
                invariants: &[
                    McpOperationInvariant::CanonicalHostOnly,
                    McpOperationInvariant::SharedApplicationService,
                    McpOperationInvariant::NoHostAdminSurface,
                ],
            }),
            obligation_overrides: &[],
            contracts: &[
                ContractDeclaration {
                    id: "api.get-stats.query",
                    path: "GET /api/v1/stats query",
                    operation: Some("GET /api/v1/stats"),
                    location: Some(HttpTransportLocation::Query),
                    operation_key: Some("GET /api/v1/stats"),
                    parameters: &[
                        WireParameter {
                            name: "board",
                            cardinality: Some(WireParameterCardinality::OptionalOne),
                        },
                    ],
                    direction: ContractDirection::Deserialize,
                    strictness: ContractStrictness::DenyUnknownFields,
                    granularity: ContractGranularity::Exact,
                    binding: ContractBinding::ExactSurface,
                    schema_id: Some("urn:kanban-tool:schema:api:get-stats-query:v1"),
                    artifact_path: Some("api/get-stats-query.v1.schema.json"),
                    schema_title: Some("Kanban get stats query v1"),
                    valid_fixture: Some("schemas/fixtures/api/get-stats-query.v1.valid.json"),
                    invalid_fixture: Some("schemas/fixtures/api/get-stats-query.v1.invalid.json"),
                    exclusion: None,
                    producer: None,
                    consumer: None,
                },
                ContractDeclaration {
                    id: "api.get-stats.headers",
                    path: "GET /api/v1/stats headers",
                    operation: Some("GET /api/v1/stats"),
                    location: Some(HttpTransportLocation::Headers),
                    operation_key: Some("GET /api/v1/stats"),
                    parameters: &[
                        WireParameter {
                            name: "Accept-Language",
                            cardinality: Some(WireParameterCardinality::OptionalOne),
                        },
                    ],
                    direction: ContractDirection::Deserialize,
                    strictness: ContractStrictness::DenyUnknownFields,
                    granularity: ContractGranularity::Exact,
                    binding: ContractBinding::ExactSurface,
                    schema_id: Some("urn:kanban-tool:schema:api:get-stats-headers:v1"),
                    artifact_path: Some("api/get-stats-headers.v1.schema.json"),
                    schema_title: Some("Kanban api.get-stats request headers v1"),
                    valid_fixture: Some("schemas/fixtures/api/headers/locale-headers.v1.valid.json"),
                    invalid_fixture: Some("schemas/fixtures/api/headers/locale-headers.v1.invalid.json"),
                    exclusion: None,
                    producer: None,
                    consumer: None,
                },
                ContractDeclaration {
                    id: "api.get-stats.response",
                    path: "GET /api/v1/stats response",
                    operation: Some("GET /api/v1/stats"),
                    location: Some(HttpTransportLocation::Success),
                    operation_key: Some("GET /api/v1/stats"),
                    parameters: &[],
                    direction: ContractDirection::Serialize,
                    strictness: ContractStrictness::DenyUnknownFields,
                    granularity: ContractGranularity::Exact,
                    binding: ContractBinding::ExactSurface,
                    schema_id: Some("urn:kanban-tool:schema:api:get-stats-response:v1"),
                    artifact_path: Some("api/get-stats-response.v1.schema.json"),
                    schema_title: Some("Kanban get stats response v1"),
                    valid_fixture: Some("schemas/fixtures/api/get-stats-response.v1.valid.json"),
                    invalid_fixture: Some("schemas/fixtures/api/get-stats-response.v1.invalid.json"),
                    exclusion: None,
                    producer: None,
                    consumer: None,
                },
            ],
        },
        OperationDeclaration {
            operation_id: "api.doctor",
            surface: ContractSurface::Api,
            method: Some(HttpMethod::Get),
            path: Some("/api/v1/maintenance/doctor"),
            operation: "GET /api/v1/maintenance/doctor",
            key: "GET /api/v1/maintenance/doctor",
            migration: MigrationState::Generated,
            exclusion: None,
            shared_components: &[],
            header_profile: Some(ApiHeaderProfile::Locale),
            mcp_policy: Some(McpPolicy {
                exposure: McpExposure::HostAdmin,
                tool_bindings: &[],
                invariants: &[],
            }),
            obligation_overrides: &[],
            contracts: &[
                ContractDeclaration {
                    id: "api.doctor.headers",
                    path: "GET /api/v1/maintenance/doctor headers",
                    operation: Some("GET /api/v1/maintenance/doctor"),
                    location: Some(HttpTransportLocation::Headers),
                    operation_key: Some("GET /api/v1/maintenance/doctor"),
                    parameters: &[
                        WireParameter {
                            name: "Accept-Language",
                            cardinality: Some(WireParameterCardinality::OptionalOne),
                        },
                    ],
                    direction: ContractDirection::Deserialize,
                    strictness: ContractStrictness::DenyUnknownFields,
                    granularity: ContractGranularity::Exact,
                    binding: ContractBinding::ExactSurface,
                    schema_id: Some("urn:kanban-tool:schema:api:doctor-headers:v1"),
                    artifact_path: Some("api/doctor-headers.v1.schema.json"),
                    schema_title: Some("Kanban api.doctor request headers v1"),
                    valid_fixture: Some("schemas/fixtures/api/headers/locale-headers.v1.valid.json"),
                    invalid_fixture: Some("schemas/fixtures/api/headers/locale-headers.v1.invalid.json"),
                    exclusion: None,
                    producer: None,
                    consumer: None,
                },
                ContractDeclaration {
                    id: "api.doctor.response",
                    path: "GET /api/v1/maintenance/doctor response",
                    operation: Some("GET /api/v1/maintenance/doctor"),
                    location: Some(HttpTransportLocation::Success),
                    operation_key: Some("GET /api/v1/maintenance/doctor"),
                    parameters: &[],
                    direction: ContractDirection::Serialize,
                    strictness: ContractStrictness::DenyUnknownFields,
                    granularity: ContractGranularity::Exact,
                    binding: ContractBinding::ExactSurface,
                    schema_id: Some("urn:kanban-tool:schema:api:doctor-response:v1"),
                    artifact_path: Some("api/doctor-response.v1.schema.json"),
                    schema_title: Some("Kanban doctor response v1"),
                    valid_fixture: Some("schemas/fixtures/api/doctor-response.v1.valid.json"),
                    invalid_fixture: Some("schemas/fixtures/api/doctor-response.v1.invalid.json"),
                    exclusion: None,
                    producer: None,
                    consumer: None,
                },
            ],
        },
        OperationDeclaration {
            operation_id: "api.checkpoint",
            surface: ContractSurface::Api,
            method: Some(HttpMethod::Post),
            path: Some("/api/v1/maintenance/checkpoint"),
            operation: "POST /api/v1/maintenance/checkpoint",
            key: "POST /api/v1/maintenance/checkpoint",
            migration: MigrationState::Generated,
            exclusion: None,
            shared_components: &[],
            header_profile: Some(ApiHeaderProfile::Locale),
            mcp_policy: Some(McpPolicy {
                exposure: McpExposure::HostAdmin,
                tool_bindings: &[],
                invariants: &[],
            }),
            obligation_overrides: &[],
            contracts: &[
                ContractDeclaration {
                    id: "api.checkpoint.headers",
                    path: "POST /api/v1/maintenance/checkpoint headers",
                    operation: Some("POST /api/v1/maintenance/checkpoint"),
                    location: Some(HttpTransportLocation::Headers),
                    operation_key: Some("POST /api/v1/maintenance/checkpoint"),
                    parameters: &[
                        WireParameter {
                            name: "Accept-Language",
                            cardinality: Some(WireParameterCardinality::OptionalOne),
                        },
                    ],
                    direction: ContractDirection::Deserialize,
                    strictness: ContractStrictness::DenyUnknownFields,
                    granularity: ContractGranularity::Exact,
                    binding: ContractBinding::ExactSurface,
                    schema_id: Some("urn:kanban-tool:schema:api:checkpoint-headers:v1"),
                    artifact_path: Some("api/checkpoint-headers.v1.schema.json"),
                    schema_title: Some("Kanban api.checkpoint request headers v1"),
                    valid_fixture: Some("schemas/fixtures/api/headers/locale-headers.v1.valid.json"),
                    invalid_fixture: Some("schemas/fixtures/api/headers/locale-headers.v1.invalid.json"),
                    exclusion: None,
                    producer: None,
                    consumer: None,
                },
                ContractDeclaration {
                    id: "api.checkpoint.response",
                    path: "POST /api/v1/maintenance/checkpoint response",
                    operation: Some("POST /api/v1/maintenance/checkpoint"),
                    location: Some(HttpTransportLocation::Success),
                    operation_key: Some("POST /api/v1/maintenance/checkpoint"),
                    parameters: &[],
                    direction: ContractDirection::Serialize,
                    strictness: ContractStrictness::DenyUnknownFields,
                    granularity: ContractGranularity::Exact,
                    binding: ContractBinding::ExactSurface,
                    schema_id: Some("urn:kanban-tool:schema:api:checkpoint-response:v1"),
                    artifact_path: Some("api/checkpoint-response.v1.schema.json"),
                    schema_title: Some("Kanban checkpoint response v1"),
                    valid_fixture: Some("schemas/fixtures/api/checkpoint-response.v1.valid.json"),
                    invalid_fixture: Some("schemas/fixtures/api/checkpoint-response.v1.invalid.json"),
                    exclusion: None,
                    producer: None,
                    consumer: None,
                },
            ],
        },
        OperationDeclaration {
            operation_id: "api.maintenance-backup",
            surface: ContractSurface::Api,
            method: Some(HttpMethod::Post),
            path: Some("/api/v1/maintenance/backup"),
            operation: "POST /api/v1/maintenance/backup",
            key: "POST /api/v1/maintenance/backup",
            migration: MigrationState::Generated,
            exclusion: None,
            shared_components: &[],
            header_profile: Some(ApiHeaderProfile::LocaleJson),
            mcp_policy: Some(McpPolicy {
                exposure: McpExposure::HostAdmin,
                tool_bindings: &[],
                invariants: &[],
            }),
            obligation_overrides: &[],
            contracts: &[
                ContractDeclaration {
                    id: "api.maintenance-backup.headers",
                    path: "POST /api/v1/maintenance/backup headers",
                    operation: Some("POST /api/v1/maintenance/backup"),
                    location: Some(HttpTransportLocation::Headers),
                    operation_key: Some("POST /api/v1/maintenance/backup"),
                    parameters: &[
                        WireParameter {
                            name: "Accept-Language",
                            cardinality: Some(WireParameterCardinality::OptionalOne),
                        },
                        WireParameter {
                            name: "Content-Type",
                            cardinality: Some(WireParameterCardinality::RequiredOne),
                        },
                    ],
                    direction: ContractDirection::Deserialize,
                    strictness: ContractStrictness::DenyUnknownFields,
                    granularity: ContractGranularity::Exact,
                    binding: ContractBinding::ExactSurface,
                    schema_id: Some("urn:kanban-tool:schema:api:maintenance-backup-headers:v1"),
                    artifact_path: Some("api/maintenance-backup-headers.v1.schema.json"),
                    schema_title: Some("Kanban api.maintenance-backup request headers v1"),
                    valid_fixture: Some("schemas/fixtures/api/headers/locale-json-headers.v1.valid.json"),
                    invalid_fixture: Some("schemas/fixtures/api/headers/locale-json-headers.v1.invalid.json"),
                    exclusion: None,
                    producer: None,
                    consumer: None,
                },
                ContractDeclaration {
                    id: "api.maintenance-backup.request",
                    path: "POST /api/v1/maintenance/backup body",
                    operation: Some("POST /api/v1/maintenance/backup"),
                    location: Some(HttpTransportLocation::Body),
                    operation_key: Some("POST /api/v1/maintenance/backup"),
                    parameters: &[],
                    direction: ContractDirection::Deserialize,
                    strictness: ContractStrictness::DenyUnknownFields,
                    granularity: ContractGranularity::Exact,
                    binding: ContractBinding::ExactSurface,
                    schema_id: Some("urn:kanban-tool:schema:api:maintenance-backup-request:v1"),
                    artifact_path: Some("api/maintenance-backup-request.v1.schema.json"),
                    schema_title: Some("Kanban maintenance backup request v1"),
                    valid_fixture: Some("schemas/fixtures/api/maintenance-backup-request.v1.valid.json"),
                    invalid_fixture: Some("schemas/fixtures/api/maintenance-backup-request.v1.invalid.json"),
                    exclusion: None,
                    producer: None,
                    consumer: None,
                },
                ContractDeclaration {
                    id: "api.maintenance-backup.response",
                    path: "POST /api/v1/maintenance/backup response",
                    operation: Some("POST /api/v1/maintenance/backup"),
                    location: Some(HttpTransportLocation::Success),
                    operation_key: Some("POST /api/v1/maintenance/backup"),
                    parameters: &[],
                    direction: ContractDirection::Serialize,
                    strictness: ContractStrictness::DenyUnknownFields,
                    granularity: ContractGranularity::Exact,
                    binding: ContractBinding::ExactSurface,
                    schema_id: Some("urn:kanban-tool:schema:api:maintenance-backup-response:v1"),
                    artifact_path: Some("api/maintenance-backup-response.v1.schema.json"),
                    schema_title: Some("Kanban maintenance backup response v1"),
                    valid_fixture: Some("schemas/fixtures/api/maintenance-backup-response.v1.valid.json"),
                    invalid_fixture: Some("schemas/fixtures/api/maintenance-backup-response.v1.invalid.json"),
                    exclusion: None,
                    producer: None,
                    consumer: None,
                },
            ],
        },
        OperationDeclaration {
            operation_id: "api.maintenance-export",
            surface: ContractSurface::Api,
            method: Some(HttpMethod::Post),
            path: Some("/api/v1/maintenance/export"),
            operation: "POST /api/v1/maintenance/export",
            key: "POST /api/v1/maintenance/export",
            migration: MigrationState::Generated,
            exclusion: None,
            shared_components: &[],
            header_profile: Some(ApiHeaderProfile::LocaleJson),
            mcp_policy: Some(McpPolicy {
                exposure: McpExposure::HostAdmin,
                tool_bindings: &[],
                invariants: &[],
            }),
            obligation_overrides: &[],
            contracts: &[
                ContractDeclaration {
                    id: "api.maintenance-export.headers",
                    path: "POST /api/v1/maintenance/export headers",
                    operation: Some("POST /api/v1/maintenance/export"),
                    location: Some(HttpTransportLocation::Headers),
                    operation_key: Some("POST /api/v1/maintenance/export"),
                    parameters: &[
                        WireParameter {
                            name: "Accept-Language",
                            cardinality: Some(WireParameterCardinality::OptionalOne),
                        },
                        WireParameter {
                            name: "Content-Type",
                            cardinality: Some(WireParameterCardinality::RequiredOne),
                        },
                    ],
                    direction: ContractDirection::Deserialize,
                    strictness: ContractStrictness::DenyUnknownFields,
                    granularity: ContractGranularity::Exact,
                    binding: ContractBinding::ExactSurface,
                    schema_id: Some("urn:kanban-tool:schema:api:maintenance-export-headers:v1"),
                    artifact_path: Some("api/maintenance-export-headers.v1.schema.json"),
                    schema_title: Some("Kanban api.maintenance-export request headers v1"),
                    valid_fixture: Some("schemas/fixtures/api/headers/locale-json-headers.v1.valid.json"),
                    invalid_fixture: Some("schemas/fixtures/api/headers/locale-json-headers.v1.invalid.json"),
                    exclusion: None,
                    producer: None,
                    consumer: None,
                },
                ContractDeclaration {
                    id: "api.maintenance-export.request",
                    path: "POST /api/v1/maintenance/export body",
                    operation: Some("POST /api/v1/maintenance/export"),
                    location: Some(HttpTransportLocation::Body),
                    operation_key: Some("POST /api/v1/maintenance/export"),
                    parameters: &[],
                    direction: ContractDirection::Deserialize,
                    strictness: ContractStrictness::DenyUnknownFields,
                    granularity: ContractGranularity::Exact,
                    binding: ContractBinding::ExactSurface,
                    schema_id: Some("urn:kanban-tool:schema:api:maintenance-export-request:v1"),
                    artifact_path: Some("api/maintenance-export-request.v1.schema.json"),
                    schema_title: Some("Kanban maintenance export request v1"),
                    valid_fixture: Some("schemas/fixtures/api/maintenance-export-request.v1.valid.json"),
                    invalid_fixture: Some("schemas/fixtures/api/maintenance-export-request.v1.invalid.json"),
                    exclusion: None,
                    producer: None,
                    consumer: None,
                },
                ContractDeclaration {
                    id: "api.maintenance-export.response",
                    path: "POST /api/v1/maintenance/export response",
                    operation: Some("POST /api/v1/maintenance/export"),
                    location: Some(HttpTransportLocation::Success),
                    operation_key: Some("POST /api/v1/maintenance/export"),
                    parameters: &[],
                    direction: ContractDirection::Serialize,
                    strictness: ContractStrictness::DenyUnknownFields,
                    granularity: ContractGranularity::Exact,
                    binding: ContractBinding::ExactSurface,
                    schema_id: Some("urn:kanban-tool:schema:api:maintenance-export-response:v1"),
                    artifact_path: Some("api/maintenance-export-response.v1.schema.json"),
                    schema_title: Some("Kanban maintenance export response v1"),
                    valid_fixture: Some("schemas/fixtures/api/maintenance-export-response.v1.valid.json"),
                    invalid_fixture: Some("schemas/fixtures/api/maintenance-export-response.v1.invalid.json"),
                    exclusion: None,
                    producer: None,
                    consumer: None,
                },
            ],
        },
        OperationDeclaration {
            operation_id: "api.maintenance-import",
            surface: ContractSurface::Api,
            method: Some(HttpMethod::Post),
            path: Some("/api/v1/maintenance/import"),
            operation: "POST /api/v1/maintenance/import",
            key: "POST /api/v1/maintenance/import",
            migration: MigrationState::Generated,
            exclusion: None,
            shared_components: &[],
            header_profile: Some(ApiHeaderProfile::LocaleJson),
            mcp_policy: Some(McpPolicy {
                exposure: McpExposure::HostAdmin,
                tool_bindings: &[],
                invariants: &[],
            }),
            obligation_overrides: &[],
            contracts: &[
                ContractDeclaration {
                    id: "api.maintenance-import.headers",
                    path: "POST /api/v1/maintenance/import headers",
                    operation: Some("POST /api/v1/maintenance/import"),
                    location: Some(HttpTransportLocation::Headers),
                    operation_key: Some("POST /api/v1/maintenance/import"),
                    parameters: &[
                        WireParameter {
                            name: "Accept-Language",
                            cardinality: Some(WireParameterCardinality::OptionalOne),
                        },
                        WireParameter {
                            name: "Content-Type",
                            cardinality: Some(WireParameterCardinality::RequiredOne),
                        },
                    ],
                    direction: ContractDirection::Deserialize,
                    strictness: ContractStrictness::DenyUnknownFields,
                    granularity: ContractGranularity::Exact,
                    binding: ContractBinding::ExactSurface,
                    schema_id: Some("urn:kanban-tool:schema:api:maintenance-import-headers:v1"),
                    artifact_path: Some("api/maintenance-import-headers.v1.schema.json"),
                    schema_title: Some("Kanban api.maintenance-import request headers v1"),
                    valid_fixture: Some("schemas/fixtures/api/headers/locale-json-headers.v1.valid.json"),
                    invalid_fixture: Some("schemas/fixtures/api/headers/locale-json-headers.v1.invalid.json"),
                    exclusion: None,
                    producer: None,
                    consumer: None,
                },
                ContractDeclaration {
                    id: "api.maintenance-import.request",
                    path: "POST /api/v1/maintenance/import body",
                    operation: Some("POST /api/v1/maintenance/import"),
                    location: Some(HttpTransportLocation::Body),
                    operation_key: Some("POST /api/v1/maintenance/import"),
                    parameters: &[],
                    direction: ContractDirection::Deserialize,
                    strictness: ContractStrictness::DenyUnknownFields,
                    granularity: ContractGranularity::Exact,
                    binding: ContractBinding::ExactSurface,
                    schema_id: Some("urn:kanban-tool:schema:api:maintenance-import-request:v1"),
                    artifact_path: Some("api/maintenance-import-request.v1.schema.json"),
                    schema_title: Some("Kanban maintenance import request v1"),
                    valid_fixture: Some("schemas/fixtures/api/maintenance-import-request.v1.valid.json"),
                    invalid_fixture: Some("schemas/fixtures/api/maintenance-import-request.v1.invalid.json"),
                    exclusion: None,
                    producer: None,
                    consumer: None,
                },
                ContractDeclaration {
                    id: "api.maintenance-import.response",
                    path: "POST /api/v1/maintenance/import response",
                    operation: Some("POST /api/v1/maintenance/import"),
                    location: Some(HttpTransportLocation::Success),
                    operation_key: Some("POST /api/v1/maintenance/import"),
                    parameters: &[],
                    direction: ContractDirection::Serialize,
                    strictness: ContractStrictness::DenyUnknownFields,
                    granularity: ContractGranularity::Exact,
                    binding: ContractBinding::ExactSurface,
                    schema_id: Some("urn:kanban-tool:schema:api:maintenance-import-response:v1"),
                    artifact_path: Some("api/maintenance-import-response.v1.schema.json"),
                    schema_title: Some("Kanban maintenance import response v1"),
                    valid_fixture: Some("schemas/fixtures/api/maintenance-import-response.v1.valid.json"),
                    invalid_fixture: Some("schemas/fixtures/api/maintenance-import-response.v1.invalid.json"),
                    exclusion: None,
                    producer: None,
                    consumer: None,
                },
            ],
        },
        OperationDeclaration {
            operation_id: "api.maintenance-vacuum",
            surface: ContractSurface::Api,
            method: Some(HttpMethod::Post),
            path: Some("/api/v1/maintenance/vacuum"),
            operation: "POST /api/v1/maintenance/vacuum",
            key: "POST /api/v1/maintenance/vacuum",
            migration: MigrationState::Generated,
            exclusion: None,
            shared_components: &[],
            header_profile: Some(ApiHeaderProfile::Locale),
            mcp_policy: Some(McpPolicy {
                exposure: McpExposure::HostAdmin,
                tool_bindings: &[],
                invariants: &[],
            }),
            obligation_overrides: &[],
            contracts: &[
                ContractDeclaration {
                    id: "api.maintenance-vacuum.headers",
                    path: "POST /api/v1/maintenance/vacuum headers",
                    operation: Some("POST /api/v1/maintenance/vacuum"),
                    location: Some(HttpTransportLocation::Headers),
                    operation_key: Some("POST /api/v1/maintenance/vacuum"),
                    parameters: &[
                        WireParameter {
                            name: "Accept-Language",
                            cardinality: Some(WireParameterCardinality::OptionalOne),
                        },
                    ],
                    direction: ContractDirection::Deserialize,
                    strictness: ContractStrictness::DenyUnknownFields,
                    granularity: ContractGranularity::Exact,
                    binding: ContractBinding::ExactSurface,
                    schema_id: Some("urn:kanban-tool:schema:api:maintenance-vacuum-headers:v1"),
                    artifact_path: Some("api/maintenance-vacuum-headers.v1.schema.json"),
                    schema_title: Some("Kanban api.maintenance-vacuum request headers v1"),
                    valid_fixture: Some("schemas/fixtures/api/headers/locale-headers.v1.valid.json"),
                    invalid_fixture: Some("schemas/fixtures/api/headers/locale-headers.v1.invalid.json"),
                    exclusion: None,
                    producer: None,
                    consumer: None,
                },
                ContractDeclaration {
                    id: "api.maintenance-vacuum.response",
                    path: "POST /api/v1/maintenance/vacuum response",
                    operation: Some("POST /api/v1/maintenance/vacuum"),
                    location: Some(HttpTransportLocation::Success),
                    operation_key: Some("POST /api/v1/maintenance/vacuum"),
                    parameters: &[],
                    direction: ContractDirection::Serialize,
                    strictness: ContractStrictness::DenyUnknownFields,
                    granularity: ContractGranularity::Exact,
                    binding: ContractBinding::ExactSurface,
                    schema_id: Some("urn:kanban-tool:schema:api:maintenance-vacuum-response:v1"),
                    artifact_path: Some("api/maintenance-vacuum-response.v1.schema.json"),
                    schema_title: Some("Kanban maintenance vacuum response v1"),
                    valid_fixture: Some("schemas/fixtures/api/maintenance-vacuum-response.v1.valid.json"),
                    invalid_fixture: Some("schemas/fixtures/api/maintenance-vacuum-response.v1.invalid.json"),
                    exclusion: None,
                    producer: None,
                    consumer: None,
                },
            ],
        },
        OperationDeclaration {
            operation_id: "api.maintenance-status",
            surface: ContractSurface::Api,
            method: Some(HttpMethod::Get),
            path: Some("/api/v1/maintenance/status"),
            operation: "GET /api/v1/maintenance/status",
            key: "GET /api/v1/maintenance/status",
            migration: MigrationState::Generated,
            exclusion: None,
            shared_components: &[],
            header_profile: Some(ApiHeaderProfile::Locale),
            mcp_policy: Some(McpPolicy {
                exposure: McpExposure::HostAdmin,
                tool_bindings: &[],
                invariants: &[],
            }),
            obligation_overrides: &[],
            contracts: &[
                ContractDeclaration {
                    id: "api.maintenance-status.headers",
                    path: "GET /api/v1/maintenance/status headers",
                    operation: Some("GET /api/v1/maintenance/status"),
                    location: Some(HttpTransportLocation::Headers),
                    operation_key: Some("GET /api/v1/maintenance/status"),
                    parameters: &[
                        WireParameter {
                            name: "Accept-Language",
                            cardinality: Some(WireParameterCardinality::OptionalOne),
                        },
                    ],
                    direction: ContractDirection::Deserialize,
                    strictness: ContractStrictness::DenyUnknownFields,
                    granularity: ContractGranularity::Exact,
                    binding: ContractBinding::ExactSurface,
                    schema_id: Some("urn:kanban-tool:schema:api:maintenance-status-headers:v1"),
                    artifact_path: Some("api/maintenance-status-headers.v1.schema.json"),
                    schema_title: Some("Kanban api.maintenance-status request headers v1"),
                    valid_fixture: Some("schemas/fixtures/api/headers/locale-headers.v1.valid.json"),
                    invalid_fixture: Some("schemas/fixtures/api/headers/locale-headers.v1.invalid.json"),
                    exclusion: None,
                    producer: None,
                    consumer: None,
                },
                ContractDeclaration {
                    id: "api.maintenance-status.response",
                    path: "GET /api/v1/maintenance/status response",
                    operation: Some("GET /api/v1/maintenance/status"),
                    location: Some(HttpTransportLocation::Success),
                    operation_key: Some("GET /api/v1/maintenance/status"),
                    parameters: &[],
                    direction: ContractDirection::Serialize,
                    strictness: ContractStrictness::DenyUnknownFields,
                    granularity: ContractGranularity::Exact,
                    binding: ContractBinding::ExactSurface,
                    schema_id: Some("urn:kanban-tool:schema:api:maintenance-status-response:v1"),
                    artifact_path: Some("api/maintenance-status-response.v1.schema.json"),
                    schema_title: Some("Kanban maintenance status response v1"),
                    valid_fixture: Some("schemas/fixtures/api/maintenance-status-response.v1.valid.json"),
                    invalid_fixture: Some("schemas/fixtures/api/maintenance-status-response.v1.invalid.json"),
                    exclusion: None,
                    producer: None,
                    consumer: None,
                },
            ],
        },
        OperationDeclaration {
            operation_id: "api.maintenance-run",
            surface: ContractSurface::Api,
            method: Some(HttpMethod::Post),
            path: Some("/api/v1/maintenance/run"),
            operation: "POST /api/v1/maintenance/run",
            key: "POST /api/v1/maintenance/run",
            migration: MigrationState::Generated,
            exclusion: None,
            shared_components: &[],
            header_profile: Some(ApiHeaderProfile::LocaleJson),
            mcp_policy: Some(McpPolicy {
                exposure: McpExposure::HostAdmin,
                tool_bindings: &[],
                invariants: &[],
            }),
            obligation_overrides: &[],
            contracts: &[
                ContractDeclaration {
                    id: "api.maintenance-run.headers",
                    path: "POST /api/v1/maintenance/run headers",
                    operation: Some("POST /api/v1/maintenance/run"),
                    location: Some(HttpTransportLocation::Headers),
                    operation_key: Some("POST /api/v1/maintenance/run"),
                    parameters: &[
                        WireParameter {
                            name: "Accept-Language",
                            cardinality: Some(WireParameterCardinality::OptionalOne),
                        },
                        WireParameter {
                            name: "Content-Type",
                            cardinality: Some(WireParameterCardinality::RequiredOne),
                        },
                    ],
                    direction: ContractDirection::Deserialize,
                    strictness: ContractStrictness::DenyUnknownFields,
                    granularity: ContractGranularity::Exact,
                    binding: ContractBinding::ExactSurface,
                    schema_id: Some("urn:kanban-tool:schema:api:maintenance-run-headers:v1"),
                    artifact_path: Some("api/maintenance-run-headers.v1.schema.json"),
                    schema_title: Some("Kanban api.maintenance-run request headers v1"),
                    valid_fixture: Some("schemas/fixtures/api/headers/locale-json-headers.v1.valid.json"),
                    invalid_fixture: Some("schemas/fixtures/api/headers/locale-json-headers.v1.invalid.json"),
                    exclusion: None,
                    producer: None,
                    consumer: None,
                },
                ContractDeclaration {
                    id: "api.maintenance-run.request",
                    path: "POST /api/v1/maintenance/run body",
                    operation: Some("POST /api/v1/maintenance/run"),
                    location: Some(HttpTransportLocation::Body),
                    operation_key: Some("POST /api/v1/maintenance/run"),
                    parameters: &[],
                    direction: ContractDirection::Deserialize,
                    strictness: ContractStrictness::DenyUnknownFields,
                    granularity: ContractGranularity::Exact,
                    binding: ContractBinding::ExactSurface,
                    schema_id: Some("urn:kanban-tool:schema:api:maintenance-run-request:v1"),
                    artifact_path: Some("api/maintenance-run-request.v1.schema.json"),
                    schema_title: Some("Kanban maintenance run request v1"),
                    valid_fixture: Some("schemas/fixtures/api/maintenance-run-request.v1.valid.json"),
                    invalid_fixture: Some("schemas/fixtures/api/maintenance-run-request.v1.invalid.json"),
                    exclusion: None,
                    producer: None,
                    consumer: None,
                },
                ContractDeclaration {
                    id: "api.maintenance-run.response",
                    path: "POST /api/v1/maintenance/run response",
                    operation: Some("POST /api/v1/maintenance/run"),
                    location: Some(HttpTransportLocation::Success),
                    operation_key: Some("POST /api/v1/maintenance/run"),
                    parameters: &[],
                    direction: ContractDirection::Serialize,
                    strictness: ContractStrictness::DenyUnknownFields,
                    granularity: ContractGranularity::Exact,
                    binding: ContractBinding::ExactSurface,
                    schema_id: Some("urn:kanban-tool:schema:api:maintenance-run-response:v1"),
                    artifact_path: Some("api/maintenance-run-response.v1.schema.json"),
                    schema_title: Some("Kanban maintenance run response v1"),
                    valid_fixture: Some("schemas/fixtures/api/maintenance-run-response.v1.valid.json"),
                    invalid_fixture: Some("schemas/fixtures/api/maintenance-run-response.v1.invalid.json"),
                    exclusion: None,
                    producer: None,
                    consumer: None,
                },
            ],
        },
        OperationDeclaration {
            operation_id: "api.maintenance-rebuild",
            surface: ContractSurface::Api,
            method: Some(HttpMethod::Post),
            path: Some("/api/v1/maintenance/rebuild"),
            operation: "POST /api/v1/maintenance/rebuild",
            key: "POST /api/v1/maintenance/rebuild",
            migration: MigrationState::Generated,
            exclusion: None,
            shared_components: &[],
            header_profile: Some(ApiHeaderProfile::LocaleJson),
            mcp_policy: Some(McpPolicy {
                exposure: McpExposure::HostAdmin,
                tool_bindings: &[],
                invariants: &[],
            }),
            obligation_overrides: &[],
            contracts: &[
                ContractDeclaration {
                    id: "api.maintenance-rebuild.headers",
                    path: "POST /api/v1/maintenance/rebuild headers",
                    operation: Some("POST /api/v1/maintenance/rebuild"),
                    location: Some(HttpTransportLocation::Headers),
                    operation_key: Some("POST /api/v1/maintenance/rebuild"),
                    parameters: &[
                        WireParameter {
                            name: "Accept-Language",
                            cardinality: Some(WireParameterCardinality::OptionalOne),
                        },
                        WireParameter {
                            name: "Content-Type",
                            cardinality: Some(WireParameterCardinality::RequiredOne),
                        },
                    ],
                    direction: ContractDirection::Deserialize,
                    strictness: ContractStrictness::DenyUnknownFields,
                    granularity: ContractGranularity::Exact,
                    binding: ContractBinding::ExactSurface,
                    schema_id: Some("urn:kanban-tool:schema:api:maintenance-rebuild-headers:v1"),
                    artifact_path: Some("api/maintenance-rebuild-headers.v1.schema.json"),
                    schema_title: Some("Kanban api.maintenance-rebuild request headers v1"),
                    valid_fixture: Some("schemas/fixtures/api/headers/locale-json-headers.v1.valid.json"),
                    invalid_fixture: Some("schemas/fixtures/api/headers/locale-json-headers.v1.invalid.json"),
                    exclusion: None,
                    producer: None,
                    consumer: None,
                },
                ContractDeclaration {
                    id: "api.maintenance-rebuild.request",
                    path: "POST /api/v1/maintenance/rebuild body",
                    operation: Some("POST /api/v1/maintenance/rebuild"),
                    location: Some(HttpTransportLocation::Body),
                    operation_key: Some("POST /api/v1/maintenance/rebuild"),
                    parameters: &[],
                    direction: ContractDirection::Deserialize,
                    strictness: ContractStrictness::DenyUnknownFields,
                    granularity: ContractGranularity::Exact,
                    binding: ContractBinding::ExactSurface,
                    schema_id: Some("urn:kanban-tool:schema:api:maintenance-rebuild-request:v1"),
                    artifact_path: Some("api/maintenance-rebuild-request.v1.schema.json"),
                    schema_title: Some("Kanban maintenance rebuild request v1"),
                    valid_fixture: Some("schemas/fixtures/api/maintenance-rebuild-request.v1.valid.json"),
                    invalid_fixture: Some("schemas/fixtures/api/maintenance-rebuild-request.v1.invalid.json"),
                    exclusion: None,
                    producer: None,
                    consumer: None,
                },
                ContractDeclaration {
                    id: "api.maintenance-rebuild.response",
                    path: "POST /api/v1/maintenance/rebuild response",
                    operation: Some("POST /api/v1/maintenance/rebuild"),
                    location: Some(HttpTransportLocation::Success),
                    operation_key: Some("POST /api/v1/maintenance/rebuild"),
                    parameters: &[],
                    direction: ContractDirection::Serialize,
                    strictness: ContractStrictness::DenyUnknownFields,
                    granularity: ContractGranularity::Exact,
                    binding: ContractBinding::ExactSurface,
                    schema_id: Some("urn:kanban-tool:schema:api:maintenance-rebuild-response:v1"),
                    artifact_path: Some("api/maintenance-rebuild-response.v1.schema.json"),
                    schema_title: Some("Kanban maintenance rebuild response v1"),
                    valid_fixture: Some("schemas/fixtures/api/maintenance-rebuild-response.v1.valid.json"),
                    invalid_fixture: Some("schemas/fixtures/api/maintenance-rebuild-response.v1.invalid.json"),
                    exclusion: None,
                    producer: None,
                    consumer: None,
                },
            ],
        },
        OperationDeclaration {
            operation_id: "api.maintenance-cleanup",
            surface: ContractSurface::Api,
            method: Some(HttpMethod::Post),
            path: Some("/api/v1/maintenance/cleanup"),
            operation: "POST /api/v1/maintenance/cleanup",
            key: "POST /api/v1/maintenance/cleanup",
            migration: MigrationState::Generated,
            exclusion: None,
            shared_components: &[],
            header_profile: Some(ApiHeaderProfile::LocaleJson),
            mcp_policy: Some(McpPolicy {
                exposure: McpExposure::HostAdmin,
                tool_bindings: &[],
                invariants: &[],
            }),
            obligation_overrides: &[],
            contracts: &[
                ContractDeclaration {
                    id: "api.maintenance-cleanup.headers",
                    path: "POST /api/v1/maintenance/cleanup headers",
                    operation: Some("POST /api/v1/maintenance/cleanup"),
                    location: Some(HttpTransportLocation::Headers),
                    operation_key: Some("POST /api/v1/maintenance/cleanup"),
                    parameters: &[
                        WireParameter {
                            name: "Accept-Language",
                            cardinality: Some(WireParameterCardinality::OptionalOne),
                        },
                        WireParameter {
                            name: "Content-Type",
                            cardinality: Some(WireParameterCardinality::RequiredOne),
                        },
                    ],
                    direction: ContractDirection::Deserialize,
                    strictness: ContractStrictness::DenyUnknownFields,
                    granularity: ContractGranularity::Exact,
                    binding: ContractBinding::ExactSurface,
                    schema_id: Some("urn:kanban-tool:schema:api:maintenance-cleanup-headers:v1"),
                    artifact_path: Some("api/maintenance-cleanup-headers.v1.schema.json"),
                    schema_title: Some("Kanban api.maintenance-cleanup request headers v1"),
                    valid_fixture: Some("schemas/fixtures/api/headers/locale-json-headers.v1.valid.json"),
                    invalid_fixture: Some("schemas/fixtures/api/headers/locale-json-headers.v1.invalid.json"),
                    exclusion: None,
                    producer: None,
                    consumer: None,
                },
                ContractDeclaration {
                    id: "api.maintenance-cleanup.request",
                    path: "POST /api/v1/maintenance/cleanup body",
                    operation: Some("POST /api/v1/maintenance/cleanup"),
                    location: Some(HttpTransportLocation::Body),
                    operation_key: Some("POST /api/v1/maintenance/cleanup"),
                    parameters: &[],
                    direction: ContractDirection::Deserialize,
                    strictness: ContractStrictness::DenyUnknownFields,
                    granularity: ContractGranularity::Exact,
                    binding: ContractBinding::ExactSurface,
                    schema_id: Some("urn:kanban-tool:schema:api:maintenance-cleanup-request:v1"),
                    artifact_path: Some("api/maintenance-cleanup-request.v1.schema.json"),
                    schema_title: Some("Kanban maintenance cleanup request v1"),
                    valid_fixture: Some("schemas/fixtures/api/maintenance-cleanup-request.v1.valid.json"),
                    invalid_fixture: Some("schemas/fixtures/api/maintenance-cleanup-request.v1.invalid.json"),
                    exclusion: None,
                    producer: None,
                    consumer: None,
                },
                ContractDeclaration {
                    id: "api.maintenance-cleanup.response",
                    path: "POST /api/v1/maintenance/cleanup response",
                    operation: Some("POST /api/v1/maintenance/cleanup"),
                    location: Some(HttpTransportLocation::Success),
                    operation_key: Some("POST /api/v1/maintenance/cleanup"),
                    parameters: &[],
                    direction: ContractDirection::Serialize,
                    strictness: ContractStrictness::DenyUnknownFields,
                    granularity: ContractGranularity::Exact,
                    binding: ContractBinding::ExactSurface,
                    schema_id: Some("urn:kanban-tool:schema:api:maintenance-cleanup-response:v1"),
                    artifact_path: Some("api/maintenance-cleanup-response.v1.schema.json"),
                    schema_title: Some("Kanban maintenance cleanup response v1"),
                    valid_fixture: Some("schemas/fixtures/api/maintenance-cleanup-response.v1.valid.json"),
                    invalid_fixture: Some("schemas/fixtures/api/maintenance-cleanup-response.v1.invalid.json"),
                    exclusion: None,
                    producer: None,
                    consumer: None,
                },
            ],
        },
        OperationDeclaration {
            operation_id: "api.maintenance-import-v30",
            surface: ContractSurface::Api,
            method: Some(HttpMethod::Post),
            path: Some("/api/v1/maintenance/import-v30"),
            operation: "POST /api/v1/maintenance/import-v30",
            key: "POST /api/v1/maintenance/import-v30",
            migration: MigrationState::Generated,
            exclusion: None,
            shared_components: &[],
            header_profile: Some(ApiHeaderProfile::LocaleJson),
            mcp_policy: Some(McpPolicy {
                exposure: McpExposure::HostAdmin,
                tool_bindings: &[],
                invariants: &[],
            }),
            obligation_overrides: &[],
            contracts: &[
                ContractDeclaration {
                    id: "api.maintenance-import-v30.headers",
                    path: "POST /api/v1/maintenance/import-v30 headers",
                    operation: Some("POST /api/v1/maintenance/import-v30"),
                    location: Some(HttpTransportLocation::Headers),
                    operation_key: Some("POST /api/v1/maintenance/import-v30"),
                    parameters: &[
                        WireParameter {
                            name: "Accept-Language",
                            cardinality: Some(WireParameterCardinality::OptionalOne),
                        },
                        WireParameter {
                            name: "Content-Type",
                            cardinality: Some(WireParameterCardinality::RequiredOne),
                        },
                    ],
                    direction: ContractDirection::Deserialize,
                    strictness: ContractStrictness::DenyUnknownFields,
                    granularity: ContractGranularity::Exact,
                    binding: ContractBinding::ExactSurface,
                    schema_id: Some("urn:kanban-tool:schema:api:maintenance-import-v30-headers:v1"),
                    artifact_path: Some("api/maintenance-import-v30-headers.v1.schema.json"),
                    schema_title: Some("Kanban api.maintenance-import-v30 request headers v1"),
                    valid_fixture: Some("schemas/fixtures/api/headers/locale-json-headers.v1.valid.json"),
                    invalid_fixture: Some("schemas/fixtures/api/headers/locale-json-headers.v1.invalid.json"),
                    exclusion: None,
                    producer: None,
                    consumer: None,
                },
                ContractDeclaration {
                    id: "api.maintenance-import-v30.request",
                    path: "POST /api/v1/maintenance/import-v30 body",
                    operation: Some("POST /api/v1/maintenance/import-v30"),
                    location: Some(HttpTransportLocation::Body),
                    operation_key: Some("POST /api/v1/maintenance/import-v30"),
                    parameters: &[],
                    direction: ContractDirection::Deserialize,
                    strictness: ContractStrictness::DenyUnknownFields,
                    granularity: ContractGranularity::Exact,
                    binding: ContractBinding::ExactSurface,
                    schema_id: Some("urn:kanban-tool:schema:api:maintenance-import-v30-request:v1"),
                    artifact_path: Some("api/maintenance-import-v30-request.v1.schema.json"),
                    schema_title: Some("Kanban legacy SQLite v30 import request v1"),
                    valid_fixture: Some("schemas/fixtures/api/maintenance-import-v30-request.v1.valid.json"),
                    invalid_fixture: Some("schemas/fixtures/api/maintenance-import-v30-request.v1.invalid.json"),
                    exclusion: None,
                    producer: None,
                    consumer: None,
                },
                ContractDeclaration {
                    id: "api.maintenance-import-v30.response",
                    path: "POST /api/v1/maintenance/import-v30 response",
                    operation: Some("POST /api/v1/maintenance/import-v30"),
                    location: Some(HttpTransportLocation::Success),
                    operation_key: Some("POST /api/v1/maintenance/import-v30"),
                    parameters: &[],
                    direction: ContractDirection::Serialize,
                    strictness: ContractStrictness::DenyUnknownFields,
                    granularity: ContractGranularity::Exact,
                    binding: ContractBinding::ExactSurface,
                    schema_id: Some("urn:kanban-tool:schema:api:maintenance-import-v30-response:v1"),
                    artifact_path: Some("api/maintenance-import-v30-response.v1.schema.json"),
                    schema_title: Some("Kanban legacy SQLite v30 import response v1"),
                    valid_fixture: Some("schemas/fixtures/api/maintenance-import-v30-response.v1.valid.json"),
                    invalid_fixture: Some("schemas/fixtures/api/maintenance-import-v30-response.v1.invalid.json"),
                    exclusion: None,
                    producer: None,
                    consumer: None,
                },
            ],
        },
    ]
}

/// The inventory rows of the catalog, operation by operation.
pub fn operation_contracts() -> (r: Vec<OperationContract>)
    ensures
        r@ == catalog_contracts(admin_operations()),
{
    let ops = operation_declarations();
    project_contracts(&ops)
}

/// The endpoint descriptors of the catalog's API and SSE operations.
pub fn endpoint_catalog() -> (r: Vec<EndpointDescriptor>)
    ensures
        r@ == catalog_endpoints(admin_operations()),
{
    proof {
        lemma_admin_operations_ready();
    }
    let ops = operation_declarations();
    project_endpoints(&ops)
}

/// The endpoint descriptor with the given operation id.
pub fn endpoint_descriptor(id: &str) -> (r: Option<EndpointDescriptor>)
    ensures
        match first_index(catalog_endpoints(admin_operations()), has_endpoint_id(id@)) {
            Some(i) => r == Some(catalog_endpoints(admin_operations())[i]),
            None => r is None,
        },
{
    let endpoints = endpoint_catalog();
    find_endpoint(&endpoints, id)
}

/// The surface rows of the catalog, one per operation.
pub fn surface_catalog() -> (r: Vec<SurfaceOperation>)
    ensures
        r@.len() == admin_operations().len(),
        forall|i: int| 0 <= i < admin_operations().len() ==> (#[trigger] r@[i])@ == projected_surface(admin_operations()[i]),
{
    let ops = operation_declarations();
    project_surfaces(&ops)
}

/// The header profile declared on the operation with the given id.
pub fn header_profile(id: &str) -> (r: Option<ApiHeaderProfile>)
    ensures
        r == catalog_header_profile(admin_operations(), id@),
{
    let ops = operation_declarations();
    lookup_header_profile(&ops, id)
}

/// The header contract row of the operation with the given id.
pub fn header_contract(id: &str) -> (r: Option<OperationContract>)
    ensures
        r == catalog_header_contract(admin_operations(), id@),
{
    let ops = operation_declarations();
    lookup_header_contract(&ops, id)
}

/// The schema roots that the catalog's children declare.
pub fn schema_roots() -> (r: Vec<SchemaRoot>)
    ensures
        r@ == catalog_schemas(admin_operations()),
{
    proof {
        lemma_admin_operations_ready();
    }
    let ops = operation_declarations();
    project_schemas(&ops)
}

/// Whether some child of the catalog has the given id.
pub fn owns_contract(id: &str) -> (r: bool)
    ensures
        r == catalog_owns_contract(admin_operations(), id@),
{
    let ops = operation_declarations();
    catalog_has_contract(&ops, id)
}

/// Whether some operation of the catalog has the given id.
pub fn owns_operation(id: &str) -> (r: bool)
    ensures
        r == catalog_owns_operation(admin_operations(), id@),
{
    let ops = operation_declarations();
    catalog_has_operation(&ops, id)
}

/// The generic maintenance path request row, which belongs to no operation parent.
pub open spec fn maintenance_path_contract() -> OperationContract {
    OperationContract {
        id: "api.maintenance-path.request",
        path: "POST /api/v1/maintenance/{operation} body",
        surface: ContractSurface::Api,
        operation: "POST /api/v1/maintenance/{operation}",
        direction: ContractDirection::Deserialize,
        granularity: ContractGranularity::Exact,
        strictness: ContractStrictness::DenyUnknownFields,
        schema_id: Some("urn:kanban-tool:schema:api:maintenance-path-request:v1"),
        fixture: Some("schemas/fixtures/api/maintenance-path-request.v1.valid.json"),
        adoption: None,
        exclusion: None,
        migration: MigrationState::Generated,
        transport: ContractTransport::Http {
            operation_key: Some("POST /api/v1/maintenance/{operation}"),
            location: HttpTransportLocation::Body,
            parameters: &[],
        },
        binding: ContractBinding::ExactSurface,
    }
}

/// The standalone template rows: the generic maintenance path request.
pub fn template_contracts() -> (r: Vec<OperationContract>)
    ensures
        r@ == seq![maintenance_path_contract()],
{
    let row = OperationContract {
        id: "api.maintenance-path.request",
        path: "POST /api/v1/maintenance/{operation} body",
        surface: ContractSurface::Api,
        operation: "POST /api/v1/maintenance/{operation}",
        direction: ContractDirection::Deserialize,
        granularity: ContractGranularity::Exact,
        strictness: ContractStrictness::DenyUnknownFields,
        schema_id: Some("urn:kanban-tool:schema:api:maintenance-path-request:v1"),
        fixture: Some("schemas/fixtures/api/maintenance-path-request.v1.valid.json"),
        adoption: None,
        exclusion: None,
        migration: MigrationState::Generated,
        transport: ContractTransport::Http {
            operation_key: Some("POST /api/v1/maintenance/{operation}"),
            location: HttpTransportLocation::Body,
            parameters: &[],
        },
        binding: ContractBinding::ExactSurface,
    };
    let r = vec![row];
    assert(r@ =~= seq![maintenance_path_contract()]);
    r
}

/// The ids of the maintenance request and response rows, in their historical inventory order.
pub open spec fn maintenance_inventory_order() -> Seq<&'static str> {
    seq![
        "api.maintenance-path.request",
        "api.maintenance-import.request",
        "api.maintenance-backup.request",
        "api.maintenance-export.request",
        "api.maintenance-run.request",
        "api.maintenance-rebuild.request",
        "api.maintenance-cleanup.request",
        "api.maintenance-import-v30.request",
        "api.maintenance-backup.response",
        "api.maintenance-export.response",
        "api.maintenance-import.response",
        "api.maintenance-vacuum.response",
        "api.maintenance-status.response",
        "api.maintenance-run.response",
        "api.maintenance-rebuild.response",
        "api.maintenance-cleanup.response",
        "api.maintenance-import-v30.response",
    ]
}

/// The row for one ordered id: the template row for its own id, else the first catalog row
/// with that id.
pub open spec fn maintenance_row(id: &'static str) -> Option<OperationContract> {
    if id@ == maintenance_path_contract().id@ {
        Some(maintenance_path_contract())
    } else {
        match first_index(catalog_contracts(admin_operations()), has_contract_id(id@)) {
            Some(i) => Some(catalog_contracts(admin_operations())[i]),
            None => None,
        }
    }
}

/// The maintenance rows in their historical inventory order, skipping ids that neither the
/// template nor the catalog declares.
pub open spec fn maintenance_inventory() -> Seq<OperationContract> {
    maintenance_inventory_order().filter_map(|id: &'static str| maintenance_row(id))
}

/// The template row and the maintenance rows of the catalog, in historical inventory order.
pub fn inventory_contracts() -> (r: Vec<OperationContract>)
    ensures
        r@ == maintenance_inventory(),
{
    let order: Vec<&'static str> = vec![
        "api.maintenance-path.request",
        "api.maintenance-import.request",
        "api.maintenance-backup.request",
        "api.maintenance-export.request",
        "api.maintenance-run.request",
        "api.maintenance-rebuild.request",
        "api.maintenance-cleanup.request",
        "api.maintenance-import-v30.request",
        "api.maintenance-backup.response",
        "api.maintenance-export.response",
        "api.maintenance-import.response",
        "api.maintenance-vacuum.response",
        "api.maintenance-status.response",
        "api.maintenance-run.response",
        "api.maintenance-rebuild.response",
        "api.maintenance-cleanup.response",
        "api.maintenance-import-v30.response",
    ];
    assert(order@ =~= maintenance_inventory_order());
    let template = template_contracts();
    let rows = operation_contracts();
    let mut out: Vec<OperationContract> = Vec::new();
    let n = order.len();
    for i in 0..n
        invariant
            n == order@.len(),
            order@ == maintenance_inventory_order(),
            template@ == seq![maintenance_path_contract()],
            rows@ == catalog_contracts(admin_operations()),
            out@ == order@.take(i as int).filter_map(|id: &'static str| maintenance_row(id)),
    {
        assert(order@.take(i + 1).drop_last() =~= order@.take(i as int));
        let id = order[i];
        if str_eq(id, template[0].id) {
            out.push(template[0]);
        } else {
            match find_contract(&rows, id) {
                Some(row) => out.push(row),
                None => {},
            }
        }
    }
    assert(order@.take(n as int) =~= order@);
    out
}

/// The schema root of the generic maintenance path request.
pub fn template_schema_roots() -> (r: Vec<SchemaRoot>)
    ensures
        r@.len() == 1,
        r@[0] == (SchemaRoot {
            id: "urn:kanban-tool:schema:api:maintenance-path-request:v1",
            artifact_path: "api/maintenance-path-request.v1.schema.json",
            title: "Kanban maintenance path request v1",
            contract_id: "api.maintenance-path.request",
            direction: ContractDirection::Deserialize,
            strictness: ContractStrictness::DenyUnknownFields,
            valid_fixture: "schemas/fixtures/api/maintenance-path-request.v1.valid.json",
            invalid_fixture: "schemas/fixtures/api/maintenance-path-request.v1.invalid.json",
        }),
{
    vec![
        SchemaRoot {
            id: "urn:kanban-tool:schema:api:maintenance-path-request:v1",
            artifact_path: "api/maintenance-path-request.v1.schema.json",
            title: "Kanban maintenance path request v1",
            contract_id: "api.maintenance-path.request",
            direction: ContractDirection::Deserialize,
            strictness: ContractStrictness::DenyUnknownFields,
            valid_fixture: "schemas/fixtures/api/maintenance-path-request.v1.valid.json",
            invalid_fixture: "schemas/fixtures/api/maintenance-path-request.v1.invalid.json",
        },
    ]
}


/// The endpoint ids of this catalog, in order: those of its API and SSE operations.
pub proof fn lemma_admin_endpoint_ids()
    ensures
        endpoint_ids(admin_operations()) == seq![
            "api.health"@,
            "api.get-stats"@,
            "api.doctor"@,
            "api.checkpoint"@,
            "api.maintenance-backup"@,
            "api.maintenance-export"@,
            "api.maintenance-import"@,
            "api.maintenance-vacuum"@,
            "api.maintenance-status"@,
            "api.maintenance-run"@,
            "api.maintenance-rebuild"@,
            "api.maintenance-cleanup"@,
            "api.maintenance-import-v30"@,
        ],
{
    reveal(admin_operations);
    let ops = admin_operations();
    assert forall|i: int| 0 <= i < 13 implies is_http_surface(#[trigger] ops[i].surface) by {
        if i == 0 {} else if i == 1 {} else if i == 2 {} else if i == 3 {} else if i == 4 {} else if i == 5 {} else if i == 6 {} else if i == 7 {} else if i == 8 {} else if i == 9 {} else if i == 10 {} else if i == 11 {} else if i == 12 {}
    }
    lemma_endpoint_ids_prefix(ops, 13);
    let ids: Seq<Seq<char>> = seq![
        "api.health"@,
        "api.get-stats"@,
        "api.doctor"@,
        "api.checkpoint"@,
        "api.maintenance-backup"@,
        "api.maintenance-export"@,
        "api.maintenance-import"@,
        "api.maintenance-vacuum"@,
        "api.maintenance-status"@,
        "api.maintenance-run"@,
        "api.maintenance-rebuild"@,
        "api.maintenance-cleanup"@,
        "api.maintenance-import-v30"@,
    ];
    assert forall|i: int| 0 <= i < 13 implies ops.take(13).map_values(|o: OperationDeclaration| o.operation_id@)[i] == ids[i] by {
        if i == 0 {} else if i == 1 {} else if i == 2 {} else if i == 3 {} else if i == 4 {} else if i == 5 {} else if i == 6 {} else if i == 7 {} else if i == 8 {} else if i == 9 {} else if i == 10 {} else if i == 11 {} else if i == 12 {}
    }
    assert(ops.take(13).map_values(|o: OperationDeclaration| o.operation_id@) =~= ids);
}

} // verus!
