use kanban_protocol::admin_catalog;
use kanban_protocol::contract_catalog::{
    project_contracts, ContractDeclaration, OperationDeclaration, SchemaRoot,
};
use kanban_protocol::endpoint::{
    endpoint_catalog, endpoint_descriptor, http_method_name, sort_by_rank, EndpointDescriptor,
    EndpointObligation, EndpointObligationKind, HttpMethod,
};
use kanban_protocol::headers::{api_header_contract_specs, ApiHeaderProfile};
use kanban_protocol::board_catalog;
use kanban_protocol::history_catalog;
use kanban_protocol::inventory::{
    contract_binding_name, contract_direction, contract_direction_name, contract_granularity_name,
    contract_surface_name, transport_location_name, wire_parameter_cardinality_name,
    AdoptionLocator, ContractBinding, ContractDirection, ContractGranularity, ContractStrictness,
    ContractSurface, ContractTransport, HttpTransportLocation, MigrationState, WireParameter,
    WireParameterCardinality,
};
use kanban_protocol::operation_catalog::{operation_catalog, surface_operation_catalog};

const BOARD_ID: &[WireParameter] = &[WireParameter { name: "board_id", cardinality: Some(WireParameterCardinality::RequiredOne) }];

const CHILDREN: &[ContractDeclaration] = &[
    ContractDeclaration {
        id: "api.get-board.path",
        path: "GET /boards/:board_id path",
        operation: None,
        location: Some(HttpTransportLocation::Path),
        operation_key: None,
        parameters: BOARD_ID,
        direction: ContractDirection::Deserialize,
        strictness: ContractStrictness::DenyUnknownFields,
        granularity: ContractGranularity::Exact,
        binding: ContractBinding::ExactSurface,
        schema_id: Some("urn:board-path"),
        artifact_path: Some("api/board-path.schema.json"),
        schema_title: Some("Board path"),
        valid_fixture: Some("board-path.valid.json"),
        invalid_fixture: Some("board-path.invalid.json"),
        exclusion: None,
        producer: Some(AdoptionLocator { package: "kanban-server", test_target: "lib", exact_test: "produce" }),
        consumer: Some(AdoptionLocator { package: "kanban-client", test_target: "lib", exact_test: "consume" }),
    },
    ContractDeclaration {
        id: "api.error.response",
        path: "error",
        operation: Some("shared error"),
        location: Some(HttpTransportLocation::Error),
        operation_key: Some("ignored"),
        parameters: &[],
        direction: ContractDirection::Serialize,
        strictness: ContractStrictness::DenyUnknownFields,
        granularity: ContractGranularity::Exact,
        binding: ContractBinding::SharedComponent,
        schema_id: None,
        artifact_path: None,
        schema_title: None,
        valid_fixture: None,
        invalid_fixture: None,
        exclusion: Some("shared"),
        producer: None,
        consumer: None,
    },
];

fn parent() -> OperationDeclaration {
    OperationDeclaration::new(
        "api.get-board",
        ContractSurface::Api,
        Some(HttpMethod::Get),
        Some("/boards/:board_id"),
        "GET /boards/:board_id",
        "GET /boards/:board_id",
        CHILDREN,
    )
    .with_shared_components(&["api.shared.response"])
    .with_exclusion("parent reason")
}

#[test]
fn children_project_to_inventory_rows() {
    let p = parent();
    let rows = p.operation_contracts();
    assert_eq!(rows.len(), 2);
    assert_eq!(rows[0].operation, "GET /boards/:board_id");
    assert_eq!(rows[0].exclusion, Some("parent reason"));
    assert_eq!(
        rows[0].transport,
        ContractTransport::Http { operation_key: Some("GET /boards/:board_id"), location: HttpTransportLocation::Path, parameters: BOARD_ID }
    );
    let adoption = rows[0].adoption.expect("adoption");
    assert_eq!(adoption.producer_fixture, "board-path.valid.json");
    assert_eq!(adoption.producer.package, "kanban-server");
    assert_eq!(adoption.consumer.package, "kanban-client");
    assert_eq!(adoption.consumer.contract_id, "api.get-board.path");
    assert_eq!(rows[1].operation, "shared error");
    assert_eq!(rows[1].exclusion, Some("shared"));
    assert_eq!(
        rows[1].transport,
        ContractTransport::Http { operation_key: None, location: HttpTransportLocation::Error, parameters: &[] }
    );
    assert_eq!(rows[1].adoption, None);
    assert_eq!(rows[1].migration, MigrationState::Generated);
    assert_eq!(project_contracts(&[p, p]).len(), 4);
}

#[test]
fn parent_projects_endpoint_surface_and_schema() {
    let p = parent();
    let endpoint = p.endpoint_descriptor();
    assert_eq!(endpoint.obligations.path, EndpointObligation::Contract("api.get-board.path"));
    assert_eq!(endpoint.obligations.success, EndpointObligation::NotApplicable);
    assert_eq!(endpoint.shared_components, &["api.shared.response"]);
    let surface = p.surface_operation();
    assert_eq!(surface.key, "GET /boards/:board_id");
    assert_eq!(surface.contracts, vec!["api.get-board.path", "api.shared.response"]);
    assert_eq!(surface.exclusion, Some("parent reason"));
    assert_eq!(
        CHILDREN[0].schema_root(),
        Some(SchemaRoot {
            id: "urn:board-path",
            artifact_path: "api/board-path.schema.json",
            title: "Board path",
            contract_id: "api.get-board.path",
            direction: ContractDirection::Deserialize,
            strictness: ContractStrictness::DenyUnknownFields,
            valid_fixture: "board-path.valid.json",
            invalid_fixture: "board-path.invalid.json",
        })
    );
    assert_eq!(CHILDREN[1].schema_root(), None);
    let overridden = parent().with_obligation_overrides(&[(EndpointObligationKind::Path, EndpointObligation::Todo)]);
    assert_eq!(overridden.endpoint_descriptor().obligations.path, EndpointObligation::Todo);
}

#[test]
fn builders_set_one_field_each() {
    let child = ContractDeclaration::new(
        "cli.x.output",
        "kanban x --json stdout",
        ContractDirection::Serialize,
        None,
        ContractStrictness::DenyUnknownFields,
        ContractGranularity::Exact,
        ContractBinding::ExactSurface,
    )
    .with_operation("x")
    .with_transport(Some("GET /x"), &[]);
    assert_eq!(child.operation, Some("x"));
    assert_eq!(child.operation_key, Some("GET /x"));
    assert_eq!(child.schema_id, None);
    let migrated = OperationDeclaration::new("cli.x", ContractSurface::Cli, None, None, "x", "x", &[])
        .with_migration(MigrationState::Adopted)
        .with_header_profile(ApiHeaderProfile::Locale);
    assert_eq!(migrated.migration, MigrationState::Adopted);
    assert_eq!(migrated.header_profile, Some(ApiHeaderProfile::Locale));
}

#[test]
fn header_profiles_name_their_headers_and_fixtures() {
    assert_eq!(ApiHeaderProfile::Locale.parameters().len(), 1);
    let json = ApiHeaderProfile::LocaleActorOptionalJson.parameters();
    assert_eq!(json[2], WireParameter { name: "Content-Type", cardinality: Some(WireParameterCardinality::OptionalOne) });
    assert_eq!(ApiHeaderProfile::LocaleActorJson.fixture_stem(), "locale-actor-json-headers");
    let specs = api_header_contract_specs();
    assert!(!specs.is_empty());
    for spec in &specs {
        assert!(spec.contract_id.ends_with(".headers"), "{}", spec.contract_id);
        assert_eq!(spec.endpoint.surface, ContractSurface::Api);
    }
}

#[test]
fn endpoint_catalog_follows_the_canonical_order() {
    let catalog = endpoint_catalog();
    let ids = catalog.iter().map(|e| e.operation_id).collect::<Vec<_>>();
    assert_eq!(&ids[..6], &["api.health", "api.list-boards", "api.create-board", "api.get-board", "api.archive-board", "api.list-board-columns"]);
    let mut unique = ids.clone();
    unique.sort_unstable();
    unique.dedup();
    assert_eq!(unique.len(), ids.len());
    assert_eq!(endpoint_descriptor("api.health").map(|e| e.path), Some("/health"));
    assert_eq!(endpoint_descriptor("api.nothing"), None);
}

#[test]
fn sort_by_rank_is_stable_and_puts_unranked_last() {
    let base = endpoint_catalog()[0];
    let e = |id: &'static str| EndpointDescriptor { operation_id: id, ..base };
    let order = vec!["b", "a"];
    let sorted = sort_by_rank(&order, &vec![e("z"), e("a"), e("y"), e("b")]);
    assert_eq!(sorted.iter().map(|x| x.operation_id).collect::<Vec<_>>(), vec!["b", "a", "z", "y"]);
}

#[test]
fn family_catalogs_answer_lookups() {
    assert_eq!(admin_catalog::header_profile("api.health"), Some(ApiHeaderProfile::Locale));
    assert!(admin_catalog::owns_contract("api.health.response"));
    assert!(!admin_catalog::owns_contract("api.list-boards.query"));
    assert!(admin_catalog::owns_operation("api.get-stats"));
    assert_eq!(admin_catalog::template_contracts()[0].id, "api.maintenance-path.request");
    assert_eq!(admin_catalog::template_schema_roots()[0].contract_id, "api.maintenance-path.request");
    assert!(history_catalog::endpoint_catalog().len() > 0);
    assert!(history_catalog::schema_roots().iter().all(|root| root.id.starts_with("urn:")));
    let declared = operation_catalog();
    assert_eq!(surface_operation_catalog().len(), declared.len());
}

#[test]
fn names_are_the_wire_spellings() {
    assert_eq!(contract_surface_name(ContractSurface::Metadata), "metadata");
    assert_eq!(transport_location_name(HttpTransportLocation::Headers), "headers");
    assert_eq!(contract_direction_name(ContractDirection::Bidirectional), "bidirectional");
    assert_eq!(contract_binding_name(ContractBinding::SharedComponent), "shared_component");
    assert_eq!(contract_granularity_name(ContractGranularity::Family), "family");
    assert_eq!(wire_parameter_cardinality_name(WireParameterCardinality::RepeatedOrdered), "repeated_ordered");
    assert_eq!(contract_direction(HttpTransportLocation::Query), ContractDirection::Deserialize);
    assert_eq!(contract_direction(HttpTransportLocation::Sse), ContractDirection::Serialize);
    assert_eq!(http_method_name(HttpMethod::Patch), "PATCH");
}

#[test]
fn board_header_contracts_follow_profile_and_endpoint() {
    for op in ["api.list-boards", "api.create-board", "api.get-board", "api.archive-board", "api.list-board-columns"] {
        let header = board_catalog::header_contract(op).expect("header contract");
        assert_eq!(Some(header), board_catalog::operation_contract(&format!("{op}.headers")));
        let endpoint = board_catalog::endpoint_descriptor(op).expect("endpoint");
        let profile = board_catalog::header_profile(op).expect("profile");
        match header.transport {
            ContractTransport::Http { operation_key, location, parameters } => {
                let key = format!("{} {}", http_method_name(endpoint.method), endpoint.path);
                assert_eq!(operation_key, Some(key.as_str()));
                assert_eq!(location, HttpTransportLocation::Headers);
                assert_eq!(parameters, profile.parameters());
            }
            ContractTransport::NoTransport => panic!("header contract without transport: {op}"),
        }
    }
    assert_eq!(board_catalog::header_contract("cli.board-list"), None);
}

#[test]
fn ownership_follows_the_inventory_rows() {
    assert!(admin_catalog::owns_contract("api.health.headers"));
    assert!(!admin_catalog::owns_contract("api.maintenance-path.request"));
    assert!(!admin_catalog::owns_contract("api.health"));
    assert!(board_catalog::owns_contract("cli.board-columns.output"));
    assert!(!board_catalog::owns_contract("cli.board-use.output"));
    assert!(!board_catalog::owns_contract("api.error.response"));
    for row in board_catalog::operation_contracts() {
        assert!(board_catalog::owns_contract(row.id), "{}", row.id);
    }
}

#[test]
fn board_header_operations_have_their_header_spec() {
    let specs = api_header_contract_specs();
    let spec = specs.iter().find(|s| s.endpoint.operation_id == "api.get-board").expect("get-board header spec");
    assert_eq!(spec.contract_id, "api.get-board.headers");
    assert_eq!(Some(spec.profile), board_catalog::header_profile("api.get-board"));
    assert_eq!(Some(spec.endpoint), endpoint_descriptor("api.get-board"));
    let row = board_catalog::header_contract("api.get-board").expect("get-board header row");
    assert!(board_catalog::operation_contracts().contains(&row));
    assert_eq!(row.id, spec.contract_id);
}
