use kanban_protocol::assembly::{
    merge_declared_contracts, portable_operation_contracts, PortableContractDescriptor, PortableContractSide,
    adopt_phase5_api_contracts, adopt_protocol_contracts, converge_catalog_contracts,
    generated_fixtures_present, hybrid_static_inventory, operation_inventory,
    phase5_api_adoption_tests, protocol_adoption_spec,
};
use kanban_protocol::cli_labels_catalog;
use kanban_protocol::endpoint::{validate_endpoint_catalog, validate_operation_contracts};
use kanban_protocol::inventory::{
    ContractBinding, ContractDirection, ContractGranularity, ContractStrictness, ContractSurface,
    ContractTransport, MigrationState, OperationContract,
};
use kanban_protocol::legacy::{
    attachment_api_contracts, attachment_cli_contracts, legacy_inventory,
    maintenance_operation_contracts,
};

fn row(id: &'static str, surface: ContractSurface, fixture: Option<&'static str>) -> OperationContract {
    OperationContract {
        id,
        path: "legacy path",
        surface,
        operation: "legacy op",
        direction: ContractDirection::Deserialize,
        granularity: ContractGranularity::Exact,
        strictness: ContractStrictness::DenyUnknownFields,
        schema_id: None,
        fixture,
        adoption: None,
        exclusion: None,
        migration: MigrationState::Generated,
        transport: ContractTransport::NoTransport,
        binding: ContractBinding::ExactSurface,
    }
}

fn declared(id: &'static str) -> OperationContract {
    OperationContract { path: "declared path", ..row(id, ContractSurface::Api, Some("declared.json")) }
}

#[test]
fn historical_sources_have_their_committed_sizes() {
    assert_eq!(legacy_inventory().len(), 356);
    assert_eq!(maintenance_operation_contracts().len(), 26);
    assert_eq!(attachment_api_contracts().len(), 9);
    assert_eq!(attachment_cli_contracts().len(), 3);
    assert_eq!(legacy_inventory()[0].id, "cli.init.output");
}

#[test]
fn inventory_assembles_with_unique_ids_and_valid_transport() {
    let inventory = operation_inventory().expect("operation inventory");
    assert_eq!(inventory.len(), 416);
    let mut ids = inventory.iter().map(|c| c.id).collect::<Vec<_>>();
    ids.sort_unstable();
    ids.dedup();
    assert_eq!(ids.len(), 416);
    assert_eq!(validate_operation_contracts(&inventory), Ok(()));
    assert_eq!(validate_endpoint_catalog(&[]), Ok(()));
    assert_eq!(inventory.last().map(|c| c.id), Some("cli.label-delete.output"));
}

#[test]
fn inventory_adopts_generated_and_protocol_rows() {
    let inventory = operation_inventory().expect("operation inventory");
    let config = inventory
        .iter()
        .find(|c| c.id == "config.project.input")
        .expect("project config row");
    assert_eq!(config.migration, MigrationState::Adopted);
    assert_eq!(config.schema_id, Some("urn:kanban-tool:schema:config:project-input:v1"));
    let adoption = config.adoption.expect("adoption");
    assert_eq!(adoption.consumer.test_target, "cli_queue_adoption");
    let generated = inventory
        .iter()
        .find(|c| c.id == "api.list-label-semantics.path")
        .expect("generated request row");
    assert_eq!(generated.migration, MigrationState::Adopted);
    assert!(generated.adoption.is_some());
}

#[test]
fn hybrid_projection_replaces_declared_rows_and_keeps_board_positions() {
    let legacy = vec![
        row("cli.board-use.output", ContractSurface::Cli, None),
        row("api.add-dependency.request", ContractSurface::Api, None),
        row("api.stays.request", ContractSurface::Api, None),
        row("api.error.response", ContractSurface::Api, None),
    ];
    let admin: Vec<OperationContract> = Vec::new();
    let board = vec![
        declared("cli.board-list.output"),
        declared("cli.board-create.output"),
        declared("cli.board-show.output"),
        declared("api.archive-board.request"),
        declared("api.list-boards.query"),
        declared("api.create-board.request"),
        declared("api.get-board.path"),
        declared("api.archive-board.path"),
        declared("api.list-boards.response"),
        declared("api.create-board.response"),
        declared("api.get-board.response"),
        declared("api.archive-board.response"),
    ];
    let migrated = vec![declared("api.add-dependency.request")];
    let out = hybrid_static_inventory(&legacy, &admin, &board, &migrated);
    let ids = out.iter().map(|c| c.id).collect::<Vec<_>>();
    assert_eq!(
        ids,
        vec![
            "cli.board-list.output",
            "cli.board-create.output",
            "cli.board-show.output",
            "cli.board-use.output",
            "api.archive-board.request",
            "api.add-dependency.request",
            "api.stays.request",
            "api.error.response",
            "api.list-boards.query",
            "api.create-board.request",
            "api.get-board.path",
            "api.archive-board.path",
            "api.list-boards.response",
            "api.create-board.response",
            "api.get-board.response",
            "api.archive-board.response",
        ]
    );
    assert_eq!(out[5].path, "declared path");
    assert_eq!(out[6].path, "legacy path");
    assert_eq!(out[3].path, "legacy path");
}

#[test]
fn generated_adoption_needs_fixtures_and_sets_server_witnesses() {
    assert_eq!(
        phase5_api_adoption_tests("api.list-label-semantics.path"),
        Some((
            "suite::api_generated_adoption::api_generated_request_dtos_serialize_to_committed_fixtures",
            "suite::api_generated_adoption::list_label_semantics_request_fixture_reaches_handler",
        ))
    );
    assert_eq!(
        phase5_api_adoption_tests("api.list-label-semantics.response").map(|t| t.1),
        Some("suite::api_generated_adoption::api_generated_response_fixtures_are_consumed_by_contract_roots")
    );
    assert_eq!(phase5_api_adoption_tests("api.unknown.path"), None);

    let missing = vec![row("api.list-label-semantics.path", ContractSurface::Api, None)];
    assert!(!generated_fixtures_present(&missing));
    let mut rows = vec![
        row("api.list-label-semantics.path", ContractSurface::Api, Some("semantics.json")),
        row("api.unknown.path", ContractSurface::Api, None),
    ];
    assert!(generated_fixtures_present(&rows));
    adopt_phase5_api_contracts(&mut rows);
    let adoption = rows[0].adoption.expect("adopted");
    assert_eq!(adoption.producer_fixture, "semantics.json");
    assert_eq!(adoption.producer.package, "kanban-server");
    assert_eq!(adoption.producer.test_target, "lib");
    assert_eq!(
        adoption.consumer.exact_test,
        "suite::api_generated_adoption::list_label_semantics_request_fixture_reaches_handler"
    );
    assert_eq!(rows[0].migration, MigrationState::Adopted);
    assert_eq!(rows[1].adoption, None);
    assert_eq!(rows[1].migration, MigrationState::Generated);
}

#[test]
fn protocol_adoption_sets_schema_fixture_and_witnesses() {
    assert_eq!(protocol_adoption_spec("config.unknown.input"), None);
    let spec = protocol_adoption_spec("config.selected-worker-profile.input").expect("spec");
    assert_eq!(spec.0, "urn:kanban-tool:schema:config:selected-worker-profile-input:v1");
    let mut rows = vec![row("config.project.input", ContractSurface::Config, None)];
    adopt_protocol_contracts(&mut rows);
    assert_eq!(rows[0].fixture, Some("schemas/fixtures/config/project-input.v1.valid.json"));
    let adoption = rows[0].adoption.expect("adopted");
    assert_eq!(adoption.producer.package, "kanban-cli");
    assert_eq!(
        adoption.consumer.exact_test,
        "config_adoption::project_config_input_fixture_is_consumed_by_real_toml_decoder"
    );
}

#[test]
fn catalog_convergence_replaces_by_id_and_is_idempotent() {
    let mut rows = vec![row("api.a.request", ContractSurface::Api, None), row("api.b.request", ContractSurface::Api, None)];
    let source = vec![declared("api.b.request")];
    converge_catalog_contracts(&mut rows, &source);
    assert_eq!(rows[0].path, "legacy path");
    assert_eq!(rows[1], source[0]);
    let once = rows.clone();
    converge_catalog_contracts(&mut rows, &source);
    assert_eq!(rows, once);
}

#[test]
fn every_family_catalog_passes_transport_validation() {
    for rows in [
        kanban_protocol::admin_catalog::operation_contracts(),
        kanban_protocol::board_catalog::operation_contracts(),
        kanban_protocol::dependency_catalog::operation_contracts(),
        kanban_protocol::history_catalog::operation_contracts(),
        kanban_protocol::cli_shell_catalog::operation_contracts(),
        kanban_protocol::cli_queue_catalog::operation_contracts(),
        cli_labels_catalog::operation_contracts(),
    ] {
        assert_eq!(validate_operation_contracts(&rows), Ok(()));
    }
}

#[test]
fn portable_operations_project_input_then_output_rows() {
    let side = |id: &'static str| PortableContractSide {
        contract_id: id,
        schema_id: "urn:portable",
        fixture: "portable.json",
        test_target: "lib",
        producer_test: "produce",
        consumer_test: "consume",
    };
    let rows = portable_operation_contracts(&vec![PortableContractDescriptor {
        operation_key: "portable.export",
        input: side("jsonl.export.input"),
        output: side("jsonl.export.output"),
    }]);
    assert_eq!(rows.len(), 2);
    assert_eq!(rows[0].id, "jsonl.export.input");
    assert_eq!(rows[0].direction, ContractDirection::Deserialize);
    assert_eq!(rows[1].direction, ContractDirection::Serialize);
    assert_eq!(rows[1].surface, ContractSurface::Jsonl);
    assert_eq!(rows[1].path, "portable.export");
    let adoption = rows[1].adoption.expect("adopted");
    assert_eq!(adoption.producer.package, "kanban-server");
    assert_eq!(adoption.consumer.exact_test, "consume");
    assert_eq!(rows[0].transport, ContractTransport::NoTransport);
}

#[test]
fn declared_rows_take_their_place_or_follow() {
    let mut rows = vec![row("api.a.request", ContractSurface::Api, None), row("api.b.request", ContractSurface::Api, None)];
    let declared = vec![declared("api.c.request"), declared("api.a.request")];
    merge_declared_contracts(&mut rows, &declared);
    assert_eq!(rows.iter().map(|c| c.id).collect::<Vec<_>>(), vec!["api.a.request", "api.b.request", "api.c.request"]);
    assert_eq!(rows[0], declared[1]);
    assert_eq!(rows[1].path, "legacy path");
    assert_eq!(rows[2], declared[0]);
    let once = rows.clone();
    merge_declared_contracts(&mut rows, &declared);
    assert_eq!(rows, once);
}

#[test]
fn endpoint_catalog_names_each_operation_once_and_holds_each_board_endpoint() {
    let catalog = kanban_protocol::endpoint::endpoint_catalog();
    for (i, a) in catalog.iter().enumerate() {
        for b in &catalog[i + 1..] {
            assert_ne!(a.operation_id, b.operation_id);
        }
    }
    for board in kanban_protocol::board_catalog::endpoint_catalog() {
        let matches: Vec<_> = catalog.iter().filter(|e| e.operation_id == board.operation_id).collect();
        assert_eq!(matches.len(), 1, "{}", board.operation_id);
        assert_eq!(*matches[0], board);
    }
}

#[test]
fn board_header_rows_stand_before_the_attachment_rows() {
    let inventory = operation_inventory().expect("operation inventory");
    let headers = kanban_protocol::board_catalog::operation_contracts()
        .into_iter()
        .filter(|c| c.id.ends_with(".headers"))
        .collect::<Vec<_>>();
    assert_eq!(headers.len(), 5);
    let first = inventory.iter().position(|c| c.id == headers[0].id).expect("first header row");
    assert_eq!(&inventory[first..first + 5], &headers[..]);
    let attachments = attachment_api_contracts();
    assert_eq!(inventory[first + 5].id, attachments[0].id);
}

#[test]
fn dependency_catalog_passes_topology_against_its_own_rows() {
    let endpoints = kanban_protocol::dependency_catalog::endpoint_catalog();
    let rows = kanban_protocol::dependency_catalog::operation_contracts();
    assert_eq!(kanban_protocol::endpoint::validate_contract_topology(&endpoints, &rows), Ok(()));
}
