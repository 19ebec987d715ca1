use kanban_protocol::inventory::{
    AdoptionEvidence, AdoptionLocator, AdoptionWitness, ContractBinding, ContractDirection,
    ContractGranularity, ContractStrictness, ContractSurface, ContractTransport, MigrationState,
    OperationContract,
};
use kanban_protocol::witness::{
    canonical_api_witness, canonical_cli_witness, canonical_config_witness, canonical_witness,
    cli_test, client_test, converge_adoption_witnesses, header_witness, maintenance_witness,
    server_route_test, witnesses_ready,
};

fn adopted(id: &'static str, surface: ContractSurface, fixture: Option<&'static str>) -> OperationContract {
    let witness = AdoptionWitness {
        operation: "op",
        contract_id: id,
        surface,
        direction: ContractDirection::Serialize,
        package: "stale-package",
        test_target: "stale-target",
        exact_test: "stale_test",
    };
    OperationContract {
        id,
        path: "path",
        surface,
        operation: "op",
        direction: ContractDirection::Serialize,
        granularity: ContractGranularity::Exact,
        strictness: ContractStrictness::DenyUnknownFields,
        schema_id: Some("urn:schema"),
        fixture,
        adoption: Some(AdoptionEvidence {
            producer_fixture: "fixture.json",
            producer: witness,
            consumer: witness,
        }),
        exclusion: None,
        migration: MigrationState::Adopted,
        transport: ContractTransport::NoTransport,
        binding: ContractBinding::ExactSurface,
    }
}

#[test]
fn cli_witness_follows_command_family() {
    assert_eq!(
        canonical_cli_witness("cli.task-step-add.output"),
        cli_test(
            "cli_steps_dependencies_adoption",
            "steps_and_dependencies_cli_use_real_host_and_committed_contract_shapes"
        )
    );
    assert_eq!(
        canonical_cli_witness("cli.task-promote.output").test_target,
        "cli_lifecycle_adoption"
    );
    assert_eq!(
        canonical_cli_witness("cli.task-create.output").test_target,
        "cli_queue_adoption"
    );
    assert_eq!(
        canonical_cli_witness("cli.runs.output").test_target,
        "cli_history_adoption"
    );
    assert_eq!(
        canonical_cli_witness("cli.events.output").test_target,
        "cli_history_adoption"
    );
    assert_eq!(
        canonical_cli_witness("cli.label-ontology-list.output").exact_test,
        "ontology_observation_signal_review_and_action_flow_through_real_cli"
    );
    assert_eq!(
        canonical_cli_witness("cli.label-add.output").exact_test,
        "labels_semantics_atoms_and_proposals_flow_through_real_cli"
    );
    assert_eq!(
        canonical_cli_witness("cli.signal-record.output").exact_test,
        "generic_signals_record_review_and_confirm_flow_through_real_cli"
    );
    assert_eq!(
        canonical_cli_witness("cli.hook-install.output").exact_test,
        "codex_hooks_install_handle_status_and_uninstall_use_real_binary"
    );
    assert_eq!(
        canonical_cli_witness("cli.__complete.output").exact_test,
        "completion_and_hidden_complete_are_local_and_do_not_open_database"
    );
    assert_eq!(
        canonical_cli_witness("cli.vector-status.output").test_target,
        "cli_knowledge_adoption"
    );
    assert_eq!(
        canonical_cli_witness("cli.doctor.output").exact_test,
        "maintenance_admin_commands_use_real_host_and_typed_json"
    );
    assert_eq!(
        canonical_cli_witness("cli.board-list.output"),
        AdoptionLocator {
            package: "kanban-cli",
            test_target: "cli_queue_adoption",
            exact_test: "queue_cli_uses_real_host_for_config_board_and_task_commands",
        }
    );
}

#[test]
fn config_witness_separates_worker_profile_and_project_config() {
    assert_eq!(
        canonical_config_witness("config.selected-worker-profile.input", true),
        cli_test(
            "cli_admin_adoption",
            "dispatcher_profile_is_consumed_by_real_serve_and_only_claims_ready"
        )
    );
    assert_eq!(
        canonical_config_witness("config.selected-worker-profile.input", false).test_target,
        "cli_config_contract_adoption"
    );
    assert_eq!(
        canonical_config_witness("config.project.input", true).test_target,
        "cli_queue_adoption"
    );
    assert_eq!(
        canonical_config_witness("config.project.input", false).exact_test,
        "config_adoption::project_config_input_fixture_is_produced_by_runtime_config_dto"
    );
}

#[test]
fn maintenance_witness_distinguishes_roles_and_defaults_to_run_consumer() {
    assert_eq!(
        maintenance_witness("api.maintenance-import-v30.request", false),
        "suite::maintenance_adoption::legacy_import_v30_request_producer"
    );
    assert_eq!(
        maintenance_witness("api.maintenance-import-v30.request", true),
        "suite::maintenance_adoption::legacy_import_v30_request_consumer"
    );
    assert_eq!(
        maintenance_witness("api.maintenance-unknown.request", false),
        "suite::maintenance_adoption::maintenance_run_response_consumer"
    );
}

#[test]
fn api_witness_covers_vector_maintenance_and_route_rules() {
    let request = adopted("api.vector-sync.request", ContractSurface::Api, Some("f.json"));
    assert_eq!(
        canonical_api_witness(&request, true),
        Some(server_route_test(
            "vector::tests::vector_sync_request_fixture_is_consumed_by_real_router"
        ))
    );
    assert_eq!(
        canonical_api_witness(&request, false),
        Some(client_test(
            "operations::vector::tests::vector_sync_request_fixture_is_produced"
        ))
    );
    let response = adopted("api.vector-sync.response", ContractSurface::Api, Some("f.json"));
    assert_eq!(
        canonical_api_witness(&response, true),
        Some(client_test(
            "operations::vector::tests::vector_sync_response_fixture_is_consumed_by_client"
        ))
    );
    let maintenance = adopted("api.maintenance-run.response", ContractSurface::Api, Some("f.json"));
    assert_eq!(
        canonical_api_witness(&maintenance, false),
        Some(server_route_test(
            "suite::maintenance_adoption::maintenance_run_response_producer"
        ))
    );
    let doctor = adopted("api.doctor.response", ContractSurface::Api, Some("f.json"));
    assert_eq!(
        canonical_api_witness(&doctor, true),
        Some(server_route_test(
            "suite::maintenance_adoption::doctor_response_contract_consumes_producer_fixture"
        ))
    );
    let label = adopted("api.add-task-label.request", ContractSurface::Api, Some("f.json"));
    assert_eq!(canonical_api_witness(&label, true), None);
    let search = adopted("api.search-tasks.query", ContractSurface::Api, Some("f.json"));
    assert_eq!(canonical_api_witness(&search, false), None);
    let crud = adopted("api.get-task.query", ContractSurface::Api, Some("f.json"));
    assert_eq!(
        canonical_api_witness(&crud, false),
        Some(server_route_test(
            "http::operations::contract_adoption::suite_tasks_crud_and_reads_use_committed_fixtures_through_router"
        ))
    );
    let dependency = adopted("api.add-dependency.request", ContractSurface::Api, Some("f.json"));
    assert_eq!(
        canonical_api_witness(&dependency, false),
        Some(server_route_test(
            "http::operations::contract_adoption::suite_dependencies_adoption_uses_path_body_and_response_fixtures"
        ))
    );
    let board = adopted("api.archive-board.request", ContractSurface::Api, Some("f.json"));
    assert_eq!(
        canonical_api_witness(&board, false),
        Some(server_route_test(
            "http::operations::contract_adoption::suite_boards_adoption_uses_request_path_query_and_response_fixtures"
        ))
    );
    let other = adopted("api.something.request", ContractSurface::Api, Some("f.json"));
    assert_eq!(
        canonical_api_witness(&other, false),
        Some(server_route_test(
            "http::operations::contract_adoption::suite_health_and_errors_use_real_router_fixtures"
        ))
    );
}

#[test]
fn header_witness_follows_the_most_specific_profile() {
    let optional = adopted(
        "api.list-boards.headers",
        ContractSurface::Api,
        Some("schemas/fixtures/api/locale-actor-optional-json-headers.v1.valid.json"),
    );
    assert_eq!(
        header_witness(&optional).exact_test,
        "knowledge_adoption::locale_actor_optional_json_header_fixture_is_consumed_by_real_router"
    );
    let locale = adopted(
        "api.list-boards.headers",
        ContractSurface::Api,
        Some("schemas/fixtures/api/locale-headers.v1.valid.json"),
    );
    assert_eq!(
        canonical_api_witness(&locale, true),
        Some(server_route_test(
            "knowledge_adoption::locale_header_fixture_is_consumed_by_real_router"
        ))
    );
}

#[test]
fn canonical_witness_by_surface() {
    let jsonl = adopted("jsonl.task.record", ContractSurface::Jsonl, Some("f.json"));
    assert_eq!(canonical_witness(&jsonl, true), None);
    let sse = adopted("sse.events.stream", ContractSurface::Sse, Some("f.json"));
    assert_eq!(
        canonical_witness(&sse, false),
        Some(server_route_test(
            "http::operations::contract_adoption::suite_events_sse_and_stats_adoption_use_query_fixtures"
        ))
    );
    let metadata = adopted("metadata.decision.input", ContractSurface::Metadata, Some("f.json"));
    assert_eq!(
        canonical_witness(&metadata, false).map(|l| l.test_target),
        Some("cli_history_adoption")
    );
    let other_metadata = adopted("metadata.ontology.input", ContractSurface::Metadata, Some("f.json"));
    assert_eq!(
        canonical_witness(&other_metadata, false).map(|l| l.exact_test),
        Some("ontology_observation_signal_review_and_action_flow_through_real_cli")
    );
}

#[test]
fn convergence_relocates_witnesses_once_and_is_idempotent() {
    let mut rows = vec![
        adopted("cli.task-promote.output", ContractSurface::Cli, Some("f.json")),
        adopted("api.add-task-label.request", ContractSurface::Api, Some("f.json")),
        adopted("jsonl.task.record", ContractSurface::Jsonl, Some("f.json")),
    ];
    let before = rows.clone();
    assert!(witnesses_ready(&rows));
    converge_adoption_witnesses(&mut rows);
    let cli = rows[0].adoption.unwrap();
    assert_eq!(cli.producer.package, "kanban-cli");
    assert_eq!(cli.producer.test_target, "cli_lifecycle_adoption");
    assert_eq!(cli.consumer.test_target, "cli_lifecycle_adoption");
    assert_eq!(cli.producer.contract_id, "cli.task-promote.output");
    assert_eq!(rows[1], before[1]);
    assert_eq!(rows[2], before[2]);
    let once = rows.clone();
    converge_adoption_witnesses(&mut rows);
    assert_eq!(rows, once);
}

#[test]
fn unknown_header_fixture_is_not_ready() {
    let rows = vec![adopted(
        "api.list-boards.headers",
        ContractSurface::Api,
        Some("schemas/fixtures/api/unknown.v1.valid.json"),
    )];
    assert!(!witnesses_ready(&rows));
}
