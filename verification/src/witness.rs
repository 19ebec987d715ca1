//! Canonical adoption witnesses: which producer and consumer tests adopt a contract's
//! fixture, decided from the contract's surface, id and fixture path.

use vstd::prelude::*;

use crate::inventory::{AdoptionEvidence, AdoptionLocator, AdoptionWitness, ContractSurface, OperationContract};
use crate::seqs::{first_index, lemma_first_index, lemma_first_index_is, lemma_first_index_none};
use crate::text::{chars_contains, chars_ends_with, chars_starts_with, contains, ends_with, starts_with, str_chars, str_eq};

verus! {

/// A test of the server crate's library target.
#[verifier::allow_in_spec]
pub fn server_route_test(exact_test: &'static str) -> AdoptionLocator
    returns
        (AdoptionLocator { package: "kanban-server", test_target: "lib", exact_test }),
{
    AdoptionLocator { package: "kanban-server", test_target: "lib", exact_test }
}

/// A test of one of the CLI crate's integration targets.
#[verifier::allow_in_spec]
pub fn cli_test(test_target: &'static str, exact_test: &'static str) -> AdoptionLocator
    returns
        (AdoptionLocator { package: "kanban-cli", test_target, exact_test }),
{
    AdoptionLocator { package: "kanban-cli", test_target, exact_test }
}

/// A test of the client crate's library target.
#[verifier::allow_in_spec]
pub fn client_test(exact_test: &'static str) -> AdoptionLocator
    returns
        (AdoptionLocator { package: "kanban-client", test_target: "lib", exact_test }),
{
    AdoptionLocator { package: "kanban-client", test_target: "lib", exact_test }
}

/// Whether some entry of `list` has the text `id`.
pub open spec fn listed(list: Seq<&'static str>, id: Seq<char>) -> bool {
    exists|i: int| 0 <= i < list.len() && (#[trigger] list[i])@ == id
}

/// Whether some entry of `list` has the text `id`.
pub fn str_listed(list: &Vec<&'static str>, id: &str) -> (r: bool)
    ensures
        r == listed(list@, id@),
{
    let n = list.len();
    for i in 0..n
        invariant
            n == list@.len(),
            forall|j: int| 0 <= j < i ==> (#[trigger] list@[j])@ != id@,
    {
        if str_eq(list[i], id) {
            return true;
        }
    }
    false
}

/// The maintenance rows with their own witness tests: id, producer test, consumer test.
pub open spec fn maintenance_witness_table() -> Seq<(&'static str, &'static str, &'static str)> {
    seq![
        ("api.maintenance-path.request", "suite::maintenance_adoption::maintenance_path_request_producer", "suite::maintenance_adoption::maintenance_path_request_consumer"),
        ("api.maintenance-import.request", "suite::maintenance_adoption::maintenance_import_request_producer", "suite::maintenance_adoption::maintenance_import_request_consumer"),
        ("api.maintenance-backup.request", "suite::maintenance_adoption::maintenance_backup_request_producer", "suite::maintenance_adoption::maintenance_backup_request_consumer"),
        ("api.maintenance-export.request", "suite::maintenance_adoption::maintenance_export_request_producer", "suite::maintenance_adoption::maintenance_export_request_consumer"),
        ("api.maintenance-run.request", "suite::maintenance_adoption::maintenance_run_request_producer", "suite::maintenance_adoption::maintenance_run_request_consumer"),
        ("api.maintenance-rebuild.request", "suite::maintenance_adoption::maintenance_rebuild_request_producer", "suite::maintenance_adoption::maintenance_rebuild_request_consumer"),
        ("api.maintenance-cleanup.request", "suite::maintenance_adoption::maintenance_cleanup_request_producer", "suite::maintenance_adoption::maintenance_cleanup_request_consumer"),
        ("api.maintenance-import-v30.request", "suite::maintenance_adoption::legacy_import_v30_request_producer", "suite::maintenance_adoption::legacy_import_v30_request_consumer"),
        ("api.maintenance-backup.response", "suite::maintenance_adoption::maintenance_backup_response_producer", "suite::maintenance_adoption::maintenance_backup_response_consumer"),
        ("api.maintenance-export.response", "suite::maintenance_adoption::maintenance_export_response_producer", "suite::maintenance_adoption::maintenance_export_response_consumer"),
        ("api.maintenance-import.response", "suite::maintenance_adoption::maintenance_import_response_producer", "suite::maintenance_adoption::maintenance_import_response_consumer"),
        ("api.maintenance-vacuum.response", "suite::maintenance_adoption::maintenance_vacuum_response_producer", "suite::maintenance_adoption::maintenance_vacuum_response_consumer"),
        ("api.maintenance-status.response", "suite::maintenance_adoption::maintenance_status_response_producer", "suite::maintenance_adoption::maintenance_status_response_consumer"),
        ("api.maintenance-run.response", "suite::maintenance_adoption::maintenance_run_response_producer", "suite::maintenance_adoption::maintenance_run_response_consumer"),
        ("api.maintenance-rebuild.response", "suite::maintenance_adoption::maintenance_rebuild_response_producer", "suite::maintenance_adoption::maintenance_rebuild_response_consumer"),
        ("api.maintenance-cleanup.response", "suite::maintenance_adoption::maintenance_cleanup_response_producer", "suite::maintenance_adoption::maintenance_cleanup_response_consumer"),
        ("api.maintenance-import-v30.response", "suite::maintenance_adoption::legacy_import_v30_response_producer", "suite::maintenance_adoption::legacy_import_v30_response_consumer"),
    ]
}

/// The vector rows whose producer or consumer is the client library: id, server route test,
/// client test, and whether the row is a request (which the server consumes).
pub open spec fn vector_witness_table() -> Seq<(&'static str, &'static str, &'static str, bool)> {
    seq![
        ("api.vector-configure.request", "vector::tests::vector_configure_request_fixture_is_consumed_by_real_router", "operations::vector::tests::vector_configure_request_fixture_is_produced", true),
        ("api.vector-rebuild.request", "vector::tests::vector_rebuild_request_fixture_is_consumed_by_real_router", "operations::vector::tests::vector_rebuild_request_fixture_is_produced", true),
        ("api.vector-sync.request", "vector::tests::vector_sync_request_fixture_is_consumed_by_real_router", "operations::vector::tests::vector_sync_request_fixture_is_produced", true),
        ("api.vector-query-chunks.query", "vector::tests::vector_query_chunks_query_fixture_is_consumed_by_real_router", "operations::vector::tests::vector_query_chunks_query_fixture_is_produced", true),
        ("api.vector-query-label-atoms.query", "vector::tests::vector_query_label_atoms_query_fixture_is_consumed_by_real_router", "operations::vector::tests::vector_query_label_atoms_query_fixture_is_produced", true),
        ("api.vector-configure.response", "vector::tests::vector_configure_response_fixture_is_produced_by_real_router", "operations::vector::tests::vector_configure_response_fixture_is_consumed_by_client", false),
        ("api.vector-rebuild.response", "vector::tests::vector_rebuild_response_fixture_is_produced_by_real_router", "operations::vector::tests::vector_rebuild_response_fixture_is_consumed_by_client", false),
        ("api.vector-sync.response", "vector::tests::vector_sync_response_fixture_is_produced_by_real_router", "operations::vector::tests::vector_sync_response_fixture_is_consumed_by_client", false),
        ("api.vector-query-chunks.response", "vector::tests::vector_query_chunks_response_fixture_is_produced_by_real_router", "operations::vector::tests::vector_query_chunks_response_fixture_is_consumed_by_client", false),
        ("api.vector-query-label-atoms.response", "vector::tests::vector_query_label_atoms_response_fixture_is_produced_by_real_router", "operations::vector::tests::vector_query_label_atoms_response_fixture_is_consumed_by_client", false),
    ]
}

/// The label routes that have no canonical witness.
pub open spec fn label_route_ids() -> Seq<&'static str> {
    seq![
        "api.list-board-labels.path",
        "api.list-board-labels.response",
        "api.create-board-label.path",
        "api.create-board-label.request",
        "api.create-board-label.response",
        "api.list-task-labels.path",
        "api.list-task-labels.response",
        "api.add-task-label.path",
        "api.add-task-label.request",
        "api.add-task-label.response",
        "api.remove-task-label.path",
        "api.remove-task-label.response",
    ]
}

/// The knowledge routes that have no canonical witness.
pub open spec fn knowledge_route_ids() -> Seq<&'static str> {
    seq![
        "api.board-task-map.path",
        "api.board-task-map.query",
        "api.board-task-map.response",
        "api.task-neighborhood.path",
        "api.task-neighborhood.query",
        "api.task-neighborhood.response",
        "api.search-tasks.query",
        "api.search-tasks.response",
        "api.search-tasks-by-status.query",
        "api.search-tasks-by-status.response",
        "api.search-status.query",
        "api.search-status.response",
        "api.rebuild-search-index.query",
        "api.rebuild-search-index.response",
        "api.sync-search-index.query",
        "api.sync-search-index.response",
        "api.build-context.path",
        "api.build-context.query",
        "api.build-context.response",
        "api.graph-status.query",
        "api.graph-status.response",
        "api.graph-neighbors.query",
        "api.graph-neighbors.response",
        "api.graph-query.query",
        "api.graph-query.response",
        "api.graph-rebuild.query",
        "api.graph-rebuild.response",
        "api.graph-sync.query",
        "api.graph-sync.response",
        "api.entity-list.query",
        "api.entity-list.response",
        "api.entity.path",
        "api.entity.response",
        "api.entity-upsert.request",
        "api.entity-upsert.response",
        "api.vector-status.query",
        "api.vector-status.response",
        "api.vector-configure.request",
        "api.vector-configure.response",
        "api.vector-rebuild.request",
        "api.vector-rebuild.response",
        "api.vector-sync.request",
        "api.vector-sync.response",
        "api.vector-query-chunks.query",
        "api.vector-query-chunks.response",
        "api.vector-query-label-atoms.query",
        "api.vector-query-label-atoms.response",
    ]
}

/// The task CRUD routes, witnessed by the task CRUD suite.
pub open spec fn task_crud_route_ids() -> Seq<&'static str> {
    seq![
        "api.list-tasks.path",
        "api.list-tasks.query",
        "api.list-tasks.response",
        "api.list-tasks-by-status.path",
        "api.list-tasks-by-status.query",
        "api.list-tasks-by-status.response",
        "api.create-task.path",
        "api.create-task.request",
        "api.create-task.response",
        "api.get-task.path",
        "api.get-task.query",
        "api.get-task.response",
        "api.update-task.path",
        "api.update-task.request",
        "api.update-task.response",
    ]
}
fn maintenance_witness_table_rows() -> (r: Vec<(&'static str, &'static str, &'static str)>)
    ensures
        r@ == maintenance_witness_table(),
{
    let r = vec![
        ("api.maintenance-path.request", "suite::maintenance_adoption::maintenance_path_request_producer", "suite::maintenance_adoption::maintenance_path_request_consumer"),
        ("api.maintenance-import.request", "suite::maintenance_adoption::maintenance_import_request_producer", "suite::maintenance_adoption::maintenance_import_request_consumer"),
        ("api.maintenance-backup.request", "suite::maintenance_adoption::maintenance_backup_request_producer", "suite::maintenance_adoption::maintenance_backup_request_consumer"),
        ("api.maintenance-export.request", "suite::maintenance_adoption::maintenance_export_request_producer", "suite::maintenance_adoption::maintenance_export_request_consumer"),
        ("api.maintenance-run.request", "suite::maintenance_adoption::maintenance_run_request_producer", "suite::maintenance_adoption::maintenance_run_request_consumer"),
        ("api.maintenance-rebuild.request", "suite::maintenance_adoption::maintenance_rebuild_request_producer", "suite::maintenance_adoption::maintenance_rebuild_request_consumer"),
        ("api.maintenance-cleanup.request", "suite::maintenance_adoption::maintenance_cleanup_request_producer", "suite::maintenance_adoption::maintenance_cleanup_request_consumer"),
        ("api.maintenance-import-v30.request", "suite::maintenance_adoption::legacy_import_v30_request_producer", "suite::maintenance_adoption::legacy_import_v30_request_consumer"),
        ("api.maintenance-backup.response", "suite::maintenance_adoption::maintenance_backup_response_producer", "suite::maintenance_adoption::maintenance_backup_response_consumer"),
        ("api.maintenance-export.response", "suite::maintenance_adoption::maintenance_export_response_producer", "suite::maintenance_adoption::maintenance_export_response_consumer"),
        ("api.maintenance-import.response", "suite::maintenance_adoption::maintenance_import_response_producer", "suite::maintenance_adoption::maintenance_import_response_consumer"),
        ("api.maintenance-vacuum.response", "suite::maintenance_adoption::maintenance_vacuum_response_producer", "suite::maintenance_adoption::maintenance_vacuum_response_consumer"),
        ("api.maintenance-status.response", "suite::maintenance_adoption::maintenance_status_response_producer", "suite::maintenance_adoption::maintenance_status_response_consumer"),
        ("api.maintenance-run.response", "suite::maintenance_adoption::maintenance_run_response_producer", "suite::maintenance_adoption::maintenance_run_response_consumer"),
        ("api.maintenance-rebuild.response", "suite::maintenance_adoption::maintenance_rebuild_response_producer", "suite::maintenance_adoption::maintenance_rebuild_response_consumer"),
        ("api.maintenance-cleanup.response", "suite::maintenance_adoption::maintenance_cleanup_response_producer", "suite::maintenance_adoption::maintenance_cleanup_response_consumer"),
        ("api.maintenance-import-v30.response", "suite::maintenance_adoption::legacy_import_v30_response_producer", "suite::maintenance_adoption::legacy_import_v30_response_consumer"),
    ];
    assert(r@ =~= maintenance_witness_table());
    r
}

fn vector_witness_table_rows() -> (r: Vec<(&'static str, &'static str, &'static str, bool)>)
    ensures
        r@ == vector_witness_table(),
{
    let r = vec![
        ("api.vector-configure.request", "vector::tests::vector_configure_request_fixture_is_consumed_by_real_router", "operations::vector::tests::vector_configure_request_fixture_is_produced", true),
        ("api.vector-rebuild.request", "vector::tests::vector_rebuild_request_fixture_is_consumed_by_real_router", "operations::vector::tests::vector_rebuild_request_fixture_is_produced", true),
        ("api.vector-sync.request", "vector::tests::vector_sync_request_fixture_is_consumed_by_real_router", "operations::vector::tests::vector_sync_request_fixture_is_produced", true),
        ("api.vector-query-chunks.query", "vector::tests::vector_query_chunks_query_fixture_is_consumed_by_real_router", "operations::vector::tests::vector_query_chunks_query_fixture_is_produced", true),
        ("api.vector-query-label-atoms.query", "vector::tests::vector_query_label_atoms_query_fixture_is_consumed_by_real_router", "operations::vector::tests::vector_query_label_atoms_query_fixture_is_produced", true),
        ("api.vector-configure.response", "vector::tests::vector_configure_response_fixture_is_produced_by_real_router", "operations::vector::tests::vector_configure_response_fixture_is_consumed_by_client", false),
        ("api.vector-rebuild.response", "vector::tests::vector_rebuild_response_fixture_is_produced_by_real_router", "operations::vector::tests::vector_rebuild_response_fixture_is_consumed_by_client", false),
        ("api.vector-sync.response", "vector::tests::vector_sync_response_fixture_is_produced_by_real_router", "operations::vector::tests::vector_sync_response_fixture_is_consumed_by_client", false),
        ("api.vector-query-chunks.response", "vector::tests::vector_query_chunks_response_fixture_is_produced_by_real_router", "operations::vector::tests::vector_query_chunks_response_fixture_is_consumed_by_client", false),
        ("api.vector-query-label-atoms.response", "vector::tests::vector_query_label_atoms_response_fixture_is_produced_by_real_router", "operations::vector::tests::vector_query_label_atoms_response_fixture_is_consumed_by_client", false),
    ];
    assert(r@ =~= vector_witness_table());
    r
}

fn label_route_ids_rows() -> (r: Vec<&'static str>)
    ensures
        r@ == label_route_ids(),
{
    let r = vec![
        "api.list-board-labels.path",
        "api.list-board-labels.response",
        "api.create-board-label.path",
        "api.create-board-label.request",
        "api.create-board-label.response",
        "api.list-task-labels.path",
        "api.list-task-labels.response",
        "api.add-task-label.path",
        "api.add-task-label.request",
        "api.add-task-label.response",
        "api.remove-task-label.path",
        "api.remove-task-label.response",
    ];
    assert(r@ =~= label_route_ids());
    r
}

fn knowledge_route_ids_rows() -> (r: Vec<&'static str>)
    ensures
        r@ == knowledge_route_ids(),
{
    let r = vec![
        "api.board-task-map.path",
        "api.board-task-map.query",
        "api.board-task-map.response",
        "api.task-neighborhood.path",
        "api.task-neighborhood.query",
        "api.task-neighborhood.response",
        "api.search-tasks.query",
        "api.search-tasks.response",
        "api.search-tasks-by-status.query",
        "api.search-tasks-by-status.response",
        "api.search-status.query",
        "api.search-status.response",
        "api.rebuild-search-index.query",
        "api.rebuild-search-index.response",
        "api.sync-search-index.query",
        "api.sync-search-index.response",
        "api.build-context.path",
        "api.build-context.query",
        "api.build-context.response",
        "api.graph-status.query",
        "api.graph-status.response",
        "api.graph-neighbors.query",
        "api.graph-neighbors.response",
        "api.graph-query.query",
        "api.graph-query.response",
        "api.graph-rebuild.query",
        "api.graph-rebuild.response",
        "api.graph-sync.query",
        "api.graph-sync.response",
        "api.entity-list.query",
        "api.entity-list.response",
        "api.entity.path",
        "api.entity.response",
        "api.entity-upsert.request",
        "api.entity-upsert.response",
        "api.vector-status.query",
        "api.vector-status.response",
        "api.vector-configure.request",
        "api.vector-configure.response",
        "api.vector-rebuild.request",
        "api.vector-rebuild.response",
        "api.vector-sync.request",
        "api.vector-sync.response",
        "api.vector-query-chunks.query",
        "api.vector-query-chunks.response",
        "api.vector-query-label-atoms.query",
        "api.vector-query-label-atoms.response",
    ];
    assert(r@ =~= knowledge_route_ids());
    r
}

fn task_crud_route_ids_rows() -> (r: Vec<&'static str>)
    ensures
        r@ == task_crud_route_ids(),
{
    let r = vec![
        "api.list-tasks.path",
        "api.list-tasks.query",
        "api.list-tasks.response",
        "api.list-tasks-by-status.path",
        "api.list-tasks-by-status.query",
        "api.list-tasks-by-status.response",
        "api.create-task.path",
        "api.create-task.request",
        "api.create-task.response",
        "api.get-task.path",
        "api.get-task.query",
        "api.get-task.response",
        "api.update-task.path",
        "api.update-task.request",
        "api.update-task.response",
    ];
    assert(r@ =~= task_crud_route_ids());
    r
}

/// The witness of a configuration contract.
pub open spec fn config_witness(id: Seq<char>, consumer: bool) -> AdoptionLocator {
    if id == "config.selected-worker-profile.input"@ {
        if consumer {
            cli_test("cli_admin_adoption", "dispatcher_profile_is_consumed_by_real_serve_and_only_claims_ready")
        } else {
            cli_test(
                "cli_config_contract_adoption",
                "config_adoption::selected_worker_profile_input_fixture_is_produced_by_runtime_config_dto",
            )
        }
    } else if consumer {
        cli_test("cli_queue_adoption", "queue_cli_uses_real_host_for_config_board_and_task_commands")
    } else {
        cli_test(
            "cli_config_contract_adoption",
            "config_adoption::project_config_input_fixture_is_produced_by_runtime_config_dto",
        )
    }
}

/// The witness of a configuration contract.
pub fn canonical_config_witness(id: &str, consumer: bool) -> (r: AdoptionLocator)
    ensures
        r == config_witness(id@, consumer),
{
    if str_eq(id, "config.selected-worker-profile.input") {
        if consumer {
            cli_test("cli_admin_adoption", "dispatcher_profile_is_consumed_by_real_serve_and_only_claims_ready")
        } else {
            cli_test(
                "cli_config_contract_adoption",
                "config_adoption::selected_worker_profile_input_fixture_is_produced_by_runtime_config_dto",
            )
        }
    } else if consumer {
        cli_test("cli_queue_adoption", "queue_cli_uses_real_host_for_config_board_and_task_commands")
    } else {
        cli_test(
            "cli_config_contract_adoption",
            "config_adoption::project_config_input_fixture_is_produced_by_runtime_config_dto",
        )
    }
}

/// The witness of a CLI contract, by the command family its id names.
pub open spec fn cli_witness(id: Seq<char>) -> AdoptionLocator {
    if starts_with(id, "cli.task-step-"@) || starts_with(id, "cli.dep-"@) {
        cli_test(
            "cli_steps_dependencies_adoption",
            "steps_and_dependencies_cli_use_real_host_and_committed_contract_shapes",
        )
    } else if starts_with(id, "cli.task-"@) && !(id == "cli.task-create.output"@ || id
        == "cli.task-list.output"@ || id == "cli.task-show.output"@ || id
        == "cli.task-update.output"@) {
        cli_test("cli_lifecycle_adoption", "lifecycle_cli_runs_each_transition_through_localhost_host")
    } else if starts_with(id, "cli.run"@) || starts_with(id, "cli.runs"@) || starts_with(
        id,
        "cli.comment-"@,
    ) || starts_with(id, "cli.attachment-"@) || id == "cli.events.output"@ {
        cli_test("cli_history_adoption", "history_cli_covers_runs_logs_comments_attachments_events_and_stats")
    } else if starts_with(id, "cli.label-"@) {
        if contains(id, "ontology"@) {
            cli_test(
                "cli_label_contract_adoption",
                "ontology_observation_signal_review_and_action_flow_through_real_cli",
            )
        } else {
            cli_test("cli_label_contract_adoption", "labels_semantics_atoms_and_proposals_flow_through_real_cli")
        }
    } else if starts_with(id, "cli.signal-"@) {
        cli_test("cli_label_contract_adoption", "generic_signals_record_review_and_confirm_flow_through_real_cli")
    } else if starts_with(id, "cli.hook-"@) {
        cli_test("cli_admin_adoption", "codex_hooks_install_handle_status_and_uninstall_use_real_binary")
    } else if starts_with(id, "cli.completion"@) || starts_with(id, "cli.__complete"@) {
        cli_test("cli_admin_adoption", "completion_and_hidden_complete_are_local_and_do_not_open_database")
    } else if starts_with(id, "cli.graph-"@) || starts_with(id, "cli.entity-"@) || starts_with(
        id,
        "cli.search-"@,
    ) || starts_with(id, "cli.vector-"@) || starts_with(id, "cli.index-"@) || starts_with(
        id,
        "cli.context-"@,
    ) {
        cli_test(
            "cli_knowledge_adoption",
            "knowledge_commands_use_real_canonical_host_and_preserve_degraded_providers",
        )
    } else if starts_with(id, "cli.maintenance-"@) || starts_with(id, "cli.import-v30"@) || starts_with(
        id,
        "cli.doctor"@,
    ) || starts_with(id, "cli.checkpoint"@) || starts_with(id, "cli.stats"@) {
        cli_test("cli_admin_adoption", "maintenance_admin_commands_use_real_host_and_typed_json")
    } else {
        cli_test("cli_queue_adoption", "queue_cli_uses_real_host_for_config_board_and_task_commands")
    }
}

/// The witness of a CLI contract.
pub fn canonical_cli_witness(id: &str) -> (r: AdoptionLocator)
    ensures
        r == cli_witness(id@),
{
    let s = str_chars(id);
    if chars_starts_with(&s, "cli.task-step-") || chars_starts_with(&s, "cli.dep-") {
        return cli_test(
            "cli_steps_dependencies_adoption",
            "steps_and_dependencies_cli_use_real_host_and_committed_contract_shapes",
        );
    }
    if chars_starts_with(&s, "cli.task-") && !(str_eq(id, "cli.task-create.output") || str_eq(
        id,
        "cli.task-list.output",
    ) || str_eq(id, "cli.task-show.output") || str_eq(id, "cli.task-update.output")) {
        return cli_test("cli_lifecycle_adoption", "lifecycle_cli_runs_each_transition_through_localhost_host");
    }
    if chars_starts_with(&s, "cli.run") || chars_starts_with(&s, "cli.runs") || chars_starts_with(
        &s,
        "cli.comment-",
    ) || chars_starts_with(&s, "cli.attachment-") || str_eq(id, "cli.events.output") {
        return cli_test(
            "cli_history_adoption",
            "history_cli_covers_runs_logs_comments_attachments_events_and_stats",
        );
    }
    if chars_starts_with(&s, "cli.label-") {
        if chars_contains(&s, "ontology") {
            return cli_test(
                "cli_label_contract_adoption",
                "ontology_observation_signal_review_and_action_flow_through_real_cli",
            );
        }
        return cli_test("cli_label_contract_adoption", "labels_semantics_atoms_and_proposals_flow_through_real_cli");
    }
    if chars_starts_with(&s, "cli.signal-") {
        return cli_test(
            "cli_label_contract_adoption",
            "generic_signals_record_review_and_confirm_flow_through_real_cli",
        );
    }
    if chars_starts_with(&s, "cli.hook-") {
        return cli_test("cli_admin_adoption", "codex_hooks_install_handle_status_and_uninstall_use_real_binary");
    }
    if chars_starts_with(&s, "cli.completion") || chars_starts_with(&s, "cli.__complete") {
        return cli_test(
            "cli_admin_adoption",
            "completion_and_hidden_complete_are_local_and_do_not_open_database",
        );
    }
    if chars_starts_with(&s, "cli.graph-") || chars_starts_with(&s, "cli.entity-") || chars_starts_with(
        &s,
        "cli.search-",
    ) || chars_starts_with(&s, "cli.vector-") || chars_starts_with(&s, "cli.index-") || chars_starts_with(
        &s,
        "cli.context-",
    ) {
        return cli_test(
            "cli_knowledge_adoption",
            "knowledge_commands_use_real_canonical_host_and_preserve_degraded_providers",
        );
    }
    if chars_starts_with(&s, "cli.maintenance-") || chars_starts_with(&s, "cli.import-v30") || chars_starts_with(
        &s,
        "cli.doctor",
    ) || chars_starts_with(&s, "cli.checkpoint") || chars_starts_with(&s, "cli.stats") {
        return cli_test("cli_admin_adoption", "maintenance_admin_commands_use_real_host_and_typed_json");
    }
    cli_test("cli_queue_adoption", "queue_cli_uses_real_host_for_config_board_and_task_commands")
}

/// The witness of a metadata contract.
pub open spec fn metadata_witness(id: Seq<char>) -> AdoptionLocator {
    if id == "metadata.decision.input"@ {
        cli_test("cli_history_adoption", "history_cli_covers_runs_logs_comments_attachments_events_and_stats")
    } else if id == "metadata.signal-record.input"@ || id == "metadata.signal-link.output"@ {
        cli_test("cli_label_contract_adoption", "generic_signals_record_review_and_confirm_flow_through_real_cli")
    } else if id == "metadata.label-proposal-candidate.input"@ {
        cli_test("cli_label_contract_adoption", "labels_semantics_atoms_and_proposals_flow_through_real_cli")
    } else {
        cli_test("cli_label_contract_adoption", "ontology_observation_signal_review_and_action_flow_through_real_cli")
    }
}

/// The witness of a metadata contract.
fn canonical_metadata_witness(id: &str) -> (r: AdoptionLocator)
    ensures
        r == metadata_witness(id@),
{
    if str_eq(id, "metadata.decision.input") {
        cli_test("cli_history_adoption", "history_cli_covers_runs_logs_comments_attachments_events_and_stats")
    } else if str_eq(id, "metadata.signal-record.input") || str_eq(id, "metadata.signal-link.output") {
        cli_test("cli_label_contract_adoption", "generic_signals_record_review_and_confirm_flow_through_real_cli")
    } else if str_eq(id, "metadata.label-proposal-candidate.input") {
        cli_test("cli_label_contract_adoption", "labels_semantics_atoms_and_proposals_flow_through_real_cli")
    } else {
        cli_test("cli_label_contract_adoption", "ontology_observation_signal_review_and_action_flow_through_real_cli")
    }
}

/// A maintenance table entry with the given id.
pub open spec fn names_maintenance_row(id: Seq<char>) -> spec_fn((&'static str, &'static str, &'static str)) -> bool {
    |e: (&'static str, &'static str, &'static str)| e.0@ == id
}

/// The producer or consumer test of a maintenance row; rows without their own tests share
/// the run response consumer.
pub open spec fn maintenance_test(id: Seq<char>, consumer: bool) -> &'static str {
    match first_index(maintenance_witness_table(), names_maintenance_row(id)) {
        Some(i) => if consumer {
            maintenance_witness_table()[i].2
        } else {
            maintenance_witness_table()[i].1
        },
        None => "suite::maintenance_adoption::maintenance_run_response_consumer",
    }
}

/// The producer or consumer test of a maintenance row.
pub fn maintenance_witness(id: &str, consumer: bool) -> (r: &'static str)
    ensures
        r == maintenance_test(id@, consumer),
{
    let table = maintenance_witness_table_rows();
    let n = table.len();
    for i in 0..n
        invariant
            n == table@.len(),
            table@ == maintenance_witness_table(),
            forall|j: int| 0 <= j < i ==> !(names_maintenance_row(id@))(#[trigger] table@[j]),
    {
        if str_eq(table[i].0, id) {
            proof {
                lemma_first_index_is(table@, names_maintenance_row(id@), i as int);
            }
            return if consumer {
                table[i].2
            } else {
                table[i].1
            };
        }
    }
    proof {
        lemma_first_index_none(table@, names_maintenance_row(id@));
    }
    "suite::maintenance_adoption::maintenance_run_response_consumer"
}

/// A header fixture names one of the known header profiles.
pub open spec fn header_fixture_known(fixture: Seq<char>) -> bool {
    ||| contains(fixture, "locale-actor-optional-json-headers"@)
    ||| contains(fixture, "locale-actor-json-headers"@)
    ||| contains(fixture, "locale-actor-headers"@)
    ||| contains(fixture, "locale-json-headers"@)
    ||| contains(fixture, "locale-headers"@)
}

/// The router test that consumes a header fixture, by the most specific profile it names.
pub open spec fn header_test(fixture: Seq<char>) -> &'static str {
    if contains(fixture, "locale-actor-optional-json-headers"@) {
        "knowledge_adoption::locale_actor_optional_json_header_fixture_is_consumed_by_real_router"
    } else if contains(fixture, "locale-actor-json-headers"@) {
        "knowledge_adoption::locale_actor_json_header_fixture_is_consumed_by_real_router"
    } else if contains(fixture, "locale-actor-headers"@) {
        "knowledge_adoption::locale_actor_header_fixture_is_consumed_by_real_router"
    } else if contains(fixture, "locale-json-headers"@) {
        "knowledge_adoption::locale_json_header_fixture_is_consumed_by_real_router"
    } else {
        "knowledge_adoption::locale_header_fixture_is_consumed_by_real_router"
    }
}

/// The fixture path of a contract, empty when it has none.
pub open spec fn fixture_text(contract: OperationContract) -> Seq<char> {
    match contract.fixture {
        Some(f) => f@,
        None => ""@,
    }
}

/// The witness of a header contract; its fixture must name a known header profile.
pub fn header_witness(contract: &OperationContract) -> (r: AdoptionLocator)
    requires
        header_fixture_known(fixture_text(*contract)),
    ensures
        r == server_route_test(header_test(fixture_text(*contract))),
{
    let fixture = match contract.fixture {
        Some(f) => f,
        None => "",
    };
    let f = str_chars(fixture);
    let exact_test = if chars_contains(&f, "locale-actor-optional-json-headers") {
        "knowledge_adoption::locale_actor_optional_json_header_fixture_is_consumed_by_real_router"
    } else if chars_contains(&f, "locale-actor-json-headers") {
        "knowledge_adoption::locale_actor_json_header_fixture_is_consumed_by_real_router"
    } else if chars_contains(&f, "locale-actor-headers") {
        "knowledge_adoption::locale_actor_header_fixture_is_consumed_by_real_router"
    } else if chars_contains(&f, "locale-json-headers") {
        "knowledge_adoption::locale_json_header_fixture_is_consumed_by_real_router"
    } else {
        "knowledge_adoption::locale_header_fixture_is_consumed_by_real_router"
    };
    server_route_test(exact_test)
}

/// The route suite of an API contract that no earlier rule claims, by the first domain
/// word its id contains.
pub open spec fn api_route_test(id: Seq<char>) -> &'static str {
    if contains(id, "label-ontology"@) || contains(id, "ontology-"@) {
        "knowledge_adoption::ontology_ledger_routes_consume_observation_and_action_fixtures"
    } else if contains(id, "signal"@) {
        "knowledge_adoption::signal_routes_consume_record_list_show_and_review_fixtures"
    } else if contains(id, "proposal"@) || contains(id, "propose-task-label"@) {
        "knowledge_adoption::label_proposal_routes_consume_typed_fixtures_and_persist_real_proposal"
    } else if contains(id, "label"@) {
        "knowledge_adoption::labels_semantics_and_atoms_use_committed_fixtures_through_host"
    } else if contains(id, "entity"@) {
        "knowledge_adoption::entity_routes_consume_upsert_list_and_path_fixtures"
    } else if contains(id, "search"@) {
        "knowledge_adoption::search_routes_consume_query_and_status_fixtures_against_real_index"
    } else if contains(id, "context"@) {
        "knowledge_adoption::context_neighborhood_and_task_map_routes_consume_typed_fixtures"
    } else if contains(id, "graph"@) || contains(id, "task-neighborhood"@) || contains(id, "task-map"@) {
        "knowledge_adoption::graph_routes_consume_query_and_projection_fixtures"
    } else if contains(id, "vector-status"@) {
        "knowledge_adoption::vector_routes_consume_typed_projection_fixtures_and_real_degraded_queries"
    } else if contains(id, "stats"@) || contains(id, "events"@) || starts_with(id, "sse."@) {
        "http::operations::contract_adoption::suite_events_sse_and_stats_adoption_use_query_fixtures"
    } else if contains(id, "board"@) {
        "http::operations::contract_adoption::suite_boards_adoption_uses_request_path_query_and_response_fixtures"
    } else if contains(id, "step"@) || contains(id, "execution-plan"@) {
        "http::operations::contract_adoption::suite_steps_and_plans_adoption_uses_real_router_fixtures"
    } else if contains(id, "depend"@) {
        "http::operations::contract_adoption::suite_dependencies_adoption_uses_path_body_and_response_fixtures"
    } else if contains(id, "comment"@) || contains(id, "attachment"@) {
        "http::operations::contract_adoption::suite_comments_and_attachments_adoption_uses_real_router_fixtures"
    } else if contains(id, "run"@) {
        "http::operations::contract_adoption::suite_runs_and_logs_adoption_uses_real_router_paths_and_fixtures"
    } else if contains(id, "task"@) || contains(id, "transition"@) {
        "http::operations::contract_adoption::suite_task_lifecycle_adoption_uses_committed_requests_and_typed_responses"
    } else {
        "http::operations::contract_adoption::suite_health_and_errors_use_real_router_fixtures"
    }
}

/// The route suite of an API contract that no earlier rule claims.
fn route_test(id: &Vec<char>) -> (r: &'static str)
    ensures
        r == api_route_test(id@),
{
    if chars_contains(id, "label-ontology") || chars_contains(id, "ontology-") {
        "knowledge_adoption::ontology_ledger_routes_consume_observation_and_action_fixtures"
    } else if chars_contains(id, "signal") {
        "knowledge_adoption::signal_routes_consume_record_list_show_and_review_fixtures"
    } else if chars_contains(id, "proposal") || chars_contains(id, "propose-task-label") {
        "knowledge_adoption::label_proposal_routes_consume_typed_fixtures_and_persist_real_proposal"
    } else if chars_contains(id, "label") {
        "knowledge_adoption::labels_semantics_and_atoms_use_committed_fixtures_through_host"
    } else if chars_contains(id, "entity") {
        "knowledge_adoption::entity_routes_consume_upsert_list_and_path_fixtures"
    } else if chars_contains(id, "search") {
        "knowledge_adoption::search_routes_consume_query_and_status_fixtures_against_real_index"
    } else if chars_contains(id, "context") {
        "knowledge_adoption::context_neighborhood_and_task_map_routes_consume_typed_fixtures"
    } else if chars_contains(id, "graph") || chars_contains(id, "task-neighborhood") || chars_contains(
        id,
        "task-map",
    ) {
        "knowledge_adoption::graph_routes_consume_query_and_projection_fixtures"
    } else if chars_contains(id, "vector-status") {
        "knowledge_adoption::vector_routes_consume_typed_projection_fixtures_and_real_degraded_queries"
    } else if chars_contains(id, "stats") || chars_contains(id, "events") || chars_starts_with(id, "sse.") {
        "http::operations::contract_adoption::suite_events_sse_and_stats_adoption_use_query_fixtures"
    } else if chars_contains(id, "board") {
        "http::operations::contract_adoption::suite_boards_adoption_uses_request_path_query_and_response_fixtures"
    } else if chars_contains(id, "step") || chars_contains(id, "execution-plan") {
        "http::operations::contract_adoption::suite_steps_and_plans_adoption_uses_real_router_fixtures"
    } else if chars_contains(id, "depend") {
        "http::operations::contract_adoption::suite_dependencies_adoption_uses_path_body_and_response_fixtures"
    } else if chars_contains(id, "comment") || chars_contains(id, "attachment") {
        "http::operations::contract_adoption::suite_comments_and_attachments_adoption_uses_real_router_fixtures"
    } else if chars_contains(id, "run") {
        "http::operations::contract_adoption::suite_runs_and_logs_adoption_uses_real_router_paths_and_fixtures"
    } else if chars_contains(id, "task") || chars_contains(id, "transition") {
        "http::operations::contract_adoption::suite_task_lifecycle_adoption_uses_committed_requests_and_typed_responses"
    } else {
        "http::operations::contract_adoption::suite_health_and_errors_use_real_router_fixtures"
    }
}

/// A vector table entry with the given id.
pub open spec fn names_vector_row(id: Seq<char>) -> spec_fn((&'static str, &'static str, &'static str, bool)) -> bool {
    |e: (&'static str, &'static str, &'static str, bool)| e.0@ == id
}

/// The witness of a vector row: the server consumes requests and produces responses, the
/// client does the other side.
pub open spec fn vector_witness(e: (&'static str, &'static str, &'static str, bool), consumer: bool) -> AdoptionLocator {
    if e.3 == consumer {
        server_route_test(e.1)
    } else {
        client_test(e.2)
    }
}

/// The suite that exercises the health and error fixtures.
pub open spec fn health_suite() -> &'static str {
    "http::operations::contract_adoption::suite_health_and_errors_use_real_router_fixtures"
}

/// The witness of an API contract, or none for the label and knowledge routes that have no
/// canonical witness.
pub open spec fn api_witness(id: Seq<char>, fixture: Seq<char>, consumer: bool) -> Option<AdoptionLocator> {
    if ends_with(id, ".headers"@) {
        Some(server_route_test(header_test(fixture)))
    } else {
        match first_index(vector_witness_table(), names_vector_row(id)) {
            Some(i) => Some(vector_witness(vector_witness_table()[i], consumer)),
            None => if starts_with(id, "api.maintenance-"@) {
                Some(server_route_test(maintenance_test(id, consumer)))
            } else if id == "api.doctor.response"@ {
                Some(
                    server_route_test(
                        if consumer {
                            "suite::maintenance_adoption::doctor_response_contract_consumes_producer_fixture"
                        } else {
                            "suite::maintenance_adoption::doctor_response_maps_real_non_default_report_before_fixture_normalization"
                        },
                    ),
                )
            } else if id == "api.checkpoint.response"@ {
                Some(
                    server_route_test(
                        if consumer {
                            "suite::maintenance_adoption::checkpoint_response_contract_consumes_producer_fixture"
                        } else {
                            "suite::maintenance_adoption::checkpoint_response_reports_real_wal_field_relationships"
                        },
                    ),
                )
            } else if id == "api.health.response"@ || id == "api.error.response"@ {
                Some(server_route_test(health_suite()))
            } else if listed(label_route_ids(), id) || listed(knowledge_route_ids(), id) {
                None
            } else if listed(task_crud_route_ids(), id) {
                Some(
                    server_route_test(
                        "http::operations::contract_adoption::suite_tasks_crud_and_reads_use_committed_fixtures_through_router",
                    ),
                )
            } else {
                Some(server_route_test(api_route_test(id)))
            },
        }
    }
}

/// The witness of an API contract; a header contract's fixture must name a known profile.
pub fn canonical_api_witness(contract: &OperationContract, consumer: bool) -> (r: Option<AdoptionLocator>)
    requires
        ends_with(contract.id@, ".headers"@) ==> header_fixture_known(fixture_text(*contract)),
    ensures
        r == api_witness(contract.id@, fixture_text(*contract), consumer),
{
    let id = contract.id;
    let s = str_chars(id);
    if chars_ends_with(&s, ".headers") {
        return Some(header_witness(contract));
    }
    let vectors = vector_witness_table_rows();
    let n = vectors.len();
    for i in 0..n
        invariant
            n == vectors@.len(),
            vectors@ == vector_witness_table(),
            id@ == contract.id@,
            !ends_with(id@, ".headers"@),
            forall|j: int| 0 <= j < i ==> !(names_vector_row(id@))(#[trigger] vectors@[j]),
    {
        if str_eq(vectors[i].0, id) {
            proof {
                lemma_first_index_is(vectors@, names_vector_row(id@), i as int);
            }
            let e = vectors[i];
            assert(e == vector_witness_table()[i as int]);
            return Some(
                if e.3 == consumer {
                    server_route_test(e.1)
                } else {
                    client_test(e.2)
                },
            );
        }
    }
    proof {
        lemma_first_index_none(vectors@, names_vector_row(id@));
    }
    if chars_starts_with(&s, "api.maintenance-") {
        return Some(server_route_test(maintenance_witness(id, consumer)));
    }
    if str_eq(id, "api.doctor.response") {
        return Some(
            server_route_test(
                if consumer {
                    "suite::maintenance_adoption::doctor_response_contract_consumes_producer_fixture"
                } else {
                    "suite::maintenance_adoption::doctor_response_maps_real_non_default_report_before_fixture_normalization"
                },
            ),
        );
    }
    if str_eq(id, "api.checkpoint.response") {
        return Some(
            server_route_test(
                if consumer {
                    "suite::maintenance_adoption::checkpoint_response_contract_consumes_producer_fixture"
                } else {
                    "suite::maintenance_adoption::checkpoint_response_reports_real_wal_field_relationships"
                },
            ),
        );
    }
    if str_eq(id, "api.health.response") || str_eq(id, "api.error.response") {
        return Some(
            server_route_test("http::operations::contract_adoption::suite_health_and_errors_use_real_router_fixtures"),
        );
    }
    if str_listed(&label_route_ids_rows(), id) || str_listed(&knowledge_route_ids_rows(), id) {
        return None;
    }
    if str_listed(&task_crud_route_ids_rows(), id) {
        return Some(
            server_route_test(
                "http::operations::contract_adoption::suite_tasks_crud_and_reads_use_committed_fixtures_through_router",
            ),
        );
    }
    Some(server_route_test(route_test(&s)))
}

/// The suite that exercises the event stream, event list and stats fixtures.
pub open spec fn event_stream_suite() -> &'static str {
    "http::operations::contract_adoption::suite_events_sse_and_stats_adoption_use_query_fixtures"
}

/// The canonical producer or consumer witness of a contract, decided by its surface; JSONL
/// contracts and the label and knowledge routes have none.
pub open spec fn canonical_locator(contract: OperationContract, consumer: bool) -> Option<AdoptionLocator> {
    match contract.surface {
        ContractSurface::Jsonl => None,
        ContractSurface::Config => Some(config_witness(contract.id@, consumer)),
        ContractSurface::Metadata => Some(metadata_witness(contract.id@)),
        ContractSurface::Cli => Some(cli_witness(contract.id@)),
        ContractSurface::Sse => Some(server_route_test(event_stream_suite())),
        ContractSurface::Api => api_witness(contract.id@, fixture_text(contract), consumer),
    }
}

/// The canonical witness of a contract is defined: an API header contract's fixture names
/// a known header profile.
pub open spec fn witness_defined(contract: OperationContract) -> bool {
    contract.surface == ContractSurface::Api && ends_with(contract.id@, ".headers"@) ==> header_fixture_known(
        fixture_text(contract),
    )
}

/// The canonical producer or consumer witness of a contract.
pub fn canonical_witness(contract: &OperationContract, consumer: bool) -> (r: Option<AdoptionLocator>)
    requires
        witness_defined(*contract),
    ensures
        r == canonical_locator(*contract, consumer),
{
    match contract.surface {
        ContractSurface::Jsonl => None,
        ContractSurface::Config => Some(canonical_config_witness(contract.id, consumer)),
        ContractSurface::Metadata => Some(canonical_metadata_witness(contract.id)),
        ContractSurface::Cli => Some(canonical_cli_witness(contract.id)),
        ContractSurface::Sse => Some(
            server_route_test("http::operations::contract_adoption::suite_events_sse_and_stats_adoption_use_query_fixtures"),
        ),
        ContractSurface::Api => canonical_api_witness(contract, consumer),
    }
}

/// A witness moved to the given test location, if there is one.
pub open spec fn relocated(witness: AdoptionWitness, locator: Option<AdoptionLocator>) -> AdoptionWitness {
    match locator {
        Some(l) => AdoptionWitness {
            package: l.package,
            test_target: l.test_target,
            exact_test: l.exact_test,
            ..witness
        },
        None => witness,
    }
}

/// A contract whose producer and consumer witnesses point at its canonical tests; a
/// contract without adoption evidence is unchanged.
pub open spec fn converged(contract: OperationContract) -> OperationContract {
    match contract.adoption {
        Some(a) => OperationContract {
            adoption: Some(
                AdoptionEvidence {
                    producer: relocated(a.producer, canonical_locator(contract, false)),
                    consumer: relocated(a.consumer, canonical_locator(contract, true)),
                    ..a
                },
            ),
            ..contract
        },
        None => contract,
    }
}

/// Every contract of the inventory with adoption evidence has a defined canonical witness.
pub open spec fn witnesses_defined(inventory: Seq<OperationContract>) -> bool {
    forall|i: int| 0 <= i < inventory.len() && (#[trigger] inventory[i]).adoption is Some ==> witness_defined(inventory[i])
}

/// Points the adoption witnesses of every contract at its canonical tests.
pub fn converge_adoption_witnesses(inventory: &mut Vec<OperationContract>)
    requires
        witnesses_defined(old(inventory)@),
    ensures
        final(inventory)@ == old(inventory)@.map_values(|c: OperationContract| converged(c)),
{
    let ghost start = inventory@;
    let n = inventory.len();
    for i in 0..n
        invariant
            n == inventory@.len(),
            start.len() == n,
            witnesses_defined(start),
            forall|j: int| 0 <= j < i ==> inventory@[j] == converged(#[trigger] start[j]),
            forall|j: int| i <= j < n ==> inventory@[j] == #[trigger] start[j],
    {
        let contract = inventory[i];
        match contract.adoption {
            Some(adoption) => {
                assert(start[i as int] == contract);
                let mut adoption = adoption;
                if let Some(locator) = canonical_witness(&contract, false) {
                    adoption.producer.package = locator.package;
                    adoption.producer.test_target = locator.test_target;
                    adoption.producer.exact_test = locator.exact_test;
                }
                if let Some(locator) = canonical_witness(&contract, true) {
                    adoption.consumer.package = locator.package;
                    adoption.consumer.test_target = locator.test_target;
                    adoption.consumer.exact_test = locator.exact_test;
                }
                inventory.set(i, OperationContract { adoption: Some(adoption), ..contract });
            },
            None => {},
        }
    }
    assert(inventory@ =~= start.map_values(|c: OperationContract| converged(c)));
}

/// The canonical witness of a contract depends only on its surface, id and fixture.
pub proof fn lemma_canonical_locator_depends_on_identity(a: OperationContract, b: OperationContract, consumer: bool)
    requires
        a.surface == b.surface,
        a.id@ == b.id@,
        a.fixture == b.fixture,
    ensures
        canonical_locator(a, consumer) == canonical_locator(b, consumer),
        witness_defined(a) == witness_defined(b),
{
}

/// Converging adoption witnesses is idempotent: a converged contract converges to itself,
/// because the canonical witness depends only on the surface, id and fixture, which
/// convergence keeps.
pub proof fn lemma_converged_idempotent(contract: OperationContract)
    ensures
        witness_defined(converged(contract)) == witness_defined(contract),
        converged(converged(contract)) == converged(contract),
{
}

/// Convergence keeps every field of a contract but the test locations of its witnesses.
pub proof fn lemma_converged_keeps_contract(contract: OperationContract)
    ensures
        converged(contract).id == contract.id,
        converged(contract).surface == contract.surface,
        converged(contract).fixture == contract.fixture,
        converged(contract).schema_id == contract.schema_id,
        converged(contract).migration == contract.migration,
        converged(contract).transport == contract.transport,
        converged(contract).adoption is Some == contract.adoption is Some,
{
}

/// Whether the canonical witness of a contract is defined.
pub fn witness_is_defined(contract: &OperationContract) -> (r: bool)
    ensures
        r == witness_defined(*contract),
{
    if contract.surface != ContractSurface::Api {
        return true;
    }
    let s = str_chars(contract.id);
    if !chars_ends_with(&s, ".headers") {
        return true;
    }
    let fixture = match contract.fixture {
        Some(f) => f,
        None => "",
    };
    let f = str_chars(fixture);
    chars_contains(&f, "locale-actor-optional-json-headers") || chars_contains(&f, "locale-actor-json-headers")
        || chars_contains(&f, "locale-actor-headers") || chars_contains(&f, "locale-json-headers")
        || chars_contains(&f, "locale-headers")
}

/// Whether every adopted contract of the inventory has a defined canonical witness.
pub fn witnesses_ready(inventory: &Vec<OperationContract>) -> (r: bool)
    ensures
        r == witnesses_defined(inventory@),
{
    let n = inventory.len();
    for i in 0..n
        invariant
            n == inventory@.len(),
            forall|j: int| 0 <= j < i && (#[trigger] inventory@[j]).adoption is Some ==> witness_defined(inventory@[j]),
    {
        if inventory[i].adoption.is_some() && !witness_is_defined(&inventory[i]) {
            return false;
        }
    }
    true
}

} // verus!
