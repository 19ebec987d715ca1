//! The historical operation contract inventory, and the maintenance and attachment rows
//! that are appended to it.

use vstd::prelude::*;

use crate::inventory::{
    AdoptionEvidence, AdoptionLocator, AdoptionWitness, ContractBinding, ContractDirection, ContractGranularity,
    ContractStrictness, ContractSurface, ContractTransport, HttpTransportLocation, MigrationState,
    OperationContract, WireParameter, WireParameterCardinality,
};
use crate::witness::{cli_test, client_test, server_route_test};

verus! {

/// Historical inventory rows 0 to 39.
#[verifier::opaque]
pub open spec fn legacy_rows_0() -> Seq<OperationContract> {
    seq![
        OperationContract::adopted(
            "cli.init.output",
            "kanban init --json stdout",
            ContractSurface::Cli,
            "init",
            ContractDirection::Serialize,
            ContractStrictness::DenyUnknownFields,
            "urn:kanban-tool:schema:cli:init-output:v1",
            "schemas/fixtures/cli/init-output.v1.valid.json",
            cli_test("cli_bootstrap_config_contract_adoption", "init_output_fixture_is_produced_by_real_cli"),
            cli_test("cli_bootstrap_config_contract_adoption", "init_output_fixture_is_consumed_by_public_contract"),
            ContractTransport::NoTransport,
        ),
        OperationContract::adopted(
            "cli.config-show.output",
            "kanban config show --json stdout",
            ContractSurface::Cli,
            "config show",
            ContractDirection::Serialize,
            ContractStrictness::DenyUnknownFields,
            "urn:kanban-tool:schema:cli:config-show-output:v1",
            "schemas/fixtures/cli/config-show-output.v1.valid.json",
            cli_test("cli_bootstrap_config_contract_adoption", "config_show_output_fixture_is_produced_without_creating_database"),
            cli_test("cli_bootstrap_config_contract_adoption", "config_show_output_fixture_is_consumed_by_public_contract"),
            ContractTransport::NoTransport,
        ),
        OperationContract::adopted(
            "cli.index-status.output",
            "kanban index status --json stdout",
            ContractSurface::Cli,
            "index status",
            ContractDirection::Serialize,
            ContractStrictness::DenyUnknownFields,
            "urn:kanban-tool:schema:cli:index-status-output:v1",
            "schemas/fixtures/cli/index-status-output.v1.valid.json",
            cli_test("cli_index_health_contract_adoption", "index_status_output_fixture_is_produced_by_real_cli"),
            cli_test("cli_index_health_contract_adoption", "index_status_output_fixture_is_consumed_by_public_contract"),
            ContractTransport::NoTransport,
        ),
        OperationContract::adopted(
            "cli.index-doctor.output",
            "kanban index doctor --json stdout",
            ContractSurface::Cli,
            "index doctor",
            ContractDirection::Serialize,
            ContractStrictness::DenyUnknownFields,
            "urn:kanban-tool:schema:cli:index-doctor-output:v1",
            "schemas/fixtures/cli/index-doctor-output.v1.valid.json",
            cli_test("cli_index_health_contract_adoption", "index_doctor_output_fixture_is_produced_by_real_cli"),
            cli_test("cli_index_health_contract_adoption", "index_doctor_output_fixture_is_consumed_by_public_contract"),
            ContractTransport::NoTransport,
        ),
        OperationContract::adopted(
            "cli.entity-list.output",
            "kanban entity list --json stdout",
            ContractSurface::Cli,
            "entity list",
            ContractDirection::Serialize,
            ContractStrictness::DenyUnknownFields,
            "urn:kanban-tool:schema:cli:entity-list-output:v1",
            "schemas/fixtures/cli/entity-list-output.v1.valid.json",
            cli_test("cli_entity_contract_adoption", "producer_entity_list_matches_exact_fixture_and_honors_kind_and_limit"),
            cli_test("cli_entity_contract_adoption", "entity_list_output_fixture_is_consumed_by_public_contract"),
            ContractTransport::NoTransport,
        ),
        OperationContract::adopted(
            "cli.entity-show.output",
            "kanban entity show --json stdout",
            ContractSurface::Cli,
            "entity show",
            ContractDirection::Serialize,
            ContractStrictness::DenyUnknownFields,
            "urn:kanban-tool:schema:cli:entity-show-output:v1",
            "schemas/fixtures/cli/entity-show-output.v1.valid.json",
            cli_test("cli_entity_contract_adoption", "producer_entity_show_matches_exact_fixture"),
            cli_test("cli_entity_contract_adoption", "entity_show_output_fixture_is_consumed_by_public_contract"),
            ContractTransport::NoTransport,
        ),
        OperationContract::adopted(
            "cli.entity-upsert.output",
            "kanban entity upsert --json stdout",
            ContractSurface::Cli,
            "entity upsert",
            ContractDirection::Serialize,
            ContractStrictness::DenyUnknownFields,
            "urn:kanban-tool:schema:cli:entity-upsert-output:v1",
            "schemas/fixtures/cli/entity-upsert-output.v1.valid.json",
            cli_test("cli_knowledge_adoption", "knowledge_commands_use_real_canonical_host_and_preserve_degraded_providers"),
            cli_test("cli_knowledge_adoption", "knowledge_commands_use_real_canonical_host_and_preserve_degraded_providers"),
            ContractTransport::NoTransport,
        ),
        OperationContract::adopted(
            "cli.doctor.output",
            "kanban doctor --json stdout",
            ContractSurface::Cli,
            "doctor",
            ContractDirection::Serialize,
            ContractStrictness::DenyUnknownFields,
            "urn:kanban-tool:schema:cli:doctor-output:v1",
            "schemas/fixtures/cli/doctor-output.v1.valid.json",
            cli_test("cli_diagnostics_contract_adoption", "doctor_output_fixture_is_produced_by_real_cli"),
            cli_test("cli_diagnostics_contract_adoption", "doctor_output_fixture_is_consumed_by_public_contract"),
            ContractTransport::NoTransport,
        ),
        OperationContract::adopted(
            "cli.stats.output",
            "kanban stats --json stdout",
            ContractSurface::Cli,
            "stats",
            ContractDirection::Serialize,
            ContractStrictness::DenyUnknownFields,
            "urn:kanban-tool:schema:cli:stats-output:v1",
            "schemas/fixtures/cli/stats-output.v1.valid.json",
            cli_test("cli_diagnostics_contract_adoption", "stats_output_fixture_is_produced_by_real_cli"),
            cli_test("cli_diagnostics_contract_adoption", "stats_output_fixture_is_consumed_by_public_contract"),
            ContractTransport::NoTransport,
        ),
        OperationContract::adopted(
            "cli.checkpoint.output",
            "kanban checkpoint --json stdout",
            ContractSurface::Cli,
            "checkpoint",
            ContractDirection::Serialize,
            ContractStrictness::DenyUnknownFields,
            "urn:kanban-tool:schema:cli:checkpoint-output:v1",
            "schemas/fixtures/cli/checkpoint-output.v1.valid.json",
            cli_test("cli_maintenance_contract_adoption", "checkpoint_output_fixture_is_produced_by_real_cli"),
            cli_test("cli_maintenance_contract_adoption", "checkpoint_output_fixture_is_consumed_by_public_contract"),
            ContractTransport::NoTransport,
        ),
        OperationContract::adopted(
            "cli.board-use.output",
            "kanban board use --json stdout",
            ContractSurface::Cli,
            "board use",
            ContractDirection::Serialize,
            ContractStrictness::DenyUnknownFields,
            "urn:kanban-tool:schema:cli:board-use-output:v1",
            "schemas/fixtures/cli/board-use-output.v1.valid.json",
            cli_test("cli_board_contract_adoption", "board_use_output_fixture_is_produced_by_real_cli"),
            cli_test("cli_board_contract_adoption", "board_use_output_fixture_is_consumed_by_contract_root"),
            ContractTransport::NoTransport,
        ),
        OperationContract::adopted(
            "cli.board-current.output",
            "kanban board current --json stdout",
            ContractSurface::Cli,
            "board current",
            ContractDirection::Serialize,
            ContractStrictness::DenyUnknownFields,
            "urn:kanban-tool:schema:cli:board-current-output:v1",
            "schemas/fixtures/cli/board-current-output.v1.valid.json",
            cli_test("cli_board_contract_adoption", "board_current_output_fixture_is_produced_by_real_cli"),
            cli_test("cli_board_contract_adoption", "board_current_output_fixture_is_consumed_by_contract_root"),
            ContractTransport::NoTransport,
        ),
        OperationContract::adopted(
            "cli.task-list.output",
            "kanban task list --json stdout",
            ContractSurface::Cli,
            "task list",
            ContractDirection::Serialize,
            ContractStrictness::DenyUnknownFields,
            "urn:kanban-tool:schema:cli:task-list-output:v1",
            "schemas/fixtures/cli/task-list-output.v1.valid.json",
            cli_test("cli_task_read_contract_adoption", "task_list_output_fixture_is_produced_by_real_cli"),
            cli_test("cli_task_read_contract_adoption", "task_list_output_fixture_is_consumed_by_contract_root"),
            ContractTransport::NoTransport,
        ),
        OperationContract::adopted(
            "cli.task-show.output",
            "kanban task show --json stdout",
            ContractSurface::Cli,
            "task show",
            ContractDirection::Serialize,
            ContractStrictness::DenyUnknownFields,
            "urn:kanban-tool:schema:cli:task-show-output:v1",
            "schemas/fixtures/cli/task-show-output.v1.valid.json",
            cli_test("cli_task_read_contract_adoption", "task_show_output_fixture_is_produced_by_real_cli"),
            cli_test("cli_task_read_contract_adoption", "task_show_output_fixture_is_consumed_by_contract_root"),
            ContractTransport::NoTransport,
        ),
        OperationContract::adopted(
            "cli.task-specify.output",
            "kanban task specify --json stdout",
            ContractSurface::Cli,
            "task specify",
            ContractDirection::Serialize,
            ContractStrictness::DenyUnknownFields,
            "urn:kanban-tool:schema:cli:task-specify-output:v1",
            "schemas/fixtures/cli/task-specify-output.v1.valid.json",
            cli_test("cli_lifecycle_adoption", "lifecycle_cli_runs_each_transition_through_localhost_host"),
            cli_test("cli_lifecycle_adoption", "lifecycle_cli_runs_each_transition_through_localhost_host"),
            ContractTransport::NoTransport,
        ),
        OperationContract::adopted(
            "cli.comment-add.output",
            "kanban comment add --json stdout",
            ContractSurface::Cli,
            "comment add",
            ContractDirection::Serialize,
            ContractStrictness::DenyUnknownFields,
            "urn:kanban-tool:schema:cli:comment-add-output:v1",
            "schemas/fixtures/cli/comment-add-output.v1.valid.json",
            cli_test("cli_relation_mutation_contract_adoption", "comment_add_output_fixture_is_produced_by_real_cli"),
            cli_test("cli_relation_mutation_contract_adoption", "comment_add_output_fixture_is_consumed_by_public_contract"),
            ContractTransport::NoTransport,
        ),
        OperationContract::adopted(
            "cli.comment-list.output",
            "kanban comment list --json stdout",
            ContractSurface::Cli,
            "comment list",
            ContractDirection::Serialize,
            ContractStrictness::DenyUnknownFields,
            "urn:kanban-tool:schema:cli:comment-list-output:v1",
            "schemas/fixtures/cli/comment-list-output.v1.valid.json",
            cli_test("cli_core_read_contract_adoption", "comment_list_output_fixture_is_produced_by_real_cli"),
            cli_test("cli_core_read_contract_adoption", "comment_list_output_fixture_is_consumed_by_contract_root"),
            ContractTransport::NoTransport,
        ),
        OperationContract::adopted(
            "cli.dep-add.output",
            "kanban dep add --json stdout",
            ContractSurface::Cli,
            "dep add",
            ContractDirection::Serialize,
            ContractStrictness::DenyUnknownFields,
            "urn:kanban-tool:schema:cli:dep-add-output:v1",
            "schemas/fixtures/cli/dep-add-output.v1.valid.json",
            cli_test("cli_relation_mutation_contract_adoption", "dependency_add_output_fixture_is_produced_by_real_cli"),
            cli_test("cli_relation_mutation_contract_adoption", "dependency_add_output_fixture_is_consumed_by_public_contract"),
            ContractTransport::NoTransport,
        ),
        OperationContract::adopted(
            "cli.dep-list.output",
            "kanban dep list --json stdout",
            ContractSurface::Cli,
            "dep list",
            ContractDirection::Serialize,
            ContractStrictness::DenyUnknownFields,
            "urn:kanban-tool:schema:cli:dep-list-output:v1",
            "schemas/fixtures/cli/dep-list-output.v1.valid.json",
            cli_test("cli_core_read_contract_adoption", "dependency_list_output_fixture_is_produced_by_real_cli"),
            cli_test("cli_core_read_contract_adoption", "dependency_list_output_fixture_is_consumed_by_contract_root"),
            ContractTransport::NoTransport,
        ),
        OperationContract::adopted(
            "cli.dep-remove.output",
            "kanban dep remove --json stdout",
            ContractSurface::Cli,
            "dep remove",
            ContractDirection::Serialize,
            ContractStrictness::DenyUnknownFields,
            "urn:kanban-tool:schema:cli:dep-remove-output:v1",
            "schemas/fixtures/cli/dep-remove-output.v1.valid.json",
            cli_test("cli_relation_mutation_contract_adoption", "dependency_remove_output_fixture_is_produced_by_real_cli"),
            cli_test("cli_relation_mutation_contract_adoption", "dependency_remove_output_fixture_is_consumed_by_public_contract"),
            ContractTransport::NoTransport,
        ),
        OperationContract::adopted(
            "cli.events.output",
            "kanban events --json stdout",
            ContractSurface::Cli,
            "events",
            ContractDirection::Serialize,
            ContractStrictness::DenyUnknownFields,
            "urn:kanban-tool:schema:cli:events-output:v1",
            "schemas/fixtures/cli/events-output.v1.valid.json",
            cli_test("cli_core_read_contract_adoption", "events_output_fixture_is_produced_by_real_cli"),
            cli_test("cli_core_read_contract_adoption", "events_output_fixture_is_consumed_by_contract_root"),
            ContractTransport::NoTransport,
        ),
        OperationContract::adopted(
            "cli.task-step-list.output",
            "kanban task step list --json stdout",
            ContractSurface::Cli,
            "task step list",
            ContractDirection::Serialize,
            ContractStrictness::DenyUnknownFields,
            "urn:kanban-tool:schema:cli:task-step-list-output:v1",
            "schemas/fixtures/cli/task-step-list-output.v1.valid.json",
            cli_test("cli_step_read_contract_adoption", "task_step_list_output_fixture_is_produced_by_real_cli"),
            cli_test("cli_step_read_contract_adoption", "task_step_list_output_fixture_is_consumed_by_contract_root"),
            ContractTransport::NoTransport,
        ),
        OperationContract::adopted(
            "cli.task-step-add.output",
            "kanban task step add --json stdout",
            ContractSurface::Cli,
            "task step add",
            ContractDirection::Serialize,
            ContractStrictness::DenyUnknownFields,
            "urn:kanban-tool:schema:cli:task-step-add-output:v1",
            "schemas/fixtures/cli/task-step-add-output.v1.valid.json",
            cli_test("cli_step_mutation_contract_adoption", "task_step_add_output_fixture_is_produced_by_real_cli"),
            cli_test("cli_step_mutation_contract_adoption", "task_step_add_output_fixture_is_consumed_by_contract_root"),
            ContractTransport::NoTransport,
        ),
        OperationContract::adopted(
            "cli.task-step-update.output",
            "kanban task step update --json stdout",
            ContractSurface::Cli,
            "task step update",
            ContractDirection::Serialize,
            ContractStrictness::DenyUnknownFields,
            "urn:kanban-tool:schema:cli:task-step-update-output:v1",
            "schemas/fixtures/cli/task-step-update-output.v1.valid.json",
            cli_test("cli_step_mutation_contract_adoption", "task_step_update_output_fixture_is_produced_by_real_cli"),
            cli_test("cli_step_mutation_contract_adoption", "task_step_update_output_fixture_is_consumed_by_contract_root"),
            ContractTransport::NoTransport,
        ),
        OperationContract::adopted(
            "cli.task-step-done.output",
            "kanban task step done --json stdout",
            ContractSurface::Cli,
            "task step done",
            ContractDirection::Serialize,
            ContractStrictness::DenyUnknownFields,
            "urn:kanban-tool:schema:cli:task-step-done-output:v1",
            "schemas/fixtures/cli/task-step-done-output.v1.valid.json",
            cli_test("cli_step_mutation_contract_adoption", "task_step_done_output_fixture_is_produced_by_real_cli"),
            cli_test("cli_step_mutation_contract_adoption", "task_step_done_output_fixture_is_consumed_by_contract_root"),
            ContractTransport::NoTransport,
        ),
        OperationContract::adopted(
            "cli.task-step-skip.output",
            "kanban task step skip --json stdout",
            ContractSurface::Cli,
            "task step skip",
            ContractDirection::Serialize,
            ContractStrictness::DenyUnknownFields,
            "urn:kanban-tool:schema:cli:task-step-skip-output:v1",
            "schemas/fixtures/cli/task-step-skip-output.v1.valid.json",
            cli_test("cli_step_mutation_contract_adoption", "task_step_skip_output_fixture_is_produced_by_real_cli"),
            cli_test("cli_step_mutation_contract_adoption", "task_step_skip_output_fixture_is_consumed_by_contract_root"),
            ContractTransport::NoTransport,
        ),
        OperationContract::adopted(
            "cli.task-step-reopen.output",
            "kanban task step reopen --json stdout",
            ContractSurface::Cli,
            "task step reopen",
            ContractDirection::Serialize,
            ContractStrictness::DenyUnknownFields,
            "urn:kanban-tool:schema:cli:task-step-reopen-output:v1",
            "schemas/fixtures/cli/task-step-reopen-output.v1.valid.json",
            cli_test("cli_step_mutation_contract_adoption", "task_step_reopen_output_fixture_is_produced_by_real_cli"),
            cli_test("cli_step_mutation_contract_adoption", "task_step_reopen_output_fixture_is_consumed_by_contract_root"),
            ContractTransport::NoTransport,
        ),
        OperationContract::adopted(
            "cli.task-step-remove.output",
            "kanban task step remove --json stdout",
            ContractSurface::Cli,
            "task step remove",
            ContractDirection::Serialize,
            ContractStrictness::DenyUnknownFields,
            "urn:kanban-tool:schema:cli:task-step-remove-output:v1",
            "schemas/fixtures/cli/task-step-remove-output.v1.valid.json",
            cli_test("cli_step_mutation_contract_adoption", "task_step_remove_output_fixture_is_produced_by_real_cli"),
            cli_test("cli_step_mutation_contract_adoption", "task_step_remove_output_fixture_is_consumed_by_contract_root"),
            ContractTransport::NoTransport,
        ),
        OperationContract::adopted(
            "cli.task-step-not-required.output",
            "kanban task step not-required --json stdout",
            ContractSurface::Cli,
            "task step not-required",
            ContractDirection::Serialize,
            ContractStrictness::DenyUnknownFields,
            "urn:kanban-tool:schema:cli:task-step-not-required-output:v1",
            "schemas/fixtures/cli/task-step-not-required-output.v1.valid.json",
            cli_test("cli_step_mutation_contract_adoption", "task_step_not_required_output_fixture_is_produced_by_real_cli"),
            cli_test("cli_step_mutation_contract_adoption", "task_step_not_required_output_fixture_is_consumed_by_contract_root"),
            ContractTransport::NoTransport,
        ),
        OperationContract::adopted(
            "cli.runs.output",
            "kanban runs --json stdout",
            ContractSurface::Cli,
            "runs",
            ContractDirection::Serialize,
            ContractStrictness::DenyUnknownFields,
            "urn:kanban-tool:schema:cli:runs-output:v1",
            "schemas/fixtures/cli/runs-output.v1.valid.json",
            cli_test("cli_run_read_contract_adoption", "runs_output_fixture_is_produced_by_real_cli"),
            cli_test("cli_run_read_contract_adoption", "runs_output_fixture_is_consumed_by_contract_root"),
            ContractTransport::NoTransport,
        ),
        OperationContract::adopted(
            "cli.run-show.output",
            "kanban run show --json stdout",
            ContractSurface::Cli,
            "run show",
            ContractDirection::Serialize,
            ContractStrictness::DenyUnknownFields,
            "urn:kanban-tool:schema:cli:run-show-output:v1",
            "schemas/fixtures/cli/run-show-output.v1.valid.json",
            cli_test("cli_run_read_contract_adoption", "run_show_output_fixture_is_produced_by_real_cli"),
            cli_test("cli_run_read_contract_adoption", "run_show_output_fixture_is_consumed_by_contract_root"),
            ContractTransport::NoTransport,
        ),
        OperationContract::adopted(
            "cli.run-logs.output",
            "kanban run logs --json stdout",
            ContractSurface::Cli,
            "run logs",
            ContractDirection::Serialize,
            ContractStrictness::DenyUnknownFields,
            "urn:kanban-tool:schema:cli:run-logs-output:v1",
            "schemas/fixtures/cli/run-logs-output.v1.valid.json",
            cli_test("cli_run_read_contract_adoption", "run_logs_output_fixture_is_produced_by_real_cli"),
            cli_test("cli_run_read_contract_adoption", "run_logs_output_fixture_is_consumed_by_contract_root"),
            ContractTransport::NoTransport,
        ),
        OperationContract::adopted(
            "cli.task-create.output",
            "kanban task create --json stdout",
            ContractSurface::Cli,
            "task create",
            ContractDirection::Serialize,
            ContractStrictness::DenyUnknownFields,
            "urn:kanban-tool:schema:cli:task-create-output:v1",
            "schemas/fixtures/cli/task-create-output.v1.valid.json",
            cli_test("cli_task_mutation_contract_adoption", "task_create_output_fixture_is_produced_by_real_cli"),
            cli_test("cli_task_mutation_contract_adoption", "task_create_output_fixture_is_consumed_by_contract_root"),
            ContractTransport::NoTransport,
        ),
        OperationContract::adopted(
            "cli.task-update.output",
            "kanban task update --json stdout",
            ContractSurface::Cli,
            "task update",
            ContractDirection::Serialize,
            ContractStrictness::DenyUnknownFields,
            "urn:kanban-tool:schema:cli:task-update-output:v1",
            "schemas/fixtures/cli/task-update-output.v1.valid.json",
            cli_test("cli_task_mutation_contract_adoption", "task_update_output_fixture_is_produced_by_real_cli"),
            cli_test("cli_task_mutation_contract_adoption", "task_update_output_fixture_is_consumed_by_contract_root"),
            ContractTransport::NoTransport,
        ),
        OperationContract::adopted(
            "cli.task-claim.output",
            "kanban task claim --json stdout",
            ContractSurface::Cli,
            "task claim",
            ContractDirection::Serialize,
            ContractStrictness::DenyUnknownFields,
            "urn:kanban-tool:schema:cli:task-claim-output:v1",
            "schemas/fixtures/cli/task-claim-output.v1.valid.json",
            cli_test("cli_task_claim_contract_adoption", "task_claim_output_fixture_is_produced_by_real_cli"),
            cli_test("cli_task_claim_contract_adoption", "task_claim_output_fixture_is_consumed_by_contract_root"),
            ContractTransport::NoTransport,
        ),
        OperationContract::adopted(
            "cli.task-reclaim.output",
            "kanban task reclaim --json stdout",
            ContractSurface::Cli,
            "task reclaim",
            ContractDirection::Serialize,
            ContractStrictness::DenyUnknownFields,
            "urn:kanban-tool:schema:cli:task-reclaim-output:v1",
            "schemas/fixtures/cli/task-reclaim-output.v1.valid.json",
            cli_test("cli_task_claim_contract_adoption", "task_reclaim_output_fixture_is_produced_by_real_cli"),
            cli_test("cli_task_claim_contract_adoption", "task_reclaim_output_fixture_is_consumed_by_contract_root"),
            ContractTransport::NoTransport,
        ),
        OperationContract::adopted(
            "cli.task-promote.output",
            "kanban task promote --json stdout",
            ContractSurface::Cli,
            "task promote",
            ContractDirection::Serialize,
            ContractStrictness::DenyUnknownFields,
            "urn:kanban-tool:schema:cli:task-promote-output:v1",
            "schemas/fixtures/cli/task-promote-output.v1.valid.json",
            cli_test("cli_task_lifecycle_contract_adoption", "task_promote_output_fixture_is_produced_by_real_cli"),
            cli_test("cli_task_lifecycle_contract_adoption", "task_promote_output_fixture_is_consumed_by_contract_root"),
            ContractTransport::NoTransport,
        ),
        OperationContract::adopted(
            "cli.task-reopen.output",
            "kanban task reopen --json stdout",
            ContractSurface::Cli,
            "task reopen",
            ContractDirection::Serialize,
            ContractStrictness::DenyUnknownFields,
            "urn:kanban-tool:schema:cli:task-reopen-output:v1",
            "schemas/fixtures/cli/task-reopen-output.v1.valid.json",
            cli_test("cli_task_lifecycle_contract_adoption", "task_reopen_output_fixture_is_produced_by_real_cli"),
            cli_test("cli_task_lifecycle_contract_adoption", "task_reopen_output_fixture_is_consumed_by_contract_root"),
            ContractTransport::NoTransport,
        ),
        OperationContract::adopted(
            "cli.task-heartbeat.output",
            "kanban task heartbeat --json stdout",
            ContractSurface::Cli,
            "task heartbeat",
            ContractDirection::Serialize,
            ContractStrictness::DenyUnknownFields,
            "urn:kanban-tool:schema:cli:task-heartbeat-output:v1",
            "schemas/fixtures/cli/task-heartbeat-output.v1.valid.json",
            cli_test("cli_task_lifecycle_contract_adoption", "task_heartbeat_output_fixture_is_produced_by_real_cli"),
            cli_test("cli_task_lifecycle_contract_adoption", "task_heartbeat_output_fixture_is_consumed_by_contract_root"),
            ContractTransport::NoTransport,
        ),
        OperationContract::adopted(
            "cli.task-release.output",
            "kanban task release --json stdout",
            ContractSurface::Cli,
            "task release",
            ContractDirection::Serialize,
            ContractStrictness::DenyUnknownFields,
            "urn:kanban-tool:schema:cli:task-release-output:v1",
            "schemas/fixtures/cli/task-release-output.v1.valid.json",
            cli_test("cli_task_release_contract_adoption", "task_release_output_fixture_is_produced_by_real_cli"),
            cli_test("cli_task_release_contract_adoption", "task_release_output_fixture_is_consumed_by_contract_root"),
            ContractTransport::NoTransport,
        ),
    ]
}

/// Historical inventory rows 0 to 39.
fn legacy_rows_0_vec() -> (r: Vec<OperationContract>)
    ensures
        r@ == legacy_rows_0(),
{
    reveal(legacy_rows_0);
    let r = vec![
        OperationContract::adopted(
            "cli.init.output",
            "kanban init --json stdout",
            ContractSurface::Cli,
            "init",
            ContractDirection::Serialize,
            ContractStrictness::DenyUnknownFields,
            "urn:kanban-tool:schema:cli:init-output:v1",
            "schemas/fixtures/cli/init-output.v1.valid.json",
            cli_test("cli_bootstrap_config_contract_adoption", "init_output_fixture_is_produced_by_real_cli"),
            cli_test("cli_bootstrap_config_contract_adoption", "init_output_fixture_is_consumed_by_public_contract"),
            ContractTransport::NoTransport,
        ),
        OperationContract::adopted(
            "cli.config-show.output",
            "kanban config show --json stdout",
            ContractSurface::Cli,
            "config show",
            ContractDirection::Serialize,
            ContractStrictness::DenyUnknownFields,
            "urn:kanban-tool:schema:cli:config-show-output:v1",
            "schemas/fixtures/cli/config-show-output.v1.valid.json",
            cli_test("cli_bootstrap_config_contract_adoption", "config_show_output_fixture_is_produced_without_creating_database"),
            cli_test("cli_bootstrap_config_contract_adoption", "config_show_output_fixture_is_consumed_by_public_contract"),
            ContractTransport::NoTransport,
        ),
        OperationContract::adopted(
            "cli.index-status.output",
            "kanban index status --json stdout",
            ContractSurface::Cli,
            "index status",
            ContractDirection::Serialize,
            ContractStrictness::DenyUnknownFields,
            "urn:kanban-tool:schema:cli:index-status-output:v1",
            "schemas/fixtures/cli/index-status-output.v1.valid.json",
            cli_test("cli_index_health_contract_adoption", "index_status_output_fixture_is_produced_by_real_cli"),
            cli_test("cli_index_health_contract_adoption", "index_status_output_fixture_is_consumed_by_public_contract"),
            ContractTransport::NoTransport,
        ),
        OperationContract::adopted(
            "cli.index-doctor.output",
            "kanban index doctor --json stdout",
            ContractSurface::Cli,
            "index doctor",
            ContractDirection::Serialize,
            ContractStrictness::DenyUnknownFields,
            "urn:kanban-tool:schema:cli:index-doctor-output:v1",
            "schemas/fixtures/cli/index-doctor-output.v1.valid.json",
            cli_test("cli_index_health_contract_adoption", "index_doctor_output_fixture_is_produced_by_real_cli"),
            cli_test("cli_index_health_contract_adoption", "index_doctor_output_fixture_is_consumed_by_public_contract"),
            ContractTransport::NoTransport,
        ),
        OperationContract::adopted(
            "cli.entity-list.output",
            "kanban entity list --json stdout",
            ContractSurface::Cli,
            "entity list",
            ContractDirection::Serialize,
            ContractStrictness::DenyUnknownFields,
            "urn:kanban-tool:schema:cli:entity-list-output:v1",
            "schemas/fixtures/cli/entity-list-output.v1.valid.json",
            cli_test("cli_entity_contract_adoption", "producer_entity_list_matches_exact_fixture_and_honors_kind_and_limit"),
            cli_test("cli_entity_contract_adoption", "entity_list_output_fixture_is_consumed_by_public_contract"),
            ContractTransport::NoTransport,
        ),
        OperationContract::adopted(
            "cli.entity-show.output",
            "kanban entity show --json stdout",
            ContractSurface::Cli,
            "entity show",
            ContractDirection::Serialize,
            ContractStrictness::DenyUnknownFields,
            "urn:kanban-tool:schema:cli:entity-show-output:v1",
            "schemas/fixtures/cli/entity-show-output.v1.valid.json",
            cli_test("cli_entity_contract_adoption", "producer_entity_show_matches_exact_fixture"),
            cli_test("cli_entity_contract_adoption", "entity_show_output_fixture_is_consumed_by_public_contract"),
            ContractTransport::NoTransport,
        ),
        OperationContract::adopted(
            "cli.entity-upsert.output",
            "kanban entity upsert --json stdout",
            ContractSurface::Cli,
            "entity upsert",
            ContractDirection::Serialize,
            ContractStrictness::DenyUnknownFields,
            "urn:kanban-tool:schema:cli:entity-upsert-output:v1",
            "schemas/fixtures/cli/entity-upsert-output.v1.valid.json",
            cli_test("cli_knowledge_adoption", "knowledge_commands_use_real_canonical_host_and_preserve_degraded_providers"),
            cli_test("cli_knowledge_adoption", "knowledge_commands_use_real_canonical_host_and_preserve_degraded_providers"),
            ContractTransport::NoTransport,
        ),
        OperationContract::adopted(
            "cli.doctor.output",
            "kanban doctor --json stdout",
            ContractSurface::Cli,
            "doctor",
            ContractDirection::Serialize,
            ContractStrictness::DenyUnknownFields,
            "urn:kanban-tool:schema:cli:doctor-output:v1",
            "schemas/fixtures/cli/doctor-output.v1.valid.json",
            cli_test("cli_diagnostics_contract_adoption", "doctor_output_fixture_is_produced_by_real_cli"),
            cli_test("cli_diagnostics_contract_adoption", "doctor_output_fixture_is_consumed_by_public_contract"),
            ContractTransport::NoTransport,
        ),
        OperationContract::adopted(
            "cli.stats.output",
            "kanban stats --json stdout",
            ContractSurface::Cli,
            "stats",
            ContractDirection::Serialize,
            ContractStrictness::DenyUnknownFields,
            "urn:kanban-tool:schema:cli:stats-output:v1",
            "schemas/fixtures/cli/stats-output.v1.valid.json",
            cli_test("cli_diagnostics_contract_adoption", "stats_output_fixture_is_produced_by_real_cli"),
            cli_test("cli_diagnostics_contract_adoption", "stats_output_fixture_is_consumed_by_public_contract"),
            ContractTransport::NoTransport,
        ),
        OperationContract::adopted(
            "cli.checkpoint.output",
            "kanban checkpoint --json stdout",
            ContractSurface::Cli,
            "checkpoint",
            ContractDirection::Serialize,
            ContractStrictness::DenyUnknownFields,
            "urn:kanban-tool:schema:cli:checkpoint-output:v1",
            "schemas/fixtures/cli/checkpoint-output.v1.valid.json",
            cli_test("cli_maintenance_contract_adoption", "checkpoint_output_fixture_is_produced_by_real_cli"),
            cli_test("cli_maintenance_contract_adoption", "checkpoint_output_fixture_is_consumed_by_public_contract"),
            ContractTransport::NoTransport,
        ),
        OperationContract::adopted(
            "cli.board-use.output",
            "kanban board use --json stdout",
            ContractSurface::Cli,
            "board use",
            ContractDirection::Serialize,
            ContractStrictness::DenyUnknownFields,
            "urn:kanban-tool:schema:cli:board-use-output:v1",
            "schemas/fixtures/cli/board-use-output.v1.valid.json",
            cli_test("cli_board_contract_adoption", "board_use_output_fixture_is_produced_by_real_cli"),
            cli_test("cli_board_contract_adoption", "board_use_output_fixture_is_consumed_by_contract_root"),
            ContractTransport::NoTransport,
        ),
        OperationContract::adopted(
            "cli.board-current.output",
            "kanban board current --json stdout",
            ContractSurface::Cli,
            "board current",
            ContractDirection::Serialize,
            ContractStrictness::DenyUnknownFields,
            "urn:kanban-tool:schema:cli:board-current-output:v1",
            "schemas/fixtures/cli/board-current-output.v1.valid.json",
            cli_test("cli_board_contract_adoption", "board_current_output_fixture_is_produced_by_real_cli"),
            cli_test("cli_board_contract_adoption", "board_current_output_fixture_is_consumed_by_contract_root"),
            ContractTransport::NoTransport,
        ),
        OperationContract::adopted(
            "cli.task-list.output",
            "kanban task list --json stdout",
            ContractSurface::Cli,
            "task list",
            ContractDirection::Serialize,
            ContractStrictness::DenyUnknownFields,
            "urn:kanban-tool:schema:cli:task-list-output:v1",
            "schemas/fixtures/cli/task-list-output.v1.valid.json",
            cli_test("cli_task_read_contract_adoption", "task_list_output_fixture_is_produced_by_real_cli"),
            cli_test("cli_task_read_contract_adoption", "task_list_output_fixture_is_consumed_by_contract_root"),
            ContractTransport::NoTransport,
        ),
        OperationContract::adopted(
            "cli.task-show.output",
            "kanban task show --json stdout",
            ContractSurface::Cli,
            "task show",
            ContractDirection::Serialize,
            ContractStrictness::DenyUnknownFields,
            "urn:kanban-tool:schema:cli:task-show-output:v1",
            "schemas/fixtures/cli/task-show-output.v1.valid.json",
            cli_test("cli_task_read_contract_adoption", "task_show_output_fixture_is_produced_by_real_cli"),
            cli_test("cli_task_read_contract_adoption", "task_show_output_fixture_is_consumed_by_contract_root"),
            ContractTransport::NoTransport,
        ),
        OperationContract::adopted(
            "cli.task-specify.output",
            "kanban task specify --json stdout",
            ContractSurface::Cli,
            "task specify",
            ContractDirection::Serialize,
            ContractStrictness::DenyUnknownFields,
            "urn:kanban-tool:schema:cli:task-specify-output:v1",
            "schemas/fixtures/cli/task-specify-output.v1.valid.json",
            cli_test("cli_lifecycle_adoption", "lifecycle_cli_runs_each_transition_through_localhost_host"),
            cli_test("cli_lifecycle_adoption", "lifecycle_cli_runs_each_transition_through_localhost_host"),
            ContractTransport::NoTransport,
        ),
        OperationContract::adopted(
            "cli.comment-add.output",
            "kanban comment add --json stdout",
            ContractSurface::Cli,
            "comment add",
            ContractDirection::Serialize,
            ContractStrictness::DenyUnknownFields,
            "urn:kanban-tool:schema:cli:comment-add-output:v1",
            "schemas/fixtures/cli/comment-add-output.v1.valid.json",
            cli_test("cli_relation_mutation_contract_adoption", "comment_add_output_fixture_is_produced_by_real_cli"),
            cli_test("cli_relation_mutation_contract_adoption", "comment_add_output_fixture_is_consumed_by_public_contract"),
            ContractTransport::NoTransport,
        ),
        OperationContract::adopted(
            "cli.comment-list.output",
            "kanban comment list --json stdout",
            ContractSurface::Cli,
            "comment list",
            ContractDirection::Serialize,
            ContractStrictness::DenyUnknownFields,
            "urn:kanban-tool:schema:cli:comment-list-output:v1",
            "schemas/fixtures/cli/comment-list-output.v1.valid.json",
            cli_test("cli_core_read_contract_adoption", "comment_list_output_fixture_is_produced_by_real_cli"),
            cli_test("cli_core_read_contract_adoption", "comment_list_output_fixture_is_consumed_by_contract_root"),
            ContractTransport::NoTransport,
        ),
        OperationContract::adopted(
            "cli.dep-add.output",
            "kanban dep add --json stdout",
            ContractSurface::Cli,
            "dep add",
            ContractDirection::Serialize,
            ContractStrictness::DenyUnknownFields,
            "urn:kanban-tool:schema:cli:dep-add-output:v1",
            "schemas/fixtures/cli/dep-add-output.v1.valid.json",
            cli_test("cli_relation_mutation_contract_adoption", "dependency_add_output_fixture_is_produced_by_real_cli"),
            cli_test("cli_relation_mutation_contract_adoption", "dependency_add_output_fixture_is_consumed_by_public_contract"),
            ContractTransport::NoTransport,
        ),
        OperationContract::adopted(
            "cli.dep-list.output",
            "kanban dep list --json stdout",
            ContractSurface::Cli,
            "dep list",
            ContractDirection::Serialize,
            ContractStrictness::DenyUnknownFields,
            "urn:kanban-tool:schema:cli:dep-list-output:v1",
            "schemas/fixtures/cli/dep-list-output.v1.valid.json",
            cli_test("cli_core_read_contract_adoption", "dependency_list_output_fixture_is_produced_by_real_cli"),
            cli_test("cli_core_read_contract_adoption", "dependency_list_output_fixture_is_consumed_by_contract_root"),
            ContractTransport::NoTransport,
        ),
        OperationContract::adopted(
            "cli.dep-remove.output",
            "kanban dep remove --json stdout",
            ContractSurface::Cli,
            "dep remove",
            ContractDirection::Serialize,
            ContractStrictness::DenyUnknownFields,
            "urn:kanban-tool:schema:cli:dep-remove-output:v1",
            "schemas/fixtures/cli/dep-remove-output.v1.valid.json",
            cli_test("cli_relation_mutation_contract_adoption", "dependency_remove_output_fixture_is_produced_by_real_cli"),
            cli_test("cli_relation_mutation_contract_adoption", "dependency_remove_output_fixture_is_consumed_by_public_contract"),
            ContractTransport::NoTransport,
        ),
        OperationContract::adopted(
            "cli.events.output",
            "kanban events --json stdout",
            ContractSurface::Cli,
            "events",
            ContractDirection::Serialize,
            ContractStrictness::DenyUnknownFields,
            "urn:kanban-tool:schema:cli:events-output:v1",
            "schemas/fixtures/cli/events-output.v1.valid.json",
            cli_test("cli_core_read_contract_adoption", "events_output_fixture_is_produced_by_real_cli"),
            cli_test("cli_core_read_contract_adoption", "events_output_fixture_is_consumed_by_contract_root"),
            ContractTransport::NoTransport,
        ),
        OperationContract::adopted(
            "cli.task-step-list.output",
            "kanban task step list --json stdout",
            ContractSurface::Cli,
            "task step list",
            ContractDirection::Serialize,
            ContractStrictness::DenyUnknownFields,
            "urn:kanban-tool:schema:cli:task-step-list-output:v1",
            "schemas/fixtures/cli/task-step-list-output.v1.valid.json",
            cli_test("cli_step_read_contract_adoption", "task_step_list_output_fixture_is_produced_by_real_cli"),
            cli_test("cli_step_read_contract_adoption", "task_step_list_output_fixture_is_consumed_by_contract_root"),
            ContractTransport::NoTransport,
        ),
        OperationContract::adopted(
            "cli.task-step-add.output",
            "kanban task step add --json stdout",
            ContractSurface::Cli,
            "task step add",
            ContractDirection::Serialize,
            ContractStrictness::DenyUnknownFields,
            "urn:kanban-tool:schema:cli:task-step-add-output:v1",
            "schemas/fixtures/cli/task-step-add-output.v1.valid.json",
            cli_test("cli_step_mutation_contract_adoption", "task_step_add_output_fixture_is_produced_by_real_cli"),
            cli_test("cli_step_mutation_contract_adoption", "task_step_add_output_fixture_is_consumed_by_contract_root"),
            ContractTransport::NoTransport,
        ),
        OperationContract::adopted(
            "cli.task-step-update.output",
            "kanban task step update --json stdout",
            ContractSurface::Cli,
            "task step update",
            ContractDirection::Serialize,
            ContractStrictness::DenyUnknownFields,
            "urn:kanban-tool:schema:cli:task-step-update-output:v1",
            "schemas/fixtures/cli/task-step-update-output.v1.valid.json",
            cli_test("cli_step_mutation_contract_adoption", "task_step_update_output_fixture_is_produced_by_real_cli"),
            cli_test("cli_step_mutation_contract_adoption", "task_step_update_output_fixture_is_consumed_by_contract_root"),
            ContractTransport::NoTransport,
        ),
        OperationContract::adopted(
            "cli.task-step-done.output",
            "kanban task step done --json stdout",
            ContractSurface::Cli,
            "task step done",
            ContractDirection::Serialize,
            ContractStrictness::DenyUnknownFields,
            "urn:kanban-tool:schema:cli:task-step-done-output:v1",
            "schemas/fixtures/cli/task-step-done-output.v1.valid.json",
            cli_test("cli_step_mutation_contract_adoption", "task_step_done_output_fixture_is_produced_by_real_cli"),
            cli_test("cli_step_mutation_contract_adoption", "task_step_done_output_fixture_is_consumed_by_contract_root"),
            ContractTransport::NoTransport,
        ),
        OperationContract::adopted(
            "cli.task-step-skip.output",
            "kanban task step skip --json stdout",
            ContractSurface::Cli,
            "task step skip",
            ContractDirection::Serialize,
            ContractStrictness::DenyUnknownFields,
            "urn:kanban-tool:schema:cli:task-step-skip-output:v1",
            "schemas/fixtures/cli/task-step-skip-output.v1.valid.json",
            cli_test("cli_step_mutation_contract_adoption", "task_step_skip_output_fixture_is_produced_by_real_cli"),
            cli_test("cli_step_mutation_contract_adoption", "task_step_skip_output_fixture_is_consumed_by_contract_root"),
            ContractTransport::NoTransport,
        ),
        OperationContract::adopted(
            "cli.task-step-reopen.output",
            "kanban task step reopen --json stdout",
            ContractSurface::Cli,
            "task step reopen",
            ContractDirection::Serialize,
            ContractStrictness::DenyUnknownFields,
            "urn:kanban-tool:schema:cli:task-step-reopen-output:v1",
            "schemas/fixtures/cli/task-step-reopen-output.v1.valid.json",
            cli_test("cli_step_mutation_contract_adoption", "task_step_reopen_output_fixture_is_produced_by_real_cli"),
            cli_test("cli_step_mutation_contract_adoption", "task_step_reopen_output_fixture_is_consumed_by_contract_root"),
            ContractTransport::NoTransport,
        ),
        OperationContract::adopted(
            "cli.task-step-remove.output",
            "kanban task step remove --json stdout",
            ContractSurface::Cli,
            "task step remove",
            ContractDirection::Serialize,
            ContractStrictness::DenyUnknownFields,
            "urn:kanban-tool:schema:cli:task-step-remove-output:v1",
            "schemas/fixtures/cli/task-step-remove-output.v1.valid.json",
            cli_test("cli_step_mutation_contract_adoption", "task_step_remove_output_fixture_is_produced_by_real_cli"),
            cli_test("cli_step_mutation_contract_adoption", "task_step_remove_output_fixture_is_consumed_by_contract_root"),
            ContractTransport::NoTransport,
        ),
        OperationContract::adopted(
            "cli.task-step-not-required.output",
            "kanban task step not-required --json stdout",
            ContractSurface::Cli,
            "task step not-required",
            ContractDirection::Serialize,
            ContractStrictness::DenyUnknownFields,
            "urn:kanban-tool:schema:cli:task-step-not-required-output:v1",
            "schemas/fixtures/cli/task-step-not-required-output.v1.valid.json",
            cli_test("cli_step_mutation_contract_adoption", "task_step_not_required_output_fixture_is_produced_by_real_cli"),
            cli_test("cli_step_mutation_contract_adoption", "task_step_not_required_output_fixture_is_consumed_by_contract_root"),
            ContractTransport::NoTransport,
        ),
        OperationContract::adopted(
            "cli.runs.output",
            "kanban runs --json stdout",
            ContractSurface::Cli,
            "runs",
            ContractDirection::Serialize,
            ContractStrictness::DenyUnknownFields,
            "urn:kanban-tool:schema:cli:runs-output:v1",
            "schemas/fixtures/cli/runs-output.v1.valid.json",
            cli_test("cli_run_read_contract_adoption", "runs_output_fixture_is_produced_by_real_cli"),
            cli_test("cli_run_read_contract_adoption", "runs_output_fixture_is_consumed_by_contract_root"),
            ContractTransport::NoTransport,
        ),
        OperationContract::adopted(
            "cli.run-show.output",
            "kanban run show --json stdout",
            ContractSurface::Cli,
            "run show",
            ContractDirection::Serialize,
            ContractStrictness::DenyUnknownFields,
            "urn:kanban-tool:schema:cli:run-show-output:v1",
            "schemas/fixtures/cli/run-show-output.v1.valid.json",
            cli_test("cli_run_read_contract_adoption", "run_show_output_fixture_is_produced_by_real_cli"),
            cli_test("cli_run_read_contract_adoption", "run_show_output_fixture_is_consumed_by_contract_root"),
            ContractTransport::NoTransport,
        ),
        OperationContract::adopted(
            "cli.run-logs.output",
            "kanban run logs --json stdout",
            ContractSurface::Cli,
            "run logs",
            ContractDirection::Serialize,
            ContractStrictness::DenyUnknownFields,
            "urn:kanban-tool:schema:cli:run-logs-output:v1",
            "schemas/fixtures/cli/run-logs-output.v1.valid.json",
            cli_test("cli_run_read_contract_adoption", "run_logs_output_fixture_is_produced_by_real_cli"),
            cli_test("cli_run_read_contract_adoption", "run_logs_output_fixture_is_consumed_by_contract_root"),
            ContractTransport::NoTransport,
        ),
        OperationContract::adopted(
            "cli.task-create.output",
            "kanban task create --json stdout",
            ContractSurface::Cli,
            "task create",
            ContractDirection::Serialize,
            ContractStrictness::DenyUnknownFields,
            "urn:kanban-tool:schema:cli:task-create-output:v1",
            "schemas/fixtures/cli/task-create-output.v1.valid.json",
            cli_test("cli_task_mutation_contract_adoption", "task_create_output_fixture_is_produced_by_real_cli"),
            cli_test("cli_task_mutation_contract_adoption", "task_create_output_fixture_is_consumed_by_contract_root"),
            ContractTransport::NoTransport,
        ),
        OperationContract::adopted(
            "cli.task-update.output",
            "kanban task update --json stdout",
            ContractSurface::Cli,
            "task update",
            ContractDirection::Serialize,
            ContractStrictness::DenyUnknownFields,
            "urn:kanban-tool:schema:cli:task-update-output:v1",
            "schemas/fixtures/cli/task-update-output.v1.valid.json",
            cli_test("cli_task_mutation_contract_adoption", "task_update_output_fixture_is_produced_by_real_cli"),
            cli_test("cli_task_mutation_contract_adoption", "task_update_output_fixture_is_consumed_by_contract_root"),
            ContractTransport::NoTransport,
        ),
        OperationContract::adopted(
            "cli.task-claim.output",
            "kanban task claim --json stdout",
            ContractSurface::Cli,
            "task claim",
            ContractDirection::Serialize,
            ContractStrictness::DenyUnknownFields,
            "urn:kanban-tool:schema:cli:task-claim-output:v1",
            "schemas/fixtures/cli/task-claim-output.v1.valid.json",
            cli_test("cli_task_claim_contract_adoption", "task_claim_output_fixture_is_produced_by_real_cli"),
            cli_test("cli_task_claim_contract_adoption", "task_claim_output_fixture_is_consumed_by_contract_root"),
            ContractTransport::NoTransport,
        ),
        OperationContract::adopted(
            "cli.task-reclaim.output",
            "kanban task reclaim --json stdout",
            ContractSurface::Cli,
            "task reclaim",
            ContractDirection::Serialize,
            ContractStrictness::DenyUnknownFields,
            "urn:kanban-tool:schema:cli:task-reclaim-output:v1",
            "schemas/fixtures/cli/task-reclaim-output.v1.valid.json",
            cli_test("cli_task_claim_contract_adoption", "task_reclaim_output_fixture_is_produced_by_real_cli"),
            cli_test("cli_task_claim_contract_adoption", "task_reclaim_output_fixture_is_consumed_by_contract_root"),
            ContractTransport::NoTransport,
        ),
        OperationContract::adopted(
            "cli.task-promote.output",
            "kanban task promote --json stdout",
            ContractSurface::Cli,
            "task promote",
            ContractDirection::Serialize,
            ContractStrictness::DenyUnknownFields,
            "urn:kanban-tool:schema:cli:task-promote-output:v1",
            "schemas/fixtures/cli/task-promote-output.v1.valid.json",
            cli_test("cli_task_lifecycle_contract_adoption", "task_promote_output_fixture_is_produced_by_real_cli"),
            cli_test("cli_task_lifecycle_contract_adoption", "task_promote_output_fixture_is_consumed_by_contract_root"),
            ContractTransport::NoTransport,
        ),
        OperationContract::adopted(
            "cli.task-reopen.output",
            "kanban task reopen --json stdout",
            ContractSurface::Cli,
            "task reopen",
            ContractDirection::Serialize,
            ContractStrictness::DenyUnknownFields,
            "urn:kanban-tool:schema:cli:task-reopen-output:v1",
            "schemas/fixtures/cli/task-reopen-output.v1.valid.json",
            cli_test("cli_task_lifecycle_contract_adoption", "task_reopen_output_fixture_is_produced_by_real_cli"),
            cli_test("cli_task_lifecycle_contract_adoption", "task_reopen_output_fixture_is_consumed_by_contract_root"),
            ContractTransport::NoTransport,
        ),
        OperationContract::adopted(
            "cli.task-heartbeat.output",
            "kanban task heartbeat --json stdout",
            ContractSurface::Cli,
            "task heartbeat",
            ContractDirection::Serialize,
            ContractStrictness::DenyUnknownFields,
            "urn:kanban-tool:schema:cli:task-heartbeat-output:v1",
            "schemas/fixtures/cli/task-heartbeat-output.v1.valid.json",
            cli_test("cli_task_lifecycle_contract_adoption", "task_heartbeat_output_fixture_is_produced_by_real_cli"),
            cli_test("cli_task_lifecycle_contract_adoption", "task_heartbeat_output_fixture_is_consumed_by_contract_root"),
            ContractTransport::NoTransport,
        ),
        OperationContract::adopted(
            "cli.task-release.output",
            "kanban task release --json stdout",
            ContractSurface::Cli,
            "task release",
            ContractDirection::Serialize,
            ContractStrictness::DenyUnknownFields,
            "urn:kanban-tool:schema:cli:task-release-output:v1",
            "schemas/fixtures/cli/task-release-output.v1.valid.json",
            cli_test("cli_task_release_contract_adoption", "task_release_output_fixture_is_produced_by_real_cli"),
            cli_test("cli_task_release_contract_adoption", "task_release_output_fixture_is_consumed_by_contract_root"),
            ContractTransport::NoTransport,
        ),
    ];
    assert(r@ =~= legacy_rows_0());
    r
}

/// Historical inventory rows 40 to 79.
#[verifier::opaque]
pub open spec fn legacy_rows_1() -> Seq<OperationContract> {
    seq![
        OperationContract::adopted(
            "cli.task-done.output",
            "kanban task done --json stdout",
            ContractSurface::Cli,
            "task done",
            ContractDirection::Serialize,
            ContractStrictness::DenyUnknownFields,
            "urn:kanban-tool:schema:cli:task-done-output:v1",
            "schemas/fixtures/cli/task-done-output.v1.valid.json",
            cli_test("cli_task_contract_adoption", "task_done_output_contract"),
            cli_test("cli_task_contract_adoption", "task_done_output_contract"),
            ContractTransport::NoTransport,
        ),
        OperationContract::adopted(
            "cli.task-review.output",
            "kanban task review --json stdout",
            ContractSurface::Cli,
            "task review",
            ContractDirection::Serialize,
            ContractStrictness::DenyUnknownFields,
            "urn:kanban-tool:schema:cli:task-review-output:v1",
            "schemas/fixtures/cli/task-review-output.v1.valid.json",
            cli_test("cli_task_lifecycle_contract_adoption", "task_review_output_fixture_is_produced_by_real_cli"),
            cli_test("cli_task_lifecycle_contract_adoption", "task_review_output_fixture_is_consumed_by_contract_root"),
            ContractTransport::NoTransport,
        ),
        OperationContract::adopted(
            "cli.task-block.output",
            "kanban task block --json stdout",
            ContractSurface::Cli,
            "task block",
            ContractDirection::Serialize,
            ContractStrictness::DenyUnknownFields,
            "urn:kanban-tool:schema:cli:task-block-output:v1",
            "schemas/fixtures/cli/task-block-output.v1.valid.json",
            cli_test("cli_task_contract_adoption", "task_block_output_contract"),
            cli_test("cli_task_contract_adoption", "task_block_output_contract"),
            ContractTransport::NoTransport,
        ),
        OperationContract::adopted(
            "cli.task-unblock.output",
            "kanban task unblock --json stdout",
            ContractSurface::Cli,
            "task unblock",
            ContractDirection::Serialize,
            ContractStrictness::DenyUnknownFields,
            "urn:kanban-tool:schema:cli:task-unblock-output:v1",
            "schemas/fixtures/cli/task-unblock-output.v1.valid.json",
            cli_test("cli_task_lifecycle_contract_adoption", "task_unblock_output_fixture_is_produced_by_real_cli"),
            cli_test("cli_task_lifecycle_contract_adoption", "task_unblock_output_fixture_is_consumed_by_contract_root"),
            ContractTransport::NoTransport,
        ),
        OperationContract::adopted(
            "cli.task-archive.output",
            "kanban task archive --json stdout",
            ContractSurface::Cli,
            "task archive",
            ContractDirection::Serialize,
            ContractStrictness::DenyUnknownFields,
            "urn:kanban-tool:schema:cli:task-archive-output:v1",
            "schemas/fixtures/cli/task-archive-output.v1.valid.json",
            cli_test("cli_task_lifecycle_contract_adoption", "task_archive_output_fixture_is_produced_by_real_cli"),
            cli_test("cli_task_lifecycle_contract_adoption", "task_archive_output_fixture_is_consumed_by_contract_root"),
            ContractTransport::NoTransport,
        ),
        OperationContract::adopted(
            "cli.label-add.output",
            "kanban label add --json stdout",
            ContractSurface::Cli,
            "label add",
            ContractDirection::Serialize,
            ContractStrictness::DenyUnknownFields,
            "urn:kanban-tool:schema:cli:label-add-output:v1",
            "schemas/fixtures/cli/label-add-output.v1.valid.json",
            cli_test("cli_label_contract_adoption", "producer_label_add_matches_exact_fixture"),
            cli_test("cli_label_contract_adoption", "label_add_output_fixture_is_consumed_by_public_contract"),
            ContractTransport::NoTransport,
        ),
        OperationContract::adopted(
            "cli.label-atom-index-query.output",
            "kanban label atom-index query --json stdout",
            ContractSurface::Cli,
            "label atom-index query",
            ContractDirection::Serialize,
            ContractStrictness::DenyUnknownFields,
            "urn:kanban-tool:schema:cli:label-atom-index-query-output:v1",
            "schemas/fixtures/cli/label-atom-index-query-output.v1.valid.json",
            cli_test("cli_label_contract_adoption", "producer_label_atom_index_query_matches_exact_fixture"),
            cli_test("cli_label_contract_adoption", "label_atom_index_query_output_fixture_is_consumed_by_public_contract"),
            ContractTransport::NoTransport,
        ),
        OperationContract::adopted(
            "cli.label-atom-index-rebuild.output",
            "kanban label atom-index rebuild --json stdout",
            ContractSurface::Cli,
            "label atom-index rebuild",
            ContractDirection::Serialize,
            ContractStrictness::DenyUnknownFields,
            "urn:kanban-tool:schema:cli:label-atom-index-rebuild-output:v1",
            "schemas/fixtures/cli/label-atom-index-rebuild-output.v1.valid.json",
            cli_test("cli_label_contract_adoption", "producer_label_atom_index_rebuild_matches_exact_fixture"),
            cli_test("cli_label_contract_adoption", "label_atom_index_rebuild_output_fixture_is_consumed_by_public_contract"),
            ContractTransport::NoTransport,
        ),
        OperationContract::adopted(
            "cli.label-atom-index-status.output",
            "kanban label atom-index status --json stdout",
            ContractSurface::Cli,
            "label atom-index status",
            ContractDirection::Serialize,
            ContractStrictness::DenyUnknownFields,
            "urn:kanban-tool:schema:cli:label-atom-index-status-output:v1",
            "schemas/fixtures/cli/label-atom-index-status-output.v1.valid.json",
            cli_test("cli_label_contract_adoption", "producer_label_atom_index_status_matches_exact_fixture"),
            cli_test("cli_label_contract_adoption", "label_atom_index_status_output_fixture_is_consumed_by_public_contract"),
            ContractTransport::NoTransport,
        ),
        OperationContract::adopted(
            "cli.label-atoms-explain.output",
            "kanban label atoms explain --json stdout",
            ContractSurface::Cli,
            "label atoms explain",
            ContractDirection::Serialize,
            ContractStrictness::DenyUnknownFields,
            "urn:kanban-tool:schema:cli:label-atoms-explain-output:v1",
            "schemas/fixtures/cli/label-atoms-explain-output.v1.valid.json",
            cli_test("cli_label_contract_adoption", "producer_label_atoms_explain_matches_exact_fixture"),
            cli_test("cli_label_contract_adoption", "label_atoms_explain_output_fixture_is_consumed_by_public_contract"),
            ContractTransport::NoTransport,
        ),
        OperationContract::adopted(
            "cli.label-atoms-list.output",
            "kanban label atoms list --json stdout",
            ContractSurface::Cli,
            "label atoms list",
            ContractDirection::Serialize,
            ContractStrictness::DenyUnknownFields,
            "urn:kanban-tool:schema:cli:label-atoms-list-output:v1",
            "schemas/fixtures/cli/label-atoms-list-output.v1.valid.json",
            cli_test("cli_label_contract_adoption", "producer_label_atoms_list_matches_exact_fixture"),
            cli_test("cli_label_contract_adoption", "label_atoms_list_output_fixture_is_consumed_by_public_contract"),
            ContractTransport::NoTransport,
        ),
        OperationContract::adopted(
            "cli.label-create.output",
            "kanban label create --json stdout",
            ContractSurface::Cli,
            "label create",
            ContractDirection::Serialize,
            ContractStrictness::DenyUnknownFields,
            "urn:kanban-tool:schema:cli:label-create-output:v1",
            "schemas/fixtures/cli/label-create-output.v1.valid.json",
            cli_test("cli_label_contract_adoption", "producer_label_create_matches_exact_fixture"),
            cli_test("cli_label_contract_adoption", "label_create_output_fixture_is_consumed_by_public_contract"),
            ContractTransport::NoTransport,
        ),
        OperationContract::adopted(
            "cli.label-list.output",
            "kanban label list --json stdout",
            ContractSurface::Cli,
            "label list",
            ContractDirection::Serialize,
            ContractStrictness::DenyUnknownFields,
            "urn:kanban-tool:schema:cli:label-list-output:v1",
            "schemas/fixtures/cli/label-list-output.v1.valid.json",
            cli_test("cli_label_contract_adoption", "producer_label_list_matches_exact_fixture"),
            cli_test("cli_label_contract_adoption", "label_list_output_fixture_is_consumed_by_public_contract"),
            ContractTransport::NoTransport,
        ),
        OperationContract::adopted(
            "cli.label-ontology-apply-atom.output",
            "kanban label ontology apply atom --json stdout",
            ContractSurface::Cli,
            "label ontology apply atom",
            ContractDirection::Serialize,
            ContractStrictness::DenyUnknownFields,
            "urn:kanban-tool:schema:cli:label-ontology-apply-atom-output:v1",
            "schemas/fixtures/cli/label-ontology-apply-atom-output.v1.valid.json",
            cli_test("cli_label_contract_adoption", "producer_label_ontology_apply_atom_matches_exact_fixture"),
            cli_test("cli_label_contract_adoption", "label_ontology_apply_atom_output_fixture_is_consumed_by_public_contract"),
            ContractTransport::NoTransport,
        ),
        OperationContract::adopted(
            "cli.label-ontology-confirm.output",
            "kanban label ontology confirm --json stdout",
            ContractSurface::Cli,
            "label ontology confirm",
            ContractDirection::Serialize,
            ContractStrictness::DenyUnknownFields,
            "urn:kanban-tool:schema:cli:label-ontology-confirm-output:v1",
            "schemas/fixtures/cli/label-ontology-confirm-output.v1.valid.json",
            cli_test("cli_label_contract_adoption", "producer_label_ontology_confirm_matches_exact_fixture"),
            cli_test("cli_label_contract_adoption", "label_ontology_confirm_output_fixture_is_consumed_by_public_contract"),
            ContractTransport::NoTransport,
        ),
        OperationContract::adopted(
            "cli.label-ontology-list.output",
            "kanban label ontology list --json stdout",
            ContractSurface::Cli,
            "label ontology list",
            ContractDirection::Serialize,
            ContractStrictness::DenyUnknownFields,
            "urn:kanban-tool:schema:cli:label-ontology-list-output:v1",
            "schemas/fixtures/cli/label-ontology-list-output.v1.valid.json",
            cli_test("cli_label_contract_adoption", "producer_label_ontology_list_matches_exact_fixture"),
            cli_test("cli_label_contract_adoption", "label_ontology_list_output_fixture_is_consumed_by_public_contract"),
            ContractTransport::NoTransport,
        ),
        OperationContract::adopted(
            "cli.label-ontology-quality.output",
            "kanban label ontology quality --json stdout",
            ContractSurface::Cli,
            "label ontology quality",
            ContractDirection::Serialize,
            ContractStrictness::DenyUnknownFields,
            "urn:kanban-tool:schema:cli:label-ontology-quality-output:v1",
            "schemas/fixtures/cli/label-ontology-quality-output.v1.valid.json",
            cli_test("cli_label_contract_adoption", "producer_label_ontology_quality_matches_exact_fixture"),
            cli_test("cli_label_contract_adoption", "label_ontology_quality_output_fixture_is_consumed_by_public_contract"),
            ContractTransport::NoTransport,
        ),
        OperationContract::adopted(
            "cli.label-ontology-record.output",
            "kanban label ontology record --json stdout",
            ContractSurface::Cli,
            "label ontology record",
            ContractDirection::Serialize,
            ContractStrictness::DenyUnknownFields,
            "urn:kanban-tool:schema:cli:label-ontology-record-output:v1",
            "schemas/fixtures/cli/label-ontology-record-output.v1.valid.json",
            cli_test("cli_label_contract_adoption", "producer_label_ontology_record_matches_exact_fixture"),
            cli_test("cli_label_contract_adoption", "label_ontology_record_output_fixture_is_consumed_by_public_contract"),
            ContractTransport::NoTransport,
        ),
        OperationContract::adopted(
            "cli.label-ontology-reject.output",
            "kanban label ontology reject --json stdout",
            ContractSurface::Cli,
            "label ontology reject",
            ContractDirection::Serialize,
            ContractStrictness::DenyUnknownFields,
            "urn:kanban-tool:schema:cli:label-ontology-reject-output:v1",
            "schemas/fixtures/cli/label-ontology-reject-output.v1.valid.json",
            cli_test("cli_label_contract_adoption", "producer_label_ontology_reject_matches_exact_fixture"),
            cli_test("cli_label_contract_adoption", "label_ontology_reject_output_fixture_is_consumed_by_public_contract"),
            ContractTransport::NoTransport,
        ),
        OperationContract::adopted(
            "cli.label-ontology-resolve.output",
            "kanban label ontology resolve --json stdout",
            ContractSurface::Cli,
            "label ontology resolve",
            ContractDirection::Serialize,
            ContractStrictness::DenyUnknownFields,
            "urn:kanban-tool:schema:cli:label-ontology-resolve-output:v1",
            "schemas/fixtures/cli/label-ontology-resolve-output.v1.valid.json",
            cli_test("cli_label_contract_adoption", "producer_label_ontology_resolve_matches_exact_fixture"),
            cli_test("cli_label_contract_adoption", "label_ontology_resolve_output_fixture_is_consumed_by_public_contract"),
            ContractTransport::NoTransport,
        ),
        OperationContract::adopted(
            "cli.label-ontology-revert.output",
            "kanban label ontology revert --json stdout",
            ContractSurface::Cli,
            "label ontology revert",
            ContractDirection::Serialize,
            ContractStrictness::DenyUnknownFields,
            "urn:kanban-tool:schema:cli:label-ontology-revert-output:v1",
            "schemas/fixtures/cli/label-ontology-revert-output.v1.valid.json",
            cli_test("cli_label_contract_adoption", "producer_label_ontology_revert_matches_exact_fixture"),
            cli_test("cli_label_contract_adoption", "label_ontology_revert_output_fixture_is_consumed_by_public_contract"),
            ContractTransport::NoTransport,
        ),
        OperationContract::adopted(
            "cli.label-ontology-review.output",
            "kanban label ontology review --json stdout",
            ContractSurface::Cli,
            "label ontology review",
            ContractDirection::Serialize,
            ContractStrictness::DenyUnknownFields,
            "urn:kanban-tool:schema:cli:label-ontology-review-output:v1",
            "schemas/fixtures/cli/label-ontology-review-output.v1.valid.json",
            cli_test("cli_label_contract_adoption", "producer_label_ontology_review_matches_exact_fixture"),
            cli_test("cli_label_contract_adoption", "label_ontology_review_output_fixture_is_consumed_by_public_contract"),
            ContractTransport::NoTransport,
        ),
        OperationContract::adopted(
            "cli.label-ontology-show.output",
            "kanban label ontology show --json stdout",
            ContractSurface::Cli,
            "label ontology show",
            ContractDirection::Serialize,
            ContractStrictness::DenyUnknownFields,
            "urn:kanban-tool:schema:cli:label-ontology-show-output:v1",
            "schemas/fixtures/cli/label-ontology-show-output.v1.valid.json",
            cli_test("cli_label_contract_adoption", "producer_label_ontology_show_matches_exact_fixture"),
            cli_test("cli_label_contract_adoption", "label_ontology_show_output_fixture_is_consumed_by_public_contract"),
            ContractTransport::NoTransport,
        ),
        OperationContract::adopted(
            "cli.label-ontology-supersede.output",
            "kanban label ontology supersede --json stdout",
            ContractSurface::Cli,
            "label ontology supersede",
            ContractDirection::Serialize,
            ContractStrictness::DenyUnknownFields,
            "urn:kanban-tool:schema:cli:label-ontology-supersede-output:v1",
            "schemas/fixtures/cli/label-ontology-supersede-output.v1.valid.json",
            cli_test("cli_label_contract_adoption", "producer_label_ontology_supersede_matches_exact_fixture"),
            cli_test("cli_label_contract_adoption", "label_ontology_supersede_output_fixture_is_consumed_by_public_contract"),
            ContractTransport::NoTransport,
        ),
        OperationContract::adopted(
            "cli.label-ontology-validate.output",
            "kanban label ontology validate --json stdout",
            ContractSurface::Cli,
            "label ontology validate",
            ContractDirection::Serialize,
            ContractStrictness::DenyUnknownFields,
            "urn:kanban-tool:schema:cli:label-ontology-validate-output:v1",
            "schemas/fixtures/cli/label-ontology-validate-output.v1.valid.json",
            cli_test("cli_label_contract_adoption", "producer_label_ontology_validate_matches_exact_fixture"),
            cli_test("cli_label_contract_adoption", "label_ontology_validate_output_fixture_is_consumed_by_public_contract"),
            ContractTransport::NoTransport,
        ),
        OperationContract::adopted(
            "cli.label-proposals-accept.output",
            "kanban label proposals accept --json stdout",
            ContractSurface::Cli,
            "label proposals accept",
            ContractDirection::Serialize,
            ContractStrictness::DenyUnknownFields,
            "urn:kanban-tool:schema:cli:label-proposals-accept-output:v1",
            "schemas/fixtures/cli/label-proposals-accept-output.v1.valid.json",
            cli_test("cli_label_contract_adoption", "producer_label_proposals_accept_matches_exact_fixture"),
            cli_test("cli_label_contract_adoption", "label_proposals_accept_output_fixture_is_consumed_by_public_contract"),
            ContractTransport::NoTransport,
        ),
        OperationContract::adopted(
            "cli.label-proposals-list.output",
            "kanban label proposals list --json stdout",
            ContractSurface::Cli,
            "label proposals list",
            ContractDirection::Serialize,
            ContractStrictness::DenyUnknownFields,
            "urn:kanban-tool:schema:cli:label-proposals-list-output:v1",
            "schemas/fixtures/cli/label-proposals-list-output.v1.valid.json",
            cli_test("cli_label_contract_adoption", "producer_label_proposals_list_matches_exact_fixture"),
            cli_test("cli_label_contract_adoption", "label_proposals_list_output_fixture_is_consumed_by_public_contract"),
            ContractTransport::NoTransport,
        ),
        OperationContract::adopted(
            "cli.label-proposals-reject.output",
            "kanban label proposals reject --json stdout",
            ContractSurface::Cli,
            "label proposals reject",
            ContractDirection::Serialize,
            ContractStrictness::DenyUnknownFields,
            "urn:kanban-tool:schema:cli:label-proposals-reject-output:v1",
            "schemas/fixtures/cli/label-proposals-reject-output.v1.valid.json",
            cli_test("cli_label_contract_adoption", "producer_label_proposals_reject_matches_exact_fixture"),
            cli_test("cli_label_contract_adoption", "label_proposals_reject_output_fixture_is_consumed_by_public_contract"),
            ContractTransport::NoTransport,
        ),
        OperationContract::adopted(
            "cli.label-proposals-show.output",
            "kanban label proposals show --json stdout",
            ContractSurface::Cli,
            "label proposals show",
            ContractDirection::Serialize,
            ContractStrictness::DenyUnknownFields,
            "urn:kanban-tool:schema:cli:label-proposals-show-output:v1",
            "schemas/fixtures/cli/label-proposals-show-output.v1.valid.json",
            cli_test("cli_label_contract_adoption", "producer_label_proposals_show_matches_exact_fixture"),
            cli_test("cli_label_contract_adoption", "label_proposals_show_output_fixture_is_consumed_by_public_contract"),
            ContractTransport::NoTransport,
        ),
        OperationContract::adopted(
            "cli.label-propose.output",
            "kanban label propose --json stdout",
            ContractSurface::Cli,
            "label propose",
            ContractDirection::Serialize,
            ContractStrictness::DenyUnknownFields,
            "urn:kanban-tool:schema:cli:label-propose-output:v1",
            "schemas/fixtures/cli/label-propose-output.v1.valid.json",
            cli_test("cli_label_contract_adoption", "producer_label_propose_matches_exact_fixture"),
            cli_test("cli_label_contract_adoption", "label_propose_output_fixture_is_consumed_by_public_contract"),
            ContractTransport::NoTransport,
        ),
        OperationContract::adopted(
            "cli.label-remove.output",
            "kanban label remove --json stdout",
            ContractSurface::Cli,
            "label remove",
            ContractDirection::Serialize,
            ContractStrictness::DenyUnknownFields,
            "urn:kanban-tool:schema:cli:label-remove-output:v1",
            "schemas/fixtures/cli/label-remove-output.v1.valid.json",
            cli_test("cli_label_contract_adoption", "producer_label_remove_matches_exact_fixture"),
            cli_test("cli_label_contract_adoption", "label_remove_output_fixture_is_consumed_by_public_contract"),
            ContractTransport::NoTransport,
        ),
        OperationContract::adopted(
            "cli.label-semantics-delete.output",
            "kanban label semantics delete --json stdout",
            ContractSurface::Cli,
            "label semantics delete",
            ContractDirection::Serialize,
            ContractStrictness::DenyUnknownFields,
            "urn:kanban-tool:schema:cli:label-semantics-delete-output:v1",
            "schemas/fixtures/cli/label-semantics-delete-output.v1.valid.json",
            cli_test("cli_label_contract_adoption", "producer_label_semantics_delete_matches_exact_fixture"),
            cli_test("cli_label_contract_adoption", "label_semantics_delete_output_fixture_is_consumed_by_public_contract"),
            ContractTransport::NoTransport,
        ),
        OperationContract::adopted(
            "cli.label-semantics-list.output",
            "kanban label semantics list --json stdout",
            ContractSurface::Cli,
            "label semantics list",
            ContractDirection::Serialize,
            ContractStrictness::DenyUnknownFields,
            "urn:kanban-tool:schema:cli:label-semantics-list-output:v1",
            "schemas/fixtures/cli/label-semantics-list-output.v1.valid.json",
            cli_test("cli_label_contract_adoption", "producer_label_semantics_list_matches_exact_fixture"),
            cli_test("cli_label_contract_adoption", "label_semantics_list_output_fixture_is_consumed_by_public_contract"),
            ContractTransport::NoTransport,
        ),
        OperationContract::adopted(
            "cli.label-semantics-show.output",
            "kanban label semantics show --json stdout",
            ContractSurface::Cli,
            "label semantics show",
            ContractDirection::Serialize,
            ContractStrictness::DenyUnknownFields,
            "urn:kanban-tool:schema:cli:label-semantics-show-output:v1",
            "schemas/fixtures/cli/label-semantics-show-output.v1.valid.json",
            cli_test("cli_label_contract_adoption", "producer_label_semantics_show_matches_exact_fixture"),
            cli_test("cli_label_contract_adoption", "label_semantics_show_output_fixture_is_consumed_by_public_contract"),
            ContractTransport::NoTransport,
        ),
        OperationContract::adopted(
            "cli.label-semantics-upsert.output",
            "kanban label semantics upsert --json stdout",
            ContractSurface::Cli,
            "label semantics upsert",
            ContractDirection::Serialize,
            ContractStrictness::DenyUnknownFields,
            "urn:kanban-tool:schema:cli:label-semantics-upsert-output:v1",
            "schemas/fixtures/cli/label-semantics-upsert-output.v1.valid.json",
            cli_test("cli_label_contract_adoption", "producer_label_semantics_upsert_matches_exact_fixture"),
            cli_test("cli_label_contract_adoption", "label_semantics_upsert_output_fixture_is_consumed_by_public_contract"),
            ContractTransport::NoTransport,
        ),
        OperationContract::adopted(
            "cli.label-suggest.output",
            "kanban label suggest --json stdout",
            ContractSurface::Cli,
            "label suggest",
            ContractDirection::Serialize,
            ContractStrictness::DenyUnknownFields,
            "urn:kanban-tool:schema:cli:label-suggest-output:v1",
            "schemas/fixtures/cli/label-suggest-output.v1.valid.json",
            cli_test("cli_label_contract_adoption", "producer_label_suggest_matches_exact_fixture"),
            cli_test("cli_label_contract_adoption", "label_suggest_output_fixture_is_consumed_by_public_contract"),
            ContractTransport::NoTransport,
        ),
        OperationContract::adopted(
            "cli.graph-neighbors.output",
            "kanban graph neighbors --json stdout",
            ContractSurface::Cli,
            "graph neighbors",
            ContractDirection::Serialize,
            ContractStrictness::DenyUnknownFields,
            "urn:kanban-tool:schema:cli:graph-neighbors-output:v1",
            "schemas/fixtures/cli/graph-neighbors-output.v1.valid.json",
            cli_test("cli_helper_contract_adoption", "producer_graph_neighbors_matches_exact_fixture"),
            cli_test("cli_helper_contract_adoption", "graph_neighbors_output_fixture_is_consumed_by_public_contract"),
            ContractTransport::NoTransport,
        ),
        OperationContract::adopted(
            "cli.graph-neighborhood.output",
            "kanban graph neighborhood --json stdout",
            ContractSurface::Cli,
            "graph neighborhood",
            ContractDirection::Serialize,
            ContractStrictness::DenyUnknownFields,
            "urn:kanban-tool:schema:cli:graph-neighborhood-output:v1",
            "schemas/fixtures/cli/graph-neighborhood-output.v1.valid.json",
            cli_test("cli_knowledge_adoption", "knowledge_commands_use_real_canonical_host_and_preserve_degraded_providers"),
            cli_test("cli_knowledge_adoption", "knowledge_commands_use_real_canonical_host_and_preserve_degraded_providers"),
            ContractTransport::NoTransport,
        ),
        OperationContract::adopted(
            "cli.graph-map.output",
            "kanban graph map --json stdout",
            ContractSurface::Cli,
            "graph map",
            ContractDirection::Serialize,
            ContractStrictness::DenyUnknownFields,
            "urn:kanban-tool:schema:cli:graph-map-output:v1",
            "schemas/fixtures/cli/graph-map-output.v1.valid.json",
            cli_test("cli_knowledge_adoption", "knowledge_commands_use_real_canonical_host_and_preserve_degraded_providers"),
            cli_test("cli_knowledge_adoption", "knowledge_commands_use_real_canonical_host_and_preserve_degraded_providers"),
            ContractTransport::NoTransport,
        ),
        OperationContract::adopted(
            "cli.graph-query.output",
            "kanban graph query --json stdout",
            ContractSurface::Cli,
            "graph query",
            ContractDirection::Serialize,
            ContractStrictness::DenyUnknownFields,
            "urn:kanban-tool:schema:cli:graph-query-output:v1",
            "schemas/fixtures/cli/graph-query-output.v1.valid.json",
            cli_test("cli_helper_contract_adoption", "producer_graph_query_matches_exact_fixture"),
            cli_test("cli_helper_contract_adoption", "graph_query_output_fixture_is_consumed_by_public_contract"),
            ContractTransport::NoTransport,
        ),
    ]
}

/// Historical inventory rows 40 to 79.
fn legacy_rows_1_vec() -> (r: Vec<OperationContract>)
    ensures
        r@ == legacy_rows_1(),
{
    reveal(legacy_rows_1);
    let r = vec![
        OperationContract::adopted(
            "cli.task-done.output",
            "kanban task done --json stdout",
            ContractSurface::Cli,
            "task done",
            ContractDirection::Serialize,
            ContractStrictness::DenyUnknownFields,
            "urn:kanban-tool:schema:cli:task-done-output:v1",
            "schemas/fixtures/cli/task-done-output.v1.valid.json",
            cli_test("cli_task_contract_adoption", "task_done_output_contract"),
            cli_test("cli_task_contract_adoption", "task_done_output_contract"),
            ContractTransport::NoTransport,
        ),
        OperationContract::adopted(
            "cli.task-review.output",
            "kanban task review --json stdout",
            ContractSurface::Cli,
            "task review",
            ContractDirection::Serialize,
            ContractStrictness::DenyUnknownFields,
            "urn:kanban-tool:schema:cli:task-review-output:v1",
            "schemas/fixtures/cli/task-review-output.v1.valid.json",
            cli_test("cli_task_lifecycle_contract_adoption", "task_review_output_fixture_is_produced_by_real_cli"),
            cli_test("cli_task_lifecycle_contract_adoption", "task_review_output_fixture_is_consumed_by_contract_root"),
            ContractTransport::NoTransport,
        ),
        OperationContract::adopted(
            "cli.task-block.output",
            "kanban task block --json stdout",
            ContractSurface::Cli,
            "task block",
            ContractDirection::Serialize,
            ContractStrictness::DenyUnknownFields,
            "urn:kanban-tool:schema:cli:task-block-output:v1",
            "schemas/fixtures/cli/task-block-output.v1.valid.json",
            cli_test("cli_task_contract_adoption", "task_block_output_contract"),
            cli_test("cli_task_contract_adoption", "task_block_output_contract"),
            ContractTransport::NoTransport,
        ),
        OperationContract::adopted(
            "cli.task-unblock.output",
            "kanban task unblock --json stdout",
            ContractSurface::Cli,
            "task unblock",
            ContractDirection::Serialize,
            ContractStrictness::DenyUnknownFields,
            "urn:kanban-tool:schema:cli:task-unblock-output:v1",
            "schemas/fixtures/cli/task-unblock-output.v1.valid.json",
            cli_test("cli_task_lifecycle_contract_adoption", "task_unblock_output_fixture_is_produced_by_real_cli"),
            cli_test("cli_task_lifecycle_contract_adoption", "task_unblock_output_fixture_is_consumed_by_contract_root"),
            ContractTransport::NoTransport,
        ),
        OperationContract::adopted(
            "cli.task-archive.output",
            "kanban task archive --json stdout",
            ContractSurface::Cli,
            "task archive",
            ContractDirection::Serialize,
            ContractStrictness::DenyUnknownFields,
            "urn:kanban-tool:schema:cli:task-archive-output:v1",
            "schemas/fixtures/cli/task-archive-output.v1.valid.json",
            cli_test("cli_task_lifecycle_contract_adoption", "task_archive_output_fixture_is_produced_by_real_cli"),
            cli_test("cli_task_lifecycle_contract_adoption", "task_archive_output_fixture_is_consumed_by_contract_root"),
            ContractTransport::NoTransport,
        ),
        OperationContract::adopted(
            "cli.label-add.output",
            "kanban label add --json stdout",
            ContractSurface::Cli,
            "label add",
            ContractDirection::Serialize,
            ContractStrictness::DenyUnknownFields,
            "urn:kanban-tool:schema:cli:label-add-output:v1",
            "schemas/fixtures/cli/label-add-output.v1.valid.json",
            cli_test("cli_label_contract_adoption", "producer_label_add_matches_exact_fixture"),
            cli_test("cli_label_contract_adoption", "label_add_output_fixture_is_consumed_by_public_contract"),
            ContractTransport::NoTransport,
        ),
        OperationContract::adopted(
            "cli.label-atom-index-query.output",
            "kanban label atom-index query --json stdout",
            ContractSurface::Cli,
            "label atom-index query",
            ContractDirection::Serialize,
            ContractStrictness::DenyUnknownFields,
            "urn:kanban-tool:schema:cli:label-atom-index-query-output:v1",
            "schemas/fixtures/cli/label-atom-index-query-output.v1.valid.json",
            cli_test("cli_label_contract_adoption", "producer_label_atom_index_query_matches_exact_fixture"),
            cli_test("cli_label_contract_adoption", "label_atom_index_query_output_fixture_is_consumed_by_public_contract"),
            ContractTransport::NoTransport,
        ),
        OperationContract::adopted(
            "cli.label-atom-index-rebuild.output",
            "kanban label atom-index rebuild --json stdout",
            ContractSurface::Cli,
            "label atom-index rebuild",
            ContractDirection::Serialize,
            ContractStrictness::DenyUnknownFields,
            "urn:kanban-tool:schema:cli:label-atom-index-rebuild-output:v1",
            "schemas/fixtures/cli/label-atom-index-rebuild-output.v1.valid.json",
            cli_test("cli_label_contract_adoption", "producer_label_atom_index_rebuild_matches_exact_fixture"),
            cli_test("cli_label_contract_adoption", "label_atom_index_rebuild_output_fixture_is_consumed_by_public_contract"),
            ContractTransport::NoTransport,
        ),
        OperationContract::adopted(
            "cli.label-atom-index-status.output",
            "kanban label atom-index status --json stdout",
            ContractSurface::Cli,
            "label atom-index status",
            ContractDirection::Serialize,
            ContractStrictness::DenyUnknownFields,
            "urn:kanban-tool:schema:cli:label-atom-index-status-output:v1",
            "schemas/fixtures/cli/label-atom-index-status-output.v1.valid.json",
            cli_test("cli_label_contract_adoption", "producer_label_atom_index_status_matches_exact_fixture"),
            cli_test("cli_label_contract_adoption", "label_atom_index_status_output_fixture_is_consumed_by_public_contract"),
            ContractTransport::NoTransport,
        ),
        OperationContract::adopted(
            "cli.label-atoms-explain.output",
            "kanban label atoms explain --json stdout",
            ContractSurface::Cli,
            "label atoms explain",
            ContractDirection::Serialize,
            ContractStrictness::DenyUnknownFields,
            "urn:kanban-tool:schema:cli:label-atoms-explain-output:v1",
            "schemas/fixtures/cli/label-atoms-explain-output.v1.valid.json",
            cli_test("cli_label_contract_adoption", "producer_label_atoms_explain_matches_exact_fixture"),
            cli_test("cli_label_contract_adoption", "label_atoms_explain_output_fixture_is_consumed_by_public_contract"),
            ContractTransport::NoTransport,
        ),
        OperationContract::adopted(
            "cli.label-atoms-list.output",
            "kanban label atoms list --json stdout",
            ContractSurface::Cli,
            "label atoms list",
            ContractDirection::Serialize,
            ContractStrictness::DenyUnknownFields,
            "urn:kanban-tool:schema:cli:label-atoms-list-output:v1",
            "schemas/fixtures/cli/label-atoms-list-output.v1.valid.json",
            cli_test("cli_label_contract_adoption", "producer_label_atoms_list_matches_exact_fixture"),
            cli_test("cli_label_contract_adoption", "label_atoms_list_output_fixture_is_consumed_by_public_contract"),
            ContractTransport::NoTransport,
        ),
        OperationContract::adopted(
            "cli.label-create.output",
            "kanban label create --json stdout",
            ContractSurface::Cli,
            "label create",
            ContractDirection::Serialize,
            ContractStrictness::DenyUnknownFields,
            "urn:kanban-tool:schema:cli:label-create-output:v1",
            "schemas/fixtures/cli/label-create-output.v1.valid.json",
            cli_test("cli_label_contract_adoption", "producer_label_create_matches_exact_fixture"),
            cli_test("cli_label_contract_adoption", "label_create_output_fixture_is_consumed_by_public_contract"),
            ContractTransport::NoTransport,
        ),
        OperationContract::adopted(
            "cli.label-list.output",
            "kanban label list --json stdout",
            ContractSurface::Cli,
            "label list",
            ContractDirection::Serialize,
            ContractStrictness::DenyUnknownFields,
            "urn:kanban-tool:schema:cli:label-list-output:v1",
            "schemas/fixtures/cli/label-list-output.v1.valid.json",
            cli_test("cli_label_contract_adoption", "producer_label_list_matches_exact_fixture"),
            cli_test("cli_label_contract_adoption", "label_list_output_fixture_is_consumed_by_public_contract"),
            ContractTransport::NoTransport,
        ),
        OperationContract::adopted(
            "cli.label-ontology-apply-atom.output",
            "kanban label ontology apply atom --json stdout",
            ContractSurface::Cli,
            "label ontology apply atom",
            ContractDirection::Serialize,
            ContractStrictness::DenyUnknownFields,
            "urn:kanban-tool:schema:cli:label-ontology-apply-atom-output:v1",
            "schemas/fixtures/cli/label-ontology-apply-atom-output.v1.valid.json",
            cli_test("cli_label_contract_adoption", "producer_label_ontology_apply_atom_matches_exact_fixture"),
            cli_test("cli_label_contract_adoption", "label_ontology_apply_atom_output_fixture_is_consumed_by_public_contract"),
            ContractTransport::NoTransport,
        ),
        OperationContract::adopted(
            "cli.label-ontology-confirm.output",
            "kanban label ontology confirm --json stdout",
            ContractSurface::Cli,
            "label ontology confirm",
            ContractDirection::Serialize,
            ContractStrictness::DenyUnknownFields,
            "urn:kanban-tool:schema:cli:label-ontology-confirm-output:v1",
            "schemas/fixtures/cli/label-ontology-confirm-output.v1.valid.json",
            cli_test("cli_label_contract_adoption", "producer_label_ontology_confirm_matches_exact_fixture"),
            cli_test("cli_label_contract_adoption", "label_ontology_confirm_output_fixture_is_consumed_by_public_contract"),
            ContractTransport::NoTransport,
        ),
        OperationContract::adopted(
            "cli.label-ontology-list.output",
            "kanban label ontology list --json stdout",
            ContractSurface::Cli,
            "label ontology list",
            ContractDirection::Serialize,
            ContractStrictness::DenyUnknownFields,
            "urn:kanban-tool:schema:cli:label-ontology-list-output:v1",
            "schemas/fixtures/cli/label-ontology-list-output.v1.valid.json",
            cli_test("cli_label_contract_adoption", "producer_label_ontology_list_matches_exact_fixture"),
            cli_test("cli_label_contract_adoption", "label_ontology_list_output_fixture_is_consumed_by_public_contract"),
            ContractTransport::NoTransport,
        ),
        OperationContract::adopted(
            "cli.label-ontology-quality.output",
            "kanban label ontology quality --json stdout",
            ContractSurface::Cli,
            "label ontology quality",
            ContractDirection::Serialize,
            ContractStrictness::DenyUnknownFields,
            "urn:kanban-tool:schema:cli:label-ontology-quality-output:v1",
            "schemas/fixtures/cli/label-ontology-quality-output.v1.valid.json",
            cli_test("cli_label_contract_adoption", "producer_label_ontology_quality_matches_exact_fixture"),
            cli_test("cli_label_contract_adoption", "label_ontology_quality_output_fixture_is_consumed_by_public_contract"),
            ContractTransport::NoTransport,
        ),
        OperationContract::adopted(
            "cli.label-ontology-record.output",
            "kanban label ontology record --json stdout",
            ContractSurface::Cli,
            "label ontology record",
            ContractDirection::Serialize,
            ContractStrictness::DenyUnknownFields,
            "urn:kanban-tool:schema:cli:label-ontology-record-output:v1",
            "schemas/fixtures/cli/label-ontology-record-output.v1.valid.json",
            cli_test("cli_label_contract_adoption", "producer_label_ontology_record_matches_exact_fixture"),
            cli_test("cli_label_contract_adoption", "label_ontology_record_output_fixture_is_consumed_by_public_contract"),
            ContractTransport::NoTransport,
        ),
        OperationContract::adopted(
            "cli.label-ontology-reject.output",
            "kanban label ontology reject --json stdout",
            ContractSurface::Cli,
            "label ontology reject",
            ContractDirection::Serialize,
            ContractStrictness::DenyUnknownFields,
            "urn:kanban-tool:schema:cli:label-ontology-reject-output:v1",
            "schemas/fixtures/cli/label-ontology-reject-output.v1.valid.json",
            cli_test("cli_label_contract_adoption", "producer_label_ontology_reject_matches_exact_fixture"),
            cli_test("cli_label_contract_adoption", "label_ontology_reject_output_fixture_is_consumed_by_public_contract"),
            ContractTransport::NoTransport,
        ),
        OperationContract::adopted(
            "cli.label-ontology-resolve.output",
            "kanban label ontology resolve --json stdout",
            ContractSurface::Cli,
            "label ontology resolve",
            ContractDirection::Serialize,
            ContractStrictness::DenyUnknownFields,
            "urn:kanban-tool:schema:cli:label-ontology-resolve-output:v1",
            "schemas/fixtures/cli/label-ontology-resolve-output.v1.valid.json",
            cli_test("cli_label_contract_adoption", "producer_label_ontology_resolve_matches_exact_fixture"),
            cli_test("cli_label_contract_adoption", "label_ontology_resolve_output_fixture_is_consumed_by_public_contract"),
            ContractTransport::NoTransport,
        ),
        OperationContract::adopted(
            "cli.label-ontology-revert.output",
            "kanban label ontology revert --json stdout",
            ContractSurface::Cli,
            "label ontology revert",
            ContractDirection::Serialize,
            ContractStrictness::DenyUnknownFields,
            "urn:kanban-tool:schema:cli:label-ontology-revert-output:v1",
            "schemas/fixtures/cli/label-ontology-revert-output.v1.valid.json",
            cli_test("cli_label_contract_adoption", "producer_label_ontology_revert_matches_exact_fixture"),
            cli_test("cli_label_contract_adoption", "label_ontology_revert_output_fixture_is_consumed_by_public_contract"),
            ContractTransport::NoTransport,
        ),
        OperationContract::adopted(
            "cli.label-ontology-review.output",
            "kanban label ontology review --json stdout",
            ContractSurface::Cli,
            "label ontology review",
            ContractDirection::Serialize,
            ContractStrictness::DenyUnknownFields,
            "urn:kanban-tool:schema:cli:label-ontology-review-output:v1",
            "schemas/fixtures/cli/label-ontology-review-output.v1.valid.json",
            cli_test("cli_label_contract_adoption", "producer_label_ontology_review_matches_exact_fixture"),
            cli_test("cli_label_contract_adoption", "label_ontology_review_output_fixture_is_consumed_by_public_contract"),
            ContractTransport::NoTransport,
        ),
        OperationContract::adopted(
            "cli.label-ontology-show.output",
            "kanban label ontology show --json stdout",
            ContractSurface::Cli,
            "label ontology show",
            ContractDirection::Serialize,
            ContractStrictness::DenyUnknownFields,
            "urn:kanban-tool:schema:cli:label-ontology-show-output:v1",
            "schemas/fixtures/cli/label-ontology-show-output.v1.valid.json",
            cli_test("cli_label_contract_adoption", "producer_label_ontology_show_matches_exact_fixture"),
            cli_test("cli_label_contract_adoption", "label_ontology_show_output_fixture_is_consumed_by_public_contract"),
            ContractTransport::NoTransport,
        ),
        OperationContract::adopted(
            "cli.label-ontology-supersede.output",
            "kanban label ontology supersede --json stdout",
            ContractSurface::Cli,
            "label ontology supersede",
            ContractDirection::Serialize,
            ContractStrictness::DenyUnknownFields,
            "urn:kanban-tool:schema:cli:label-ontology-supersede-output:v1",
            "schemas/fixtures/cli/label-ontology-supersede-output.v1.valid.json",
            cli_test("cli_label_contract_adoption", "producer_label_ontology_supersede_matches_exact_fixture"),
            cli_test("cli_label_contract_adoption", "label_ontology_supersede_output_fixture_is_consumed_by_public_contract"),
            ContractTransport::NoTransport,
        ),
        OperationContract::adopted(
            "cli.label-ontology-validate.output",
            "kanban label ontology validate --json stdout",
            ContractSurface::Cli,
            "label ontology validate",
            ContractDirection::Serialize,
            ContractStrictness::DenyUnknownFields,
            "urn:kanban-tool:schema:cli:label-ontology-validate-output:v1",
            "schemas/fixtures/cli/label-ontology-validate-output.v1.valid.json",
            cli_test("cli_label_contract_adoption", "producer_label_ontology_validate_matches_exact_fixture"),
            cli_test("cli_label_contract_adoption", "label_ontology_validate_output_fixture_is_consumed_by_public_contract"),
            ContractTransport::NoTransport,
        ),
        OperationContract::adopted(
            "cli.label-proposals-accept.output",
            "kanban label proposals accept --json stdout",
            ContractSurface::Cli,
            "label proposals accept",
            ContractDirection::Serialize,
            ContractStrictness::DenyUnknownFields,
            "urn:kanban-tool:schema:cli:label-proposals-accept-output:v1",
            "schemas/fixtures/cli/label-proposals-accept-output.v1.valid.json",
            cli_test("cli_label_contract_adoption", "producer_label_proposals_accept_matches_exact_fixture"),
            cli_test("cli_label_contract_adoption", "label_proposals_accept_output_fixture_is_consumed_by_public_contract"),
            ContractTransport::NoTransport,
        ),
        OperationContract::adopted(
            "cli.label-proposals-list.output",
            "kanban label proposals list --json stdout",
            ContractSurface::Cli,
            "label proposals list",
            ContractDirection::Serialize,
            ContractStrictness::DenyUnknownFields,
            "urn:kanban-tool:schema:cli:label-proposals-list-output:v1",
            "schemas/fixtures/cli/label-proposals-list-output.v1.valid.json",
            cli_test("cli_label_contract_adoption", "producer_label_proposals_list_matches_exact_fixture"),
            cli_test("cli_label_contract_adoption", "label_proposals_list_output_fixture_is_consumed_by_public_contract"),
            ContractTransport::NoTransport,
        ),
        OperationContract::adopted(
            "cli.label-proposals-reject.output",
            "kanban label proposals reject --json stdout",
            ContractSurface::Cli,
            "label proposals reject",
            ContractDirection::Serialize,
            ContractStrictness::DenyUnknownFields,
            "urn:kanban-tool:schema:cli:label-proposals-reject-output:v1",
            "schemas/fixtures/cli/label-proposals-reject-output.v1.valid.json",
            cli_test("cli_label_contract_adoption", "producer_label_proposals_reject_matches_exact_fixture"),
            cli_test("cli_label_contract_adoption", "label_proposals_reject_output_fixture_is_consumed_by_public_contract"),
            ContractTransport::NoTransport,
        ),
        OperationContract::adopted(
            "cli.label-proposals-show.output",
            "kanban label proposals show --json stdout",
            ContractSurface::Cli,
            "label proposals show",
            ContractDirection::Serialize,
            ContractStrictness::DenyUnknownFields,
            "urn:kanban-tool:schema:cli:label-proposals-show-output:v1",
            "schemas/fixtures/cli/label-proposals-show-output.v1.valid.json",
            cli_test("cli_label_contract_adoption", "producer_label_proposals_show_matches_exact_fixture"),
            cli_test("cli_label_contract_adoption", "label_proposals_show_output_fixture_is_consumed_by_public_contract"),
            ContractTransport::NoTransport,
        ),
        OperationContract::adopted(
            "cli.label-propose.output",
            "kanban label propose --json stdout",
            ContractSurface::Cli,
            "label propose",
            ContractDirection::Serialize,
            ContractStrictness::DenyUnknownFields,
            "urn:kanban-tool:schema:cli:label-propose-output:v1",
            "schemas/fixtures/cli/label-propose-output.v1.valid.json",
            cli_test("cli_label_contract_adoption", "producer_label_propose_matches_exact_fixture"),
            cli_test("cli_label_contract_adoption", "label_propose_output_fixture_is_consumed_by_public_contract"),
            ContractTransport::NoTransport,
        ),
        OperationContract::adopted(
            "cli.label-remove.output",
            "kanban label remove --json stdout",
            ContractSurface::Cli,
            "label remove",
            ContractDirection::Serialize,
            ContractStrictness::DenyUnknownFields,
            "urn:kanban-tool:schema:cli:label-remove-output:v1",
            "schemas/fixtures/cli/label-remove-output.v1.valid.json",
            cli_test("cli_label_contract_adoption", "producer_label_remove_matches_exact_fixture"),
            cli_test("cli_label_contract_adoption", "label_remove_output_fixture_is_consumed_by_public_contract"),
            ContractTransport::NoTransport,
        ),
        OperationContract::adopted(
            "cli.label-semantics-delete.output",
            "kanban label semantics delete --json stdout",
            ContractSurface::Cli,
            "label semantics delete",
            ContractDirection::Serialize,
            ContractStrictness::DenyUnknownFields,
            "urn:kanban-tool:schema:cli:label-semantics-delete-output:v1",
            "schemas/fixtures/cli/label-semantics-delete-output.v1.valid.json",
            cli_test("cli_label_contract_adoption", "producer_label_semantics_delete_matches_exact_fixture"),
            cli_test("cli_label_contract_adoption", "label_semantics_delete_output_fixture_is_consumed_by_public_contract"),
            ContractTransport::NoTransport,
        ),
        OperationContract::adopted(
            "cli.label-semantics-list.output",
            "kanban label semantics list --json stdout",
            ContractSurface::Cli,
            "label semantics list",
            ContractDirection::Serialize,
            ContractStrictness::DenyUnknownFields,
            "urn:kanban-tool:schema:cli:label-semantics-list-output:v1",
            "schemas/fixtures/cli/label-semantics-list-output.v1.valid.json",
            cli_test("cli_label_contract_adoption", "producer_label_semantics_list_matches_exact_fixture"),
            cli_test("cli_label_contract_adoption", "label_semantics_list_output_fixture_is_consumed_by_public_contract"),
            ContractTransport::NoTransport,
        ),
        OperationContract::adopted(
            "cli.label-semantics-show.output",
            "kanban label semantics show --json stdout",
            ContractSurface::Cli,
            "label semantics show",
            ContractDirection::Serialize,
            ContractStrictness::DenyUnknownFields,
            "urn:kanban-tool:schema:cli:label-semantics-show-output:v1",
            "schemas/fixtures/cli/label-semantics-show-output.v1.valid.json",
            cli_test("cli_label_contract_adoption", "producer_label_semantics_show_matches_exact_fixture"),
            cli_test("cli_label_contract_adoption", "label_semantics_show_output_fixture_is_consumed_by_public_contract"),
            ContractTransport::NoTransport,
        ),
        OperationContract::adopted(
            "cli.label-semantics-upsert.output",
            "kanban label semantics upsert --json stdout",
            ContractSurface::Cli,
            "label semantics upsert",
            ContractDirection::Serialize,
            ContractStrictness::DenyUnknownFields,
            "urn:kanban-tool:schema:cli:label-semantics-upsert-output:v1",
            "schemas/fixtures/cli/label-semantics-upsert-output.v1.valid.json",
            cli_test("cli_label_contract_adoption", "producer_label_semantics_upsert_matches_exact_fixture"),
            cli_test("cli_label_contract_adoption", "label_semantics_upsert_output_fixture_is_consumed_by_public_contract"),
            ContractTransport::NoTransport,
        ),
        OperationContract::adopted(
            "cli.label-suggest.output",
            "kanban label suggest --json stdout",
            ContractSurface::Cli,
            "label suggest",
            ContractDirection::Serialize,
            ContractStrictness::DenyUnknownFields,
            "urn:kanban-tool:schema:cli:label-suggest-output:v1",
            "schemas/fixtures/cli/label-suggest-output.v1.valid.json",
            cli_test("cli_label_contract_adoption", "producer_label_suggest_matches_exact_fixture"),
            cli_test("cli_label_contract_adoption", "label_suggest_output_fixture_is_consumed_by_public_contract"),
            ContractTransport::NoTransport,
        ),
        OperationContract::adopted(
            "cli.graph-neighbors.output",
            "kanban graph neighbors --json stdout",
            ContractSurface::Cli,
            "graph neighbors",
            ContractDirection::Serialize,
            ContractStrictness::DenyUnknownFields,
            "urn:kanban-tool:schema:cli:graph-neighbors-output:v1",
            "schemas/fixtures/cli/graph-neighbors-output.v1.valid.json",
            cli_test("cli_helper_contract_adoption", "producer_graph_neighbors_matches_exact_fixture"),
            cli_test("cli_helper_contract_adoption", "graph_neighbors_output_fixture_is_consumed_by_public_contract"),
            ContractTransport::NoTransport,
        ),
        OperationContract::adopted(
            "cli.graph-neighborhood.output",
            "kanban graph neighborhood --json stdout",
            ContractSurface::Cli,
            "graph neighborhood",
            ContractDirection::Serialize,
            ContractStrictness::DenyUnknownFields,
            "urn:kanban-tool:schema:cli:graph-neighborhood-output:v1",
            "schemas/fixtures/cli/graph-neighborhood-output.v1.valid.json",
            cli_test("cli_knowledge_adoption", "knowledge_commands_use_real_canonical_host_and_preserve_degraded_providers"),
            cli_test("cli_knowledge_adoption", "knowledge_commands_use_real_canonical_host_and_preserve_degraded_providers"),
            ContractTransport::NoTransport,
        ),
        OperationContract::adopted(
            "cli.graph-map.output",
            "kanban graph map --json stdout",
            ContractSurface::Cli,
            "graph map",
            ContractDirection::Serialize,
            ContractStrictness::DenyUnknownFields,
            "urn:kanban-tool:schema:cli:graph-map-output:v1",
            "schemas/fixtures/cli/graph-map-output.v1.valid.json",
            cli_test("cli_knowledge_adoption", "knowledge_commands_use_real_canonical_host_and_preserve_degraded_providers"),
            cli_test("cli_knowledge_adoption", "knowledge_commands_use_real_canonical_host_and_preserve_degraded_providers"),
            ContractTransport::NoTransport,
        ),
        OperationContract::adopted(
            "cli.graph-query.output",
            "kanban graph query --json stdout",
            ContractSurface::Cli,
            "graph query",
            ContractDirection::Serialize,
            ContractStrictness::DenyUnknownFields,
            "urn:kanban-tool:schema:cli:graph-query-output:v1",
            "schemas/fixtures/cli/graph-query-output.v1.valid.json",
            cli_test("cli_helper_contract_adoption", "producer_graph_query_matches_exact_fixture"),
            cli_test("cli_helper_contract_adoption", "graph_query_output_fixture_is_consumed_by_public_contract"),
            ContractTransport::NoTransport,
        ),
    ];
    assert(r@ =~= legacy_rows_1());
    r
}

/// Historical inventory rows 80 to 119.
#[verifier::opaque]
pub open spec fn legacy_rows_2() -> Seq<OperationContract> {
    seq![
        OperationContract::adopted(
            "cli.graph-rebuild.output",
            "kanban graph rebuild --json stdout",
            ContractSurface::Cli,
            "graph rebuild",
            ContractDirection::Serialize,
            ContractStrictness::DenyUnknownFields,
            "urn:kanban-tool:schema:cli:graph-rebuild-output:v1",
            "schemas/fixtures/cli/graph-rebuild-output.v1.valid.json",
            cli_test("cli_helper_contract_adoption", "producer_graph_rebuild_matches_exact_fixture"),
            cli_test("cli_helper_contract_adoption", "graph_rebuild_output_fixture_is_consumed_by_public_contract"),
            ContractTransport::NoTransport,
        ),
        OperationContract::adopted(
            "cli.graph-status.output",
            "kanban graph status --json stdout",
            ContractSurface::Cli,
            "graph status",
            ContractDirection::Serialize,
            ContractStrictness::DenyUnknownFields,
            "urn:kanban-tool:schema:cli:graph-status-output:v1",
            "schemas/fixtures/cli/graph-status-output.v1.valid.json",
            cli_test("cli_helper_contract_adoption", "producer_graph_status_matches_exact_fixture"),
            cli_test("cli_helper_contract_adoption", "graph_status_output_fixture_is_consumed_by_public_contract"),
            ContractTransport::NoTransport,
        ),
        OperationContract::adopted(
            "cli.graph-sync.output",
            "kanban graph sync --json stdout",
            ContractSurface::Cli,
            "graph sync",
            ContractDirection::Serialize,
            ContractStrictness::DenyUnknownFields,
            "urn:kanban-tool:schema:cli:graph-sync-output:v1",
            "schemas/fixtures/cli/graph-sync-output.v1.valid.json",
            cli_test("cli_helper_contract_adoption", "producer_graph_sync_matches_exact_fixture"),
            cli_test("cli_helper_contract_adoption", "graph_sync_output_fixture_is_consumed_by_public_contract"),
            ContractTransport::NoTransport,
        ),
        OperationContract::adopted(
            "cli.vector-configure.output",
            "kanban vector configure --json stdout",
            ContractSurface::Cli,
            "vector configure",
            ContractDirection::Serialize,
            ContractStrictness::DenyUnknownFields,
            "urn:kanban-tool:schema:cli:vector-configure-output:v1",
            "schemas/fixtures/cli/vector-configure-output.v1.valid.json",
            cli_test("cli_helper_contract_adoption", "producer_vector_configure_matches_exact_fixture"),
            cli_test("cli_helper_contract_adoption", "vector_configure_output_fixture_is_consumed_by_public_contract"),
            ContractTransport::NoTransport,
        ),
        OperationContract::adopted(
            "cli.vector-query-chunks.output",
            "kanban vector query-chunks --json stdout",
            ContractSurface::Cli,
            "vector query-chunks",
            ContractDirection::Serialize,
            ContractStrictness::DenyUnknownFields,
            "urn:kanban-tool:schema:cli:vector-query-chunks-output:v1",
            "schemas/fixtures/cli/vector-query-chunks-output.v1.valid.json",
            cli_test("cli_helper_contract_adoption", "producer_vector_query_chunks_matches_exact_fixture"),
            cli_test("cli_helper_contract_adoption", "vector_query_chunks_output_fixture_is_consumed_by_public_contract"),
            ContractTransport::NoTransport,
        ),
        OperationContract::adopted(
            "cli.vector-query-label-atoms.output",
            "kanban vector query-label-atoms --json stdout",
            ContractSurface::Cli,
            "vector query-label-atoms",
            ContractDirection::Serialize,
            ContractStrictness::DenyUnknownFields,
            "urn:kanban-tool:schema:cli:vector-query-label-atoms-output:v1",
            "schemas/fixtures/cli/vector-query-label-atoms-output.v1.valid.json",
            cli_test("cli_helper_contract_adoption", "producer_vector_query_label_atoms_matches_exact_fixture"),
            cli_test("cli_helper_contract_adoption", "vector_query_label_atoms_output_fixture_is_consumed_by_public_contract"),
            ContractTransport::NoTransport,
        ),
        OperationContract::adopted(
            "cli.vector-rebuild.output",
            "kanban vector rebuild --json stdout",
            ContractSurface::Cli,
            "vector rebuild",
            ContractDirection::Serialize,
            ContractStrictness::DenyUnknownFields,
            "urn:kanban-tool:schema:cli:vector-rebuild-output:v1",
            "schemas/fixtures/cli/vector-rebuild-output.v1.valid.json",
            cli_test("cli_helper_contract_adoption", "producer_vector_rebuild_matches_exact_fixture"),
            cli_test("cli_helper_contract_adoption", "vector_rebuild_output_fixture_is_consumed_by_public_contract"),
            ContractTransport::NoTransport,
        ),
        OperationContract::adopted(
            "cli.vector-status.output",
            "kanban vector status --json stdout",
            ContractSurface::Cli,
            "vector status",
            ContractDirection::Serialize,
            ContractStrictness::DenyUnknownFields,
            "urn:kanban-tool:schema:cli:vector-status-output:v1",
            "schemas/fixtures/cli/vector-status-output.v1.valid.json",
            cli_test("cli_helper_contract_adoption", "producer_vector_status_matches_exact_fixture"),
            cli_test("cli_helper_contract_adoption", "vector_status_output_fixture_is_consumed_by_public_contract"),
            ContractTransport::NoTransport,
        ),
        OperationContract::adopted(
            "cli.vector-sync.output",
            "kanban vector sync --json stdout",
            ContractSurface::Cli,
            "vector sync",
            ContractDirection::Serialize,
            ContractStrictness::DenyUnknownFields,
            "urn:kanban-tool:schema:cli:vector-sync-output:v1",
            "schemas/fixtures/cli/vector-sync-output.v1.valid.json",
            cli_test("cli_helper_contract_adoption", "producer_vector_sync_matches_exact_fixture"),
            cli_test("cli_helper_contract_adoption", "vector_sync_output_fixture_is_consumed_by_public_contract"),
            ContractTransport::NoTransport,
        ),
        OperationContract::adopted(
            "cli.context-build.output",
            "kanban context build --json stdout",
            ContractSurface::Cli,
            "context build",
            ContractDirection::Serialize,
            ContractStrictness::DenyUnknownFields,
            "urn:kanban-tool:schema:cli:context-build-output:v1",
            "schemas/fixtures/cli/context-build-output.v1.valid.json",
            cli_test("cli_helper_contract_adoption", "producer_context_build_matches_exact_fixture"),
            cli_test("cli_helper_contract_adoption", "context_build_output_fixture_is_consumed_by_public_contract"),
            ContractTransport::NoTransport,
        ),
        OperationContract::adopted(
            "cli.search.output",
            "kanban search --json stdout",
            ContractSurface::Cli,
            "search",
            ContractDirection::Serialize,
            ContractStrictness::DenyUnknownFields,
            "urn:kanban-tool:schema:cli:search-output:v1",
            "schemas/fixtures/cli/search-output.v1.valid.json",
            cli_test("cli_helper_contract_adoption", "producer_search_matches_exact_fixture"),
            cli_test("cli_helper_contract_adoption", "search_output_fixture_is_consumed_by_public_contract"),
            ContractTransport::NoTransport,
        ),
        OperationContract::adopted(
            "cli.index-rebuild.output",
            "kanban index rebuild --json stdout",
            ContractSurface::Cli,
            "index rebuild",
            ContractDirection::Serialize,
            ContractStrictness::DenyUnknownFields,
            "urn:kanban-tool:schema:cli:index-rebuild-output:v1",
            "schemas/fixtures/cli/index-rebuild-output.v1.valid.json",
            cli_test("cli_helper_contract_adoption", "producer_index_rebuild_matches_exact_fixture"),
            cli_test("cli_helper_contract_adoption", "index_rebuild_output_fixture_is_consumed_by_public_contract"),
            ContractTransport::NoTransport,
        ),
        OperationContract::adopted(
            "cli.index-sync.output",
            "kanban index sync --json stdout",
            ContractSurface::Cli,
            "index sync",
            ContractDirection::Serialize,
            ContractStrictness::DenyUnknownFields,
            "urn:kanban-tool:schema:cli:index-sync-output:v1",
            "schemas/fixtures/cli/index-sync-output.v1.valid.json",
            cli_test("cli_helper_contract_adoption", "producer_index_sync_matches_exact_fixture"),
            cli_test("cli_helper_contract_adoption", "index_sync_output_fixture_is_consumed_by_public_contract"),
            ContractTransport::NoTransport,
        ),
        OperationContract::adopted(
            "cli.signal-confirm.output",
            "kanban signal confirm --json stdout",
            ContractSurface::Cli,
            "signal confirm",
            ContractDirection::Serialize,
            ContractStrictness::DenyUnknownFields,
            "urn:kanban-tool:schema:cli:signal-confirm-output:v1",
            "schemas/fixtures/cli/signal-confirm-output.v1.valid.json",
            cli_test("cli_operator_contract_adoption", "producer_signal_confirm_matches_exact_fixture"),
            cli_test("cli_operator_contract_adoption", "signal_confirm_output_fixture_is_consumed_by_public_contract"),
            ContractTransport::NoTransport,
        ),
        OperationContract::adopted(
            "cli.signal-list.output",
            "kanban signal list --json stdout",
            ContractSurface::Cli,
            "signal list",
            ContractDirection::Serialize,
            ContractStrictness::DenyUnknownFields,
            "urn:kanban-tool:schema:cli:signal-list-output:v1",
            "schemas/fixtures/cli/signal-list-output.v1.valid.json",
            cli_test("cli_operator_contract_adoption", "producer_signal_list_matches_exact_fixture"),
            cli_test("cli_operator_contract_adoption", "signal_list_output_fixture_is_consumed_by_public_contract"),
            ContractTransport::NoTransport,
        ),
        OperationContract::adopted(
            "cli.signal-record.output",
            "kanban signal record --json stdout",
            ContractSurface::Cli,
            "signal record",
            ContractDirection::Serialize,
            ContractStrictness::DenyUnknownFields,
            "urn:kanban-tool:schema:cli:signal-record-output:v1",
            "schemas/fixtures/cli/signal-record-output.v1.valid.json",
            cli_test("cli_operator_contract_adoption", "producer_signal_record_matches_exact_fixture"),
            cli_test("cli_operator_contract_adoption", "signal_record_output_fixture_is_consumed_by_public_contract"),
            ContractTransport::NoTransport,
        ),
        OperationContract::adopted(
            "cli.signal-reject.output",
            "kanban signal reject --json stdout",
            ContractSurface::Cli,
            "signal reject",
            ContractDirection::Serialize,
            ContractStrictness::DenyUnknownFields,
            "urn:kanban-tool:schema:cli:signal-reject-output:v1",
            "schemas/fixtures/cli/signal-reject-output.v1.valid.json",
            cli_test("cli_operator_contract_adoption", "producer_signal_reject_matches_exact_fixture"),
            cli_test("cli_operator_contract_adoption", "signal_reject_output_fixture_is_consumed_by_public_contract"),
            ContractTransport::NoTransport,
        ),
        OperationContract::adopted(
            "cli.signal-resolve.output",
            "kanban signal resolve --json stdout",
            ContractSurface::Cli,
            "signal resolve",
            ContractDirection::Serialize,
            ContractStrictness::DenyUnknownFields,
            "urn:kanban-tool:schema:cli:signal-resolve-output:v1",
            "schemas/fixtures/cli/signal-resolve-output.v1.valid.json",
            cli_test("cli_operator_contract_adoption", "producer_signal_resolve_matches_exact_fixture"),
            cli_test("cli_operator_contract_adoption", "signal_resolve_output_fixture_is_consumed_by_public_contract"),
            ContractTransport::NoTransport,
        ),
        OperationContract::adopted(
            "cli.signal-review.output",
            "kanban signal review --json stdout",
            ContractSurface::Cli,
            "signal review",
            ContractDirection::Serialize,
            ContractStrictness::DenyUnknownFields,
            "urn:kanban-tool:schema:cli:signal-review-output:v1",
            "schemas/fixtures/cli/signal-review-output.v1.valid.json",
            cli_test("cli_operator_contract_adoption", "producer_signal_review_matches_exact_fixture"),
            cli_test("cli_operator_contract_adoption", "signal_review_output_fixture_is_consumed_by_public_contract"),
            ContractTransport::NoTransport,
        ),
        OperationContract::adopted(
            "cli.signal-show.output",
            "kanban signal show --json stdout",
            ContractSurface::Cli,
            "signal show",
            ContractDirection::Serialize,
            ContractStrictness::DenyUnknownFields,
            "urn:kanban-tool:schema:cli:signal-show-output:v1",
            "schemas/fixtures/cli/signal-show-output.v1.valid.json",
            cli_test("cli_operator_contract_adoption", "producer_signal_show_matches_exact_fixture"),
            cli_test("cli_operator_contract_adoption", "signal_show_output_fixture_is_consumed_by_public_contract"),
            ContractTransport::NoTransport,
        ),
        OperationContract::adopted(
            "cli.signal-supersede.output",
            "kanban signal supersede --json stdout",
            ContractSurface::Cli,
            "signal supersede",
            ContractDirection::Serialize,
            ContractStrictness::DenyUnknownFields,
            "urn:kanban-tool:schema:cli:signal-supersede-output:v1",
            "schemas/fixtures/cli/signal-supersede-output.v1.valid.json",
            cli_test("cli_operator_contract_adoption", "producer_signal_supersede_matches_exact_fixture"),
            cli_test("cli_operator_contract_adoption", "signal_supersede_output_fixture_is_consumed_by_public_contract"),
            ContractTransport::NoTransport,
        ),
        OperationContract::adopted(
            "cli.hook-codex-install.output",
            "kanban hook codex install --json stdout",
            ContractSurface::Cli,
            "hook codex install",
            ContractDirection::Serialize,
            ContractStrictness::DenyUnknownFields,
            "urn:kanban-tool:schema:cli:hook-codex-install-output:v1",
            "schemas/fixtures/cli/hook-codex-install-output.v1.valid.json",
            cli_test("cli_operator_contract_adoption", "producer_hook_codex_install_matches_exact_fixture"),
            cli_test("cli_operator_contract_adoption", "hook_codex_install_output_fixture_is_consumed_by_public_contract"),
            ContractTransport::NoTransport,
        ),
        OperationContract::adopted(
            "cli.hook-codex-status.output",
            "kanban hook codex status --json stdout",
            ContractSurface::Cli,
            "hook codex status",
            ContractDirection::Serialize,
            ContractStrictness::DenyUnknownFields,
            "urn:kanban-tool:schema:cli:hook-codex-status-output:v1",
            "schemas/fixtures/cli/hook-codex-status-output.v1.valid.json",
            cli_test("cli_operator_contract_adoption", "producer_hook_codex_status_matches_exact_fixture"),
            cli_test("cli_operator_contract_adoption", "hook_codex_status_output_fixture_is_consumed_by_public_contract"),
            ContractTransport::NoTransport,
        ),
        OperationContract::adopted(
            "cli.hook-codex-uninstall.output",
            "kanban hook codex uninstall --json stdout",
            ContractSurface::Cli,
            "hook codex uninstall",
            ContractDirection::Serialize,
            ContractStrictness::DenyUnknownFields,
            "urn:kanban-tool:schema:cli:hook-codex-uninstall-output:v1",
            "schemas/fixtures/cli/hook-codex-uninstall-output.v1.valid.json",
            cli_test("cli_operator_contract_adoption", "producer_hook_codex_uninstall_matches_exact_fixture"),
            cli_test("cli_operator_contract_adoption", "hook_codex_uninstall_output_fixture_is_consumed_by_public_contract"),
            ContractTransport::NoTransport,
        ),
        OperationContract::adopted(
            "api.get-stats.query",
            "GET /api/v1/stats query",
            ContractSurface::Api,
            "GET /api/v1/stats",
            ContractDirection::Deserialize,
            ContractStrictness::DenyUnknownFields,
            "urn:kanban-tool:schema:api:get-stats-query:v1",
            "schemas/fixtures/api/get-stats-query.v1.valid.json",
            server_route_test("suite::derived_adoption::get_stats_query_dto_serializes_to_committed_fixture"),
            server_route_test("suite::derived_adoption::get_stats_query_fixture_is_consumed_by_real_router"),
            ContractTransport::Http { operation_key: Some("GET /api/v1/stats"), location: HttpTransportLocation::Query, parameters: &[WireParameter { name: "board", cardinality: Some(WireParameterCardinality::OptionalOne) }] },
        ),
        OperationContract::adopted(
            "api.get-stats.response",
            "GET /api/v1/stats response",
            ContractSurface::Api,
            "GET /api/v1/stats",
            ContractDirection::Serialize,
            ContractStrictness::DenyUnknownFields,
            "urn:kanban-tool:schema:api:get-stats-response:v1",
            "schemas/fixtures/api/get-stats-response.v1.valid.json",
            server_route_test("suite::derived_adoption::get_stats_response_fixture_is_produced_by_real_router"),
            server_route_test("suite::derived_adoption::get_stats_response_fixture_is_consumed_by_contract_root"),
            ContractTransport::Http { operation_key: Some("GET /api/v1/stats"), location: HttpTransportLocation::Success, parameters: &[] },
        ),
        OperationContract::adopted(
            "api.search-tasks.query",
            "GET /api/v1/search/tasks query",
            ContractSurface::Api,
            "GET /api/v1/search/tasks",
            ContractDirection::Deserialize,
            ContractStrictness::DenyUnknownFields,
            "urn:kanban-tool:schema:api:search-tasks-query:v1",
            "schemas/fixtures/api/search-tasks-query.v1.valid.json",
            server_route_test("suite::derived_adoption::search_tasks_query_dto_serializes_to_committed_fixture"),
            server_route_test("suite::derived_adoption::search_tasks_query_fixture_is_consumed_by_real_router"),
            ContractTransport::Http { operation_key: Some("GET /api/v1/search/tasks"), location: HttpTransportLocation::Query, parameters: &[WireParameter { name: "board", cardinality: Some(WireParameterCardinality::OptionalOne) }, WireParameter { name: "q", cardinality: Some(WireParameterCardinality::OptionalOne) }, WireParameter { name: "status", cardinality: Some(WireParameterCardinality::RepeatedOrdered) }, WireParameter { name: "label", cardinality: Some(WireParameterCardinality::RepeatedOrdered) }, WireParameter { name: "include_archived", cardinality: Some(WireParameterCardinality::OptionalOne) }, WireParameter { name: "limit", cardinality: Some(WireParameterCardinality::OptionalOne) }, WireParameter { name: "offset", cardinality: Some(WireParameterCardinality::OptionalOne) }, WireParameter { name: "assignee", cardinality: Some(WireParameterCardinality::OptionalOne) }] },
        ),
        OperationContract::adopted(
            "api.search-tasks.response",
            "GET /api/v1/search/tasks response",
            ContractSurface::Api,
            "GET /api/v1/search/tasks",
            ContractDirection::Serialize,
            ContractStrictness::DenyUnknownFields,
            "urn:kanban-tool:schema:api:search-tasks-response:v1",
            "schemas/fixtures/api/search-tasks-response.v1.valid.json",
            server_route_test("suite::derived_adoption::search_tasks_response_fixture_is_produced_by_real_router"),
            server_route_test("suite::derived_adoption::search_tasks_response_fixture_is_consumed_by_contract_root"),
            ContractTransport::Http { operation_key: Some("GET /api/v1/search/tasks"), location: HttpTransportLocation::Success, parameters: &[] },
        ),
        OperationContract::adopted(
            "api.search-tasks-by-status.query",
            "GET /api/v1/search/tasks/by-status query",
            ContractSurface::Api,
            "GET /api/v1/search/tasks/by-status",
            ContractDirection::Deserialize,
            ContractStrictness::DenyUnknownFields,
            "urn:kanban-tool:schema:api:search-tasks-by-status-query:v1",
            "schemas/fixtures/api/search-tasks-by-status-query.v1.valid.json",
            server_route_test("suite::derived_adoption::search_tasks_by_status_query_dto_serializes_to_committed_fixture"),
            server_route_test("suite::derived_adoption::search_tasks_by_status_query_fixture_is_consumed_by_real_router"),
            ContractTransport::Http { operation_key: Some("GET /api/v1/search/tasks/by-status"), location: HttpTransportLocation::Query, parameters: &[WireParameter { name: "board", cardinality: Some(WireParameterCardinality::OptionalOne) }, WireParameter { name: "q", cardinality: Some(WireParameterCardinality::OptionalOne) }, WireParameter { name: "status", cardinality: Some(WireParameterCardinality::RepeatedOrdered) }, WireParameter { name: "label", cardinality: Some(WireParameterCardinality::RepeatedOrdered) }, WireParameter { name: "include_archived", cardinality: Some(WireParameterCardinality::OptionalOne) }, WireParameter { name: "limit", cardinality: Some(WireParameterCardinality::OptionalOne) }, WireParameter { name: "offset", cardinality: Some(WireParameterCardinality::OptionalOne) }, WireParameter { name: "assignee", cardinality: Some(WireParameterCardinality::OptionalOne) }] },
        ),
        OperationContract::adopted(
            "api.search-tasks-by-status.response",
            "GET /api/v1/search/tasks/by-status response",
            ContractSurface::Api,
            "GET /api/v1/search/tasks/by-status",
            ContractDirection::Serialize,
            ContractStrictness::DenyUnknownFields,
            "urn:kanban-tool:schema:api:search-tasks-by-status-response:v1",
            "schemas/fixtures/api/search-tasks-by-status-response.v1.valid.json",
            server_route_test("suite::derived_adoption::search_tasks_by_status_response_fixture_is_produced_by_real_router"),
            server_route_test("suite::derived_adoption::search_tasks_by_status_response_fixture_is_consumed_by_contract_root"),
            ContractTransport::Http { operation_key: Some("GET /api/v1/search/tasks/by-status"), location: HttpTransportLocation::Success, parameters: &[] },
        ),
        OperationContract::adopted(
            "api.search-status.query",
            "GET /api/v1/search/status query",
            ContractSurface::Api,
            "GET /api/v1/search/status",
            ContractDirection::Deserialize,
            ContractStrictness::DenyUnknownFields,
            "urn:kanban-tool:schema:api:search-status-query:v1",
            "schemas/fixtures/api/search-status-query.v1.valid.json",
            server_route_test("suite::derived_adoption::search_status_query_dto_serializes_to_committed_fixture"),
            server_route_test("suite::derived_adoption::search_status_query_fixture_is_consumed_by_real_router"),
            ContractTransport::Http { operation_key: Some("GET /api/v1/search/status"), location: HttpTransportLocation::Query, parameters: &[WireParameter { name: "board", cardinality: Some(WireParameterCardinality::OptionalOne) }] },
        ),
        OperationContract::adopted(
            "api.search-status.response",
            "GET /api/v1/search/status response",
            ContractSurface::Api,
            "GET /api/v1/search/status",
            ContractDirection::Serialize,
            ContractStrictness::DenyUnknownFields,
            "urn:kanban-tool:schema:api:search-status-response:v1",
            "schemas/fixtures/api/search-status-response.v1.valid.json",
            server_route_test("suite::derived_adoption::search_status_response_fixture_is_produced_by_real_router"),
            server_route_test("suite::derived_adoption::search_status_response_fixture_is_consumed_by_contract_root"),
            ContractTransport::Http { operation_key: Some("GET /api/v1/search/status"), location: HttpTransportLocation::Success, parameters: &[] },
        ),
        OperationContract::adopted(
            "api.rebuild-search-index.query",
            "POST /api/v1/search/index/rebuild query",
            ContractSurface::Api,
            "POST /api/v1/search/index/rebuild",
            ContractDirection::Deserialize,
            ContractStrictness::DenyUnknownFields,
            "urn:kanban-tool:schema:api:rebuild-search-index-query:v1",
            "schemas/fixtures/api/search-status-query.v1.valid.json",
            server_route_test("suite::derived_adoption::search_status_query_dto_serializes_to_committed_fixture"),
            server_route_test("suite::derived_adoption::search_status_query_fixture_is_consumed_by_real_router"),
            ContractTransport::Http { operation_key: Some("POST /api/v1/search/index/rebuild"), location: HttpTransportLocation::Query, parameters: &[WireParameter { name: "board", cardinality: Some(WireParameterCardinality::OptionalOne) }] },
        ),
        OperationContract::adopted(
            "api.rebuild-search-index.response",
            "POST /api/v1/search/index/rebuild response",
            ContractSurface::Api,
            "POST /api/v1/search/index/rebuild",
            ContractDirection::Serialize,
            ContractStrictness::DenyUnknownFields,
            "urn:kanban-tool:schema:api:rebuild-search-index-response:v1",
            "schemas/fixtures/api/search-status-response.v1.valid.json",
            server_route_test("suite::derived_adoption::search_status_response_fixture_is_produced_by_real_router"),
            server_route_test("suite::derived_adoption::search_status_response_fixture_is_consumed_by_contract_root"),
            ContractTransport::Http { operation_key: Some("POST /api/v1/search/index/rebuild"), location: HttpTransportLocation::Success, parameters: &[] },
        ),
        OperationContract::adopted(
            "api.sync-search-index.query",
            "POST /api/v1/search/index/sync query",
            ContractSurface::Api,
            "POST /api/v1/search/index/sync",
            ContractDirection::Deserialize,
            ContractStrictness::DenyUnknownFields,
            "urn:kanban-tool:schema:api:sync-search-index-query:v1",
            "schemas/fixtures/api/search-status-query.v1.valid.json",
            server_route_test("suite::derived_adoption::search_status_query_dto_serializes_to_committed_fixture"),
            server_route_test("suite::derived_adoption::search_status_query_fixture_is_consumed_by_real_router"),
            ContractTransport::Http { operation_key: Some("POST /api/v1/search/index/sync"), location: HttpTransportLocation::Query, parameters: &[WireParameter { name: "board", cardinality: Some(WireParameterCardinality::OptionalOne) }] },
        ),
        OperationContract::adopted(
            "api.sync-search-index.response",
            "POST /api/v1/search/index/sync response",
            ContractSurface::Api,
            "POST /api/v1/search/index/sync",
            ContractDirection::Serialize,
            ContractStrictness::DenyUnknownFields,
            "urn:kanban-tool:schema:api:sync-search-index-response:v1",
            "schemas/fixtures/api/search-status-response.v1.valid.json",
            server_route_test("suite::derived_adoption::search_status_response_fixture_is_produced_by_real_router"),
            server_route_test("suite::derived_adoption::search_status_response_fixture_is_consumed_by_contract_root"),
            ContractTransport::Http { operation_key: Some("POST /api/v1/search/index/sync"), location: HttpTransportLocation::Success, parameters: &[] },
        ),
        OperationContract::adopted(
            "api.build-context.path",
            "GET /api/v1/tasks/:task_id/context path",
            ContractSurface::Api,
            "GET /api/v1/tasks/:task_id/context",
            ContractDirection::Deserialize,
            ContractStrictness::DenyUnknownFields,
            "urn:kanban-tool:schema:api:build-context-path:v1",
            "schemas/fixtures/api/build-context-path.v1.valid.json",
            server_route_test("suite::derived_adoption::build_context_path_dto_serializes_to_committed_fixture"),
            server_route_test("suite::derived_adoption::build_context_path_fixture_is_consumed_by_real_router"),
            ContractTransport::Http { operation_key: Some("GET /api/v1/tasks/:task_id/context"), location: HttpTransportLocation::Path, parameters: &[WireParameter { name: "task_id", cardinality: Some(WireParameterCardinality::RequiredOne) }] },
        ),
        OperationContract::adopted(
            "api.build-context.query",
            "GET /api/v1/tasks/:task_id/context query",
            ContractSurface::Api,
            "GET /api/v1/tasks/:task_id/context",
            ContractDirection::Deserialize,
            ContractStrictness::DenyUnknownFields,
            "urn:kanban-tool:schema:api:build-context-query:v1",
            "schemas/fixtures/api/build-context-query.v1.valid.json",
            server_route_test("suite::derived_adoption::build_context_query_dto_serializes_to_committed_fixture"),
            server_route_test("suite::derived_adoption::build_context_query_fixture_is_consumed_by_real_router"),
            ContractTransport::Http { operation_key: Some("GET /api/v1/tasks/:task_id/context"), location: HttpTransportLocation::Query, parameters: &[WireParameter { name: "board", cardinality: Some(WireParameterCardinality::OptionalOne) }, WireParameter { name: "lexical_limit", cardinality: Some(WireParameterCardinality::OptionalOne) }, WireParameter { name: "graph_limit", cardinality: Some(WireParameterCardinality::OptionalOne) }, WireParameter { name: "vector_limit", cardinality: Some(WireParameterCardinality::OptionalOne) }, WireParameter { name: "max_items", cardinality: Some(WireParameterCardinality::OptionalOne) }, WireParameter { name: "task", cardinality: Some(WireParameterCardinality::OptionalOne) }, WireParameter { name: "reference", cardinality: Some(WireParameterCardinality::OptionalOne) }, WireParameter { name: "query", cardinality: Some(WireParameterCardinality::OptionalOne) }, WireParameter { name: "depth", cardinality: Some(WireParameterCardinality::OptionalOne) }, WireParameter { name: "budget", cardinality: Some(WireParameterCardinality::OptionalOne) }] },
        ),
        OperationContract::adopted(
            "api.build-context.response",
            "GET /api/v1/tasks/:task_id/context response",
            ContractSurface::Api,
            "GET /api/v1/tasks/:task_id/context",
            ContractDirection::Serialize,
            ContractStrictness::DenyUnknownFields,
            "urn:kanban-tool:schema:api:build-context-response:v1",
            "schemas/fixtures/api/build-context-response.v1.valid.json",
            server_route_test("suite::derived_adoption::build_context_response_fixture_is_produced_by_real_router"),
            server_route_test("suite::derived_adoption::build_context_response_fixture_is_consumed_by_contract_root"),
            ContractTransport::Http { operation_key: Some("GET /api/v1/tasks/:task_id/context"), location: HttpTransportLocation::Success, parameters: &[] },
        ),
        OperationContract::adopted(
            "api.graph-status.query",
            "GET /api/v1/graph/status query",
            ContractSurface::Api,
            "GET /api/v1/graph/status",
            ContractDirection::Deserialize,
            ContractStrictness::DenyUnknownFields,
            "urn:kanban-tool:schema:api:graph-status-query:v1",
            "schemas/fixtures/api/graph-status-query.v1.valid.json",
            server_route_test("suite::derived_adoption::graph_status_query_dto_serializes_to_committed_fixture"),
            server_route_test("suite::derived_adoption::graph_status_query_fixture_is_consumed_by_real_router"),
            ContractTransport::Http { operation_key: Some("GET /api/v1/graph/status"), location: HttpTransportLocation::Query, parameters: &[WireParameter { name: "board", cardinality: Some(WireParameterCardinality::OptionalOne) }] },
        ),
    ]
}

/// Historical inventory rows 80 to 119.
fn legacy_rows_2_vec() -> (r: Vec<OperationContract>)
    ensures
        r@ == legacy_rows_2(),
{
    reveal(legacy_rows_2);
    let r = vec![
        OperationContract::adopted(
            "cli.graph-rebuild.output",
            "kanban graph rebuild --json stdout",
            ContractSurface::Cli,
            "graph rebuild",
            ContractDirection::Serialize,
            ContractStrictness::DenyUnknownFields,
            "urn:kanban-tool:schema:cli:graph-rebuild-output:v1",
            "schemas/fixtures/cli/graph-rebuild-output.v1.valid.json",
            cli_test("cli_helper_contract_adoption", "producer_graph_rebuild_matches_exact_fixture"),
            cli_test("cli_helper_contract_adoption", "graph_rebuild_output_fixture_is_consumed_by_public_contract"),
            ContractTransport::NoTransport,
        ),
        OperationContract::adopted(
            "cli.graph-status.output",
            "kanban graph status --json stdout",
            ContractSurface::Cli,
            "graph status",
            ContractDirection::Serialize,
            ContractStrictness::DenyUnknownFields,
            "urn:kanban-tool:schema:cli:graph-status-output:v1",
            "schemas/fixtures/cli/graph-status-output.v1.valid.json",
            cli_test("cli_helper_contract_adoption", "producer_graph_status_matches_exact_fixture"),
            cli_test("cli_helper_contract_adoption", "graph_status_output_fixture_is_consumed_by_public_contract"),
            ContractTransport::NoTransport,
        ),
        OperationContract::adopted(
            "cli.graph-sync.output",
            "kanban graph sync --json stdout",
            ContractSurface::Cli,
            "graph sync",
            ContractDirection::Serialize,
            ContractStrictness::DenyUnknownFields,
            "urn:kanban-tool:schema:cli:graph-sync-output:v1",
            "schemas/fixtures/cli/graph-sync-output.v1.valid.json",
            cli_test("cli_helper_contract_adoption", "producer_graph_sync_matches_exact_fixture"),
            cli_test("cli_helper_contract_adoption", "graph_sync_output_fixture_is_consumed_by_public_contract"),
            ContractTransport::NoTransport,
        ),
        OperationContract::adopted(
            "cli.vector-configure.output",
            "kanban vector configure --json stdout",
            ContractSurface::Cli,
            "vector configure",
            ContractDirection::Serialize,
            ContractStrictness::DenyUnknownFields,
            "urn:kanban-tool:schema:cli:vector-configure-output:v1",
            "schemas/fixtures/cli/vector-configure-output.v1.valid.json",
            cli_test("cli_helper_contract_adoption", "producer_vector_configure_matches_exact_fixture"),
            cli_test("cli_helper_contract_adoption", "vector_configure_output_fixture_is_consumed_by_public_contract"),
            ContractTransport::NoTransport,
        ),
        OperationContract::adopted(
            "cli.vector-query-chunks.output",
            "kanban vector query-chunks --json stdout",
            ContractSurface::Cli,
            "vector query-chunks",
            ContractDirection::Serialize,
            ContractStrictness::DenyUnknownFields,
            "urn:kanban-tool:schema:cli:vector-query-chunks-output:v1",
            "schemas/fixtures/cli/vector-query-chunks-output.v1.valid.json",
            cli_test("cli_helper_contract_adoption", "producer_vector_query_chunks_matches_exact_fixture"),
            cli_test("cli_helper_contract_adoption", "vector_query_chunks_output_fixture_is_consumed_by_public_contract"),
            ContractTransport::NoTransport,
        ),
        OperationContract::adopted(
            "cli.vector-query-label-atoms.output",
            "kanban vector query-label-atoms --json stdout",
            ContractSurface::Cli,
            "vector query-label-atoms",
            ContractDirection::Serialize,
            ContractStrictness::DenyUnknownFields,
            "urn:kanban-tool:schema:cli:vector-query-label-atoms-output:v1",
            "schemas/fixtures/cli/vector-query-label-atoms-output.v1.valid.json",
            cli_test("cli_helper_contract_adoption", "producer_vector_query_label_atoms_matches_exact_fixture"),
            cli_test("cli_helper_contract_adoption", "vector_query_label_atoms_output_fixture_is_consumed_by_public_contract"),
            ContractTransport::NoTransport,
        ),
        OperationContract::adopted(
            "cli.vector-rebuild.output",
            "kanban vector rebuild --json stdout",
            ContractSurface::Cli,
            "vector rebuild",
            ContractDirection::Serialize,
            ContractStrictness::DenyUnknownFields,
            "urn:kanban-tool:schema:cli:vector-rebuild-output:v1",
            "schemas/fixtures/cli/vector-rebuild-output.v1.valid.json",
            cli_test("cli_helper_contract_adoption", "producer_vector_rebuild_matches_exact_fixture"),
            cli_test("cli_helper_contract_adoption", "vector_rebuild_output_fixture_is_consumed_by_public_contract"),
            ContractTransport::NoTransport,
        ),
        OperationContract::adopted(
            "cli.vector-status.output",
            "kanban vector status --json stdout",
            ContractSurface::Cli,
            "vector status",
            ContractDirection::Serialize,
            ContractStrictness::DenyUnknownFields,
            "urn:kanban-tool:schema:cli:vector-status-output:v1",
            "schemas/fixtures/cli/vector-status-output.v1.valid.json",
            cli_test("cli_helper_contract_adoption", "producer_vector_status_matches_exact_fixture"),
            cli_test("cli_helper_contract_adoption", "vector_status_output_fixture_is_consumed_by_public_contract"),
            ContractTransport::NoTransport,
        ),
        OperationContract::adopted(
            "cli.vector-sync.output",
            "kanban vector sync --json stdout",
            ContractSurface::Cli,
            "vector sync",
            ContractDirection::Serialize,
            ContractStrictness::DenyUnknownFields,
            "urn:kanban-tool:schema:cli:vector-sync-output:v1",
            "schemas/fixtures/cli/vector-sync-output.v1.valid.json",
            cli_test("cli_helper_contract_adoption", "producer_vector_sync_matches_exact_fixture"),
            cli_test("cli_helper_contract_adoption", "vector_sync_output_fixture_is_consumed_by_public_contract"),
            ContractTransport::NoTransport,
        ),
        OperationContract::adopted(
            "cli.context-build.output",
            "kanban context build --json stdout",
            ContractSurface::Cli,
            "context build",
            ContractDirection::Serialize,
            ContractStrictness::DenyUnknownFields,
            "urn:kanban-tool:schema:cli:context-build-output:v1",
            "schemas/fixtures/cli/context-build-output.v1.valid.json",
            cli_test("cli_helper_contract_adoption", "producer_context_build_matches_exact_fixture"),
            cli_test("cli_helper_contract_adoption", "context_build_output_fixture_is_consumed_by_public_contract"),
            ContractTransport::NoTransport,
        ),
        OperationContract::adopted(
            "cli.search.output",
            "kanban search --json stdout",
            ContractSurface::Cli,
            "search",
            ContractDirection::Serialize,
            ContractStrictness::DenyUnknownFields,
            "urn:kanban-tool:schema:cli:search-output:v1",
            "schemas/fixtures/cli/search-output.v1.valid.json",
            cli_test("cli_helper_contract_adoption", "producer_search_matches_exact_fixture"),
            cli_test("cli_helper_contract_adoption", "search_output_fixture_is_consumed_by_public_contract"),
            ContractTransport::NoTransport,
        ),
        OperationContract::adopted(
            "cli.index-rebuild.output",
            "kanban index rebuild --json stdout",
            ContractSurface::Cli,
            "index rebuild",
            ContractDirection::Serialize,
            ContractStrictness::DenyUnknownFields,
            "urn:kanban-tool:schema:cli:index-rebuild-output:v1",
            "schemas/fixtures/cli/index-rebuild-output.v1.valid.json",
            cli_test("cli_helper_contract_adoption", "producer_index_rebuild_matches_exact_fixture"),
            cli_test("cli_helper_contract_adoption", "index_rebuild_output_fixture_is_consumed_by_public_contract"),
            ContractTransport::NoTransport,
        ),
        OperationContract::adopted(
            "cli.index-sync.output",
            "kanban index sync --json stdout",
            ContractSurface::Cli,
            "index sync",
            ContractDirection::Serialize,
            ContractStrictness::DenyUnknownFields,
            "urn:kanban-tool:schema:cli:index-sync-output:v1",
            "schemas/fixtures/cli/index-sync-output.v1.valid.json",
            cli_test("cli_helper_contract_adoption", "producer_index_sync_matches_exact_fixture"),
            cli_test("cli_helper_contract_adoption", "index_sync_output_fixture_is_consumed_by_public_contract"),
            ContractTransport::NoTransport,
        ),
        OperationContract::adopted(
            "cli.signal-confirm.output",
            "kanban signal confirm --json stdout",
            ContractSurface::Cli,
            "signal confirm",
            ContractDirection::Serialize,
            ContractStrictness::DenyUnknownFields,
            "urn:kanban-tool:schema:cli:signal-confirm-output:v1",
            "schemas/fixtures/cli/signal-confirm-output.v1.valid.json",
            cli_test("cli_operator_contract_adoption", "producer_signal_confirm_matches_exact_fixture"),
            cli_test("cli_operator_contract_adoption", "signal_confirm_output_fixture_is_consumed_by_public_contract"),
            ContractTransport::NoTransport,
        ),
        OperationContract::adopted(
            "cli.signal-list.output",
            "kanban signal list --json stdout",
            ContractSurface::Cli,
            "signal list",
            ContractDirection::Serialize,
            ContractStrictness::DenyUnknownFields,
            "urn:kanban-tool:schema:cli:signal-list-output:v1",
            "schemas/fixtures/cli/signal-list-output.v1.valid.json",
            cli_test("cli_operator_contract_adoption", "producer_signal_list_matches_exact_fixture"),
            cli_test("cli_operator_contract_adoption", "signal_list_output_fixture_is_consumed_by_public_contract"),
            ContractTransport::NoTransport,
        ),
        OperationContract::adopted(
            "cli.signal-record.output",
            "kanban signal record --json stdout",
            ContractSurface::Cli,
            "signal record",
            ContractDirection::Serialize,
            ContractStrictness::DenyUnknownFields,
            "urn:kanban-tool:schema:cli:signal-record-output:v1",
            "schemas/fixtures/cli/signal-record-output.v1.valid.json",
            cli_test("cli_operator_contract_adoption", "producer_signal_record_matches_exact_fixture"),
            cli_test("cli_operator_contract_adoption", "signal_record_output_fixture_is_consumed_by_public_contract"),
            ContractTransport::NoTransport,
        ),
        OperationContract::adopted(
            "cli.signal-reject.output",
            "kanban signal reject --json stdout",
            ContractSurface::Cli,
            "signal reject",
            ContractDirection::Serialize,
            ContractStrictness::DenyUnknownFields,
            "urn:kanban-tool:schema:cli:signal-reject-output:v1",
            "schemas/fixtures/cli/signal-reject-output.v1.valid.json",
            cli_test("cli_operator_contract_adoption", "producer_signal_reject_matches_exact_fixture"),
            cli_test("cli_operator_contract_adoption", "signal_reject_output_fixture_is_consumed_by_public_contract"),
            ContractTransport::NoTransport,
        ),
        OperationContract::adopted(
            "cli.signal-resolve.output",
            "kanban signal resolve --json stdout",
            ContractSurface::Cli,
            "signal resolve",
            ContractDirection::Serialize,
            ContractStrictness::DenyUnknownFields,
            "urn:kanban-tool:schema:cli:signal-resolve-output:v1",
            "schemas/fixtures/cli/signal-resolve-output.v1.valid.json",
            cli_test("cli_operator_contract_adoption", "producer_signal_resolve_matches_exact_fixture"),
            cli_test("cli_operator_contract_adoption", "signal_resolve_output_fixture_is_consumed_by_public_contract"),
            ContractTransport::NoTransport,
        ),
        OperationContract::adopted(
            "cli.signal-review.output",
            "kanban signal review --json stdout",
            ContractSurface::Cli,
            "signal review",
            ContractDirection::Serialize,
            ContractStrictness::DenyUnknownFields,
            "urn:kanban-tool:schema:cli:signal-review-output:v1",
            "schemas/fixtures/cli/signal-review-output.v1.valid.json",
            cli_test("cli_operator_contract_adoption", "producer_signal_review_matches_exact_fixture"),
            cli_test("cli_operator_contract_adoption", "signal_review_output_fixture_is_consumed_by_public_contract"),
            ContractTransport::NoTransport,
        ),
        OperationContract::adopted(
            "cli.signal-show.output",
            "kanban signal show --json stdout",
            ContractSurface::Cli,
            "signal show",
            ContractDirection::Serialize,
            ContractStrictness::DenyUnknownFields,
            "urn:kanban-tool:schema:cli:signal-show-output:v1",
            "schemas/fixtures/cli/signal-show-output.v1.valid.json",
            cli_test("cli_operator_contract_adoption", "producer_signal_show_matches_exact_fixture"),
            cli_test("cli_operator_contract_adoption", "signal_show_output_fixture_is_consumed_by_public_contract"),
            ContractTransport::NoTransport,
        ),
        OperationContract::adopted(
            "cli.signal-supersede.output",
            "kanban signal supersede --json stdout",
            ContractSurface::Cli,
            "signal supersede",
            ContractDirection::Serialize,
            ContractStrictness::DenyUnknownFields,
            "urn:kanban-tool:schema:cli:signal-supersede-output:v1",
            "schemas/fixtures/cli/signal-supersede-output.v1.valid.json",
            cli_test("cli_operator_contract_adoption", "producer_signal_supersede_matches_exact_fixture"),
            cli_test("cli_operator_contract_adoption", "signal_supersede_output_fixture_is_consumed_by_public_contract"),
            ContractTransport::NoTransport,
        ),
        OperationContract::adopted(
            "cli.hook-codex-install.output",
            "kanban hook codex install --json stdout",
            ContractSurface::Cli,
            "hook codex install",
            ContractDirection::Serialize,
            ContractStrictness::DenyUnknownFields,
            "urn:kanban-tool:schema:cli:hook-codex-install-output:v1",
            "schemas/fixtures/cli/hook-codex-install-output.v1.valid.json",
            cli_test("cli_operator_contract_adoption", "producer_hook_codex_install_matches_exact_fixture"),
            cli_test("cli_operator_contract_adoption", "hook_codex_install_output_fixture_is_consumed_by_public_contract"),
            ContractTransport::NoTransport,
        ),
        OperationContract::adopted(
            "cli.hook-codex-status.output",
            "kanban hook codex status --json stdout",
            ContractSurface::Cli,
            "hook codex status",
            ContractDirection::Serialize,
            ContractStrictness::DenyUnknownFields,
            "urn:kanban-tool:schema:cli:hook-codex-status-output:v1",
            "schemas/fixtures/cli/hook-codex-status-output.v1.valid.json",
            cli_test("cli_operator_contract_adoption", "producer_hook_codex_status_matches_exact_fixture"),
            cli_test("cli_operator_contract_adoption", "hook_codex_status_output_fixture_is_consumed_by_public_contract"),
            ContractTransport::NoTransport,
        ),
        OperationContract::adopted(
            "cli.hook-codex-uninstall.output",
            "kanban hook codex uninstall --json stdout",
            ContractSurface::Cli,
            "hook codex uninstall",
            ContractDirection::Serialize,
            ContractStrictness::DenyUnknownFields,
            "urn:kanban-tool:schema:cli:hook-codex-uninstall-output:v1",
            "schemas/fixtures/cli/hook-codex-uninstall-output.v1.valid.json",
            cli_test("cli_operator_contract_adoption", "producer_hook_codex_uninstall_matches_exact_fixture"),
            cli_test("cli_operator_contract_adoption", "hook_codex_uninstall_output_fixture_is_consumed_by_public_contract"),
            ContractTransport::NoTransport,
        ),
        OperationContract::adopted(
            "api.get-stats.query",
            "GET /api/v1/stats query",
            ContractSurface::Api,
            "GET /api/v1/stats",
            ContractDirection::Deserialize,
            ContractStrictness::DenyUnknownFields,
            "urn:kanban-tool:schema:api:get-stats-query:v1",
            "schemas/fixtures/api/get-stats-query.v1.valid.json",
            server_route_test("suite::derived_adoption::get_stats_query_dto_serializes_to_committed_fixture"),
            server_route_test("suite::derived_adoption::get_stats_query_fixture_is_consumed_by_real_router"),
            ContractTransport::Http { operation_key: Some("GET /api/v1/stats"), location: HttpTransportLocation::Query, parameters: &[WireParameter { name: "board", cardinality: Some(WireParameterCardinality::OptionalOne) }] },
        ),
        OperationContract::adopted(
            "api.get-stats.response",
            "GET /api/v1/stats response",
            ContractSurface::Api,
            "GET /api/v1/stats",
            ContractDirection::Serialize,
            ContractStrictness::DenyUnknownFields,
            "urn:kanban-tool:schema:api:get-stats-response:v1",
            "schemas/fixtures/api/get-stats-response.v1.valid.json",
            server_route_test("suite::derived_adoption::get_stats_response_fixture_is_produced_by_real_router"),
            server_route_test("suite::derived_adoption::get_stats_response_fixture_is_consumed_by_contract_root"),
            ContractTransport::Http { operation_key: Some("GET /api/v1/stats"), location: HttpTransportLocation::Success, parameters: &[] },
        ),
        OperationContract::adopted(
            "api.search-tasks.query",
            "GET /api/v1/search/tasks query",
            ContractSurface::Api,
            "GET /api/v1/search/tasks",
            ContractDirection::Deserialize,
            ContractStrictness::DenyUnknownFields,
            "urn:kanban-tool:schema:api:search-tasks-query:v1",
            "schemas/fixtures/api/search-tasks-query.v1.valid.json",
            server_route_test("suite::derived_adoption::search_tasks_query_dto_serializes_to_committed_fixture"),
            server_route_test("suite::derived_adoption::search_tasks_query_fixture_is_consumed_by_real_router"),
            ContractTransport::Http { operation_key: Some("GET /api/v1/search/tasks"), location: HttpTransportLocation::Query, parameters: &[WireParameter { name: "board", cardinality: Some(WireParameterCardinality::OptionalOne) }, WireParameter { name: "q", cardinality: Some(WireParameterCardinality::OptionalOne) }, WireParameter { name: "status", cardinality: Some(WireParameterCardinality::RepeatedOrdered) }, WireParameter { name: "label", cardinality: Some(WireParameterCardinality::RepeatedOrdered) }, WireParameter { name: "include_archived", cardinality: Some(WireParameterCardinality::OptionalOne) }, WireParameter { name: "limit", cardinality: Some(WireParameterCardinality::OptionalOne) }, WireParameter { name: "offset", cardinality: Some(WireParameterCardinality::OptionalOne) }, WireParameter { name: "assignee", cardinality: Some(WireParameterCardinality::OptionalOne) }] },
        ),
        OperationContract::adopted(
            "api.search-tasks.response",
            "GET /api/v1/search/tasks response",
            ContractSurface::Api,
            "GET /api/v1/search/tasks",
            ContractDirection::Serialize,
            ContractStrictness::DenyUnknownFields,
            "urn:kanban-tool:schema:api:search-tasks-response:v1",
            "schemas/fixtures/api/search-tasks-response.v1.valid.json",
            server_route_test("suite::derived_adoption::search_tasks_response_fixture_is_produced_by_real_router"),
            server_route_test("suite::derived_adoption::search_tasks_response_fixture_is_consumed_by_contract_root"),
            ContractTransport::Http { operation_key: Some("GET /api/v1/search/tasks"), location: HttpTransportLocation::Success, parameters: &[] },
        ),
        OperationContract::adopted(
            "api.search-tasks-by-status.query",
            "GET /api/v1/search/tasks/by-status query",
            ContractSurface::Api,
            "GET /api/v1/search/tasks/by-status",
            ContractDirection::Deserialize,
            ContractStrictness::DenyUnknownFields,
            "urn:kanban-tool:schema:api:search-tasks-by-status-query:v1",
            "schemas/fixtures/api/search-tasks-by-status-query.v1.valid.json",
            server_route_test("suite::derived_adoption::search_tasks_by_status_query_dto_serializes_to_committed_fixture"),
            server_route_test("suite::derived_adoption::search_tasks_by_status_query_fixture_is_consumed_by_real_router"),
            ContractTransport::Http { operation_key: Some("GET /api/v1/search/tasks/by-status"), location: HttpTransportLocation::Query, parameters: &[WireParameter { name: "board", cardinality: Some(WireParameterCardinality::OptionalOne) }, WireParameter { name: "q", cardinality: Some(WireParameterCardinality::OptionalOne) }, WireParameter { name: "status", cardinality: Some(WireParameterCardinality::RepeatedOrdered) }, WireParameter { name: "label", cardinality: Some(WireParameterCardinality::RepeatedOrdered) }, WireParameter { name: "include_archived", cardinality: Some(WireParameterCardinality::OptionalOne) }, WireParameter { name: "limit", cardinality: Some(WireParameterCardinality::OptionalOne) }, WireParameter { name: "offset", cardinality: Some(WireParameterCardinality::OptionalOne) }, WireParameter { name: "assignee", cardinality: Some(WireParameterCardinality::OptionalOne) }] },
        ),
        OperationContract::adopted(
            "api.search-tasks-by-status.response",
            "GET /api/v1/search/tasks/by-status response",
            ContractSurface::Api,
            "GET /api/v1/search/tasks/by-status",
            ContractDirection::Serialize,
            ContractStrictness::DenyUnknownFields,
            "urn:kanban-tool:schema:api:search-tasks-by-status-response:v1",
            "schemas/fixtures/api/search-tasks-by-status-response.v1.valid.json",
            server_route_test("suite::derived_adoption::search_tasks_by_status_response_fixture_is_produced_by_real_router"),
            server_route_test("suite::derived_adoption::search_tasks_by_status_response_fixture_is_consumed_by_contract_root"),
            ContractTransport::Http { operation_key: Some("GET /api/v1/search/tasks/by-status"), location: HttpTransportLocation::Success, parameters: &[] },
        ),
        OperationContract::adopted(
            "api.search-status.query",
            "GET /api/v1/search/status query",
            ContractSurface::Api,
            "GET /api/v1/search/status",
            ContractDirection::Deserialize,
            ContractStrictness::DenyUnknownFields,
            "urn:kanban-tool:schema:api:search-status-query:v1",
            "schemas/fixtures/api/search-status-query.v1.valid.json",
            server_route_test("suite::derived_adoption::search_status_query_dto_serializes_to_committed_fixture"),
            server_route_test("suite::derived_adoption::search_status_query_fixture_is_consumed_by_real_router"),
            ContractTransport::Http { operation_key: Some("GET /api/v1/search/status"), location: HttpTransportLocation::Query, parameters: &[WireParameter { name: "board", cardinality: Some(WireParameterCardinality::OptionalOne) }] },
        ),
        OperationContract::adopted(
            "api.search-status.response",
            "GET /api/v1/search/status response",
            ContractSurface::Api,
            "GET /api/v1/search/status",
            ContractDirection::Serialize,
            ContractStrictness::DenyUnknownFields,
            "urn:kanban-tool:schema:api:search-status-response:v1",
            "schemas/fixtures/api/search-status-response.v1.valid.json",
            server_route_test("suite::derived_adoption::search_status_response_fixture_is_produced_by_real_router"),
            server_route_test("suite::derived_adoption::search_status_response_fixture_is_consumed_by_contract_root"),
            ContractTransport::Http { operation_key: Some("GET /api/v1/search/status"), location: HttpTransportLocation::Success, parameters: &[] },
        ),
        OperationContract::adopted(
            "api.rebuild-search-index.query",
            "POST /api/v1/search/index/rebuild query",
            ContractSurface::Api,
            "POST /api/v1/search/index/rebuild",
            ContractDirection::Deserialize,
            ContractStrictness::DenyUnknownFields,
            "urn:kanban-tool:schema:api:rebuild-search-index-query:v1",
            "schemas/fixtures/api/search-status-query.v1.valid.json",
            server_route_test("suite::derived_adoption::search_status_query_dto_serializes_to_committed_fixture"),
            server_route_test("suite::derived_adoption::search_status_query_fixture_is_consumed_by_real_router"),
            ContractTransport::Http { operation_key: Some("POST /api/v1/search/index/rebuild"), location: HttpTransportLocation::Query, parameters: &[WireParameter { name: "board", cardinality: Some(WireParameterCardinality::OptionalOne) }] },
        ),
        OperationContract::adopted(
            "api.rebuild-search-index.response",
            "POST /api/v1/search/index/rebuild response",
            ContractSurface::Api,
            "POST /api/v1/search/index/rebuild",
            ContractDirection::Serialize,
            ContractStrictness::DenyUnknownFields,
            "urn:kanban-tool:schema:api:rebuild-search-index-response:v1",
            "schemas/fixtures/api/search-status-response.v1.valid.json",
            server_route_test("suite::derived_adoption::search_status_response_fixture_is_produced_by_real_router"),
            server_route_test("suite::derived_adoption::search_status_response_fixture_is_consumed_by_contract_root"),
            ContractTransport::Http { operation_key: Some("POST /api/v1/search/index/rebuild"), location: HttpTransportLocation::Success, parameters: &[] },
        ),
        OperationContract::adopted(
            "api.sync-search-index.query",
            "POST /api/v1/search/index/sync query",
            ContractSurface::Api,
            "POST /api/v1/search/index/sync",
            ContractDirection::Deserialize,
            ContractStrictness::DenyUnknownFields,
            "urn:kanban-tool:schema:api:sync-search-index-query:v1",
            "schemas/fixtures/api/search-status-query.v1.valid.json",
            server_route_test("suite::derived_adoption::search_status_query_dto_serializes_to_committed_fixture"),
            server_route_test("suite::derived_adoption::search_status_query_fixture_is_consumed_by_real_router"),
            ContractTransport::Http { operation_key: Some("POST /api/v1/search/index/sync"), location: HttpTransportLocation::Query, parameters: &[WireParameter { name: "board", cardinality: Some(WireParameterCardinality::OptionalOne) }] },
        ),
        OperationContract::adopted(
            "api.sync-search-index.response",
            "POST /api/v1/search/index/sync response",
            ContractSurface::Api,
            "POST /api/v1/search/index/sync",
            ContractDirection::Serialize,
            ContractStrictness::DenyUnknownFields,
            "urn:kanban-tool:schema:api:sync-search-index-response:v1",
            "schemas/fixtures/api/search-status-response.v1.valid.json",
            server_route_test("suite::derived_adoption::search_status_response_fixture_is_produced_by_real_router"),
            server_route_test("suite::derived_adoption::search_status_response_fixture_is_consumed_by_contract_root"),
            ContractTransport::Http { operation_key: Some("POST /api/v1/search/index/sync"), location: HttpTransportLocation::Success, parameters: &[] },
        ),
        OperationContract::adopted(
            "api.build-context.path",
            "GET /api/v1/tasks/:task_id/context path",
            ContractSurface::Api,
            "GET /api/v1/tasks/:task_id/context",
            ContractDirection::Deserialize,
            ContractStrictness::DenyUnknownFields,
            "urn:kanban-tool:schema:api:build-context-path:v1",
            "schemas/fixtures/api/build-context-path.v1.valid.json",
            server_route_test("suite::derived_adoption::build_context_path_dto_serializes_to_committed_fixture"),
            server_route_test("suite::derived_adoption::build_context_path_fixture_is_consumed_by_real_router"),
            ContractTransport::Http { operation_key: Some("GET /api/v1/tasks/:task_id/context"), location: HttpTransportLocation::Path, parameters: &[WireParameter { name: "task_id", cardinality: Some(WireParameterCardinality::RequiredOne) }] },
        ),
        OperationContract::adopted(
            "api.build-context.query",
            "GET /api/v1/tasks/:task_id/context query",
            ContractSurface::Api,
            "GET /api/v1/tasks/:task_id/context",
            ContractDirection::Deserialize,
            ContractStrictness::DenyUnknownFields,
            "urn:kanban-tool:schema:api:build-context-query:v1",
            "schemas/fixtures/api/build-context-query.v1.valid.json",
            server_route_test("suite::derived_adoption::build_context_query_dto_serializes_to_committed_fixture"),
            server_route_test("suite::derived_adoption::build_context_query_fixture_is_consumed_by_real_router"),
            ContractTransport::Http { operation_key: Some("GET /api/v1/tasks/:task_id/context"), location: HttpTransportLocation::Query, parameters: &[WireParameter { name: "board", cardinality: Some(WireParameterCardinality::OptionalOne) }, WireParameter { name: "lexical_limit", cardinality: Some(WireParameterCardinality::OptionalOne) }, WireParameter { name: "graph_limit", cardinality: Some(WireParameterCardinality::OptionalOne) }, WireParameter { name: "vector_limit", cardinality: Some(WireParameterCardinality::OptionalOne) }, WireParameter { name: "max_items", cardinality: Some(WireParameterCardinality::OptionalOne) }, WireParameter { name: "task", cardinality: Some(WireParameterCardinality::OptionalOne) }, WireParameter { name: "reference", cardinality: Some(WireParameterCardinality::OptionalOne) }, WireParameter { name: "query", cardinality: Some(WireParameterCardinality::OptionalOne) }, WireParameter { name: "depth", cardinality: Some(WireParameterCardinality::OptionalOne) }, WireParameter { name: "budget", cardinality: Some(WireParameterCardinality::OptionalOne) }] },
        ),
        OperationContract::adopted(
            "api.build-context.response",
            "GET /api/v1/tasks/:task_id/context response",
            ContractSurface::Api,
            "GET /api/v1/tasks/:task_id/context",
            ContractDirection::Serialize,
            ContractStrictness::DenyUnknownFields,
            "urn:kanban-tool:schema:api:build-context-response:v1",
            "schemas/fixtures/api/build-context-response.v1.valid.json",
            server_route_test("suite::derived_adoption::build_context_response_fixture_is_produced_by_real_router"),
            server_route_test("suite::derived_adoption::build_context_response_fixture_is_consumed_by_contract_root"),
            ContractTransport::Http { operation_key: Some("GET /api/v1/tasks/:task_id/context"), location: HttpTransportLocation::Success, parameters: &[] },
        ),
        OperationContract::adopted(
            "api.graph-status.query",
            "GET /api/v1/graph/status query",
            ContractSurface::Api,
            "GET /api/v1/graph/status",
            ContractDirection::Deserialize,
            ContractStrictness::DenyUnknownFields,
            "urn:kanban-tool:schema:api:graph-status-query:v1",
            "schemas/fixtures/api/graph-status-query.v1.valid.json",
            server_route_test("suite::derived_adoption::graph_status_query_dto_serializes_to_committed_fixture"),
            server_route_test("suite::derived_adoption::graph_status_query_fixture_is_consumed_by_real_router"),
            ContractTransport::Http { operation_key: Some("GET /api/v1/graph/status"), location: HttpTransportLocation::Query, parameters: &[WireParameter { name: "board", cardinality: Some(WireParameterCardinality::OptionalOne) }] },
        ),
    ];
    assert(r@ =~= legacy_rows_2());
    r
}

/// Historical inventory rows 120 to 159.
#[verifier::opaque]
pub open spec fn legacy_rows_3() -> Seq<OperationContract> {
    seq![
        OperationContract::adopted(
            "api.graph-status.response",
            "GET /api/v1/graph/status response",
            ContractSurface::Api,
            "GET /api/v1/graph/status",
            ContractDirection::Serialize,
            ContractStrictness::DenyUnknownFields,
            "urn:kanban-tool:schema:api:graph-status-response:v1",
            "schemas/fixtures/api/graph-status-response.v1.valid.json",
            server_route_test("suite::derived_adoption::graph_status_response_fixture_is_produced_by_real_router"),
            server_route_test("suite::derived_adoption::graph_status_response_fixture_is_consumed_by_contract_root"),
            ContractTransport::Http { operation_key: Some("GET /api/v1/graph/status"), location: HttpTransportLocation::Success, parameters: &[] },
        ),
        OperationContract::adopted(
            "api.graph-neighbors.query",
            "GET /api/v1/graph/neighbors query",
            ContractSurface::Api,
            "GET /api/v1/graph/neighbors",
            ContractDirection::Deserialize,
            ContractStrictness::DenyUnknownFields,
            "urn:kanban-tool:schema:api:graph-neighbors-query:v1",
            "schemas/fixtures/api/graph-neighbors-query.v1.valid.json",
            server_route_test("suite::derived_adoption::graph_neighbors_query_dto_serializes_to_committed_fixture"),
            server_route_test("suite::derived_adoption::graph_neighbors_query_fixture_is_consumed_by_real_router"),
            ContractTransport::Http { operation_key: Some("GET /api/v1/graph/neighbors"), location: HttpTransportLocation::Query, parameters: &[WireParameter { name: "board", cardinality: Some(WireParameterCardinality::OptionalOne) }, WireParameter { name: "entity_uri", cardinality: Some(WireParameterCardinality::RequiredOne) }, WireParameter { name: "predicate", cardinality: Some(WireParameterCardinality::OptionalOne) }, WireParameter { name: "limit", cardinality: Some(WireParameterCardinality::OptionalOne) }] },
        ),
        OperationContract::adopted(
            "api.graph-neighbors.response",
            "GET /api/v1/graph/neighbors response",
            ContractSurface::Api,
            "GET /api/v1/graph/neighbors",
            ContractDirection::Serialize,
            ContractStrictness::DenyUnknownFields,
            "urn:kanban-tool:schema:api:graph-neighbors-response:v1",
            "schemas/fixtures/api/graph-neighbors-response.v1.valid.json",
            server_route_test("suite::derived_adoption::graph_neighbors_response_fixture_is_produced_by_real_router"),
            server_route_test("suite::derived_adoption::graph_neighbors_response_fixture_is_consumed_by_contract_root"),
            ContractTransport::Http { operation_key: Some("GET /api/v1/graph/neighbors"), location: HttpTransportLocation::Success, parameters: &[] },
        ),
        OperationContract::adopted(
            "api.graph-query.query",
            "GET /api/v1/graph/query query",
            ContractSurface::Api,
            "GET /api/v1/graph/query",
            ContractDirection::Deserialize,
            ContractStrictness::DenyUnknownFields,
            "urn:kanban-tool:schema:api:graph-query-query:v1",
            "schemas/fixtures/api/graph-query-query.v1.valid.json",
            server_route_test("suite::graph_adoption::graph_query_query_dto_serializes_to_committed_fixture"),
            server_route_test("suite::graph_adoption::graph_query_query_fixture_is_consumed_by_real_router"),
            ContractTransport::Http { operation_key: Some("GET /api/v1/graph/query"), location: HttpTransportLocation::Query, parameters: &[WireParameter { name: "board", cardinality: Some(WireParameterCardinality::OptionalOne) }, WireParameter { name: "query", cardinality: Some(WireParameterCardinality::OptionalOne) }, WireParameter { name: "limit", cardinality: Some(WireParameterCardinality::OptionalOne) }] },
        ),
        OperationContract::adopted(
            "api.graph-query.response",
            "GET /api/v1/graph/query response",
            ContractSurface::Api,
            "GET /api/v1/graph/query",
            ContractDirection::Serialize,
            ContractStrictness::DenyUnknownFields,
            "urn:kanban-tool:schema:api:graph-query-response:v1",
            "schemas/fixtures/api/graph-query-response.v1.valid.json",
            server_route_test("suite::graph_adoption::graph_query_response_fixture_is_produced_by_real_router"),
            server_route_test("suite::graph_adoption::graph_query_response_fixture_is_consumed_by_contract_root"),
            ContractTransport::Http { operation_key: Some("GET /api/v1/graph/query"), location: HttpTransportLocation::Success, parameters: &[] },
        ),
        OperationContract::adopted(
            "api.graph-rebuild.query",
            "POST /api/v1/graph/rebuild query",
            ContractSurface::Api,
            "POST /api/v1/graph/rebuild",
            ContractDirection::Deserialize,
            ContractStrictness::DenyUnknownFields,
            "urn:kanban-tool:schema:api:graph-rebuild-query:v1",
            "schemas/fixtures/api/graph-rebuild-query.v1.valid.json",
            server_route_test("suite::graph_adoption::graph_rebuild_query_dto_serializes_to_committed_fixture"),
            server_route_test("suite::graph_adoption::graph_rebuild_query_fixture_is_consumed_by_real_router"),
            ContractTransport::Http { operation_key: Some("POST /api/v1/graph/rebuild"), location: HttpTransportLocation::Query, parameters: &[WireParameter { name: "board", cardinality: Some(WireParameterCardinality::OptionalOne) }] },
        ),
        OperationContract::adopted(
            "api.graph-rebuild.response",
            "POST /api/v1/graph/rebuild response",
            ContractSurface::Api,
            "POST /api/v1/graph/rebuild",
            ContractDirection::Serialize,
            ContractStrictness::DenyUnknownFields,
            "urn:kanban-tool:schema:api:graph-rebuild-response:v1",
            "schemas/fixtures/api/graph-rebuild-response.v1.valid.json",
            server_route_test("suite::graph_adoption::graph_rebuild_response_fixture_is_produced_by_real_router"),
            server_route_test("suite::graph_adoption::graph_rebuild_response_fixture_is_consumed_by_contract_root"),
            ContractTransport::Http { operation_key: Some("POST /api/v1/graph/rebuild"), location: HttpTransportLocation::Success, parameters: &[] },
        ),
        OperationContract::adopted(
            "api.graph-sync.query",
            "POST /api/v1/graph/sync query",
            ContractSurface::Api,
            "POST /api/v1/graph/sync",
            ContractDirection::Deserialize,
            ContractStrictness::DenyUnknownFields,
            "urn:kanban-tool:schema:api:graph-sync-query:v1",
            "schemas/fixtures/api/graph-sync-query.v1.valid.json",
            server_route_test("suite::graph_adoption::graph_sync_query_dto_serializes_to_committed_fixture"),
            server_route_test("suite::graph_adoption::graph_sync_query_fixture_is_consumed_by_real_router"),
            ContractTransport::Http { operation_key: Some("POST /api/v1/graph/sync"), location: HttpTransportLocation::Query, parameters: &[WireParameter { name: "board", cardinality: Some(WireParameterCardinality::OptionalOne) }] },
        ),
        OperationContract::adopted(
            "api.graph-sync.response",
            "POST /api/v1/graph/sync response",
            ContractSurface::Api,
            "POST /api/v1/graph/sync",
            ContractDirection::Serialize,
            ContractStrictness::DenyUnknownFields,
            "urn:kanban-tool:schema:api:graph-sync-response:v1",
            "schemas/fixtures/api/graph-sync-response.v1.valid.json",
            server_route_test("suite::graph_adoption::graph_sync_response_fixture_is_produced_by_real_router"),
            server_route_test("suite::graph_adoption::graph_sync_response_fixture_is_consumed_by_contract_root"),
            ContractTransport::Http { operation_key: Some("POST /api/v1/graph/sync"), location: HttpTransportLocation::Success, parameters: &[] },
        ),
        OperationContract::adopted(
            "api.entity-list.query",
            "GET /api/v1/entities query",
            ContractSurface::Api,
            "GET /api/v1/entities",
            ContractDirection::Deserialize,
            ContractStrictness::DenyUnknownFields,
            "urn:kanban-tool:schema:api:entity-list-query:v1",
            "schemas/fixtures/api/entity-list-query.v1.valid.json",
            server_route_test("suite::entity_adoption::entity_list_query_dto_serializes_to_committed_fixture"),
            server_route_test("suite::entity_adoption::entity_list_query_fixture_is_consumed_by_real_router"),
            ContractTransport::Http { operation_key: Some("GET /api/v1/entities"), location: HttpTransportLocation::Query, parameters: &[WireParameter { name: "board", cardinality: Some(WireParameterCardinality::OptionalOne) }, WireParameter { name: "kind", cardinality: Some(WireParameterCardinality::OptionalOne) }, WireParameter { name: "limit", cardinality: Some(WireParameterCardinality::OptionalOne) }] },
        ),
        OperationContract::adopted(
            "api.entity-list.response",
            "GET /api/v1/entities response",
            ContractSurface::Api,
            "GET /api/v1/entities",
            ContractDirection::Serialize,
            ContractStrictness::DenyUnknownFields,
            "urn:kanban-tool:schema:api:entity-list-response:v1",
            "schemas/fixtures/api/entity-list-response.v1.valid.json",
            server_route_test("suite::entity_adoption::entity_list_response_fixture_is_produced_by_real_router"),
            server_route_test("suite::entity_adoption::entity_list_response_fixture_is_consumed_by_contract_root"),
            ContractTransport::Http { operation_key: Some("GET /api/v1/entities"), location: HttpTransportLocation::Success, parameters: &[] },
        ),
        OperationContract::adopted(
            "api.entity.path",
            "GET /api/v1/entities/:uri path",
            ContractSurface::Api,
            "GET /api/v1/entities/:uri",
            ContractDirection::Deserialize,
            ContractStrictness::DenyUnknownFields,
            "urn:kanban-tool:schema:api:entity-path:v1",
            "schemas/fixtures/api/entity-path.v1.valid.json",
            server_route_test("suite::entity_adoption::entity_path_dto_serializes_to_committed_fixture"),
            server_route_test("suite::entity_adoption::entity_path_fixture_is_consumed_by_real_router"),
            ContractTransport::Http { operation_key: Some("GET /api/v1/entities/:uri"), location: HttpTransportLocation::Path, parameters: &[WireParameter { name: "uri", cardinality: Some(WireParameterCardinality::RequiredOne) }] },
        ),
        OperationContract::adopted(
            "api.entity.response",
            "GET /api/v1/entities/:uri response",
            ContractSurface::Api,
            "GET /api/v1/entities/:uri",
            ContractDirection::Serialize,
            ContractStrictness::DenyUnknownFields,
            "urn:kanban-tool:schema:api:entity-response:v1",
            "schemas/fixtures/api/entity-response.v1.valid.json",
            server_route_test("suite::entity_adoption::entity_response_fixture_is_produced_by_real_router"),
            server_route_test("suite::entity_adoption::entity_response_fixture_is_consumed_by_contract_root"),
            ContractTransport::Http { operation_key: Some("GET /api/v1/entities/:uri"), location: HttpTransportLocation::Success, parameters: &[] },
        ),
        OperationContract::adopted(
            "api.entity-upsert.request",
            "PUT /api/v1/entities body",
            ContractSurface::Api,
            "PUT /api/v1/entities",
            ContractDirection::Deserialize,
            ContractStrictness::DenyUnknownFields,
            "urn:kanban-tool:schema:api:entity-upsert-request:v1",
            "schemas/fixtures/api/entity-upsert-request.v1.valid.json",
            server_route_test("suite::entity_adoption::entity_upsert_request_dto_serializes_to_committed_fixture"),
            server_route_test("suite::entity_adoption::entity_upsert_request_fixture_is_consumed_by_real_router"),
            ContractTransport::Http { operation_key: Some("PUT /api/v1/entities"), location: HttpTransportLocation::Body, parameters: &[] },
        ),
        OperationContract::adopted(
            "api.entity-upsert.response",
            "PUT /api/v1/entities response",
            ContractSurface::Api,
            "PUT /api/v1/entities",
            ContractDirection::Serialize,
            ContractStrictness::DenyUnknownFields,
            "urn:kanban-tool:schema:api:entity-upsert-response:v1",
            "schemas/fixtures/api/entity-upsert-response.v1.valid.json",
            server_route_test("suite::entity_adoption::entity_upsert_response_fixture_is_produced_by_real_router"),
            server_route_test("suite::entity_adoption::entity_upsert_response_fixture_is_consumed_by_contract_root"),
            ContractTransport::Http { operation_key: Some("PUT /api/v1/entities"), location: HttpTransportLocation::Success, parameters: &[] },
        ),
        OperationContract::adopted(
            "api.vector-status.query",
            "GET /api/v1/vector/status query",
            ContractSurface::Api,
            "GET /api/v1/vector/status",
            ContractDirection::Deserialize,
            ContractStrictness::DenyUnknownFields,
            "urn:kanban-tool:schema:api:vector-status-query:v1",
            "schemas/fixtures/api/vector-status-query.v1.valid.json",
            server_route_test("suite::derived_adoption::vector_status_query_dto_serializes_to_committed_fixture"),
            server_route_test("suite::derived_adoption::vector_status_query_fixture_is_consumed_by_real_router"),
            ContractTransport::Http { operation_key: Some("GET /api/v1/vector/status"), location: HttpTransportLocation::Query, parameters: &[WireParameter { name: "board", cardinality: Some(WireParameterCardinality::OptionalOne) }] },
        ),
        OperationContract::adopted(
            "api.vector-status.response",
            "GET /api/v1/vector/status response",
            ContractSurface::Api,
            "GET /api/v1/vector/status",
            ContractDirection::Serialize,
            ContractStrictness::DenyUnknownFields,
            "urn:kanban-tool:schema:api:vector-status-response:v1",
            "schemas/fixtures/api/vector-status-response.v1.valid.json",
            server_route_test("suite::derived_adoption::vector_status_response_fixture_is_produced_by_real_router"),
            server_route_test("suite::derived_adoption::vector_status_response_fixture_is_consumed_by_contract_root"),
            ContractTransport::Http { operation_key: Some("GET /api/v1/vector/status"), location: HttpTransportLocation::Success, parameters: &[] },
        ),
        OperationContract::adopted(
            "api.vector-configure.request",
            "POST /api/v1/vector/configure request",
            ContractSurface::Api,
            "POST /api/v1/vector/configure",
            ContractDirection::Deserialize,
            ContractStrictness::DenyUnknownFields,
            "urn:kanban-tool:schema:api:vector-configure-request:v1",
            "schemas/fixtures/api/vector-configure-request.v1.valid.json",
            client_test("operations::vector::tests::vector_configure_request_fixture_is_produced"),
            server_route_test("vector::tests::vector_configure_request_fixture_is_consumed_by_real_router"),
            ContractTransport::Http { operation_key: Some("POST /api/v1/vector/configure"), location: HttpTransportLocation::Body, parameters: &[] },
        ),
        OperationContract::adopted(
            "api.vector-configure.response",
            "POST /api/v1/vector/configure response",
            ContractSurface::Api,
            "POST /api/v1/vector/configure",
            ContractDirection::Serialize,
            ContractStrictness::DenyUnknownFields,
            "urn:kanban-tool:schema:api:vector-configure-response:v1",
            "schemas/fixtures/api/vector-configure-response.v1.valid.json",
            server_route_test("vector::tests::vector_configure_response_fixture_is_produced_by_real_router"),
            client_test("operations::vector::tests::vector_configure_response_fixture_is_consumed_by_client"),
            ContractTransport::Http { operation_key: Some("POST /api/v1/vector/configure"), location: HttpTransportLocation::Success, parameters: &[] },
        ),
        OperationContract::adopted(
            "api.vector-rebuild.request",
            "POST /api/v1/vector/rebuild request",
            ContractSurface::Api,
            "POST /api/v1/vector/rebuild",
            ContractDirection::Deserialize,
            ContractStrictness::DenyUnknownFields,
            "urn:kanban-tool:schema:api:vector-rebuild-request:v1",
            "schemas/fixtures/api/vector-rebuild-request.v1.valid.json",
            client_test("operations::vector::tests::vector_rebuild_request_fixture_is_produced"),
            server_route_test("vector::tests::vector_rebuild_request_fixture_is_consumed_by_real_router"),
            ContractTransport::Http { operation_key: Some("POST /api/v1/vector/rebuild"), location: HttpTransportLocation::Body, parameters: &[] },
        ),
        OperationContract::adopted(
            "api.vector-rebuild.response",
            "POST /api/v1/vector/rebuild response",
            ContractSurface::Api,
            "POST /api/v1/vector/rebuild",
            ContractDirection::Serialize,
            ContractStrictness::DenyUnknownFields,
            "urn:kanban-tool:schema:api:vector-rebuild-response:v1",
            "schemas/fixtures/api/vector-rebuild-response.v1.valid.json",
            server_route_test("vector::tests::vector_rebuild_response_fixture_is_produced_by_real_router"),
            client_test("operations::vector::tests::vector_rebuild_response_fixture_is_consumed_by_client"),
            ContractTransport::Http { operation_key: Some("POST /api/v1/vector/rebuild"), location: HttpTransportLocation::Success, parameters: &[] },
        ),
        OperationContract::adopted(
            "api.vector-sync.request",
            "POST /api/v1/vector/sync request",
            ContractSurface::Api,
            "POST /api/v1/vector/sync",
            ContractDirection::Deserialize,
            ContractStrictness::DenyUnknownFields,
            "urn:kanban-tool:schema:api:vector-sync-request:v1",
            "schemas/fixtures/api/vector-sync-request.v1.valid.json",
            client_test("operations::vector::tests::vector_sync_request_fixture_is_produced"),
            server_route_test("vector::tests::vector_sync_request_fixture_is_consumed_by_real_router"),
            ContractTransport::Http { operation_key: Some("POST /api/v1/vector/sync"), location: HttpTransportLocation::Body, parameters: &[] },
        ),
        OperationContract::adopted(
            "api.vector-sync.response",
            "POST /api/v1/vector/sync response",
            ContractSurface::Api,
            "POST /api/v1/vector/sync",
            ContractDirection::Serialize,
            ContractStrictness::DenyUnknownFields,
            "urn:kanban-tool:schema:api:vector-sync-response:v1",
            "schemas/fixtures/api/vector-sync-response.v1.valid.json",
            server_route_test("vector::tests::vector_sync_response_fixture_is_produced_by_real_router"),
            client_test("operations::vector::tests::vector_sync_response_fixture_is_consumed_by_client"),
            ContractTransport::Http { operation_key: Some("POST /api/v1/vector/sync"), location: HttpTransportLocation::Success, parameters: &[] },
        ),
        OperationContract::adopted(
            "api.vector-query-chunks.query",
            "GET /api/v1/vector/query-chunks query",
            ContractSurface::Api,
            "GET /api/v1/vector/query-chunks",
            ContractDirection::Deserialize,
            ContractStrictness::DenyUnknownFields,
            "urn:kanban-tool:schema:api:vector-query-chunks-query:v1",
            "schemas/fixtures/api/vector-query-chunks-query.v1.valid.json",
            client_test("operations::vector::tests::vector_query_chunks_query_fixture_is_produced"),
            server_route_test("vector::tests::vector_query_chunks_query_fixture_is_consumed_by_real_router"),
            ContractTransport::Http { operation_key: Some("GET /api/v1/vector/query-chunks"), location: HttpTransportLocation::Query, parameters: &[WireParameter { name: "board", cardinality: Some(WireParameterCardinality::OptionalOne) }, WireParameter { name: "q", cardinality: Some(WireParameterCardinality::RequiredOne) }, WireParameter { name: "limit", cardinality: Some(WireParameterCardinality::OptionalOne) }, WireParameter { name: "embedding_model", cardinality: Some(WireParameterCardinality::OptionalOne) }, WireParameter { name: "polarity", cardinality: Some(WireParameterCardinality::OptionalOne) }, WireParameter { name: "include_vector", cardinality: Some(WireParameterCardinality::OptionalOne) }] },
        ),
        OperationContract::adopted(
            "api.vector-query-chunks.response",
            "GET /api/v1/vector/query-chunks response",
            ContractSurface::Api,
            "GET /api/v1/vector/query-chunks",
            ContractDirection::Serialize,
            ContractStrictness::DenyUnknownFields,
            "urn:kanban-tool:schema:api:vector-query-chunks-response:v1",
            "schemas/fixtures/api/vector-query-chunks-response.v1.valid.json",
            server_route_test("vector::tests::vector_query_chunks_response_fixture_is_produced_by_real_router"),
            client_test("operations::vector::tests::vector_query_chunks_response_fixture_is_consumed_by_client"),
            ContractTransport::Http { operation_key: Some("GET /api/v1/vector/query-chunks"), location: HttpTransportLocation::Success, parameters: &[] },
        ),
        OperationContract::adopted(
            "api.vector-query-label-atoms.query",
            "GET /api/v1/vector/query-label-atoms query",
            ContractSurface::Api,
            "GET /api/v1/vector/query-label-atoms",
            ContractDirection::Deserialize,
            ContractStrictness::DenyUnknownFields,
            "urn:kanban-tool:schema:api:vector-query-label-atoms-query:v1",
            "schemas/fixtures/api/vector-query-label-atoms-query.v1.valid.json",
            client_test("operations::vector::tests::vector_query_label_atoms_query_fixture_is_produced"),
            server_route_test("vector::tests::vector_query_label_atoms_query_fixture_is_consumed_by_real_router"),
            ContractTransport::Http { operation_key: Some("GET /api/v1/vector/query-label-atoms"), location: HttpTransportLocation::Query, parameters: &[WireParameter { name: "board", cardinality: Some(WireParameterCardinality::OptionalOne) }, WireParameter { name: "q", cardinality: Some(WireParameterCardinality::RequiredOne) }, WireParameter { name: "limit", cardinality: Some(WireParameterCardinality::OptionalOne) }, WireParameter { name: "embedding_model", cardinality: Some(WireParameterCardinality::OptionalOne) }, WireParameter { name: "polarity", cardinality: Some(WireParameterCardinality::OptionalOne) }, WireParameter { name: "include_vector", cardinality: Some(WireParameterCardinality::OptionalOne) }] },
        ),
        OperationContract::adopted(
            "api.vector-query-label-atoms.response",
            "GET /api/v1/vector/query-label-atoms response",
            ContractSurface::Api,
            "GET /api/v1/vector/query-label-atoms",
            ContractDirection::Serialize,
            ContractStrictness::DenyUnknownFields,
            "urn:kanban-tool:schema:api:vector-query-label-atoms-response:v1",
            "schemas/fixtures/api/vector-query-label-atoms-response.v1.valid.json",
            server_route_test("vector::tests::vector_query_label_atoms_response_fixture_is_produced_by_real_router"),
            client_test("operations::vector::tests::vector_query_label_atoms_response_fixture_is_consumed_by_client"),
            ContractTransport::Http { operation_key: Some("GET /api/v1/vector/query-label-atoms"), location: HttpTransportLocation::Success, parameters: &[] },
        ),
        OperationContract::adopted(
            "api.list-events.query",
            "GET /api/v1/events query",
            ContractSurface::Api,
            "GET /api/v1/events",
            ContractDirection::Deserialize,
            ContractStrictness::DenyUnknownFields,
            "urn:kanban-tool:schema:api:list-events-query:v1",
            "schemas/fixtures/api/list-events-query.v1.valid.json",
            server_route_test("suite::derived_adoption::list_events_query_dto_serializes_to_committed_fixture"),
            server_route_test("suite::derived_adoption::list_events_query_fixture_is_consumed_by_real_router"),
            ContractTransport::Http { operation_key: Some("GET /api/v1/events"), location: HttpTransportLocation::Query, parameters: &[WireParameter { name: "board", cardinality: Some(WireParameterCardinality::OptionalOne) }, WireParameter { name: "task_id", cardinality: Some(WireParameterCardinality::OptionalOne) }, WireParameter { name: "after", cardinality: Some(WireParameterCardinality::OptionalOne) }, WireParameter { name: "limit", cardinality: Some(WireParameterCardinality::OptionalOne) }] },
        ),
        OperationContract::adopted(
            "api.list-dependencies.path",
            "GET /api/v1/tasks/:task_id/dependencies path",
            ContractSurface::Api,
            "GET /api/v1/tasks/:task_id/dependencies",
            ContractDirection::Deserialize,
            ContractStrictness::DenyUnknownFields,
            "urn:kanban-tool:schema:api:list-dependencies-path:v1",
            "schemas/fixtures/api/list-dependencies-path.v1.valid.json",
            server_route_test("suite::execution_adoption::list_dependencies_path_dto_serializes_to_committed_fixture"),
            server_route_test("suite::execution_adoption::list_dependencies_path_fixture_is_consumed_by_real_router"),
            ContractTransport::Http { operation_key: Some("GET /api/v1/tasks/:task_id/dependencies"), location: HttpTransportLocation::Path, parameters: &[WireParameter { name: "task_id", cardinality: Some(WireParameterCardinality::RequiredOne) }] },
        ),
        OperationContract::adopted(
            "api.list-dependencies.response",
            "GET /api/v1/tasks/:task_id/dependencies response",
            ContractSurface::Api,
            "GET /api/v1/tasks/:task_id/dependencies",
            ContractDirection::Serialize,
            ContractStrictness::DenyUnknownFields,
            "urn:kanban-tool:schema:api:list-dependencies-response:v1",
            "schemas/fixtures/api/list-dependencies-response.v1.valid.json",
            server_route_test("suite::execution_adoption::list_dependencies_response_fixture_is_produced_by_real_router"),
            server_route_test("suite::execution_adoption::list_dependencies_response_fixture_is_consumed_by_contract_root"),
            ContractTransport::Http { operation_key: Some("GET /api/v1/tasks/:task_id/dependencies"), location: HttpTransportLocation::Success, parameters: &[] },
        ),
        OperationContract::adopted(
            "api.add-dependency.path",
            "POST /api/v1/tasks/:task_id/dependencies path",
            ContractSurface::Api,
            "POST /api/v1/tasks/:task_id/dependencies",
            ContractDirection::Deserialize,
            ContractStrictness::DenyUnknownFields,
            "urn:kanban-tool:schema:api:add-dependency-path:v1",
            "schemas/fixtures/api/add-dependency-path.v1.valid.json",
            server_route_test("suite::execution_adoption::add_dependency_path_dto_serializes_to_committed_fixture"),
            server_route_test("suite::execution_adoption::add_dependency_path_fixture_is_consumed_by_real_router"),
            ContractTransport::Http { operation_key: Some("POST /api/v1/tasks/:task_id/dependencies"), location: HttpTransportLocation::Path, parameters: &[WireParameter { name: "task_id", cardinality: Some(WireParameterCardinality::RequiredOne) }] },
        ),
        OperationContract::adopted(
            "api.add-dependency.response",
            "POST /api/v1/tasks/:task_id/dependencies response",
            ContractSurface::Api,
            "POST /api/v1/tasks/:task_id/dependencies",
            ContractDirection::Serialize,
            ContractStrictness::DenyUnknownFields,
            "urn:kanban-tool:schema:api:add-dependency-response:v1",
            "schemas/fixtures/api/add-dependency-response.v1.valid.json",
            server_route_test("suite::execution_adoption::add_dependency_response_fixture_is_produced_by_real_router"),
            server_route_test("suite::execution_adoption::add_dependency_response_fixture_is_consumed_by_contract_root"),
            ContractTransport::Http { operation_key: Some("POST /api/v1/tasks/:task_id/dependencies"), location: HttpTransportLocation::Success, parameters: &[] },
        ),
        OperationContract::adopted(
            "api.remove-dependency.path",
            "DELETE /api/v1/tasks/:child_task_id/dependencies/:parent_task_id path",
            ContractSurface::Api,
            "DELETE /api/v1/tasks/:child_task_id/dependencies/:parent_task_id",
            ContractDirection::Deserialize,
            ContractStrictness::DenyUnknownFields,
            "urn:kanban-tool:schema:api:remove-dependency-path:v1",
            "schemas/fixtures/api/remove-dependency-path.v1.valid.json",
            server_route_test("suite::execution_adoption::remove_dependency_path_dto_serializes_to_committed_fixture"),
            server_route_test("suite::execution_adoption::remove_dependency_path_fixture_is_consumed_by_real_router"),
            ContractTransport::Http { operation_key: Some("DELETE /api/v1/tasks/:child_task_id/dependencies/:parent_task_id"), location: HttpTransportLocation::Path, parameters: &[WireParameter { name: "child_task_id", cardinality: Some(WireParameterCardinality::RequiredOne) }, WireParameter { name: "parent_task_id", cardinality: Some(WireParameterCardinality::RequiredOne) }] },
        ),
        OperationContract::adopted(
            "api.remove-dependency.response",
            "DELETE /api/v1/tasks/:child_task_id/dependencies/:parent_task_id response",
            ContractSurface::Api,
            "DELETE /api/v1/tasks/:child_task_id/dependencies/:parent_task_id",
            ContractDirection::Serialize,
            ContractStrictness::DenyUnknownFields,
            "urn:kanban-tool:schema:api:remove-dependency-response:v1",
            "schemas/fixtures/api/remove-dependency-response.v1.valid.json",
            server_route_test("suite::execution_adoption::remove_dependency_response_fixture_is_produced_by_real_router"),
            server_route_test("suite::execution_adoption::remove_dependency_response_fixture_is_consumed_by_contract_root"),
            ContractTransport::Http { operation_key: Some("DELETE /api/v1/tasks/:child_task_id/dependencies/:parent_task_id"), location: HttpTransportLocation::Success, parameters: &[] },
        ),
        OperationContract::adopted(
            "api.mark-execution-plan-not-required.path",
            "POST /api/v1/tasks/:task_id/execution-plan/not-required path",
            ContractSurface::Api,
            "POST /api/v1/tasks/:task_id/execution-plan/not-required",
            ContractDirection::Deserialize,
            ContractStrictness::DenyUnknownFields,
            "urn:kanban-tool:schema:api:mark-execution-plan-not-required-path:v1",
            "schemas/fixtures/api/mark-execution-plan-not-required-path.v1.valid.json",
            server_route_test("suite::execution_adoption::mark_plan_path_dto_serializes_to_committed_fixture"),
            server_route_test("suite::execution_adoption::mark_plan_path_fixture_is_consumed_by_real_router"),
            ContractTransport::Http { operation_key: Some("POST /api/v1/tasks/:task_id/execution-plan/not-required"), location: HttpTransportLocation::Path, parameters: &[WireParameter { name: "task_id", cardinality: Some(WireParameterCardinality::RequiredOne) }] },
        ),
        OperationContract::adopted(
            "api.mark-execution-plan-not-required.request",
            "POST /api/v1/tasks/:task_id/execution-plan/not-required body",
            ContractSurface::Api,
            "POST /api/v1/tasks/:task_id/execution-plan/not-required",
            ContractDirection::Deserialize,
            ContractStrictness::DenyUnknownFields,
            "urn:kanban-tool:schema:api:mark-execution-plan-not-required-request:v1",
            "schemas/fixtures/api/mark-execution-plan-not-required-request.v1.valid.json",
            server_route_test("suite::execution_adoption::mark_plan_request_dto_serializes_to_committed_fixture"),
            server_route_test("suite::execution_adoption::mark_plan_request_fixture_is_consumed_by_real_router"),
            ContractTransport::Http { operation_key: Some("POST /api/v1/tasks/:task_id/execution-plan/not-required"), location: HttpTransportLocation::Body, parameters: &[] },
        ),
        OperationContract::adopted(
            "api.mark-execution-plan-not-required.response",
            "POST /api/v1/tasks/:task_id/execution-plan/not-required response",
            ContractSurface::Api,
            "POST /api/v1/tasks/:task_id/execution-plan/not-required",
            ContractDirection::Serialize,
            ContractStrictness::DenyUnknownFields,
            "urn:kanban-tool:schema:api:mark-execution-plan-not-required-response:v1",
            "schemas/fixtures/api/mark-execution-plan-not-required-response.v1.valid.json",
            server_route_test("suite::execution_adoption::mark_plan_response_fixture_is_produced_by_real_router"),
            server_route_test("suite::execution_adoption::mark_plan_response_fixture_is_consumed_by_contract_root"),
            ContractTransport::Http { operation_key: Some("POST /api/v1/tasks/:task_id/execution-plan/not-required"), location: HttpTransportLocation::Success, parameters: &[] },
        ),
        OperationContract::adopted(
            "api.get-run-log.path",
            "GET /api/v1/runs/:run_id/log path",
            ContractSurface::Api,
            "GET /api/v1/runs/:run_id/log",
            ContractDirection::Deserialize,
            ContractStrictness::DenyUnknownFields,
            "urn:kanban-tool:schema:api:get-run-log-path:v1",
            "schemas/fixtures/api/get-run-log-path.v1.valid.json",
            server_route_test("suite::execution_adoption::get_run_log_path_dto_serializes_to_committed_fixture"),
            server_route_test("suite::execution_adoption::get_run_log_path_fixture_is_consumed_by_real_router"),
            ContractTransport::Http { operation_key: Some("GET /api/v1/runs/:run_id/log"), location: HttpTransportLocation::Path, parameters: &[WireParameter { name: "run_id", cardinality: Some(WireParameterCardinality::RequiredOne) }] },
        ),
        OperationContract::adopted(
            "api.get-run-log.response",
            "GET /api/v1/runs/:run_id/log response",
            ContractSurface::Api,
            "GET /api/v1/runs/:run_id/log",
            ContractDirection::Serialize,
            ContractStrictness::DenyUnknownFields,
            "urn:kanban-tool:schema:api:get-run-log-response:v1",
            "schemas/fixtures/api/get-run-log-response.v1.valid.json",
            server_route_test("suite::execution_adoption::get_run_log_response_fixture_is_produced_by_real_router"),
            server_route_test("suite::execution_adoption::get_run_log_response_fixture_is_consumed_by_contract_root"),
            ContractTransport::Http { operation_key: Some("GET /api/v1/runs/:run_id/log"), location: HttpTransportLocation::Success, parameters: &[] },
        ),
        OperationContract::adopted(
            "api.doctor.response",
            "GET /api/v1/maintenance/doctor response",
            ContractSurface::Api,
            "GET /api/v1/maintenance/doctor",
            ContractDirection::Serialize,
            ContractStrictness::DenyUnknownFields,
            "urn:kanban-tool:schema:api:doctor-response:v1",
            "schemas/fixtures/api/doctor-response.v1.valid.json",
            server_route_test("suite::maintenance_adoption::doctor_response_maps_real_non_default_report_before_fixture_normalization"),
            server_route_test("suite::maintenance_adoption::doctor_response_contract_consumes_producer_fixture"),
            ContractTransport::Http { operation_key: Some("GET /api/v1/maintenance/doctor"), location: HttpTransportLocation::Success, parameters: &[] },
        ),
    ]
}

/// Historical inventory rows 120 to 159.
fn legacy_rows_3_vec() -> (r: Vec<OperationContract>)
    ensures
        r@ == legacy_rows_3(),
{
    reveal(legacy_rows_3);
    let r = vec![
        OperationContract::adopted(
            "api.graph-status.response",
            "GET /api/v1/graph/status response",
            ContractSurface::Api,
            "GET /api/v1/graph/status",
            ContractDirection::Serialize,
            ContractStrictness::DenyUnknownFields,
            "urn:kanban-tool:schema:api:graph-status-response:v1",
            "schemas/fixtures/api/graph-status-response.v1.valid.json",
            server_route_test("suite::derived_adoption::graph_status_response_fixture_is_produced_by_real_router"),
            server_route_test("suite::derived_adoption::graph_status_response_fixture_is_consumed_by_contract_root"),
            ContractTransport::Http { operation_key: Some("GET /api/v1/graph/status"), location: HttpTransportLocation::Success, parameters: &[] },
        ),
        OperationContract::adopted(
            "api.graph-neighbors.query",
            "GET /api/v1/graph/neighbors query",
            ContractSurface::Api,
            "GET /api/v1/graph/neighbors",
            ContractDirection::Deserialize,
            ContractStrictness::DenyUnknownFields,
            "urn:kanban-tool:schema:api:graph-neighbors-query:v1",
            "schemas/fixtures/api/graph-neighbors-query.v1.valid.json",
            server_route_test("suite::derived_adoption::graph_neighbors_query_dto_serializes_to_committed_fixture"),
            server_route_test("suite::derived_adoption::graph_neighbors_query_fixture_is_consumed_by_real_router"),
            ContractTransport::Http { operation_key: Some("GET /api/v1/graph/neighbors"), location: HttpTransportLocation::Query, parameters: &[WireParameter { name: "board", cardinality: Some(WireParameterCardinality::OptionalOne) }, WireParameter { name: "entity_uri", cardinality: Some(WireParameterCardinality::RequiredOne) }, WireParameter { name: "predicate", cardinality: Some(WireParameterCardinality::OptionalOne) }, WireParameter { name: "limit", cardinality: Some(WireParameterCardinality::OptionalOne) }] },
        ),
        OperationContract::adopted(
            "api.graph-neighbors.response",
            "GET /api/v1/graph/neighbors response",
            ContractSurface::Api,
            "GET /api/v1/graph/neighbors",
            ContractDirection::Serialize,
            ContractStrictness::DenyUnknownFields,
            "urn:kanban-tool:schema:api:graph-neighbors-response:v1",
            "schemas/fixtures/api/graph-neighbors-response.v1.valid.json",
            server_route_test("suite::derived_adoption::graph_neighbors_response_fixture_is_produced_by_real_router"),
            server_route_test("suite::derived_adoption::graph_neighbors_response_fixture_is_consumed_by_contract_root"),
            ContractTransport::Http { operation_key: Some("GET /api/v1/graph/neighbors"), location: HttpTransportLocation::Success, parameters: &[] },
        ),
        OperationContract::adopted(
            "api.graph-query.query",
            "GET /api/v1/graph/query query",
            ContractSurface::Api,
            "GET /api/v1/graph/query",
            ContractDirection::Deserialize,
            ContractStrictness::DenyUnknownFields,
            "urn:kanban-tool:schema:api:graph-query-query:v1",
            "schemas/fixtures/api/graph-query-query.v1.valid.json",
            server_route_test("suite::graph_adoption::graph_query_query_dto_serializes_to_committed_fixture"),
            server_route_test("suite::graph_adoption::graph_query_query_fixture_is_consumed_by_real_router"),
            ContractTransport::Http { operation_key: Some("GET /api/v1/graph/query"), location: HttpTransportLocation::Query, parameters: &[WireParameter { name: "board", cardinality: Some(WireParameterCardinality::OptionalOne) }, WireParameter { name: "query", cardinality: Some(WireParameterCardinality::OptionalOne) }, WireParameter { name: "limit", cardinality: Some(WireParameterCardinality::OptionalOne) }] },
        ),
        OperationContract::adopted(
            "api.graph-query.response",
            "GET /api/v1/graph/query response",
            ContractSurface::Api,
            "GET /api/v1/graph/query",
            ContractDirection::Serialize,
            ContractStrictness::DenyUnknownFields,
            "urn:kanban-tool:schema:api:graph-query-response:v1",
            "schemas/fixtures/api/graph-query-response.v1.valid.json",
            server_route_test("suite::graph_adoption::graph_query_response_fixture_is_produced_by_real_router"),
            server_route_test("suite::graph_adoption::graph_query_response_fixture_is_consumed_by_contract_root"),
            ContractTransport::Http { operation_key: Some("GET /api/v1/graph/query"), location: HttpTransportLocation::Success, parameters: &[] },
        ),
        OperationContract::adopted(
            "api.graph-rebuild.query",
            "POST /api/v1/graph/rebuild query",
            ContractSurface::Api,
            "POST /api/v1/graph/rebuild",
            ContractDirection::Deserialize,
            ContractStrictness::DenyUnknownFields,
            "urn:kanban-tool:schema:api:graph-rebuild-query:v1",
            "schemas/fixtures/api/graph-rebuild-query.v1.valid.json",
            server_route_test("suite::graph_adoption::graph_rebuild_query_dto_serializes_to_committed_fixture"),
            server_route_test("suite::graph_adoption::graph_rebuild_query_fixture_is_consumed_by_real_router"),
            ContractTransport::Http { operation_key: Some("POST /api/v1/graph/rebuild"), location: HttpTransportLocation::Query, parameters: &[WireParameter { name: "board", cardinality: Some(WireParameterCardinality::OptionalOne) }] },
        ),
        OperationContract::adopted(
            "api.graph-rebuild.response",
            "POST /api/v1/graph/rebuild response",
            ContractSurface::Api,
            "POST /api/v1/graph/rebuild",
            ContractDirection::Serialize,
            ContractStrictness::DenyUnknownFields,
            "urn:kanban-tool:schema:api:graph-rebuild-response:v1",
            "schemas/fixtures/api/graph-rebuild-response.v1.valid.json",
            server_route_test("suite::graph_adoption::graph_rebuild_response_fixture_is_produced_by_real_router"),
            server_route_test("suite::graph_adoption::graph_rebuild_response_fixture_is_consumed_by_contract_root"),
            ContractTransport::Http { operation_key: Some("POST /api/v1/graph/rebuild"), location: HttpTransportLocation::Success, parameters: &[] },
        ),
        OperationContract::adopted(
            "api.graph-sync.query",
            "POST /api/v1/graph/sync query",
            ContractSurface::Api,
            "POST /api/v1/graph/sync",
            ContractDirection::Deserialize,
            ContractStrictness::DenyUnknownFields,
            "urn:kanban-tool:schema:api:graph-sync-query:v1",
            "schemas/fixtures/api/graph-sync-query.v1.valid.json",
            server_route_test("suite::graph_adoption::graph_sync_query_dto_serializes_to_committed_fixture"),
            server_route_test("suite::graph_adoption::graph_sync_query_fixture_is_consumed_by_real_router"),
            ContractTransport::Http { operation_key: Some("POST /api/v1/graph/sync"), location: HttpTransportLocation::Query, parameters: &[WireParameter { name: "board", cardinality: Some(WireParameterCardinality::OptionalOne) }] },
        ),
        OperationContract::adopted(
            "api.graph-sync.response",
            "POST /api/v1/graph/sync response",
            ContractSurface::Api,
            "POST /api/v1/graph/sync",
            ContractDirection::Serialize,
            ContractStrictness::DenyUnknownFields,
            "urn:kanban-tool:schema:api:graph-sync-response:v1",
            "schemas/fixtures/api/graph-sync-response.v1.valid.json",
            server_route_test("suite::graph_adoption::graph_sync_response_fixture_is_produced_by_real_router"),
            server_route_test("suite::graph_adoption::graph_sync_response_fixture_is_consumed_by_contract_root"),
            ContractTransport::Http { operation_key: Some("POST /api/v1/graph/sync"), location: HttpTransportLocation::Success, parameters: &[] },
        ),
        OperationContract::adopted(
            "api.entity-list.query",
            "GET /api/v1/entities query",
            ContractSurface::Api,
            "GET /api/v1/entities",
            ContractDirection::Deserialize,
            ContractStrictness::DenyUnknownFields,
            "urn:kanban-tool:schema:api:entity-list-query:v1",
            "schemas/fixtures/api/entity-list-query.v1.valid.json",
            server_route_test("suite::entity_adoption::entity_list_query_dto_serializes_to_committed_fixture"),
            server_route_test("suite::entity_adoption::entity_list_query_fixture_is_consumed_by_real_router"),
            ContractTransport::Http { operation_key: Some("GET /api/v1/entities"), location: HttpTransportLocation::Query, parameters: &[WireParameter { name: "board", cardinality: Some(WireParameterCardinality::OptionalOne) }, WireParameter { name: "kind", cardinality: Some(WireParameterCardinality::OptionalOne) }, WireParameter { name: "limit", cardinality: Some(WireParameterCardinality::OptionalOne) }] },
        ),
        OperationContract::adopted(
            "api.entity-list.response",
            "GET /api/v1/entities response",
            ContractSurface::Api,
            "GET /api/v1/entities",
            ContractDirection::Serialize,
            ContractStrictness::DenyUnknownFields,
            "urn:kanban-tool:schema:api:entity-list-response:v1",
            "schemas/fixtures/api/entity-list-response.v1.valid.json",
            server_route_test("suite::entity_adoption::entity_list_response_fixture_is_produced_by_real_router"),
            server_route_test("suite::entity_adoption::entity_list_response_fixture_is_consumed_by_contract_root"),
            ContractTransport::Http { operation_key: Some("GET /api/v1/entities"), location: HttpTransportLocation::Success, parameters: &[] },
        ),
        OperationContract::adopted(
            "api.entity.path",
            "GET /api/v1/entities/:uri path",
            ContractSurface::Api,
            "GET /api/v1/entities/:uri",
            ContractDirection::Deserialize,
            ContractStrictness::DenyUnknownFields,
            "urn:kanban-tool:schema:api:entity-path:v1",
            "schemas/fixtures/api/entity-path.v1.valid.json",
            server_route_test("suite::entity_adoption::entity_path_dto_serializes_to_committed_fixture"),
            server_route_test("suite::entity_adoption::entity_path_fixture_is_consumed_by_real_router"),
            ContractTransport::Http { operation_key: Some("GET /api/v1/entities/:uri"), location: HttpTransportLocation::Path, parameters: &[WireParameter { name: "uri", cardinality: Some(WireParameterCardinality::RequiredOne) }] },
        ),
        OperationContract::adopted(
            "api.entity.response",
            "GET /api/v1/entities/:uri response",
            ContractSurface::Api,
            "GET /api/v1/entities/:uri",
            ContractDirection::Serialize,
            ContractStrictness::DenyUnknownFields,
            "urn:kanban-tool:schema:api:entity-response:v1",
            "schemas/fixtures/api/entity-response.v1.valid.json",
            server_route_test("suite::entity_adoption::entity_response_fixture_is_produced_by_real_router"),
            server_route_test("suite::entity_adoption::entity_response_fixture_is_consumed_by_contract_root"),
            ContractTransport::Http { operation_key: Some("GET /api/v1/entities/:uri"), location: HttpTransportLocation::Success, parameters: &[] },
        ),
        OperationContract::adopted(
            "api.entity-upsert.request",
            "PUT /api/v1/entities body",
            ContractSurface::Api,
            "PUT /api/v1/entities",
            ContractDirection::Deserialize,
            ContractStrictness::DenyUnknownFields,
            "urn:kanban-tool:schema:api:entity-upsert-request:v1",
            "schemas/fixtures/api/entity-upsert-request.v1.valid.json",
            server_route_test("suite::entity_adoption::entity_upsert_request_dto_serializes_to_committed_fixture"),
            server_route_test("suite::entity_adoption::entity_upsert_request_fixture_is_consumed_by_real_router"),
            ContractTransport::Http { operation_key: Some("PUT /api/v1/entities"), location: HttpTransportLocation::Body, parameters: &[] },
        ),
        OperationContract::adopted(
            "api.entity-upsert.response",
            "PUT /api/v1/entities response",
            ContractSurface::Api,
            "PUT /api/v1/entities",
            ContractDirection::Serialize,
            ContractStrictness::DenyUnknownFields,
            "urn:kanban-tool:schema:api:entity-upsert-response:v1",
            "schemas/fixtures/api/entity-upsert-response.v1.valid.json",
            server_route_test("suite::entity_adoption::entity_upsert_response_fixture_is_produced_by_real_router"),
            server_route_test("suite::entity_adoption::entity_upsert_response_fixture_is_consumed_by_contract_root"),
            ContractTransport::Http { operation_key: Some("PUT /api/v1/entities"), location: HttpTransportLocation::Success, parameters: &[] },
        ),
        OperationContract::adopted(
            "api.vector-status.query",
            "GET /api/v1/vector/status query",
            ContractSurface::Api,
            "GET /api/v1/vector/status",
            ContractDirection::Deserialize,
            ContractStrictness::DenyUnknownFields,
            "urn:kanban-tool:schema:api:vector-status-query:v1",
            "schemas/fixtures/api/vector-status-query.v1.valid.json",
            server_route_test("suite::derived_adoption::vector_status_query_dto_serializes_to_committed_fixture"),
            server_route_test("suite::derived_adoption::vector_status_query_fixture_is_consumed_by_real_router"),
            ContractTransport::Http { operation_key: Some("GET /api/v1/vector/status"), location: HttpTransportLocation::Query, parameters: &[WireParameter { name: "board", cardinality: Some(WireParameterCardinality::OptionalOne) }] },
        ),
        OperationContract::adopted(
            "api.vector-status.response",
            "GET /api/v1/vector/status response",
            ContractSurface::Api,
            "GET /api/v1/vector/status",
            ContractDirection::Serialize,
            ContractStrictness::DenyUnknownFields,
            "urn:kanban-tool:schema:api:vector-status-response:v1",
            "schemas/fixtures/api/vector-status-response.v1.valid.json",
            server_route_test("suite::derived_adoption::vector_status_response_fixture_is_produced_by_real_router"),
            server_route_test("suite::derived_adoption::vector_status_response_fixture_is_consumed_by_contract_root"),
            ContractTransport::Http { operation_key: Some("GET /api/v1/vector/status"), location: HttpTransportLocation::Success, parameters: &[] },
        ),
        OperationContract::adopted(
            "api.vector-configure.request",
            "POST /api/v1/vector/configure request",
            ContractSurface::Api,
            "POST /api/v1/vector/configure",
            ContractDirection::Deserialize,
            ContractStrictness::DenyUnknownFields,
            "urn:kanban-tool:schema:api:vector-configure-request:v1",
            "schemas/fixtures/api/vector-configure-request.v1.valid.json",
            client_test("operations::vector::tests::vector_configure_request_fixture_is_produced"),
            server_route_test("vector::tests::vector_configure_request_fixture_is_consumed_by_real_router"),
            ContractTransport::Http { operation_key: Some("POST /api/v1/vector/configure"), location: HttpTransportLocation::Body, parameters: &[] },
        ),
        OperationContract::adopted(
            "api.vector-configure.response",
            "POST /api/v1/vector/configure response",
            ContractSurface::Api,
            "POST /api/v1/vector/configure",
            ContractDirection::Serialize,
            ContractStrictness::DenyUnknownFields,
            "urn:kanban-tool:schema:api:vector-configure-response:v1",
            "schemas/fixtures/api/vector-configure-response.v1.valid.json",
            server_route_test("vector::tests::vector_configure_response_fixture_is_produced_by_real_router"),
            client_test("operations::vector::tests::vector_configure_response_fixture_is_consumed_by_client"),
            ContractTransport::Http { operation_key: Some("POST /api/v1/vector/configure"), location: HttpTransportLocation::Success, parameters: &[] },
        ),
        OperationContract::adopted(
            "api.vector-rebuild.request",
            "POST /api/v1/vector/rebuild request",
            ContractSurface::Api,
            "POST /api/v1/vector/rebuild",
            ContractDirection::Deserialize,
            ContractStrictness::DenyUnknownFields,
            "urn:kanban-tool:schema:api:vector-rebuild-request:v1",
            "schemas/fixtures/api/vector-rebuild-request.v1.valid.json",
            client_test("operations::vector::tests::vector_rebuild_request_fixture_is_produced"),
            server_route_test("vector::tests::vector_rebuild_request_fixture_is_consumed_by_real_router"),
            ContractTransport::Http { operation_key: Some("POST /api/v1/vector/rebuild"), location: HttpTransportLocation::Body, parameters: &[] },
        ),
        OperationContract::adopted(
            "api.vector-rebuild.response",
            "POST /api/v1/vector/rebuild response",
            ContractSurface::Api,
            "POST /api/v1/vector/rebuild",
            ContractDirection::Serialize,
            ContractStrictness::DenyUnknownFields,
            "urn:kanban-tool:schema:api:vector-rebuild-response:v1",
            "schemas/fixtures/api/vector-rebuild-response.v1.valid.json",
            server_route_test("vector::tests::vector_rebuild_response_fixture_is_produced_by_real_router"),
            client_test("operations::vector::tests::vector_rebuild_response_fixture_is_consumed_by_client"),
            ContractTransport::Http { operation_key: Some("POST /api/v1/vector/rebuild"), location: HttpTransportLocation::Success, parameters: &[] },
        ),
        OperationContract::adopted(
            "api.vector-sync.request",
            "POST /api/v1/vector/sync request",
            ContractSurface::Api,
            "POST /api/v1/vector/sync",
            ContractDirection::Deserialize,
            ContractStrictness::DenyUnknownFields,
            "urn:kanban-tool:schema:api:vector-sync-request:v1",
            "schemas/fixtures/api/vector-sync-request.v1.valid.json",
            client_test("operations::vector::tests::vector_sync_request_fixture_is_produced"),
            server_route_test("vector::tests::vector_sync_request_fixture_is_consumed_by_real_router"),
            ContractTransport::Http { operation_key: Some("POST /api/v1/vector/sync"), location: HttpTransportLocation::Body, parameters: &[] },
        ),
        OperationContract::adopted(
            "api.vector-sync.response",
            "POST /api/v1/vector/sync response",
            ContractSurface::Api,
            "POST /api/v1/vector/sync",
            ContractDirection::Serialize,
            ContractStrictness::DenyUnknownFields,
            "urn:kanban-tool:schema:api:vector-sync-response:v1",
            "schemas/fixtures/api/vector-sync-response.v1.valid.json",
            server_route_test("vector::tests::vector_sync_response_fixture_is_produced_by_real_router"),
            client_test("operations::vector::tests::vector_sync_response_fixture_is_consumed_by_client"),
            ContractTransport::Http { operation_key: Some("POST /api/v1/vector/sync"), location: HttpTransportLocation::Success, parameters: &[] },
        ),
        OperationContract::adopted(
            "api.vector-query-chunks.query",
            "GET /api/v1/vector/query-chunks query",
            ContractSurface::Api,
            "GET /api/v1/vector/query-chunks",
            ContractDirection::Deserialize,
            ContractStrictness::DenyUnknownFields,
            "urn:kanban-tool:schema:api:vector-query-chunks-query:v1",
            "schemas/fixtures/api/vector-query-chunks-query.v1.valid.json",
            client_test("operations::vector::tests::vector_query_chunks_query_fixture_is_produced"),
            server_route_test("vector::tests::vector_query_chunks_query_fixture_is_consumed_by_real_router"),
            ContractTransport::Http { operation_key: Some("GET /api/v1/vector/query-chunks"), location: HttpTransportLocation::Query, parameters: &[WireParameter { name: "board", cardinality: Some(WireParameterCardinality::OptionalOne) }, WireParameter { name: "q", cardinality: Some(WireParameterCardinality::RequiredOne) }, WireParameter { name: "limit", cardinality: Some(WireParameterCardinality::OptionalOne) }, WireParameter { name: "embedding_model", cardinality: Some(WireParameterCardinality::OptionalOne) }, WireParameter { name: "polarity", cardinality: Some(WireParameterCardinality::OptionalOne) }, WireParameter { name: "include_vector", cardinality: Some(WireParameterCardinality::OptionalOne) }] },
        ),
        OperationContract::adopted(
            "api.vector-query-chunks.response",
            "GET /api/v1/vector/query-chunks response",
            ContractSurface::Api,
            "GET /api/v1/vector/query-chunks",
            ContractDirection::Serialize,
            ContractStrictness::DenyUnknownFields,
            "urn:kanban-tool:schema:api:vector-query-chunks-response:v1",
            "schemas/fixtures/api/vector-query-chunks-response.v1.valid.json",
            server_route_test("vector::tests::vector_query_chunks_response_fixture_is_produced_by_real_router"),
            client_test("operations::vector::tests::vector_query_chunks_response_fixture_is_consumed_by_client"),
            ContractTransport::Http { operation_key: Some("GET /api/v1/vector/query-chunks"), location: HttpTransportLocation::Success, parameters: &[] },
        ),
        OperationContract::adopted(
            "api.vector-query-label-atoms.query",
            "GET /api/v1/vector/query-label-atoms query",
            ContractSurface::Api,
            "GET /api/v1/vector/query-label-atoms",
            ContractDirection::Deserialize,
            ContractStrictness::DenyUnknownFields,
            "urn:kanban-tool:schema:api:vector-query-label-atoms-query:v1",
            "schemas/fixtures/api/vector-query-label-atoms-query.v1.valid.json",
            client_test("operations::vector::tests::vector_query_label_atoms_query_fixture_is_produced"),
            server_route_test("vector::tests::vector_query_label_atoms_query_fixture_is_consumed_by_real_router"),
            ContractTransport::Http { operation_key: Some("GET /api/v1/vector/query-label-atoms"), location: HttpTransportLocation::Query, parameters: &[WireParameter { name: "board", cardinality: Some(WireParameterCardinality::OptionalOne) }, WireParameter { name: "q", cardinality: Some(WireParameterCardinality::RequiredOne) }, WireParameter { name: "limit", cardinality: Some(WireParameterCardinality::OptionalOne) }, WireParameter { name: "embedding_model", cardinality: Some(WireParameterCardinality::OptionalOne) }, WireParameter { name: "polarity", cardinality: Some(WireParameterCardinality::OptionalOne) }, WireParameter { name: "include_vector", cardinality: Some(WireParameterCardinality::OptionalOne) }] },
        ),
        OperationContract::adopted(
            "api.vector-query-label-atoms.response",
            "GET /api/v1/vector/query-label-atoms response",
            ContractSurface::Api,
            "GET /api/v1/vector/query-label-atoms",
            ContractDirection::Serialize,
            ContractStrictness::DenyUnknownFields,
            "urn:kanban-tool:schema:api:vector-query-label-atoms-response:v1",
            "schemas/fixtures/api/vector-query-label-atoms-response.v1.valid.json",
            server_route_test("vector::tests::vector_query_label_atoms_response_fixture_is_produced_by_real_router"),
            client_test("operations::vector::tests::vector_query_label_atoms_response_fixture_is_consumed_by_client"),
            ContractTransport::Http { operation_key: Some("GET /api/v1/vector/query-label-atoms"), location: HttpTransportLocation::Success, parameters: &[] },
        ),
        OperationContract::adopted(
            "api.list-events.query",
            "GET /api/v1/events query",
            ContractSurface::Api,
            "GET /api/v1/events",
            ContractDirection::Deserialize,
            ContractStrictness::DenyUnknownFields,
            "urn:kanban-tool:schema:api:list-events-query:v1",
            "schemas/fixtures/api/list-events-query.v1.valid.json",
            server_route_test("suite::derived_adoption::list_events_query_dto_serializes_to_committed_fixture"),
            server_route_test("suite::derived_adoption::list_events_query_fixture_is_consumed_by_real_router"),
            ContractTransport::Http { operation_key: Some("GET /api/v1/events"), location: HttpTransportLocation::Query, parameters: &[WireParameter { name: "board", cardinality: Some(WireParameterCardinality::OptionalOne) }, WireParameter { name: "task_id", cardinality: Some(WireParameterCardinality::OptionalOne) }, WireParameter { name: "after", cardinality: Some(WireParameterCardinality::OptionalOne) }, WireParameter { name: "limit", cardinality: Some(WireParameterCardinality::OptionalOne) }] },
        ),
        OperationContract::adopted(
            "api.list-dependencies.path",
            "GET /api/v1/tasks/:task_id/dependencies path",
            ContractSurface::Api,
            "GET /api/v1/tasks/:task_id/dependencies",
            ContractDirection::Deserialize,
            ContractStrictness::DenyUnknownFields,
            "urn:kanban-tool:schema:api:list-dependencies-path:v1",
            "schemas/fixtures/api/list-dependencies-path.v1.valid.json",
            server_route_test("suite::execution_adoption::list_dependencies_path_dto_serializes_to_committed_fixture"),
            server_route_test("suite::execution_adoption::list_dependencies_path_fixture_is_consumed_by_real_router"),
            ContractTransport::Http { operation_key: Some("GET /api/v1/tasks/:task_id/dependencies"), location: HttpTransportLocation::Path, parameters: &[WireParameter { name: "task_id", cardinality: Some(WireParameterCardinality::RequiredOne) }] },
        ),
        OperationContract::adopted(
            "api.list-dependencies.response",
            "GET /api/v1/tasks/:task_id/dependencies response",
            ContractSurface::Api,
            "GET /api/v1/tasks/:task_id/dependencies",
            ContractDirection::Serialize,
            ContractStrictness::DenyUnknownFields,
            "urn:kanban-tool:schema:api:list-dependencies-response:v1",
            "schemas/fixtures/api/list-dependencies-response.v1.valid.json",
            server_route_test("suite::execution_adoption::list_dependencies_response_fixture_is_produced_by_real_router"),
            server_route_test("suite::execution_adoption::list_dependencies_response_fixture_is_consumed_by_contract_root"),
            ContractTransport::Http { operation_key: Some("GET /api/v1/tasks/:task_id/dependencies"), location: HttpTransportLocation::Success, parameters: &[] },
        ),
        OperationContract::adopted(
            "api.add-dependency.path",
            "POST /api/v1/tasks/:task_id/dependencies path",
            ContractSurface::Api,
            "POST /api/v1/tasks/:task_id/dependencies",
            ContractDirection::Deserialize,
            ContractStrictness::DenyUnknownFields,
            "urn:kanban-tool:schema:api:add-dependency-path:v1",
            "schemas/fixtures/api/add-dependency-path.v1.valid.json",
            server_route_test("suite::execution_adoption::add_dependency_path_dto_serializes_to_committed_fixture"),
            server_route_test("suite::execution_adoption::add_dependency_path_fixture_is_consumed_by_real_router"),
            ContractTransport::Http { operation_key: Some("POST /api/v1/tasks/:task_id/dependencies"), location: HttpTransportLocation::Path, parameters: &[WireParameter { name: "task_id", cardinality: Some(WireParameterCardinality::RequiredOne) }] },
        ),
        OperationContract::adopted(
            "api.add-dependency.response",
            "POST /api/v1/tasks/:task_id/dependencies response",
            ContractSurface::Api,
            "POST /api/v1/tasks/:task_id/dependencies",
            ContractDirection::Serialize,
            ContractStrictness::DenyUnknownFields,
            "urn:kanban-tool:schema:api:add-dependency-response:v1",
            "schemas/fixtures/api/add-dependency-response.v1.valid.json",
            server_route_test("suite::execution_adoption::add_dependency_response_fixture_is_produced_by_real_router"),
            server_route_test("suite::execution_adoption::add_dependency_response_fixture_is_consumed_by_contract_root"),
            ContractTransport::Http { operation_key: Some("POST /api/v1/tasks/:task_id/dependencies"), location: HttpTransportLocation::Success, parameters: &[] },
        ),
        OperationContract::adopted(
            "api.remove-dependency.path",
            "DELETE /api/v1/tasks/:child_task_id/dependencies/:parent_task_id path",
            ContractSurface::Api,
            "DELETE /api/v1/tasks/:child_task_id/dependencies/:parent_task_id",
            ContractDirection::Deserialize,
            ContractStrictness::DenyUnknownFields,
            "urn:kanban-tool:schema:api:remove-dependency-path:v1",
            "schemas/fixtures/api/remove-dependency-path.v1.valid.json",
            server_route_test("suite::execution_adoption::remove_dependency_path_dto_serializes_to_committed_fixture"),
            server_route_test("suite::execution_adoption::remove_dependency_path_fixture_is_consumed_by_real_router"),
            ContractTransport::Http { operation_key: Some("DELETE /api/v1/tasks/:child_task_id/dependencies/:parent_task_id"), location: HttpTransportLocation::Path, parameters: &[WireParameter { name: "child_task_id", cardinality: Some(WireParameterCardinality::RequiredOne) }, WireParameter { name: "parent_task_id", cardinality: Some(WireParameterCardinality::RequiredOne) }] },
        ),
        OperationContract::adopted(
            "api.remove-dependency.response",
            "DELETE /api/v1/tasks/:child_task_id/dependencies/:parent_task_id response",
            ContractSurface::Api,
            "DELETE /api/v1/tasks/:child_task_id/dependencies/:parent_task_id",
            ContractDirection::Serialize,
            ContractStrictness::DenyUnknownFields,
            "urn:kanban-tool:schema:api:remove-dependency-response:v1",
            "schemas/fixtures/api/remove-dependency-response.v1.valid.json",
            server_route_test("suite::execution_adoption::remove_dependency_response_fixture_is_produced_by_real_router"),
            server_route_test("suite::execution_adoption::remove_dependency_response_fixture_is_consumed_by_contract_root"),
            ContractTransport::Http { operation_key: Some("DELETE /api/v1/tasks/:child_task_id/dependencies/:parent_task_id"), location: HttpTransportLocation::Success, parameters: &[] },
        ),
        OperationContract::adopted(
            "api.mark-execution-plan-not-required.path",
            "POST /api/v1/tasks/:task_id/execution-plan/not-required path",
            ContractSurface::Api,
            "POST /api/v1/tasks/:task_id/execution-plan/not-required",
            ContractDirection::Deserialize,
            ContractStrictness::DenyUnknownFields,
            "urn:kanban-tool:schema:api:mark-execution-plan-not-required-path:v1",
            "schemas/fixtures/api/mark-execution-plan-not-required-path.v1.valid.json",
            server_route_test("suite::execution_adoption::mark_plan_path_dto_serializes_to_committed_fixture"),
            server_route_test("suite::execution_adoption::mark_plan_path_fixture_is_consumed_by_real_router"),
            ContractTransport::Http { operation_key: Some("POST /api/v1/tasks/:task_id/execution-plan/not-required"), location: HttpTransportLocation::Path, parameters: &[WireParameter { name: "task_id", cardinality: Some(WireParameterCardinality::RequiredOne) }] },
        ),
        OperationContract::adopted(
            "api.mark-execution-plan-not-required.request",
            "POST /api/v1/tasks/:task_id/execution-plan/not-required body",
            ContractSurface::Api,
            "POST /api/v1/tasks/:task_id/execution-plan/not-required",
            ContractDirection::Deserialize,
            ContractStrictness::DenyUnknownFields,
            "urn:kanban-tool:schema:api:mark-execution-plan-not-required-request:v1",
            "schemas/fixtures/api/mark-execution-plan-not-required-request.v1.valid.json",
            server_route_test("suite::execution_adoption::mark_plan_request_dto_serializes_to_committed_fixture"),
            server_route_test("suite::execution_adoption::mark_plan_request_fixture_is_consumed_by_real_router"),
            ContractTransport::Http { operation_key: Some("POST /api/v1/tasks/:task_id/execution-plan/not-required"), location: HttpTransportLocation::Body, parameters: &[] },
        ),
        OperationContract::adopted(
            "api.mark-execution-plan-not-required.response",
            "POST /api/v1/tasks/:task_id/execution-plan/not-required response",
            ContractSurface::Api,
            "POST /api/v1/tasks/:task_id/execution-plan/not-required",
            ContractDirection::Serialize,
            ContractStrictness::DenyUnknownFields,
            "urn:kanban-tool:schema:api:mark-execution-plan-not-required-response:v1",
            "schemas/fixtures/api/mark-execution-plan-not-required-response.v1.valid.json",
            server_route_test("suite::execution_adoption::mark_plan_response_fixture_is_produced_by_real_router"),
            server_route_test("suite::execution_adoption::mark_plan_response_fixture_is_consumed_by_contract_root"),
            ContractTransport::Http { operation_key: Some("POST /api/v1/tasks/:task_id/execution-plan/not-required"), location: HttpTransportLocation::Success, parameters: &[] },
        ),
        OperationContract::adopted(
            "api.get-run-log.path",
            "GET /api/v1/runs/:run_id/log path",
            ContractSurface::Api,
            "GET /api/v1/runs/:run_id/log",
            ContractDirection::Deserialize,
            ContractStrictness::DenyUnknownFields,
            "urn:kanban-tool:schema:api:get-run-log-path:v1",
            "schemas/fixtures/api/get-run-log-path.v1.valid.json",
            server_route_test("suite::execution_adoption::get_run_log_path_dto_serializes_to_committed_fixture"),
            server_route_test("suite::execution_adoption::get_run_log_path_fixture_is_consumed_by_real_router"),
            ContractTransport::Http { operation_key: Some("GET /api/v1/runs/:run_id/log"), location: HttpTransportLocation::Path, parameters: &[WireParameter { name: "run_id", cardinality: Some(WireParameterCardinality::RequiredOne) }] },
        ),
        OperationContract::adopted(
            "api.get-run-log.response",
            "GET /api/v1/runs/:run_id/log response",
            ContractSurface::Api,
            "GET /api/v1/runs/:run_id/log",
            ContractDirection::Serialize,
            ContractStrictness::DenyUnknownFields,
            "urn:kanban-tool:schema:api:get-run-log-response:v1",
            "schemas/fixtures/api/get-run-log-response.v1.valid.json",
            server_route_test("suite::execution_adoption::get_run_log_response_fixture_is_produced_by_real_router"),
            server_route_test("suite::execution_adoption::get_run_log_response_fixture_is_consumed_by_contract_root"),
            ContractTransport::Http { operation_key: Some("GET /api/v1/runs/:run_id/log"), location: HttpTransportLocation::Success, parameters: &[] },
        ),
        OperationContract::adopted(
            "api.doctor.response",
            "GET /api/v1/maintenance/doctor response",
            ContractSurface::Api,
            "GET /api/v1/maintenance/doctor",
            ContractDirection::Serialize,
            ContractStrictness::DenyUnknownFields,
            "urn:kanban-tool:schema:api:doctor-response:v1",
            "schemas/fixtures/api/doctor-response.v1.valid.json",
            server_route_test("suite::maintenance_adoption::doctor_response_maps_real_non_default_report_before_fixture_normalization"),
            server_route_test("suite::maintenance_adoption::doctor_response_contract_consumes_producer_fixture"),
            ContractTransport::Http { operation_key: Some("GET /api/v1/maintenance/doctor"), location: HttpTransportLocation::Success, parameters: &[] },
        ),
    ];
    assert(r@ =~= legacy_rows_3());
    r
}

/// Historical inventory rows 160 to 199.
#[verifier::opaque]
pub open spec fn legacy_rows_4() -> Seq<OperationContract> {
    seq![
        OperationContract::adopted(
            "api.checkpoint.response",
            "POST /api/v1/maintenance/checkpoint response",
            ContractSurface::Api,
            "POST /api/v1/maintenance/checkpoint",
            ContractDirection::Serialize,
            ContractStrictness::DenyUnknownFields,
            "urn:kanban-tool:schema:api:checkpoint-response:v1",
            "schemas/fixtures/api/checkpoint-response.v1.valid.json",
            server_route_test("suite::maintenance_adoption::checkpoint_response_reports_real_wal_field_relationships"),
            server_route_test("suite::maintenance_adoption::checkpoint_response_contract_consumes_producer_fixture"),
            ContractTransport::Http { operation_key: Some("POST /api/v1/maintenance/checkpoint"), location: HttpTransportLocation::Success, parameters: &[] },
        ),
        OperationContract {
            id: "api.health.response",
            path: "GET /health response",
            surface: ContractSurface::Api,
            operation: "localhost health report",
            direction: ContractDirection::Serialize,
            granularity: ContractGranularity::Exact,
            strictness: ContractStrictness::DenyUnknownFields,
            schema_id: Some("urn:kanban-tool:schema:api:health-response:v1"),
            fixture: Some("schemas/fixtures/api/health-response.v1.valid.json"),
            adoption: Some(AdoptionEvidence { producer_fixture: "schemas/fixtures/api/health-response.v1.valid.json", producer: AdoptionWitness { operation: "GET /health", contract_id: "api.health.response", surface: ContractSurface::Api, direction: ContractDirection::Serialize, package: "kanban-server", test_target: "lib", exact_test: "suite::health::health_response_fixture_is_produced_by_real_router" }, consumer: AdoptionWitness { operation: "GET /health", contract_id: "api.health.response", surface: ContractSurface::Api, direction: ContractDirection::Serialize, package: "kanban-server", test_target: "lib", exact_test: "suite::health::health_response_contract_consumes_producer_fixture" } }),
            exclusion: None,
            migration: MigrationState::Adopted,
            transport: ContractTransport::Http { operation_key: Some("GET /health"), location: HttpTransportLocation::Success, parameters: &[] },
            binding: ContractBinding::ExactSurface,
        },
        OperationContract {
            id: "api.error.response",
            path: "Shared API error response component",
            surface: ContractSurface::Api,
            operation: "stable API error envelope",
            direction: ContractDirection::Serialize,
            granularity: ContractGranularity::Exact,
            strictness: ContractStrictness::DenyUnknownFields,
            schema_id: Some("urn:kanban-tool:schema:api:error-response:v1"),
            fixture: Some("schemas/fixtures/api/error-response.v1.valid.json"),
            adoption: Some(AdoptionEvidence { producer_fixture: "schemas/fixtures/api/error-response.v1.valid.json", producer: AdoptionWitness { operation: "GET /api/v1/boards/:board/tasks", contract_id: "api.error.response", surface: ContractSurface::Api, direction: ContractDirection::Serialize, package: "kanban-server", test_target: "lib", exact_test: "suite::errors::api_error_response_contract_produces_fixture" }, consumer: AdoptionWitness { operation: "GET /api/v1/boards/:board/tasks", contract_id: "api.error.response", surface: ContractSurface::Api, direction: ContractDirection::Serialize, package: "kanban-server", test_target: "lib", exact_test: "suite::errors::api_error_response_contract_consumes_fixture" } }),
            exclusion: None,
            migration: MigrationState::Adopted,
            transport: ContractTransport::Http { operation_key: None, location: HttpTransportLocation::Error, parameters: &[] },
            binding: ContractBinding::SharedComponent,
        },
        OperationContract::adopted(
            "api.list-tasks.path",
            "GET /api/v1/boards/:board/tasks path",
            ContractSurface::Api,
            "GET /api/v1/boards/:board/tasks",
            ContractDirection::Deserialize,
            ContractStrictness::DenyUnknownFields,
            "urn:kanban-tool:schema:api:list-tasks-path:v1",
            "schemas/fixtures/api/list-tasks-path.v1.valid.json",
            server_route_test("suite::task_read_request_adoption::list_tasks_path_dto_serializes_to_committed_fixture"),
            server_route_test("suite::task_read_request_adoption::list_tasks_path_fixture_is_consumed_by_real_router"),
            ContractTransport::Http { operation_key: Some("GET /api/v1/boards/:board/tasks"), location: HttpTransportLocation::Path, parameters: &[WireParameter { name: "board", cardinality: Some(WireParameterCardinality::RequiredOne) }] },
        ),
        OperationContract::adopted(
            "api.list-tasks.query",
            "GET /api/v1/boards/:board/tasks query",
            ContractSurface::Api,
            "GET /api/v1/boards/:board/tasks",
            ContractDirection::Deserialize,
            ContractStrictness::DenyUnknownFields,
            "urn:kanban-tool:schema:api:list-tasks-query:v1",
            "schemas/fixtures/api/list-tasks-query.v1.valid.json",
            server_route_test("suite::task_read_request_adoption::list_tasks_query_dto_serializes_to_committed_fixture"),
            server_route_test("suite::task_read_request_adoption::list_tasks_query_fixture_is_consumed_by_real_router"),
            ContractTransport::Http { operation_key: Some("GET /api/v1/boards/:board/tasks"), location: HttpTransportLocation::Query, parameters: &[WireParameter { name: "status", cardinality: Some(WireParameterCardinality::RepeatedOrdered) }, WireParameter { name: "priority", cardinality: Some(WireParameterCardinality::RepeatedOrdered) }, WireParameter { name: "label", cardinality: Some(WireParameterCardinality::RepeatedOrdered) }, WireParameter { name: "plan_filter", cardinality: Some(WireParameterCardinality::RepeatedOrdered) }, WireParameter { name: "assignee", cardinality: Some(WireParameterCardinality::OptionalOne) }, WireParameter { name: "q", cardinality: Some(WireParameterCardinality::OptionalOne) }, WireParameter { name: "include_archived", cardinality: Some(WireParameterCardinality::OptionalOne) }, WireParameter { name: "limit", cardinality: Some(WireParameterCardinality::OptionalOne) }, WireParameter { name: "offset", cardinality: Some(WireParameterCardinality::OptionalOne) }, WireParameter { name: "sort", cardinality: Some(WireParameterCardinality::OptionalOne) }] },
        ),
        OperationContract::adopted(
            "api.list-tasks-by-status.path",
            "GET /api/v1/boards/:board/tasks/by-status path",
            ContractSurface::Api,
            "GET /api/v1/boards/:board/tasks/by-status",
            ContractDirection::Deserialize,
            ContractStrictness::DenyUnknownFields,
            "urn:kanban-tool:schema:api:list-tasks-by-status-path:v1",
            "schemas/fixtures/api/list-tasks-by-status-path.v1.valid.json",
            server_route_test("http::operations::contract_adoption::suite_tasks_crud_and_reads_use_committed_fixtures_through_router"),
            server_route_test("http::operations::contract_adoption::suite_tasks_crud_and_reads_use_committed_fixtures_through_router"),
            ContractTransport::Http { operation_key: Some("GET /api/v1/boards/:board/tasks/by-status"), location: HttpTransportLocation::Path, parameters: &[WireParameter { name: "board", cardinality: Some(WireParameterCardinality::RequiredOne) }] },
        ),
        OperationContract::adopted(
            "api.list-tasks-by-status.query",
            "GET /api/v1/boards/:board/tasks/by-status query",
            ContractSurface::Api,
            "GET /api/v1/boards/:board/tasks/by-status",
            ContractDirection::Deserialize,
            ContractStrictness::DenyUnknownFields,
            "urn:kanban-tool:schema:api:list-tasks-by-status-query:v1",
            "schemas/fixtures/api/list-tasks-by-status-query.v1.valid.json",
            server_route_test("http::operations::contract_adoption::suite_tasks_crud_and_reads_use_committed_fixtures_through_router"),
            server_route_test("http::operations::contract_adoption::suite_tasks_crud_and_reads_use_committed_fixtures_through_router"),
            ContractTransport::Http { operation_key: Some("GET /api/v1/boards/:board/tasks/by-status"), location: HttpTransportLocation::Query, parameters: &[WireParameter { name: "status", cardinality: Some(WireParameterCardinality::RepeatedOrdered) }, WireParameter { name: "priority", cardinality: Some(WireParameterCardinality::RepeatedOrdered) }, WireParameter { name: "label", cardinality: Some(WireParameterCardinality::RepeatedOrdered) }, WireParameter { name: "plan_filter", cardinality: Some(WireParameterCardinality::RepeatedOrdered) }, WireParameter { name: "assignee", cardinality: Some(WireParameterCardinality::OptionalOne) }, WireParameter { name: "q", cardinality: Some(WireParameterCardinality::OptionalOne) }, WireParameter { name: "include_archived", cardinality: Some(WireParameterCardinality::OptionalOne) }, WireParameter { name: "limit", cardinality: Some(WireParameterCardinality::OptionalOne) }, WireParameter { name: "offset", cardinality: Some(WireParameterCardinality::OptionalOne) }, WireParameter { name: "sort", cardinality: Some(WireParameterCardinality::OptionalOne) }] },
        ),
        OperationContract::adopted(
            "api.list-tasks.response",
            "GET /api/v1/boards/:board/tasks response",
            ContractSurface::Api,
            "GET /api/v1/boards/:board/tasks",
            ContractDirection::Serialize,
            ContractStrictness::DenyUnknownFields,
            "urn:kanban-tool:schema:api:list-tasks-response:v1",
            "schemas/fixtures/api/list-tasks-response.v1.valid.json",
            server_route_test("suite::api_task_component::list_tasks_response_producer_fixture"),
            server_route_test("suite::api_task_component::list_tasks_response_consumer_fixture"),
            ContractTransport::Http { operation_key: Some("GET /api/v1/boards/:board/tasks"), location: HttpTransportLocation::Success, parameters: &[] },
        ),
        OperationContract::adopted(
            "api.list-tasks-by-status.response",
            "GET /api/v1/boards/:board/tasks/by-status response",
            ContractSurface::Api,
            "GET /api/v1/boards/:board/tasks/by-status",
            ContractDirection::Serialize,
            ContractStrictness::DenyUnknownFields,
            "urn:kanban-tool:schema:api:list-tasks-by-status-response:v1",
            "schemas/fixtures/api/list-tasks-by-status-response.v1.valid.json",
            server_route_test("http::operations::contract_adoption::suite_tasks_crud_and_reads_use_committed_fixtures_through_router"),
            server_route_test("http::operations::contract_adoption::suite_tasks_crud_and_reads_use_committed_fixtures_through_router"),
            ContractTransport::Http { operation_key: Some("GET /api/v1/boards/:board/tasks/by-status"), location: HttpTransportLocation::Success, parameters: &[] },
        ),
        OperationContract {
            id: "api.label-semantics-delete.response",
            path: "DELETE /api/v1/boards/:board/labels/:label_id/semantics response",
            surface: ContractSurface::Api,
            operation: "label semantics deletion acknowledgement",
            direction: ContractDirection::Serialize,
            granularity: ContractGranularity::Exact,
            strictness: ContractStrictness::DenyUnknownFields,
            schema_id: Some("urn:kanban-tool:schema:api:delete-response:v1"),
            fixture: Some("schemas/fixtures/api/delete-response.v1.valid.json"),
            adoption: Some(AdoptionEvidence { producer_fixture: "schemas/fixtures/api/delete-response.v1.valid.json", producer: AdoptionWitness { operation: "DELETE /api/v1/boards/:board/labels/:label_id/semantics", contract_id: "api.label-semantics-delete.response", surface: ContractSurface::Api, direction: ContractDirection::Serialize, package: "kanban-server", test_target: "lib", exact_test: "suite::delete_adoption::delete_label_semantics_response_fixture_is_produced_by_real_router" }, consumer: AdoptionWitness { operation: "DELETE /api/v1/boards/:board/labels/:label_id/semantics", contract_id: "api.label-semantics-delete.response", surface: ContractSurface::Api, direction: ContractDirection::Serialize, package: "kanban-server", test_target: "lib", exact_test: "suite::delete_adoption::delete_label_semantics_response_fixture_is_consumed_by_contract_root" } }),
            exclusion: None,
            migration: MigrationState::Adopted,
            transport: ContractTransport::Http { operation_key: Some("DELETE /api/v1/boards/:board/labels/:label_id/semantics"), location: HttpTransportLocation::Success, parameters: &[] },
            binding: ContractBinding::ExactSurface,
        },
        OperationContract::adopted(
            "api.specify-task.path",
            "POST /api/v1/tasks/:task_id/transitions/specify path",
            ContractSurface::Api,
            "POST /api/v1/tasks/:task_id/transitions/specify",
            ContractDirection::Deserialize,
            ContractStrictness::DenyUnknownFields,
            "urn:kanban-tool:schema:api:specify-task-path:v1",
            "schemas/fixtures/api/specify-task-path.v1.valid.json",
            server_route_test("suite::transitions_adoption::specify_task_path_dto_serializes_to_committed_fixture"),
            server_route_test("suite::transitions_adoption::specify_task_path_fixture_is_consumed_by_real_router"),
            ContractTransport::Http { operation_key: Some("POST /api/v1/tasks/:task_id/transitions/specify"), location: HttpTransportLocation::Path, parameters: &[WireParameter { name: "task_id", cardinality: Some(WireParameterCardinality::RequiredOne) }] },
        ),
        OperationContract::adopted(
            "api.specify-task.response",
            "POST /api/v1/tasks/:task_id/transitions/specify response",
            ContractSurface::Api,
            "POST /api/v1/tasks/:task_id/transitions/specify",
            ContractDirection::Serialize,
            ContractStrictness::DenyUnknownFields,
            "urn:kanban-tool:schema:api:specify-task-response:v1",
            "schemas/fixtures/api/specify-task-response.v1.valid.json",
            server_route_test("suite::transitions_adoption::specify_task_response_fixture_is_produced_by_real_router"),
            server_route_test("suite::transitions_adoption::specify_task_response_fixture_is_consumed_by_contract_root"),
            ContractTransport::Http { operation_key: Some("POST /api/v1/tasks/:task_id/transitions/specify"), location: HttpTransportLocation::Success, parameters: &[] },
        ),
        OperationContract::adopted(
            "api.promote-task.path",
            "POST /api/v1/tasks/:task_id/transitions/promote path",
            ContractSurface::Api,
            "POST /api/v1/tasks/:task_id/transitions/promote",
            ContractDirection::Deserialize,
            ContractStrictness::DenyUnknownFields,
            "urn:kanban-tool:schema:api:promote-task-path:v1",
            "schemas/fixtures/api/promote-task-path.v1.valid.json",
            server_route_test("suite::transitions_adoption::promote_task_path_dto_serializes_to_committed_fixture"),
            server_route_test("suite::transitions_adoption::promote_task_path_fixture_is_consumed_by_real_router"),
            ContractTransport::Http { operation_key: Some("POST /api/v1/tasks/:task_id/transitions/promote"), location: HttpTransportLocation::Path, parameters: &[WireParameter { name: "task_id", cardinality: Some(WireParameterCardinality::RequiredOne) }] },
        ),
        OperationContract::adopted(
            "api.promote-task.response",
            "POST /api/v1/tasks/:task_id/transitions/promote response",
            ContractSurface::Api,
            "POST /api/v1/tasks/:task_id/transitions/promote",
            ContractDirection::Serialize,
            ContractStrictness::DenyUnknownFields,
            "urn:kanban-tool:schema:api:promote-task-response:v1",
            "schemas/fixtures/api/promote-task-response.v1.valid.json",
            server_route_test("suite::transitions_adoption::promote_task_response_fixture_is_produced_by_real_router"),
            server_route_test("suite::transitions_adoption::promote_task_response_fixture_is_consumed_by_contract_root"),
            ContractTransport::Http { operation_key: Some("POST /api/v1/tasks/:task_id/transitions/promote"), location: HttpTransportLocation::Success, parameters: &[] },
        ),
        OperationContract::adopted(
            "api.reopen-task.path",
            "POST /api/v1/tasks/:task_id/transitions/reopen path",
            ContractSurface::Api,
            "POST /api/v1/tasks/:task_id/transitions/reopen",
            ContractDirection::Deserialize,
            ContractStrictness::DenyUnknownFields,
            "urn:kanban-tool:schema:api:reopen-task-path:v1",
            "schemas/fixtures/api/reopen-task-path.v1.valid.json",
            server_route_test("suite::transitions_adoption::reopen_task_path_dto_serializes_to_committed_fixture"),
            server_route_test("suite::transitions_adoption::reopen_task_path_fixture_is_consumed_by_real_router"),
            ContractTransport::Http { operation_key: Some("POST /api/v1/tasks/:task_id/transitions/reopen"), location: HttpTransportLocation::Path, parameters: &[WireParameter { name: "task_id", cardinality: Some(WireParameterCardinality::RequiredOne) }] },
        ),
        OperationContract::adopted(
            "api.reopen-task.response",
            "POST /api/v1/tasks/:task_id/transitions/reopen response",
            ContractSurface::Api,
            "POST /api/v1/tasks/:task_id/transitions/reopen",
            ContractDirection::Serialize,
            ContractStrictness::DenyUnknownFields,
            "urn:kanban-tool:schema:api:reopen-task-response:v1",
            "schemas/fixtures/api/reopen-task-response.v1.valid.json",
            server_route_test("suite::transitions_adoption::reopen_task_response_fixture_is_produced_by_real_router"),
            server_route_test("suite::transitions_adoption::reopen_task_response_fixture_is_consumed_by_contract_root"),
            ContractTransport::Http { operation_key: Some("POST /api/v1/tasks/:task_id/transitions/reopen"), location: HttpTransportLocation::Success, parameters: &[] },
        ),
        OperationContract::adopted(
            "api.unblock-task.path",
            "POST /api/v1/tasks/:task_id/transitions/unblock path",
            ContractSurface::Api,
            "POST /api/v1/tasks/:task_id/transitions/unblock",
            ContractDirection::Deserialize,
            ContractStrictness::DenyUnknownFields,
            "urn:kanban-tool:schema:api:unblock-task-path:v1",
            "schemas/fixtures/api/unblock-task-path.v1.valid.json",
            server_route_test("suite::transitions_adoption::unblock_task_path_dto_serializes_to_committed_fixture"),
            server_route_test("suite::transitions_adoption::unblock_task_path_fixture_is_consumed_by_real_router"),
            ContractTransport::Http { operation_key: Some("POST /api/v1/tasks/:task_id/transitions/unblock"), location: HttpTransportLocation::Path, parameters: &[WireParameter { name: "task_id", cardinality: Some(WireParameterCardinality::RequiredOne) }] },
        ),
        OperationContract::adopted(
            "api.unblock-task.response",
            "POST /api/v1/tasks/:task_id/transitions/unblock response",
            ContractSurface::Api,
            "POST /api/v1/tasks/:task_id/transitions/unblock",
            ContractDirection::Serialize,
            ContractStrictness::DenyUnknownFields,
            "urn:kanban-tool:schema:api:unblock-task-response:v1",
            "schemas/fixtures/api/unblock-task-response.v1.valid.json",
            server_route_test("suite::transitions_adoption::unblock_task_response_fixture_is_produced_by_real_router"),
            server_route_test("suite::transitions_adoption::unblock_task_response_fixture_is_consumed_by_contract_root"),
            ContractTransport::Http { operation_key: Some("POST /api/v1/tasks/:task_id/transitions/unblock"), location: HttpTransportLocation::Success, parameters: &[] },
        ),
        OperationContract::adopted(
            "api.archive-task.path",
            "POST /api/v1/tasks/:task_id/transitions/archive path",
            ContractSurface::Api,
            "POST /api/v1/tasks/:task_id/transitions/archive",
            ContractDirection::Deserialize,
            ContractStrictness::DenyUnknownFields,
            "urn:kanban-tool:schema:api:archive-task-path:v1",
            "schemas/fixtures/api/archive-task-path.v1.valid.json",
            server_route_test("suite::transitions_adoption::archive_task_path_dto_serializes_to_committed_fixture"),
            server_route_test("suite::transitions_adoption::archive_task_path_fixture_is_consumed_by_real_router"),
            ContractTransport::Http { operation_key: Some("POST /api/v1/tasks/:task_id/transitions/archive"), location: HttpTransportLocation::Path, parameters: &[WireParameter { name: "task_id", cardinality: Some(WireParameterCardinality::RequiredOne) }] },
        ),
        OperationContract::adopted(
            "api.archive-task.response",
            "POST /api/v1/tasks/:task_id/transitions/archive response",
            ContractSurface::Api,
            "POST /api/v1/tasks/:task_id/transitions/archive",
            ContractDirection::Serialize,
            ContractStrictness::DenyUnknownFields,
            "urn:kanban-tool:schema:api:archive-task-response:v1",
            "schemas/fixtures/api/archive-task-response.v1.valid.json",
            server_route_test("suite::transitions_adoption::archive_task_response_fixture_is_produced_by_real_router"),
            server_route_test("suite::transitions_adoption::archive_task_response_fixture_is_consumed_by_contract_root"),
            ContractTransport::Http { operation_key: Some("POST /api/v1/tasks/:task_id/transitions/archive"), location: HttpTransportLocation::Success, parameters: &[] },
        ),
        OperationContract::adopted(
            "api.specify-task.request",
            "POST /api/v1/tasks/:task_id/transitions/specify",
            ContractSurface::Api,
            "POST /api/v1/tasks/:task_id/transitions/specify",
            ContractDirection::Deserialize,
            ContractStrictness::DenyUnknownFields,
            "urn:kanban-tool:schema:api:specify-task-request:v1",
            "schemas/fixtures/api/specify-task-request.v1.valid.json",
            server_route_test("suite::lifecycle_request_adoption::specify_task_request_dto_serializes_to_committed_fixture"),
            server_route_test("suite::lifecycle_request_adoption::specify_task_request_fixture_is_consumed_by_real_router"),
            ContractTransport::Http { operation_key: Some("POST /api/v1/tasks/:task_id/transitions/specify"), location: HttpTransportLocation::Body, parameters: &[] },
        ),
        OperationContract::adopted(
            "api.promote-task.request",
            "POST /api/v1/tasks/:task_id/transitions/promote",
            ContractSurface::Api,
            "POST /api/v1/tasks/:task_id/transitions/promote",
            ContractDirection::Deserialize,
            ContractStrictness::DenyUnknownFields,
            "urn:kanban-tool:schema:api:promote-task-request:v1",
            "schemas/fixtures/api/promote-task-request.v1.valid.json",
            server_route_test("suite::lifecycle_request_adoption::promote_task_request_dto_serializes_to_committed_fixture"),
            server_route_test("suite::lifecycle_request_adoption::promote_task_request_fixture_is_consumed_by_real_router"),
            ContractTransport::Http { operation_key: Some("POST /api/v1/tasks/:task_id/transitions/promote"), location: HttpTransportLocation::Body, parameters: &[] },
        ),
        OperationContract::adopted(
            "api.claim-task.request",
            "POST /api/v1/tasks/:task_id/transitions/claim",
            ContractSurface::Api,
            "POST /api/v1/tasks/:task_id/transitions/claim",
            ContractDirection::Deserialize,
            ContractStrictness::DenyUnknownFields,
            "urn:kanban-tool:schema:api:claim-task-request:v1",
            "schemas/fixtures/api/claim-task-request.v1.valid.json",
            server_route_test("suite::lifecycle_request_adoption::claim_task_request_dto_serializes_to_committed_fixture"),
            server_route_test("suite::lifecycle_request_adoption::claim_task_request_fixture_is_consumed_by_real_router"),
            ContractTransport::Http { operation_key: Some("POST /api/v1/tasks/:task_id/transitions/claim"), location: HttpTransportLocation::Body, parameters: &[] },
        ),
        OperationContract::adopted(
            "api.claim-task.path",
            "POST /api/v1/tasks/:task_id/transitions/claim path",
            ContractSurface::Api,
            "POST /api/v1/tasks/:task_id/transitions/claim",
            ContractDirection::Deserialize,
            ContractStrictness::DenyUnknownFields,
            "urn:kanban-tool:schema:api:claim-task-path:v1",
            "schemas/fixtures/api/claim-task-path.v1.valid.json",
            server_route_test("suite::transitions_adoption::claim_task_path_dto_serializes_to_committed_fixture"),
            server_route_test("suite::transitions_adoption::claim_task_path_fixture_is_consumed_by_real_router"),
            ContractTransport::Http { operation_key: Some("POST /api/v1/tasks/:task_id/transitions/claim"), location: HttpTransportLocation::Path, parameters: &[WireParameter { name: "task_id", cardinality: Some(WireParameterCardinality::RequiredOne) }] },
        ),
        OperationContract::adopted(
            "api.claim-task.response",
            "POST /api/v1/tasks/:task_id/transitions/claim response",
            ContractSurface::Api,
            "POST /api/v1/tasks/:task_id/transitions/claim",
            ContractDirection::Serialize,
            ContractStrictness::DenyUnknownFields,
            "urn:kanban-tool:schema:api:claim-task-response:v1",
            "schemas/fixtures/api/claim-task-response.v1.valid.json",
            server_route_test("suite::transitions_adoption::claim_task_response_fixture_is_produced_by_real_router"),
            server_route_test("suite::transitions_adoption::claim_task_response_fixture_is_consumed_by_contract_root"),
            ContractTransport::Http { operation_key: Some("POST /api/v1/tasks/:task_id/transitions/claim"), location: HttpTransportLocation::Success, parameters: &[] },
        ),
        OperationContract::adopted(
            "api.reclaim-task.request",
            "POST /api/v1/tasks/:task_id/transitions/reclaim",
            ContractSurface::Api,
            "POST /api/v1/tasks/:task_id/transitions/reclaim",
            ContractDirection::Deserialize,
            ContractStrictness::DenyUnknownFields,
            "urn:kanban-tool:schema:api:reclaim-task-request:v1",
            "schemas/fixtures/api/reclaim-task-request.v1.valid.json",
            server_route_test("suite::lifecycle_request_adoption::reclaim_task_request_dto_serializes_to_committed_fixture"),
            server_route_test("suite::lifecycle_request_adoption::reclaim_task_request_fixture_is_consumed_by_real_router"),
            ContractTransport::Http { operation_key: Some("POST /api/v1/tasks/:task_id/transitions/reclaim"), location: HttpTransportLocation::Body, parameters: &[] },
        ),
        OperationContract::adopted(
            "api.reclaim-task.path",
            "POST /api/v1/tasks/:task_id/transitions/reclaim path",
            ContractSurface::Api,
            "POST /api/v1/tasks/:task_id/transitions/reclaim",
            ContractDirection::Deserialize,
            ContractStrictness::DenyUnknownFields,
            "urn:kanban-tool:schema:api:reclaim-task-path:v1",
            "schemas/fixtures/api/reclaim-task-path.v1.valid.json",
            server_route_test("suite::transitions_adoption::reclaim_task_path_dto_serializes_to_committed_fixture"),
            server_route_test("suite::transitions_adoption::reclaim_task_path_fixture_is_consumed_by_real_router"),
            ContractTransport::Http { operation_key: Some("POST /api/v1/tasks/:task_id/transitions/reclaim"), location: HttpTransportLocation::Path, parameters: &[WireParameter { name: "task_id", cardinality: Some(WireParameterCardinality::RequiredOne) }] },
        ),
        OperationContract::adopted(
            "api.reclaim-task.response",
            "POST /api/v1/tasks/:task_id/transitions/reclaim response",
            ContractSurface::Api,
            "POST /api/v1/tasks/:task_id/transitions/reclaim",
            ContractDirection::Serialize,
            ContractStrictness::DenyUnknownFields,
            "urn:kanban-tool:schema:api:reclaim-task-response:v1",
            "schemas/fixtures/api/reclaim-task-response.v1.valid.json",
            server_route_test("suite::transitions_adoption::reclaim_task_response_fixture_is_produced_by_real_router"),
            server_route_test("suite::transitions_adoption::reclaim_task_response_fixture_is_consumed_by_contract_root"),
            ContractTransport::Http { operation_key: Some("POST /api/v1/tasks/:task_id/transitions/reclaim"), location: HttpTransportLocation::Success, parameters: &[] },
        ),
        OperationContract::adopted(
            "api.heartbeat-task.request",
            "POST /api/v1/tasks/:task_id/transitions/heartbeat",
            ContractSurface::Api,
            "POST /api/v1/tasks/:task_id/transitions/heartbeat",
            ContractDirection::Deserialize,
            ContractStrictness::DenyUnknownFields,
            "urn:kanban-tool:schema:api:heartbeat-task-request:v1",
            "schemas/fixtures/api/heartbeat-task-request.v1.valid.json",
            server_route_test("suite::lifecycle_request_adoption::heartbeat_task_request_dto_serializes_to_committed_fixture"),
            server_route_test("suite::lifecycle_request_adoption::heartbeat_task_request_fixture_is_consumed_by_real_router"),
            ContractTransport::Http { operation_key: Some("POST /api/v1/tasks/:task_id/transitions/heartbeat"), location: HttpTransportLocation::Body, parameters: &[] },
        ),
        OperationContract::adopted(
            "api.heartbeat-task.path",
            "POST /api/v1/tasks/:task_id/transitions/heartbeat path",
            ContractSurface::Api,
            "POST /api/v1/tasks/:task_id/transitions/heartbeat",
            ContractDirection::Deserialize,
            ContractStrictness::DenyUnknownFields,
            "urn:kanban-tool:schema:api:heartbeat-task-path:v1",
            "schemas/fixtures/api/heartbeat-task-path.v1.valid.json",
            server_route_test("suite::transitions_adoption::heartbeat_task_path_dto_serializes_to_committed_fixture"),
            server_route_test("suite::transitions_adoption::heartbeat_task_path_fixture_is_consumed_by_real_router"),
            ContractTransport::Http { operation_key: Some("POST /api/v1/tasks/:task_id/transitions/heartbeat"), location: HttpTransportLocation::Path, parameters: &[WireParameter { name: "task_id", cardinality: Some(WireParameterCardinality::RequiredOne) }] },
        ),
        OperationContract::adopted(
            "api.heartbeat-task.response",
            "POST /api/v1/tasks/:task_id/transitions/heartbeat response",
            ContractSurface::Api,
            "POST /api/v1/tasks/:task_id/transitions/heartbeat",
            ContractDirection::Serialize,
            ContractStrictness::DenyUnknownFields,
            "urn:kanban-tool:schema:api:heartbeat-task-response:v1",
            "schemas/fixtures/api/heartbeat-task-response.v1.valid.json",
            server_route_test("suite::transitions_adoption::heartbeat_task_response_fixture_is_produced_by_real_router"),
            server_route_test("suite::transitions_adoption::heartbeat_task_response_fixture_is_consumed_by_contract_root"),
            ContractTransport::Http { operation_key: Some("POST /api/v1/tasks/:task_id/transitions/heartbeat"), location: HttpTransportLocation::Success, parameters: &[] },
        ),
        OperationContract::adopted(
            "api.release-task.request",
            "POST /api/v1/tasks/:task_id/transitions/release",
            ContractSurface::Api,
            "POST /api/v1/tasks/:task_id/transitions/release",
            ContractDirection::Deserialize,
            ContractStrictness::DenyUnknownFields,
            "urn:kanban-tool:schema:api:release-task-request:v1",
            "schemas/fixtures/api/release-task-request.v1.valid.json",
            server_route_test("lifecycle_release_request_contract"),
            server_route_test("router::tests::task_release_closes_the_application_path"),
            ContractTransport::Http { operation_key: Some("POST /api/v1/tasks/:task_id/transitions/release"), location: HttpTransportLocation::Body, parameters: &[] },
        ),
        OperationContract::adopted(
            "api.release-task.path",
            "POST /api/v1/tasks/:task_id/transitions/release path",
            ContractSurface::Api,
            "POST /api/v1/tasks/:task_id/transitions/release",
            ContractDirection::Deserialize,
            ContractStrictness::DenyUnknownFields,
            "urn:kanban-tool:schema:api:release-task-path:v1",
            "schemas/fixtures/api/release-task-path.v1.valid.json",
            server_route_test("release_task_path_contract"),
            server_route_test("router::tests::task_release_closes_the_application_path"),
            ContractTransport::Http { operation_key: Some("POST /api/v1/tasks/:task_id/transitions/release"), location: HttpTransportLocation::Path, parameters: &[WireParameter { name: "task_id", cardinality: Some(WireParameterCardinality::RequiredOne) }] },
        ),
        OperationContract::adopted(
            "api.release-task.response",
            "POST /api/v1/tasks/:task_id/transitions/release response",
            ContractSurface::Api,
            "POST /api/v1/tasks/:task_id/transitions/release",
            ContractDirection::Serialize,
            ContractStrictness::DenyUnknownFields,
            "urn:kanban-tool:schema:api:release-task-response:v1",
            "schemas/fixtures/api/release-task-response.v1.valid.json",
            server_route_test("router::tests::task_release_closes_the_application_path"),
            server_route_test("release_task_response_contract"),
            ContractTransport::Http { operation_key: Some("POST /api/v1/tasks/:task_id/transitions/release"), location: HttpTransportLocation::Success, parameters: &[] },
        ),
        OperationContract::adopted(
            "api.complete-task.request",
            "POST /api/v1/tasks/:task_id/transitions/complete",
            ContractSurface::Api,
            "POST /api/v1/tasks/:task_id/transitions/complete",
            ContractDirection::Deserialize,
            ContractStrictness::DenyUnknownFields,
            "urn:kanban-tool:schema:api:complete-task-request:v1",
            "schemas/fixtures/api/complete-task-request.v1.valid.json",
            server_route_test("complete_task_request_contract"),
            server_route_test("router::tests::task_done_closes_the_running_application_path"),
            ContractTransport::Http { operation_key: Some("POST /api/v1/tasks/:task_id/transitions/complete"), location: HttpTransportLocation::Body, parameters: &[] },
        ),
        OperationContract::adopted(
            "api.complete-task.path",
            "POST /api/v1/tasks/:task_id/transitions/complete path",
            ContractSurface::Api,
            "POST /api/v1/tasks/:task_id/transitions/complete",
            ContractDirection::Deserialize,
            ContractStrictness::DenyUnknownFields,
            "urn:kanban-tool:schema:api:complete-task-path:v1",
            "schemas/fixtures/api/complete-task-path.v1.valid.json",
            server_route_test("complete_task_path_contract"),
            server_route_test("router::tests::task_done_closes_the_running_application_path"),
            ContractTransport::Http { operation_key: Some("POST /api/v1/tasks/:task_id/transitions/complete"), location: HttpTransportLocation::Path, parameters: &[WireParameter { name: "task_id", cardinality: Some(WireParameterCardinality::RequiredOne) }] },
        ),
        OperationContract::adopted(
            "api.complete-task.response",
            "POST /api/v1/tasks/:task_id/transitions/complete response",
            ContractSurface::Api,
            "POST /api/v1/tasks/:task_id/transitions/complete",
            ContractDirection::Serialize,
            ContractStrictness::DenyUnknownFields,
            "urn:kanban-tool:schema:api:complete-task-response:v1",
            "schemas/fixtures/api/complete-task-response.v1.valid.json",
            server_route_test("router::tests::task_done_closes_the_running_application_path"),
            server_route_test("complete_task_response_contract"),
            ContractTransport::Http { operation_key: Some("POST /api/v1/tasks/:task_id/transitions/complete"), location: HttpTransportLocation::Success, parameters: &[] },
        ),
        OperationContract::adopted(
            "api.submit-review-task.request",
            "POST /api/v1/tasks/:task_id/transitions/submit-review",
            ContractSurface::Api,
            "POST /api/v1/tasks/:task_id/transitions/submit-review",
            ContractDirection::Deserialize,
            ContractStrictness::DenyUnknownFields,
            "urn:kanban-tool:schema:api:submit-review-task-request:v1",
            "schemas/fixtures/api/submit-review-task-request.v1.valid.json",
            server_route_test("submit_review_task_request_contract"),
            server_route_test("router::tests::task_review_closes_the_application_path"),
            ContractTransport::Http { operation_key: Some("POST /api/v1/tasks/:task_id/transitions/submit-review"), location: HttpTransportLocation::Body, parameters: &[] },
        ),
        OperationContract::adopted(
            "api.submit-review-task.path",
            "POST /api/v1/tasks/:task_id/transitions/submit-review path",
            ContractSurface::Api,
            "POST /api/v1/tasks/:task_id/transitions/submit-review",
            ContractDirection::Deserialize,
            ContractStrictness::DenyUnknownFields,
            "urn:kanban-tool:schema:api:submit-review-task-path:v1",
            "schemas/fixtures/api/submit-review-task-path.v1.valid.json",
            server_route_test("submit_review_task_path_contract"),
            server_route_test("router::tests::task_review_closes_the_application_path"),
            ContractTransport::Http { operation_key: Some("POST /api/v1/tasks/:task_id/transitions/submit-review"), location: HttpTransportLocation::Path, parameters: &[WireParameter { name: "task_id", cardinality: Some(WireParameterCardinality::RequiredOne) }] },
        ),
        OperationContract::adopted(
            "api.submit-review-task.response",
            "POST /api/v1/tasks/:task_id/transitions/submit-review response",
            ContractSurface::Api,
            "POST /api/v1/tasks/:task_id/transitions/submit-review",
            ContractDirection::Serialize,
            ContractStrictness::DenyUnknownFields,
            "urn:kanban-tool:schema:api:submit-review-task-response:v1",
            "schemas/fixtures/api/submit-review-task-response.v1.valid.json",
            server_route_test("router::tests::task_review_closes_the_application_path"),
            server_route_test("submit_review_task_response_contract"),
            ContractTransport::Http { operation_key: Some("POST /api/v1/tasks/:task_id/transitions/submit-review"), location: HttpTransportLocation::Success, parameters: &[] },
        ),
    ]
}

/// Historical inventory rows 160 to 199.
fn legacy_rows_4_vec() -> (r: Vec<OperationContract>)
    ensures
        r@ == legacy_rows_4(),
{
    reveal(legacy_rows_4);
    let r = vec![
        OperationContract::adopted(
            "api.checkpoint.response",
            "POST /api/v1/maintenance/checkpoint response",
            ContractSurface::Api,
            "POST /api/v1/maintenance/checkpoint",
            ContractDirection::Serialize,
            ContractStrictness::DenyUnknownFields,
            "urn:kanban-tool:schema:api:checkpoint-response:v1",
            "schemas/fixtures/api/checkpoint-response.v1.valid.json",
            server_route_test("suite::maintenance_adoption::checkpoint_response_reports_real_wal_field_relationships"),
            server_route_test("suite::maintenance_adoption::checkpoint_response_contract_consumes_producer_fixture"),
            ContractTransport::Http { operation_key: Some("POST /api/v1/maintenance/checkpoint"), location: HttpTransportLocation::Success, parameters: &[] },
        ),
        OperationContract {
            id: "api.health.response",
            path: "GET /health response",
            surface: ContractSurface::Api,
            operation: "localhost health report",
            direction: ContractDirection::Serialize,
            granularity: ContractGranularity::Exact,
            strictness: ContractStrictness::DenyUnknownFields,
            schema_id: Some("urn:kanban-tool:schema:api:health-response:v1"),
            fixture: Some("schemas/fixtures/api/health-response.v1.valid.json"),
            adoption: Some(AdoptionEvidence { producer_fixture: "schemas/fixtures/api/health-response.v1.valid.json", producer: AdoptionWitness { operation: "GET /health", contract_id: "api.health.response", surface: ContractSurface::Api, direction: ContractDirection::Serialize, package: "kanban-server", test_target: "lib", exact_test: "suite::health::health_response_fixture_is_produced_by_real_router" }, consumer: AdoptionWitness { operation: "GET /health", contract_id: "api.health.response", surface: ContractSurface::Api, direction: ContractDirection::Serialize, package: "kanban-server", test_target: "lib", exact_test: "suite::health::health_response_contract_consumes_producer_fixture" } }),
            exclusion: None,
            migration: MigrationState::Adopted,
            transport: ContractTransport::Http { operation_key: Some("GET /health"), location: HttpTransportLocation::Success, parameters: &[] },
            binding: ContractBinding::ExactSurface,
        },
        OperationContract {
            id: "api.error.response",
            path: "Shared API error response component",
            surface: ContractSurface::Api,
            operation: "stable API error envelope",
            direction: ContractDirection::Serialize,
            granularity: ContractGranularity::Exact,
            strictness: ContractStrictness::DenyUnknownFields,
            schema_id: Some("urn:kanban-tool:schema:api:error-response:v1"),
            fixture: Some("schemas/fixtures/api/error-response.v1.valid.json"),
            adoption: Some(AdoptionEvidence { producer_fixture: "schemas/fixtures/api/error-response.v1.valid.json", producer: AdoptionWitness { operation: "GET /api/v1/boards/:board/tasks", contract_id: "api.error.response", surface: ContractSurface::Api, direction: ContractDirection::Serialize, package: "kanban-server", test_target: "lib", exact_test: "suite::errors::api_error_response_contract_produces_fixture" }, consumer: AdoptionWitness { operation: "GET /api/v1/boards/:board/tasks", contract_id: "api.error.response", surface: ContractSurface::Api, direction: ContractDirection::Serialize, package: "kanban-server", test_target: "lib", exact_test: "suite::errors::api_error_response_contract_consumes_fixture" } }),
            exclusion: None,
            migration: MigrationState::Adopted,
            transport: ContractTransport::Http { operation_key: None, location: HttpTransportLocation::Error, parameters: &[] },
            binding: ContractBinding::SharedComponent,
        },
        OperationContract::adopted(
            "api.list-tasks.path",
            "GET /api/v1/boards/:board/tasks path",
            ContractSurface::Api,
            "GET /api/v1/boards/:board/tasks",
            ContractDirection::Deserialize,
            ContractStrictness::DenyUnknownFields,
            "urn:kanban-tool:schema:api:list-tasks-path:v1",
            "schemas/fixtures/api/list-tasks-path.v1.valid.json",
            server_route_test("suite::task_read_request_adoption::list_tasks_path_dto_serializes_to_committed_fixture"),
            server_route_test("suite::task_read_request_adoption::list_tasks_path_fixture_is_consumed_by_real_router"),
            ContractTransport::Http { operation_key: Some("GET /api/v1/boards/:board/tasks"), location: HttpTransportLocation::Path, parameters: &[WireParameter { name: "board", cardinality: Some(WireParameterCardinality::RequiredOne) }] },
        ),
        OperationContract::adopted(
            "api.list-tasks.query",
            "GET /api/v1/boards/:board/tasks query",
            ContractSurface::Api,
            "GET /api/v1/boards/:board/tasks",
            ContractDirection::Deserialize,
            ContractStrictness::DenyUnknownFields,
            "urn:kanban-tool:schema:api:list-tasks-query:v1",
            "schemas/fixtures/api/list-tasks-query.v1.valid.json",
            server_route_test("suite::task_read_request_adoption::list_tasks_query_dto_serializes_to_committed_fixture"),
            server_route_test("suite::task_read_request_adoption::list_tasks_query_fixture_is_consumed_by_real_router"),
            ContractTransport::Http { operation_key: Some("GET /api/v1/boards/:board/tasks"), location: HttpTransportLocation::Query, parameters: &[WireParameter { name: "status", cardinality: Some(WireParameterCardinality::RepeatedOrdered) }, WireParameter { name: "priority", cardinality: Some(WireParameterCardinality::RepeatedOrdered) }, WireParameter { name: "label", cardinality: Some(WireParameterCardinality::RepeatedOrdered) }, WireParameter { name: "plan_filter", cardinality: Some(WireParameterCardinality::RepeatedOrdered) }, WireParameter { name: "assignee", cardinality: Some(WireParameterCardinality::OptionalOne) }, WireParameter { name: "q", cardinality: Some(WireParameterCardinality::OptionalOne) }, WireParameter { name: "include_archived", cardinality: Some(WireParameterCardinality::OptionalOne) }, WireParameter { name: "limit", cardinality: Some(WireParameterCardinality::OptionalOne) }, WireParameter { name: "offset", cardinality: Some(WireParameterCardinality::OptionalOne) }, WireParameter { name: "sort", cardinality: Some(WireParameterCardinality::OptionalOne) }] },
        ),
        OperationContract::adopted(
            "api.list-tasks-by-status.path",
            "GET /api/v1/boards/:board/tasks/by-status path",
            ContractSurface::Api,
            "GET /api/v1/boards/:board/tasks/by-status",
            ContractDirection::Deserialize,
            ContractStrictness::DenyUnknownFields,
            "urn:kanban-tool:schema:api:list-tasks-by-status-path:v1",
            "schemas/fixtures/api/list-tasks-by-status-path.v1.valid.json",
            server_route_test("http::operations::contract_adoption::suite_tasks_crud_and_reads_use_committed_fixtures_through_router"),
            server_route_test("http::operations::contract_adoption::suite_tasks_crud_and_reads_use_committed_fixtures_through_router"),
            ContractTransport::Http { operation_key: Some("GET /api/v1/boards/:board/tasks/by-status"), location: HttpTransportLocation::Path, parameters: &[WireParameter { name: "board", cardinality: Some(WireParameterCardinality::RequiredOne) }] },
        ),
        OperationContract::adopted(
            "api.list-tasks-by-status.query",
            "GET /api/v1/boards/:board/tasks/by-status query",
            ContractSurface::Api,
            "GET /api/v1/boards/:board/tasks/by-status",
            ContractDirection::Deserialize,
            ContractStrictness::DenyUnknownFields,
            "urn:kanban-tool:schema:api:list-tasks-by-status-query:v1",
            "schemas/fixtures/api/list-tasks-by-status-query.v1.valid.json",
            server_route_test("http::operations::contract_adoption::suite_tasks_crud_and_reads_use_committed_fixtures_through_router"),
            server_route_test("http::operations::contract_adoption::suite_tasks_crud_and_reads_use_committed_fixtures_through_router"),
            ContractTransport::Http { operation_key: Some("GET /api/v1/boards/:board/tasks/by-status"), location: HttpTransportLocation::Query, parameters: &[WireParameter { name: "status", cardinality: Some(WireParameterCardinality::RepeatedOrdered) }, WireParameter { name: "priority", cardinality: Some(WireParameterCardinality::RepeatedOrdered) }, WireParameter { name: "label", cardinality: Some(WireParameterCardinality::RepeatedOrdered) }, WireParameter { name: "plan_filter", cardinality: Some(WireParameterCardinality::RepeatedOrdered) }, WireParameter { name: "assignee", cardinality: Some(WireParameterCardinality::OptionalOne) }, WireParameter { name: "q", cardinality: Some(WireParameterCardinality::OptionalOne) }, WireParameter { name: "include_archived", cardinality: Some(WireParameterCardinality::OptionalOne) }, WireParameter { name: "limit", cardinality: Some(WireParameterCardinality::OptionalOne) }, WireParameter { name: "offset", cardinality: Some(WireParameterCardinality::OptionalOne) }, WireParameter { name: "sort", cardinality: Some(WireParameterCardinality::OptionalOne) }] },
        ),
        OperationContract::adopted(
            "api.list-tasks.response",
            "GET /api/v1/boards/:board/tasks response",
            ContractSurface::Api,
            "GET /api/v1/boards/:board/tasks",
            ContractDirection::Serialize,
            ContractStrictness::DenyUnknownFields,
            "urn:kanban-tool:schema:api:list-tasks-response:v1",
            "schemas/fixtures/api/list-tasks-response.v1.valid.json",
            server_route_test("suite::api_task_component::list_tasks_response_producer_fixture"),
            server_route_test("suite::api_task_component::list_tasks_response_consumer_fixture"),
            ContractTransport::Http { operation_key: Some("GET /api/v1/boards/:board/tasks"), location: HttpTransportLocation::Success, parameters: &[] },
        ),
        OperationContract::adopted(
            "api.list-tasks-by-status.response",
            "GET /api/v1/boards/:board/tasks/by-status response",
            ContractSurface::Api,
            "GET /api/v1/boards/:board/tasks/by-status",
            ContractDirection::Serialize,
            ContractStrictness::DenyUnknownFields,
            "urn:kanban-tool:schema:api:list-tasks-by-status-response:v1",
            "schemas/fixtures/api/list-tasks-by-status-response.v1.valid.json",
            server_route_test("http::operations::contract_adoption::suite_tasks_crud_and_reads_use_committed_fixtures_through_router"),
            server_route_test("http::operations::contract_adoption::suite_tasks_crud_and_reads_use_committed_fixtures_through_router"),
            ContractTransport::Http { operation_key: Some("GET /api/v1/boards/:board/tasks/by-status"), location: HttpTransportLocation::Success, parameters: &[] },
        ),
        OperationContract {
            id: "api.label-semantics-delete.response",
            path: "DELETE /api/v1/boards/:board/labels/:label_id/semantics response",
            surface: ContractSurface::Api,
            operation: "label semantics deletion acknowledgement",
            direction: ContractDirection::Serialize,
            granularity: ContractGranularity::Exact,
            strictness: ContractStrictness::DenyUnknownFields,
            schema_id: Some("urn:kanban-tool:schema:api:delete-response:v1"),
            fixture: Some("schemas/fixtures/api/delete-response.v1.valid.json"),
            adoption: Some(AdoptionEvidence { producer_fixture: "schemas/fixtures/api/delete-response.v1.valid.json", producer: AdoptionWitness { operation: "DELETE /api/v1/boards/:board/labels/:label_id/semantics", contract_id: "api.label-semantics-delete.response", surface: ContractSurface::Api, direction: ContractDirection::Serialize, package: "kanban-server", test_target: "lib", exact_test: "suite::delete_adoption::delete_label_semantics_response_fixture_is_produced_by_real_router" }, consumer: AdoptionWitness { operation: "DELETE /api/v1/boards/:board/labels/:label_id/semantics", contract_id: "api.label-semantics-delete.response", surface: ContractSurface::Api, direction: ContractDirection::Serialize, package: "kanban-server", test_target: "lib", exact_test: "suite::delete_adoption::delete_label_semantics_response_fixture_is_consumed_by_contract_root" } }),
            exclusion: None,
            migration: MigrationState::Adopted,
            transport: ContractTransport::Http { operation_key: Some("DELETE /api/v1/boards/:board/labels/:label_id/semantics"), location: HttpTransportLocation::Success, parameters: &[] },
            binding: ContractBinding::ExactSurface,
        },
        OperationContract::adopted(
            "api.specify-task.path",
            "POST /api/v1/tasks/:task_id/transitions/specify path",
            ContractSurface::Api,
            "POST /api/v1/tasks/:task_id/transitions/specify",
            ContractDirection::Deserialize,
            ContractStrictness::DenyUnknownFields,
            "urn:kanban-tool:schema:api:specify-task-path:v1",
            "schemas/fixtures/api/specify-task-path.v1.valid.json",
            server_route_test("suite::transitions_adoption::specify_task_path_dto_serializes_to_committed_fixture"),
            server_route_test("suite::transitions_adoption::specify_task_path_fixture_is_consumed_by_real_router"),
            ContractTransport::Http { operation_key: Some("POST /api/v1/tasks/:task_id/transitions/specify"), location: HttpTransportLocation::Path, parameters: &[WireParameter { name: "task_id", cardinality: Some(WireParameterCardinality::RequiredOne) }] },
        ),
        OperationContract::adopted(
            "api.specify-task.response",
            "POST /api/v1/tasks/:task_id/transitions/specify response",
            ContractSurface::Api,
            "POST /api/v1/tasks/:task_id/transitions/specify",
            ContractDirection::Serialize,
            ContractStrictness::DenyUnknownFields,
            "urn:kanban-tool:schema:api:specify-task-response:v1",
            "schemas/fixtures/api/specify-task-response.v1.valid.json",
            server_route_test("suite::transitions_adoption::specify_task_response_fixture_is_produced_by_real_router"),
            server_route_test("suite::transitions_adoption::specify_task_response_fixture_is_consumed_by_contract_root"),
            ContractTransport::Http { operation_key: Some("POST /api/v1/tasks/:task_id/transitions/specify"), location: HttpTransportLocation::Success, parameters: &[] },
        ),
        OperationContract::adopted(
            "api.promote-task.path",
            "POST /api/v1/tasks/:task_id/transitions/promote path",
            ContractSurface::Api,
            "POST /api/v1/tasks/:task_id/transitions/promote",
            ContractDirection::Deserialize,
            ContractStrictness::DenyUnknownFields,
            "urn:kanban-tool:schema:api:promote-task-path:v1",
            "schemas/fixtures/api/promote-task-path.v1.valid.json",
            server_route_test("suite::transitions_adoption::promote_task_path_dto_serializes_to_committed_fixture"),
            server_route_test("suite::transitions_adoption::promote_task_path_fixture_is_consumed_by_real_router"),
            ContractTransport::Http { operation_key: Some("POST /api/v1/tasks/:task_id/transitions/promote"), location: HttpTransportLocation::Path, parameters: &[WireParameter { name: "task_id", cardinality: Some(WireParameterCardinality::RequiredOne) }] },
        ),
        OperationContract::adopted(
            "api.promote-task.response",
            "POST /api/v1/tasks/:task_id/transitions/promote response",
            ContractSurface::Api,
            "POST /api/v1/tasks/:task_id/transitions/promote",
            ContractDirection::Serialize,
            ContractStrictness::DenyUnknownFields,
            "urn:kanban-tool:schema:api:promote-task-response:v1",
            "schemas/fixtures/api/promote-task-response.v1.valid.json",
            server_route_test("suite::transitions_adoption::promote_task_response_fixture_is_produced_by_real_router"),
            server_route_test("suite::transitions_adoption::promote_task_response_fixture_is_consumed_by_contract_root"),
            ContractTransport::Http { operation_key: Some("POST /api/v1/tasks/:task_id/transitions/promote"), location: HttpTransportLocation::Success, parameters: &[] },
        ),
        OperationContract::adopted(
            "api.reopen-task.path",
            "POST /api/v1/tasks/:task_id/transitions/reopen path",
            ContractSurface::Api,
            "POST /api/v1/tasks/:task_id/transitions/reopen",
            ContractDirection::Deserialize,
            ContractStrictness::DenyUnknownFields,
            "urn:kanban-tool:schema:api:reopen-task-path:v1",
            "schemas/fixtures/api/reopen-task-path.v1.valid.json",
            server_route_test("suite::transitions_adoption::reopen_task_path_dto_serializes_to_committed_fixture"),
            server_route_test("suite::transitions_adoption::reopen_task_path_fixture_is_consumed_by_real_router"),
            ContractTransport::Http { operation_key: Some("POST /api/v1/tasks/:task_id/transitions/reopen"), location: HttpTransportLocation::Path, parameters: &[WireParameter { name: "task_id", cardinality: Some(WireParameterCardinality::RequiredOne) }] },
        ),
        OperationContract::adopted(
            "api.reopen-task.response",
            "POST /api/v1/tasks/:task_id/transitions/reopen response",
            ContractSurface::Api,
            "POST /api/v1/tasks/:task_id/transitions/reopen",
            ContractDirection::Serialize,
            ContractStrictness::DenyUnknownFields,
            "urn:kanban-tool:schema:api:reopen-task-response:v1",
            "schemas/fixtures/api/reopen-task-response.v1.valid.json",
            server_route_test("suite::transitions_adoption::reopen_task_response_fixture_is_produced_by_real_router"),
            server_route_test("suite::transitions_adoption::reopen_task_response_fixture_is_consumed_by_contract_root"),
            ContractTransport::Http { operation_key: Some("POST /api/v1/tasks/:task_id/transitions/reopen"), location: HttpTransportLocation::Success, parameters: &[] },
        ),
        OperationContract::adopted(
            "api.unblock-task.path",
            "POST /api/v1/tasks/:task_id/transitions/unblock path",
            ContractSurface::Api,
            "POST /api/v1/tasks/:task_id/transitions/unblock",
            ContractDirection::Deserialize,
            ContractStrictness::DenyUnknownFields,
            "urn:kanban-tool:schema:api:unblock-task-path:v1",
            "schemas/fixtures/api/unblock-task-path.v1.valid.json",
            server_route_test("suite::transitions_adoption::unblock_task_path_dto_serializes_to_committed_fixture"),
            server_route_test("suite::transitions_adoption::unblock_task_path_fixture_is_consumed_by_real_router"),
            ContractTransport::Http { operation_key: Some("POST /api/v1/tasks/:task_id/transitions/unblock"), location: HttpTransportLocation::Path, parameters: &[WireParameter { name: "task_id", cardinality: Some(WireParameterCardinality::RequiredOne) }] },
        ),
        OperationContract::adopted(
            "api.unblock-task.response",
            "POST /api/v1/tasks/:task_id/transitions/unblock response",
            ContractSurface::Api,
            "POST /api/v1/tasks/:task_id/transitions/unblock",
            ContractDirection::Serialize,
            ContractStrictness::DenyUnknownFields,
            "urn:kanban-tool:schema:api:unblock-task-response:v1",
            "schemas/fixtures/api/unblock-task-response.v1.valid.json",
            server_route_test("suite::transitions_adoption::unblock_task_response_fixture_is_produced_by_real_router"),
            server_route_test("suite::transitions_adoption::unblock_task_response_fixture_is_consumed_by_contract_root"),
            ContractTransport::Http { operation_key: Some("POST /api/v1/tasks/:task_id/transitions/unblock"), location: HttpTransportLocation::Success, parameters: &[] },
        ),
        OperationContract::adopted(
            "api.archive-task.path",
            "POST /api/v1/tasks/:task_id/transitions/archive path",
            ContractSurface::Api,
            "POST /api/v1/tasks/:task_id/transitions/archive",
            ContractDirection::Deserialize,
            ContractStrictness::DenyUnknownFields,
            "urn:kanban-tool:schema:api:archive-task-path:v1",
            "schemas/fixtures/api/archive-task-path.v1.valid.json",
            server_route_test("suite::transitions_adoption::archive_task_path_dto_serializes_to_committed_fixture"),
            server_route_test("suite::transitions_adoption::archive_task_path_fixture_is_consumed_by_real_router"),
            ContractTransport::Http { operation_key: Some("POST /api/v1/tasks/:task_id/transitions/archive"), location: HttpTransportLocation::Path, parameters: &[WireParameter { name: "task_id", cardinality: Some(WireParameterCardinality::RequiredOne) }] },
        ),
        OperationContract::adopted(
            "api.archive-task.response",
            "POST /api/v1/tasks/:task_id/transitions/archive response",
            ContractSurface::Api,
            "POST /api/v1/tasks/:task_id/transitions/archive",
            ContractDirection::Serialize,
            ContractStrictness::DenyUnknownFields,
            "urn:kanban-tool:schema:api:archive-task-response:v1",
            "schemas/fixtures/api/archive-task-response.v1.valid.json",
            server_route_test("suite::transitions_adoption::archive_task_response_fixture_is_produced_by_real_router"),
            server_route_test("suite::transitions_adoption::archive_task_response_fixture_is_consumed_by_contract_root"),
            ContractTransport::Http { operation_key: Some("POST /api/v1/tasks/:task_id/transitions/archive"), location: HttpTransportLocation::Success, parameters: &[] },
        ),
        OperationContract::adopted(
            "api.specify-task.request",
            "POST /api/v1/tasks/:task_id/transitions/specify",
            ContractSurface::Api,
            "POST /api/v1/tasks/:task_id/transitions/specify",
            ContractDirection::Deserialize,
            ContractStrictness::DenyUnknownFields,
            "urn:kanban-tool:schema:api:specify-task-request:v1",
            "schemas/fixtures/api/specify-task-request.v1.valid.json",
            server_route_test("suite::lifecycle_request_adoption::specify_task_request_dto_serializes_to_committed_fixture"),
            server_route_test("suite::lifecycle_request_adoption::specify_task_request_fixture_is_consumed_by_real_router"),
            ContractTransport::Http { operation_key: Some("POST /api/v1/tasks/:task_id/transitions/specify"), location: HttpTransportLocation::Body, parameters: &[] },
        ),
        OperationContract::adopted(
            "api.promote-task.request",
            "POST /api/v1/tasks/:task_id/transitions/promote",
            ContractSurface::Api,
            "POST /api/v1/tasks/:task_id/transitions/promote",
            ContractDirection::Deserialize,
            ContractStrictness::DenyUnknownFields,
            "urn:kanban-tool:schema:api:promote-task-request:v1",
            "schemas/fixtures/api/promote-task-request.v1.valid.json",
            server_route_test("suite::lifecycle_request_adoption::promote_task_request_dto_serializes_to_committed_fixture"),
            server_route_test("suite::lifecycle_request_adoption::promote_task_request_fixture_is_consumed_by_real_router"),
            ContractTransport::Http { operation_key: Some("POST /api/v1/tasks/:task_id/transitions/promote"), location: HttpTransportLocation::Body, parameters: &[] },
        ),
        OperationContract::adopted(
            "api.claim-task.request",
            "POST /api/v1/tasks/:task_id/transitions/claim",
            ContractSurface::Api,
            "POST /api/v1/tasks/:task_id/transitions/claim",
            ContractDirection::Deserialize,
            ContractStrictness::DenyUnknownFields,
            "urn:kanban-tool:schema:api:claim-task-request:v1",
            "schemas/fixtures/api/claim-task-request.v1.valid.json",
            server_route_test("suite::lifecycle_request_adoption::claim_task_request_dto_serializes_to_committed_fixture"),
            server_route_test("suite::lifecycle_request_adoption::claim_task_request_fixture_is_consumed_by_real_router"),
            ContractTransport::Http { operation_key: Some("POST /api/v1/tasks/:task_id/transitions/claim"), location: HttpTransportLocation::Body, parameters: &[] },
        ),
        OperationContract::adopted(
            "api.claim-task.path",
            "POST /api/v1/tasks/:task_id/transitions/claim path",
            ContractSurface::Api,
            "POST /api/v1/tasks/:task_id/transitions/claim",
            ContractDirection::Deserialize,
            ContractStrictness::DenyUnknownFields,
            "urn:kanban-tool:schema:api:claim-task-path:v1",
            "schemas/fixtures/api/claim-task-path.v1.valid.json",
            server_route_test("suite::transitions_adoption::claim_task_path_dto_serializes_to_committed_fixture"),
            server_route_test("suite::transitions_adoption::claim_task_path_fixture_is_consumed_by_real_router"),
            ContractTransport::Http { operation_key: Some("POST /api/v1/tasks/:task_id/transitions/claim"), location: HttpTransportLocation::Path, parameters: &[WireParameter { name: "task_id", cardinality: Some(WireParameterCardinality::RequiredOne) }] },
        ),
        OperationContract::adopted(
            "api.claim-task.response",
            "POST /api/v1/tasks/:task_id/transitions/claim response",
            ContractSurface::Api,
            "POST /api/v1/tasks/:task_id/transitions/claim",
            ContractDirection::Serialize,
            ContractStrictness::DenyUnknownFields,
            "urn:kanban-tool:schema:api:claim-task-response:v1",
            "schemas/fixtures/api/claim-task-response.v1.valid.json",
            server_route_test("suite::transitions_adoption::claim_task_response_fixture_is_produced_by_real_router"),
            server_route_test("suite::transitions_adoption::claim_task_response_fixture_is_consumed_by_contract_root"),
            ContractTransport::Http { operation_key: Some("POST /api/v1/tasks/:task_id/transitions/claim"), location: HttpTransportLocation::Success, parameters: &[] },
        ),
        OperationContract::adopted(
            "api.reclaim-task.request",
            "POST /api/v1/tasks/:task_id/transitions/reclaim",
            ContractSurface::Api,
            "POST /api/v1/tasks/:task_id/transitions/reclaim",
            ContractDirection::Deserialize,
            ContractStrictness::DenyUnknownFields,
            "urn:kanban-tool:schema:api:reclaim-task-request:v1",
            "schemas/fixtures/api/reclaim-task-request.v1.valid.json",
            server_route_test("suite::lifecycle_request_adoption::reclaim_task_request_dto_serializes_to_committed_fixture"),
            server_route_test("suite::lifecycle_request_adoption::reclaim_task_request_fixture_is_consumed_by_real_router"),
            ContractTransport::Http { operation_key: Some("POST /api/v1/tasks/:task_id/transitions/reclaim"), location: HttpTransportLocation::Body, parameters: &[] },
        ),
        OperationContract::adopted(
            "api.reclaim-task.path",
            "POST /api/v1/tasks/:task_id/transitions/reclaim path",
            ContractSurface::Api,
            "POST /api/v1/tasks/:task_id/transitions/reclaim",
            ContractDirection::Deserialize,
            ContractStrictness::DenyUnknownFields,
            "urn:kanban-tool:schema:api:reclaim-task-path:v1",
            "schemas/fixtures/api/reclaim-task-path.v1.valid.json",
            server_route_test("suite::transitions_adoption::reclaim_task_path_dto_serializes_to_committed_fixture"),
            server_route_test("suite::transitions_adoption::reclaim_task_path_fixture_is_consumed_by_real_router"),
            ContractTransport::Http { operation_key: Some("POST /api/v1/tasks/:task_id/transitions/reclaim"), location: HttpTransportLocation::Path, parameters: &[WireParameter { name: "task_id", cardinality: Some(WireParameterCardinality::RequiredOne) }] },
        ),
        OperationContract::adopted(
            "api.reclaim-task.response",
            "POST /api/v1/tasks/:task_id/transitions/reclaim response",
            ContractSurface::Api,
            "POST /api/v1/tasks/:task_id/transitions/reclaim",
            ContractDirection::Serialize,
            ContractStrictness::DenyUnknownFields,
            "urn:kanban-tool:schema:api:reclaim-task-response:v1",
            "schemas/fixtures/api/reclaim-task-response.v1.valid.json",
            server_route_test("suite::transitions_adoption::reclaim_task_response_fixture_is_produced_by_real_router"),
            server_route_test("suite::transitions_adoption::reclaim_task_response_fixture_is_consumed_by_contract_root"),
            ContractTransport::Http { operation_key: Some("POST /api/v1/tasks/:task_id/transitions/reclaim"), location: HttpTransportLocation::Success, parameters: &[] },
        ),
        OperationContract::adopted(
            "api.heartbeat-task.request",
            "POST /api/v1/tasks/:task_id/transitions/heartbeat",
            ContractSurface::Api,
            "POST /api/v1/tasks/:task_id/transitions/heartbeat",
            ContractDirection::Deserialize,
            ContractStrictness::DenyUnknownFields,
            "urn:kanban-tool:schema:api:heartbeat-task-request:v1",
            "schemas/fixtures/api/heartbeat-task-request.v1.valid.json",
            server_route_test("suite::lifecycle_request_adoption::heartbeat_task_request_dto_serializes_to_committed_fixture"),
            server_route_test("suite::lifecycle_request_adoption::heartbeat_task_request_fixture_is_consumed_by_real_router"),
            ContractTransport::Http { operation_key: Some("POST /api/v1/tasks/:task_id/transitions/heartbeat"), location: HttpTransportLocation::Body, parameters: &[] },
        ),
        OperationContract::adopted(
            "api.heartbeat-task.path",
            "POST /api/v1/tasks/:task_id/transitions/heartbeat path",
            ContractSurface::Api,
            "POST /api/v1/tasks/:task_id/transitions/heartbeat",
            ContractDirection::Deserialize,
            ContractStrictness::DenyUnknownFields,
            "urn:kanban-tool:schema:api:heartbeat-task-path:v1",
            "schemas/fixtures/api/heartbeat-task-path.v1.valid.json",
            server_route_test("suite::transitions_adoption::heartbeat_task_path_dto_serializes_to_committed_fixture"),
            server_route_test("suite::transitions_adoption::heartbeat_task_path_fixture_is_consumed_by_real_router"),
            ContractTransport::Http { operation_key: Some("POST /api/v1/tasks/:task_id/transitions/heartbeat"), location: HttpTransportLocation::Path, parameters: &[WireParameter { name: "task_id", cardinality: Some(WireParameterCardinality::RequiredOne) }] },
        ),
        OperationContract::adopted(
            "api.heartbeat-task.response",
            "POST /api/v1/tasks/:task_id/transitions/heartbeat response",
            ContractSurface::Api,
            "POST /api/v1/tasks/:task_id/transitions/heartbeat",
            ContractDirection::Serialize,
            ContractStrictness::DenyUnknownFields,
            "urn:kanban-tool:schema:api:heartbeat-task-response:v1",
            "schemas/fixtures/api/heartbeat-task-response.v1.valid.json",
            server_route_test("suite::transitions_adoption::heartbeat_task_response_fixture_is_produced_by_real_router"),
            server_route_test("suite::transitions_adoption::heartbeat_task_response_fixture_is_consumed_by_contract_root"),
            ContractTransport::Http { operation_key: Some("POST /api/v1/tasks/:task_id/transitions/heartbeat"), location: HttpTransportLocation::Success, parameters: &[] },
        ),
        OperationContract::adopted(
            "api.release-task.request",
            "POST /api/v1/tasks/:task_id/transitions/release",
            ContractSurface::Api,
            "POST /api/v1/tasks/:task_id/transitions/release",
            ContractDirection::Deserialize,
            ContractStrictness::DenyUnknownFields,
            "urn:kanban-tool:schema:api:release-task-request:v1",
            "schemas/fixtures/api/release-task-request.v1.valid.json",
            server_route_test("lifecycle_release_request_contract"),
            server_route_test("router::tests::task_release_closes_the_application_path"),
            ContractTransport::Http { operation_key: Some("POST /api/v1/tasks/:task_id/transitions/release"), location: HttpTransportLocation::Body, parameters: &[] },
        ),
        OperationContract::adopted(
            "api.release-task.path",
            "POST /api/v1/tasks/:task_id/transitions/release path",
            ContractSurface::Api,
            "POST /api/v1/tasks/:task_id/transitions/release",
            ContractDirection::Deserialize,
            ContractStrictness::DenyUnknownFields,
            "urn:kanban-tool:schema:api:release-task-path:v1",
            "schemas/fixtures/api/release-task-path.v1.valid.json",
            server_route_test("release_task_path_contract"),
            server_route_test("router::tests::task_release_closes_the_application_path"),
            ContractTransport::Http { operation_key: Some("POST /api/v1/tasks/:task_id/transitions/release"), location: HttpTransportLocation::Path, parameters: &[WireParameter { name: "task_id", cardinality: Some(WireParameterCardinality::RequiredOne) }] },
        ),
        OperationContract::adopted(
            "api.release-task.response",
            "POST /api/v1/tasks/:task_id/transitions/release response",
            ContractSurface::Api,
            "POST /api/v1/tasks/:task_id/transitions/release",
            ContractDirection::Serialize,
            ContractStrictness::DenyUnknownFields,
            "urn:kanban-tool:schema:api:release-task-response:v1",
            "schemas/fixtures/api/release-task-response.v1.valid.json",
            server_route_test("router::tests::task_release_closes_the_application_path"),
            server_route_test("release_task_response_contract"),
            ContractTransport::Http { operation_key: Some("POST /api/v1/tasks/:task_id/transitions/release"), location: HttpTransportLocation::Success, parameters: &[] },
        ),
        OperationContract::adopted(
            "api.complete-task.request",
            "POST /api/v1/tasks/:task_id/transitions/complete",
            ContractSurface::Api,
            "POST /api/v1/tasks/:task_id/transitions/complete",
            ContractDirection::Deserialize,
            ContractStrictness::DenyUnknownFields,
            "urn:kanban-tool:schema:api:complete-task-request:v1",
            "schemas/fixtures/api/complete-task-request.v1.valid.json",
            server_route_test("complete_task_request_contract"),
            server_route_test("router::tests::task_done_closes_the_running_application_path"),
            ContractTransport::Http { operation_key: Some("POST /api/v1/tasks/:task_id/transitions/complete"), location: HttpTransportLocation::Body, parameters: &[] },
        ),
        OperationContract::adopted(
            "api.complete-task.path",
            "POST /api/v1/tasks/:task_id/transitions/complete path",
            ContractSurface::Api,
            "POST /api/v1/tasks/:task_id/transitions/complete",
            ContractDirection::Deserialize,
            ContractStrictness::DenyUnknownFields,
            "urn:kanban-tool:schema:api:complete-task-path:v1",
            "schemas/fixtures/api/complete-task-path.v1.valid.json",
            server_route_test("complete_task_path_contract"),
            server_route_test("router::tests::task_done_closes_the_running_application_path"),
            ContractTransport::Http { operation_key: Some("POST /api/v1/tasks/:task_id/transitions/complete"), location: HttpTransportLocation::Path, parameters: &[WireParameter { name: "task_id", cardinality: Some(WireParameterCardinality::RequiredOne) }] },
        ),
        OperationContract::adopted(
            "api.complete-task.response",
            "POST /api/v1/tasks/:task_id/transitions/complete response",
            ContractSurface::Api,
            "POST /api/v1/tasks/:task_id/transitions/complete",
            ContractDirection::Serialize,
            ContractStrictness::DenyUnknownFields,
            "urn:kanban-tool:schema:api:complete-task-response:v1",
            "schemas/fixtures/api/complete-task-response.v1.valid.json",
            server_route_test("router::tests::task_done_closes_the_running_application_path"),
            server_route_test("complete_task_response_contract"),
            ContractTransport::Http { operation_key: Some("POST /api/v1/tasks/:task_id/transitions/complete"), location: HttpTransportLocation::Success, parameters: &[] },
        ),
        OperationContract::adopted(
            "api.submit-review-task.request",
            "POST /api/v1/tasks/:task_id/transitions/submit-review",
            ContractSurface::Api,
            "POST /api/v1/tasks/:task_id/transitions/submit-review",
            ContractDirection::Deserialize,
            ContractStrictness::DenyUnknownFields,
            "urn:kanban-tool:schema:api:submit-review-task-request:v1",
            "schemas/fixtures/api/submit-review-task-request.v1.valid.json",
            server_route_test("submit_review_task_request_contract"),
            server_route_test("router::tests::task_review_closes_the_application_path"),
            ContractTransport::Http { operation_key: Some("POST /api/v1/tasks/:task_id/transitions/submit-review"), location: HttpTransportLocation::Body, parameters: &[] },
        ),
        OperationContract::adopted(
            "api.submit-review-task.path",
            "POST /api/v1/tasks/:task_id/transitions/submit-review path",
            ContractSurface::Api,
            "POST /api/v1/tasks/:task_id/transitions/submit-review",
            ContractDirection::Deserialize,
            ContractStrictness::DenyUnknownFields,
            "urn:kanban-tool:schema:api:submit-review-task-path:v1",
            "schemas/fixtures/api/submit-review-task-path.v1.valid.json",
            server_route_test("submit_review_task_path_contract"),
            server_route_test("router::tests::task_review_closes_the_application_path"),
            ContractTransport::Http { operation_key: Some("POST /api/v1/tasks/:task_id/transitions/submit-review"), location: HttpTransportLocation::Path, parameters: &[WireParameter { name: "task_id", cardinality: Some(WireParameterCardinality::RequiredOne) }] },
        ),
        OperationContract::adopted(
            "api.submit-review-task.response",
            "POST /api/v1/tasks/:task_id/transitions/submit-review response",
            ContractSurface::Api,
            "POST /api/v1/tasks/:task_id/transitions/submit-review",
            ContractDirection::Serialize,
            ContractStrictness::DenyUnknownFields,
            "urn:kanban-tool:schema:api:submit-review-task-response:v1",
            "schemas/fixtures/api/submit-review-task-response.v1.valid.json",
            server_route_test("router::tests::task_review_closes_the_application_path"),
            server_route_test("submit_review_task_response_contract"),
            ContractTransport::Http { operation_key: Some("POST /api/v1/tasks/:task_id/transitions/submit-review"), location: HttpTransportLocation::Success, parameters: &[] },
        ),
    ];
    assert(r@ =~= legacy_rows_4());
    r
}

/// Historical inventory rows 200 to 239.
#[verifier::opaque]
pub open spec fn legacy_rows_5() -> Seq<OperationContract> {
    seq![
        OperationContract::adopted(
            "api.block-task.request",
            "POST /api/v1/tasks/:task_id/transitions/block",
            ContractSurface::Api,
            "POST /api/v1/tasks/:task_id/transitions/block",
            ContractDirection::Deserialize,
            ContractStrictness::DenyUnknownFields,
            "urn:kanban-tool:schema:api:block-task-request:v1",
            "schemas/fixtures/api/block-task-request.v1.valid.json",
            server_route_test("block_task_request_contract"),
            server_route_test("router::tests::task_block_closes_non_running_and_running_application_paths"),
            ContractTransport::Http { operation_key: Some("POST /api/v1/tasks/:task_id/transitions/block"), location: HttpTransportLocation::Body, parameters: &[] },
        ),
        OperationContract::adopted(
            "api.block-task.path",
            "POST /api/v1/tasks/:task_id/transitions/block path",
            ContractSurface::Api,
            "POST /api/v1/tasks/:task_id/transitions/block",
            ContractDirection::Deserialize,
            ContractStrictness::DenyUnknownFields,
            "urn:kanban-tool:schema:api:block-task-path:v1",
            "schemas/fixtures/api/block-task-path.v1.valid.json",
            server_route_test("block_task_path_contract"),
            server_route_test("router::tests::task_block_closes_non_running_and_running_application_paths"),
            ContractTransport::Http { operation_key: Some("POST /api/v1/tasks/:task_id/transitions/block"), location: HttpTransportLocation::Path, parameters: &[WireParameter { name: "task_id", cardinality: Some(WireParameterCardinality::RequiredOne) }] },
        ),
        OperationContract::adopted(
            "api.block-task.response",
            "POST /api/v1/tasks/:task_id/transitions/block response",
            ContractSurface::Api,
            "POST /api/v1/tasks/:task_id/transitions/block",
            ContractDirection::Serialize,
            ContractStrictness::DenyUnknownFields,
            "urn:kanban-tool:schema:api:block-task-response:v1",
            "schemas/fixtures/api/block-task-response.v1.valid.json",
            server_route_test("router::tests::task_block_closes_non_running_and_running_application_paths"),
            server_route_test("block_task_response_contract"),
            ContractTransport::Http { operation_key: Some("POST /api/v1/tasks/:task_id/transitions/block"), location: HttpTransportLocation::Success, parameters: &[] },
        ),
        OperationContract::adopted(
            "api.unblock-task.request",
            "POST /api/v1/tasks/:task_id/transitions/unblock",
            ContractSurface::Api,
            "POST /api/v1/tasks/:task_id/transitions/unblock",
            ContractDirection::Deserialize,
            ContractStrictness::DenyUnknownFields,
            "urn:kanban-tool:schema:api:unblock-task-request:v1",
            "schemas/fixtures/api/unblock-task-request.v1.valid.json",
            server_route_test("suite::lifecycle_request_adoption::unblock_task_request_dto_serializes_to_committed_fixture"),
            server_route_test("suite::lifecycle_request_adoption::unblock_task_request_fixture_is_consumed_by_real_router"),
            ContractTransport::Http { operation_key: Some("POST /api/v1/tasks/:task_id/transitions/unblock"), location: HttpTransportLocation::Body, parameters: &[] },
        ),
        OperationContract::adopted(
            "api.reopen-task.request",
            "POST /api/v1/tasks/:task_id/transitions/reopen",
            ContractSurface::Api,
            "POST /api/v1/tasks/:task_id/transitions/reopen",
            ContractDirection::Deserialize,
            ContractStrictness::DenyUnknownFields,
            "urn:kanban-tool:schema:api:reopen-task-request:v1",
            "schemas/fixtures/api/reopen-task-request.v1.valid.json",
            server_route_test("suite::lifecycle_request_adoption::reopen_task_request_dto_serializes_to_committed_fixture"),
            server_route_test("suite::lifecycle_request_adoption::reopen_task_request_fixture_is_consumed_by_real_router"),
            ContractTransport::Http { operation_key: Some("POST /api/v1/tasks/:task_id/transitions/reopen"), location: HttpTransportLocation::Body, parameters: &[] },
        ),
        OperationContract::adopted(
            "api.archive-task.request",
            "POST /api/v1/tasks/:task_id/transitions/archive",
            ContractSurface::Api,
            "POST /api/v1/tasks/:task_id/transitions/archive",
            ContractDirection::Deserialize,
            ContractStrictness::DenyUnknownFields,
            "urn:kanban-tool:schema:api:archive-task-request:v1",
            "schemas/fixtures/api/archive-task-request.v1.valid.json",
            server_route_test("suite::lifecycle_request_adoption::archive_task_request_dto_serializes_to_committed_fixture"),
            server_route_test("suite::lifecycle_request_adoption::archive_task_request_fixture_is_consumed_by_real_router"),
            ContractTransport::Http { operation_key: Some("POST /api/v1/tasks/:task_id/transitions/archive"), location: HttpTransportLocation::Body, parameters: &[] },
        ),
        OperationContract::adopted(
            "api.add-dependency.request",
            "POST /api/v1/tasks/:task_id/dependencies",
            ContractSurface::Api,
            "POST /api/v1/tasks/:task_id/dependencies",
            ContractDirection::Deserialize,
            ContractStrictness::DenyUnknownFields,
            "urn:kanban-tool:schema:api:add-dependency-request:v1",
            "schemas/fixtures/api/add-dependency-request.v1.valid.json",
            server_route_test("suite::lifecycle_request_adoption::add_dependency_request_dto_serializes_to_committed_fixture"),
            server_route_test("suite::lifecycle_request_adoption::add_dependency_request_fixture_is_consumed_by_real_router"),
            ContractTransport::Http { operation_key: Some("POST /api/v1/tasks/:task_id/dependencies"), location: HttpTransportLocation::Body, parameters: &[] },
        ),
        OperationContract::adopted(
            "api.list-task-labels.path",
            "GET /api/v1/tasks/:task_id/labels path",
            ContractSurface::Api,
            "GET /api/v1/tasks/:task_id/labels",
            ContractDirection::Deserialize,
            ContractStrictness::DenyUnknownFields,
            "urn:kanban-tool:schema:api:list-task-labels-path:v1",
            "schemas/fixtures/api/list-task-labels-path.v1.valid.json",
            server_route_test("suite::labels_adoption::list_task_labels_path_dto_serializes_to_committed_fixture"),
            server_route_test("suite::labels_adoption::list_task_labels_path_fixture_is_consumed_by_real_router"),
            ContractTransport::Http { operation_key: Some("GET /api/v1/tasks/:task_id/labels"), location: HttpTransportLocation::Path, parameters: &[WireParameter { name: "task_id", cardinality: Some(WireParameterCardinality::RequiredOne) }] },
        ),
        OperationContract::adopted(
            "api.list-task-labels.response",
            "GET /api/v1/tasks/:task_id/labels response",
            ContractSurface::Api,
            "GET /api/v1/tasks/:task_id/labels",
            ContractDirection::Serialize,
            ContractStrictness::DenyUnknownFields,
            "urn:kanban-tool:schema:api:list-task-labels-response:v1",
            "schemas/fixtures/api/list-task-labels-response.v1.valid.json",
            server_route_test("suite::labels_adoption::list_task_labels_response_fixture_is_produced_by_real_router"),
            server_route_test("suite::labels_adoption::list_task_labels_response_fixture_is_consumed_by_contract_root"),
            ContractTransport::Http { operation_key: Some("GET /api/v1/tasks/:task_id/labels"), location: HttpTransportLocation::Success, parameters: &[] },
        ),
        OperationContract::adopted(
            "api.add-task-label.path",
            "POST /api/v1/tasks/:task_id/labels path",
            ContractSurface::Api,
            "POST /api/v1/tasks/:task_id/labels",
            ContractDirection::Deserialize,
            ContractStrictness::DenyUnknownFields,
            "urn:kanban-tool:schema:api:add-task-label-path:v1",
            "schemas/fixtures/api/add-task-label-path.v1.valid.json",
            server_route_test("suite::labels_adoption::add_task_label_path_dto_serializes_to_committed_fixture"),
            server_route_test("suite::labels_adoption::add_task_label_path_fixture_is_consumed_by_real_router"),
            ContractTransport::Http { operation_key: Some("POST /api/v1/tasks/:task_id/labels"), location: HttpTransportLocation::Path, parameters: &[WireParameter { name: "task_id", cardinality: Some(WireParameterCardinality::RequiredOne) }] },
        ),
        OperationContract::adopted(
            "api.add-task-label.request",
            "POST /api/v1/tasks/:task_id/labels request",
            ContractSurface::Api,
            "POST /api/v1/tasks/:task_id/labels",
            ContractDirection::Deserialize,
            ContractStrictness::DenyUnknownFields,
            "urn:kanban-tool:schema:api:add-task-label-request:v1",
            "schemas/fixtures/api/add-task-label-request.v1.valid.json",
            server_route_test("suite::labels_adoption::add_task_label_request_dto_serializes_to_committed_fixture"),
            server_route_test("suite::labels_adoption::add_task_label_request_fixture_is_consumed_by_real_router"),
            ContractTransport::Http { operation_key: Some("POST /api/v1/tasks/:task_id/labels"), location: HttpTransportLocation::Body, parameters: &[] },
        ),
        OperationContract::adopted(
            "api.add-task-label.response",
            "POST /api/v1/tasks/:task_id/labels response",
            ContractSurface::Api,
            "POST /api/v1/tasks/:task_id/labels",
            ContractDirection::Serialize,
            ContractStrictness::DenyUnknownFields,
            "urn:kanban-tool:schema:api:add-task-label-response:v1",
            "schemas/fixtures/api/add-task-label-response.v1.valid.json",
            server_route_test("suite::labels_adoption::add_task_label_response_fixture_is_produced_by_real_router"),
            server_route_test("suite::labels_adoption::add_task_label_response_fixture_is_consumed_by_contract_root"),
            ContractTransport::Http { operation_key: Some("POST /api/v1/tasks/:task_id/labels"), location: HttpTransportLocation::Success, parameters: &[] },
        ),
        OperationContract::adopted(
            "api.remove-task-label.path",
            "DELETE /api/v1/tasks/:task_id/labels/:label_id path",
            ContractSurface::Api,
            "DELETE /api/v1/tasks/:task_id/labels/:label_id",
            ContractDirection::Deserialize,
            ContractStrictness::DenyUnknownFields,
            "urn:kanban-tool:schema:api:remove-task-label-path:v1",
            "schemas/fixtures/api/remove-task-label-path.v1.valid.json",
            server_route_test("suite::labels_adoption::remove_task_label_path_dto_serializes_to_committed_fixture"),
            server_route_test("suite::labels_adoption::remove_task_label_path_fixture_is_consumed_by_real_router"),
            ContractTransport::Http { operation_key: Some("DELETE /api/v1/tasks/:task_id/labels/:label_id"), location: HttpTransportLocation::Path, parameters: &[WireParameter { name: "task_id", cardinality: Some(WireParameterCardinality::RequiredOne) }, WireParameter { name: "label_id", cardinality: Some(WireParameterCardinality::RequiredOne) }] },
        ),
        OperationContract::adopted(
            "api.remove-task-label.response",
            "DELETE /api/v1/tasks/:task_id/labels/:label_id response",
            ContractSurface::Api,
            "DELETE /api/v1/tasks/:task_id/labels/:label_id",
            ContractDirection::Serialize,
            ContractStrictness::DenyUnknownFields,
            "urn:kanban-tool:schema:api:remove-task-label-response:v1",
            "schemas/fixtures/api/remove-task-label-response.v1.valid.json",
            server_route_test("suite::labels_adoption::remove_task_label_response_fixture_is_produced_by_real_router"),
            server_route_test("suite::labels_adoption::remove_task_label_response_fixture_is_consumed_by_contract_root"),
            ContractTransport::Http { operation_key: Some("DELETE /api/v1/tasks/:task_id/labels/:label_id"), location: HttpTransportLocation::Success, parameters: &[] },
        ),
        OperationContract::adopted(
            "api.list-runs.path",
            "GET /api/v1/tasks/:task_id/runs path",
            ContractSurface::Api,
            "GET /api/v1/tasks/:task_id/runs",
            ContractDirection::Deserialize,
            ContractStrictness::DenyUnknownFields,
            "urn:kanban-tool:schema:api:list-runs-path:v1",
            "schemas/fixtures/api/list-runs-path.v1.valid.json",
            server_route_test("suite::runs_adoption::list_runs_path_dto_serializes_to_committed_fixture"),
            server_route_test("suite::runs_adoption::list_runs_path_fixture_is_consumed_by_real_router"),
            ContractTransport::Http { operation_key: Some("GET /api/v1/tasks/:task_id/runs"), location: HttpTransportLocation::Path, parameters: &[WireParameter { name: "task_id", cardinality: Some(WireParameterCardinality::RequiredOne) }] },
        ),
        OperationContract::adopted(
            "api.list-runs.response",
            "GET /api/v1/tasks/:task_id/runs response",
            ContractSurface::Api,
            "GET /api/v1/tasks/:task_id/runs",
            ContractDirection::Serialize,
            ContractStrictness::DenyUnknownFields,
            "urn:kanban-tool:schema:api:list-runs-response:v1",
            "schemas/fixtures/api/list-runs-response.v1.valid.json",
            server_route_test("suite::runs_adoption::list_runs_response_fixture_is_produced_by_real_router"),
            server_route_test("suite::runs_adoption::list_runs_response_fixture_is_consumed_by_contract_root"),
            ContractTransport::Http { operation_key: Some("GET /api/v1/tasks/:task_id/runs"), location: HttpTransportLocation::Success, parameters: &[] },
        ),
        OperationContract::adopted(
            "api.get-run.path",
            "GET /api/v1/runs/:run_id path",
            ContractSurface::Api,
            "GET /api/v1/runs/:run_id",
            ContractDirection::Deserialize,
            ContractStrictness::DenyUnknownFields,
            "urn:kanban-tool:schema:api:get-run-path:v1",
            "schemas/fixtures/api/get-run-path.v1.valid.json",
            server_route_test("suite::runs_adoption::get_run_path_dto_serializes_to_committed_fixture"),
            server_route_test("suite::runs_adoption::get_run_path_fixture_is_consumed_by_real_router"),
            ContractTransport::Http { operation_key: Some("GET /api/v1/runs/:run_id"), location: HttpTransportLocation::Path, parameters: &[WireParameter { name: "run_id", cardinality: Some(WireParameterCardinality::RequiredOne) }] },
        ),
        OperationContract::adopted(
            "api.get-run.response",
            "GET /api/v1/runs/:run_id response",
            ContractSurface::Api,
            "GET /api/v1/runs/:run_id",
            ContractDirection::Serialize,
            ContractStrictness::DenyUnknownFields,
            "urn:kanban-tool:schema:api:get-run-response:v1",
            "schemas/fixtures/api/get-run-response.v1.valid.json",
            server_route_test("suite::runs_adoption::get_run_response_fixture_is_produced_by_real_router"),
            server_route_test("suite::runs_adoption::get_run_response_fixture_is_consumed_by_contract_root"),
            ContractTransport::Http { operation_key: Some("GET /api/v1/runs/:run_id"), location: HttpTransportLocation::Success, parameters: &[] },
        ),
        OperationContract::adopted(
            "api.create-task.path",
            "POST /api/v1/boards/:board/tasks path",
            ContractSurface::Api,
            "POST /api/v1/boards/:board/tasks",
            ContractDirection::Deserialize,
            ContractStrictness::DenyUnknownFields,
            "urn:kanban-tool:schema:api:create-task-path:v1",
            "schemas/fixtures/api/create-task-path.v1.valid.json",
            server_route_test("suite::create_task_adoption::create_task_path_dto_serializes_to_committed_fixture"),
            server_route_test("suite::create_task_adoption::create_task_path_fixture_is_consumed_by_real_router"),
            ContractTransport::Http { operation_key: Some("POST /api/v1/boards/:board/tasks"), location: HttpTransportLocation::Path, parameters: &[WireParameter { name: "board", cardinality: Some(WireParameterCardinality::RequiredOne) }] },
        ),
        OperationContract::adopted(
            "api.create-task.request",
            "POST /api/v1/boards/:board/tasks request",
            ContractSurface::Api,
            "POST /api/v1/boards/:board/tasks",
            ContractDirection::Deserialize,
            ContractStrictness::DenyUnknownFields,
            "urn:kanban-tool:schema:api:create-task-request:v1",
            "schemas/fixtures/api/create-task-request.v1.valid.json",
            server_route_test("suite::create_task_adoption::create_task_request_dto_serializes_to_committed_fixture"),
            server_route_test("suite::create_task_adoption::create_task_request_fixture_is_consumed_by_real_router"),
            ContractTransport::Http { operation_key: Some("POST /api/v1/boards/:board/tasks"), location: HttpTransportLocation::Body, parameters: &[] },
        ),
        OperationContract::adopted(
            "api.create-task.response",
            "POST /api/v1/boards/:board/tasks response",
            ContractSurface::Api,
            "POST /api/v1/boards/:board/tasks",
            ContractDirection::Serialize,
            ContractStrictness::DenyUnknownFields,
            "urn:kanban-tool:schema:api:create-task-response:v1",
            "schemas/fixtures/api/create-task-response.v1.valid.json",
            server_route_test("suite::create_task_adoption::create_task_response_fixture_is_produced_by_real_router"),
            server_route_test("suite::create_task_adoption::create_task_response_fixture_is_consumed_by_contract_root"),
            ContractTransport::Http { operation_key: Some("POST /api/v1/boards/:board/tasks"), location: HttpTransportLocation::Success, parameters: &[] },
        ),
        OperationContract::adopted(
            "api.list-comments.path",
            "GET /api/v1/tasks/:task_id/comments path",
            ContractSurface::Api,
            "GET /api/v1/tasks/:task_id/comments",
            ContractDirection::Deserialize,
            ContractStrictness::DenyUnknownFields,
            "urn:kanban-tool:schema:api:list-comments-path:v1",
            "schemas/fixtures/api/list-comments-path.v1.valid.json",
            server_route_test("suite::comments_adoption::list_comments_path_dto_serializes_to_committed_fixture"),
            server_route_test("suite::comments_adoption::list_comments_path_fixture_is_consumed_by_real_router"),
            ContractTransport::Http { operation_key: Some("GET /api/v1/tasks/:task_id/comments"), location: HttpTransportLocation::Path, parameters: &[WireParameter { name: "task_id", cardinality: Some(WireParameterCardinality::RequiredOne) }] },
        ),
        OperationContract::adopted(
            "api.list-comments.response",
            "GET /api/v1/tasks/:task_id/comments response",
            ContractSurface::Api,
            "GET /api/v1/tasks/:task_id/comments",
            ContractDirection::Serialize,
            ContractStrictness::DenyUnknownFields,
            "urn:kanban-tool:schema:api:list-comments-response:v1",
            "schemas/fixtures/api/list-comments-response.v1.valid.json",
            server_route_test("suite::comments_adoption::list_comments_response_fixture_is_produced_by_real_router"),
            server_route_test("suite::comments_adoption::list_comments_response_fixture_is_consumed_by_contract_root"),
            ContractTransport::Http { operation_key: Some("GET /api/v1/tasks/:task_id/comments"), location: HttpTransportLocation::Success, parameters: &[] },
        ),
        OperationContract::adopted(
            "api.create-comment.path",
            "POST /api/v1/tasks/:task_id/comments path",
            ContractSurface::Api,
            "POST /api/v1/tasks/:task_id/comments",
            ContractDirection::Deserialize,
            ContractStrictness::DenyUnknownFields,
            "urn:kanban-tool:schema:api:create-comment-path:v1",
            "schemas/fixtures/api/create-comment-path.v1.valid.json",
            server_route_test("suite::comments_adoption::create_comment_path_dto_serializes_to_committed_fixture"),
            server_route_test("suite::comments_adoption::create_comment_path_fixture_is_consumed_by_real_router"),
            ContractTransport::Http { operation_key: Some("POST /api/v1/tasks/:task_id/comments"), location: HttpTransportLocation::Path, parameters: &[WireParameter { name: "task_id", cardinality: Some(WireParameterCardinality::RequiredOne) }] },
        ),
        OperationContract::adopted(
            "api.create-comment.request",
            "POST /api/v1/tasks/:task_id/comments request",
            ContractSurface::Api,
            "POST /api/v1/tasks/:task_id/comments",
            ContractDirection::Deserialize,
            ContractStrictness::DenyUnknownFields,
            "urn:kanban-tool:schema:api:create-comment-request:v1",
            "schemas/fixtures/api/create-comment-request.v1.valid.json",
            server_route_test("suite::comments_adoption::create_comment_request_dto_serializes_to_committed_fixture"),
            server_route_test("suite::comments_adoption::create_comment_request_fixture_is_consumed_by_real_router"),
            ContractTransport::Http { operation_key: Some("POST /api/v1/tasks/:task_id/comments"), location: HttpTransportLocation::Body, parameters: &[] },
        ),
        OperationContract::adopted(
            "api.create-comment.response",
            "POST /api/v1/tasks/:task_id/comments response",
            ContractSurface::Api,
            "POST /api/v1/tasks/:task_id/comments",
            ContractDirection::Serialize,
            ContractStrictness::DenyUnknownFields,
            "urn:kanban-tool:schema:api:create-comment-response:v1",
            "schemas/fixtures/api/create-comment-response.v1.valid.json",
            server_route_test("suite::comments_adoption::create_comment_response_fixture_is_produced_by_real_router"),
            server_route_test("suite::comments_adoption::create_comment_response_fixture_is_consumed_by_contract_root"),
            ContractTransport::Http { operation_key: Some("POST /api/v1/tasks/:task_id/comments"), location: HttpTransportLocation::Success, parameters: &[] },
        ),
        OperationContract::adopted(
            "api.list-steps.path",
            "GET /api/v1/tasks/:task_id/steps path",
            ContractSurface::Api,
            "GET /api/v1/tasks/:task_id/steps",
            ContractDirection::Deserialize,
            ContractStrictness::DenyUnknownFields,
            "urn:kanban-tool:schema:api:list-steps-path:v1",
            "schemas/fixtures/api/list-steps-path.v1.valid.json",
            server_route_test("suite::steps_adoption::list_steps_path_dto_serializes_to_committed_fixture"),
            server_route_test("suite::steps_adoption::list_steps_path_fixture_is_consumed_by_real_router"),
            ContractTransport::Http { operation_key: Some("GET /api/v1/tasks/:task_id/steps"), location: HttpTransportLocation::Path, parameters: &[WireParameter { name: "task_id", cardinality: Some(WireParameterCardinality::RequiredOne) }] },
        ),
        OperationContract::adopted(
            "api.list-steps.response",
            "GET /api/v1/tasks/:task_id/steps response",
            ContractSurface::Api,
            "GET /api/v1/tasks/:task_id/steps",
            ContractDirection::Serialize,
            ContractStrictness::DenyUnknownFields,
            "urn:kanban-tool:schema:api:list-steps-response:v1",
            "schemas/fixtures/api/list-steps-response.v1.valid.json",
            server_route_test("suite::steps_adoption::list_steps_response_fixture_is_produced_by_real_router"),
            server_route_test("suite::steps_adoption::list_steps_response_fixture_is_consumed_by_contract_root"),
            ContractTransport::Http { operation_key: Some("GET /api/v1/tasks/:task_id/steps"), location: HttpTransportLocation::Success, parameters: &[] },
        ),
        OperationContract::adopted(
            "api.create-step.path",
            "POST /api/v1/tasks/:task_id/steps path",
            ContractSurface::Api,
            "POST /api/v1/tasks/:task_id/steps",
            ContractDirection::Deserialize,
            ContractStrictness::DenyUnknownFields,
            "urn:kanban-tool:schema:api:create-step-path:v1",
            "schemas/fixtures/api/create-step-path.v1.valid.json",
            server_route_test("suite::steps_adoption::create_step_path_dto_serializes_to_committed_fixture"),
            server_route_test("suite::steps_adoption::create_step_path_fixture_is_consumed_by_real_router"),
            ContractTransport::Http { operation_key: Some("POST /api/v1/tasks/:task_id/steps"), location: HttpTransportLocation::Path, parameters: &[WireParameter { name: "task_id", cardinality: Some(WireParameterCardinality::RequiredOne) }] },
        ),
        OperationContract::adopted(
            "api.create-step.request",
            "POST /api/v1/tasks/:task_id/steps request",
            ContractSurface::Api,
            "POST /api/v1/tasks/:task_id/steps",
            ContractDirection::Deserialize,
            ContractStrictness::DenyUnknownFields,
            "urn:kanban-tool:schema:api:create-step-request:v1",
            "schemas/fixtures/api/create-step-request.v1.valid.json",
            server_route_test("suite::steps_adoption::create_step_request_dto_serializes_to_committed_fixture"),
            server_route_test("suite::steps_adoption::create_step_request_fixture_is_consumed_by_real_router"),
            ContractTransport::Http { operation_key: Some("POST /api/v1/tasks/:task_id/steps"), location: HttpTransportLocation::Body, parameters: &[] },
        ),
        OperationContract::adopted(
            "api.create-step.response",
            "POST /api/v1/tasks/:task_id/steps response",
            ContractSurface::Api,
            "POST /api/v1/tasks/:task_id/steps",
            ContractDirection::Serialize,
            ContractStrictness::DenyUnknownFields,
            "urn:kanban-tool:schema:api:create-step-response:v1",
            "schemas/fixtures/api/create-step-response.v1.valid.json",
            server_route_test("suite::steps_adoption::create_step_response_fixture_is_produced_by_real_router"),
            server_route_test("suite::steps_adoption::create_step_response_fixture_is_consumed_by_contract_root"),
            ContractTransport::Http { operation_key: Some("POST /api/v1/tasks/:task_id/steps"), location: HttpTransportLocation::Success, parameters: &[] },
        ),
        OperationContract::adopted(
            "api.update-step.path",
            "PATCH /api/v1/tasks/:task_id/steps/:step_id path",
            ContractSurface::Api,
            "PATCH /api/v1/tasks/:task_id/steps/:step_id",
            ContractDirection::Deserialize,
            ContractStrictness::DenyUnknownFields,
            "urn:kanban-tool:schema:api:update-step-path:v1",
            "schemas/fixtures/api/update-step-path.v1.valid.json",
            server_route_test("suite::steps_adoption::update_step_path_dto_serializes_to_committed_fixture"),
            server_route_test("suite::steps_adoption::update_step_path_fixture_is_consumed_by_real_router"),
            ContractTransport::Http { operation_key: Some("PATCH /api/v1/tasks/:task_id/steps/:step_id"), location: HttpTransportLocation::Path, parameters: &[WireParameter { name: "task_id", cardinality: Some(WireParameterCardinality::RequiredOne) }, WireParameter { name: "step_id", cardinality: Some(WireParameterCardinality::RequiredOne) }] },
        ),
        OperationContract::adopted(
            "api.update-step.request",
            "PATCH /api/v1/tasks/:task_id/steps/:step_id request",
            ContractSurface::Api,
            "PATCH /api/v1/tasks/:task_id/steps/:step_id",
            ContractDirection::Deserialize,
            ContractStrictness::DenyUnknownFields,
            "urn:kanban-tool:schema:api:update-step-request:v1",
            "schemas/fixtures/api/update-step-request.v1.valid.json",
            server_route_test("suite::steps_adoption::update_step_request_dto_serializes_to_committed_fixture"),
            server_route_test("suite::steps_adoption::update_step_request_fixture_is_consumed_by_real_router"),
            ContractTransport::Http { operation_key: Some("PATCH /api/v1/tasks/:task_id/steps/:step_id"), location: HttpTransportLocation::Body, parameters: &[] },
        ),
        OperationContract::adopted(
            "api.update-step.response",
            "PATCH /api/v1/tasks/:task_id/steps/:step_id response",
            ContractSurface::Api,
            "PATCH /api/v1/tasks/:task_id/steps/:step_id",
            ContractDirection::Serialize,
            ContractStrictness::DenyUnknownFields,
            "urn:kanban-tool:schema:api:update-step-response:v1",
            "schemas/fixtures/api/update-step-response.v1.valid.json",
            server_route_test("suite::steps_adoption::update_step_response_fixture_is_produced_by_real_router"),
            server_route_test("suite::steps_adoption::update_step_response_fixture_is_consumed_by_contract_root"),
            ContractTransport::Http { operation_key: Some("PATCH /api/v1/tasks/:task_id/steps/:step_id"), location: HttpTransportLocation::Success, parameters: &[] },
        ),
        OperationContract::adopted(
            "api.remove-step.path",
            "DELETE /api/v1/tasks/:task_id/steps/:step_id path",
            ContractSurface::Api,
            "DELETE /api/v1/tasks/:task_id/steps/:step_id",
            ContractDirection::Deserialize,
            ContractStrictness::DenyUnknownFields,
            "urn:kanban-tool:schema:api:remove-step-path:v1",
            "schemas/fixtures/api/remove-step-path.v1.valid.json",
            server_route_test("suite::steps_adoption::remove_step_path_dto_serializes_to_committed_fixture"),
            server_route_test("suite::steps_adoption::remove_step_path_fixture_is_consumed_by_real_router"),
            ContractTransport::Http { operation_key: Some("DELETE /api/v1/tasks/:task_id/steps/:step_id"), location: HttpTransportLocation::Path, parameters: &[WireParameter { name: "task_id", cardinality: Some(WireParameterCardinality::RequiredOne) }, WireParameter { name: "step_id", cardinality: Some(WireParameterCardinality::RequiredOne) }] },
        ),
        OperationContract::adopted(
            "api.remove-step.response",
            "DELETE /api/v1/tasks/:task_id/steps/:step_id response",
            ContractSurface::Api,
            "DELETE /api/v1/tasks/:task_id/steps/:step_id",
            ContractDirection::Serialize,
            ContractStrictness::DenyUnknownFields,
            "urn:kanban-tool:schema:api:remove-step-response:v1",
            "schemas/fixtures/api/remove-step-response.v1.valid.json",
            server_route_test("suite::steps_adoption::remove_step_response_fixture_is_produced_by_real_router"),
            server_route_test("suite::steps_adoption::remove_step_response_fixture_is_consumed_by_contract_root"),
            ContractTransport::Http { operation_key: Some("DELETE /api/v1/tasks/:task_id/steps/:step_id"), location: HttpTransportLocation::Success, parameters: &[] },
        ),
        OperationContract::adopted(
            "api.complete-step.path",
            "POST /api/v1/tasks/:task_id/steps/:step_id/done path",
            ContractSurface::Api,
            "POST /api/v1/tasks/:task_id/steps/:step_id/done",
            ContractDirection::Deserialize,
            ContractStrictness::DenyUnknownFields,
            "urn:kanban-tool:schema:api:complete-step-path:v1",
            "schemas/fixtures/api/complete-step-path.v1.valid.json",
            server_route_test("suite::steps_adoption::complete_step_path_dto_serializes_to_committed_fixture"),
            server_route_test("suite::steps_adoption::complete_step_path_fixture_is_consumed_by_real_router"),
            ContractTransport::Http { operation_key: Some("POST /api/v1/tasks/:task_id/steps/:step_id/done"), location: HttpTransportLocation::Path, parameters: &[WireParameter { name: "task_id", cardinality: Some(WireParameterCardinality::RequiredOne) }, WireParameter { name: "step_id", cardinality: Some(WireParameterCardinality::RequiredOne) }] },
        ),
        OperationContract::adopted(
            "api.complete-step.request",
            "POST /api/v1/tasks/:task_id/steps/:step_id/done request",
            ContractSurface::Api,
            "POST /api/v1/tasks/:task_id/steps/:step_id/done",
            ContractDirection::Deserialize,
            ContractStrictness::DenyUnknownFields,
            "urn:kanban-tool:schema:api:complete-step-request:v1",
            "schemas/fixtures/api/complete-step-request.v1.valid.json",
            server_route_test("suite::steps_adoption::complete_step_request_dto_serializes_to_committed_fixture"),
            server_route_test("suite::steps_adoption::complete_step_request_fixture_is_consumed_by_real_router"),
            ContractTransport::Http { operation_key: Some("POST /api/v1/tasks/:task_id/steps/:step_id/done"), location: HttpTransportLocation::Body, parameters: &[] },
        ),
        OperationContract::adopted(
            "api.complete-step.response",
            "POST /api/v1/tasks/:task_id/steps/:step_id/done response",
            ContractSurface::Api,
            "POST /api/v1/tasks/:task_id/steps/:step_id/done",
            ContractDirection::Serialize,
            ContractStrictness::DenyUnknownFields,
            "urn:kanban-tool:schema:api:complete-step-response:v1",
            "schemas/fixtures/api/complete-step-response.v1.valid.json",
            server_route_test("suite::steps_adoption::complete_step_response_fixture_is_produced_by_real_router"),
            server_route_test("suite::steps_adoption::complete_step_response_fixture_is_consumed_by_contract_root"),
            ContractTransport::Http { operation_key: Some("POST /api/v1/tasks/:task_id/steps/:step_id/done"), location: HttpTransportLocation::Success, parameters: &[] },
        ),
        OperationContract::adopted(
            "api.skip-step.path",
            "POST /api/v1/tasks/:task_id/steps/:step_id/skip path",
            ContractSurface::Api,
            "POST /api/v1/tasks/:task_id/steps/:step_id/skip",
            ContractDirection::Deserialize,
            ContractStrictness::DenyUnknownFields,
            "urn:kanban-tool:schema:api:skip-step-path:v1",
            "schemas/fixtures/api/skip-step-path.v1.valid.json",
            server_route_test("suite::steps_adoption::skip_step_path_dto_serializes_to_committed_fixture"),
            server_route_test("suite::steps_adoption::skip_step_path_fixture_is_consumed_by_real_router"),
            ContractTransport::Http { operation_key: Some("POST /api/v1/tasks/:task_id/steps/:step_id/skip"), location: HttpTransportLocation::Path, parameters: &[WireParameter { name: "task_id", cardinality: Some(WireParameterCardinality::RequiredOne) }, WireParameter { name: "step_id", cardinality: Some(WireParameterCardinality::RequiredOne) }] },
        ),
    ]
}

/// Historical inventory rows 200 to 239.
fn legacy_rows_5_vec() -> (r: Vec<OperationContract>)
    ensures
        r@ == legacy_rows_5(),
{
    reveal(legacy_rows_5);
    let r = vec![
        OperationContract::adopted(
            "api.block-task.request",
            "POST /api/v1/tasks/:task_id/transitions/block",
            ContractSurface::Api,
            "POST /api/v1/tasks/:task_id/transitions/block",
            ContractDirection::Deserialize,
            ContractStrictness::DenyUnknownFields,
            "urn:kanban-tool:schema:api:block-task-request:v1",
            "schemas/fixtures/api/block-task-request.v1.valid.json",
            server_route_test("block_task_request_contract"),
            server_route_test("router::tests::task_block_closes_non_running_and_running_application_paths"),
            ContractTransport::Http { operation_key: Some("POST /api/v1/tasks/:task_id/transitions/block"), location: HttpTransportLocation::Body, parameters: &[] },
        ),
        OperationContract::adopted(
            "api.block-task.path",
            "POST /api/v1/tasks/:task_id/transitions/block path",
            ContractSurface::Api,
            "POST /api/v1/tasks/:task_id/transitions/block",
            ContractDirection::Deserialize,
            ContractStrictness::DenyUnknownFields,
            "urn:kanban-tool:schema:api:block-task-path:v1",
            "schemas/fixtures/api/block-task-path.v1.valid.json",
            server_route_test("block_task_path_contract"),
            server_route_test("router::tests::task_block_closes_non_running_and_running_application_paths"),
            ContractTransport::Http { operation_key: Some("POST /api/v1/tasks/:task_id/transitions/block"), location: HttpTransportLocation::Path, parameters: &[WireParameter { name: "task_id", cardinality: Some(WireParameterCardinality::RequiredOne) }] },
        ),
        OperationContract::adopted(
            "api.block-task.response",
            "POST /api/v1/tasks/:task_id/transitions/block response",
            ContractSurface::Api,
            "POST /api/v1/tasks/:task_id/transitions/block",
            ContractDirection::Serialize,
            ContractStrictness::DenyUnknownFields,
            "urn:kanban-tool:schema:api:block-task-response:v1",
            "schemas/fixtures/api/block-task-response.v1.valid.json",
            server_route_test("router::tests::task_block_closes_non_running_and_running_application_paths"),
            server_route_test("block_task_response_contract"),
            ContractTransport::Http { operation_key: Some("POST /api/v1/tasks/:task_id/transitions/block"), location: HttpTransportLocation::Success, parameters: &[] },
        ),
        OperationContract::adopted(
            "api.unblock-task.request",
            "POST /api/v1/tasks/:task_id/transitions/unblock",
            ContractSurface::Api,
            "POST /api/v1/tasks/:task_id/transitions/unblock",
            ContractDirection::Deserialize,
            ContractStrictness::DenyUnknownFields,
            "urn:kanban-tool:schema:api:unblock-task-request:v1",
            "schemas/fixtures/api/unblock-task-request.v1.valid.json",
            server_route_test("suite::lifecycle_request_adoption::unblock_task_request_dto_serializes_to_committed_fixture"),
            server_route_test("suite::lifecycle_request_adoption::unblock_task_request_fixture_is_consumed_by_real_router"),
            ContractTransport::Http { operation_key: Some("POST /api/v1/tasks/:task_id/transitions/unblock"), location: HttpTransportLocation::Body, parameters: &[] },
        ),
        OperationContract::adopted(
            "api.reopen-task.request",
            "POST /api/v1/tasks/:task_id/transitions/reopen",
            ContractSurface::Api,
            "POST /api/v1/tasks/:task_id/transitions/reopen",
            ContractDirection::Deserialize,
            ContractStrictness::DenyUnknownFields,
            "urn:kanban-tool:schema:api:reopen-task-request:v1",
            "schemas/fixtures/api/reopen-task-request.v1.valid.json",
            server_route_test("suite::lifecycle_request_adoption::reopen_task_request_dto_serializes_to_committed_fixture"),
            server_route_test("suite::lifecycle_request_adoption::reopen_task_request_fixture_is_consumed_by_real_router"),
            ContractTransport::Http { operation_key: Some("POST /api/v1/tasks/:task_id/transitions/reopen"), location: HttpTransportLocation::Body, parameters: &[] },
        ),
        OperationContract::adopted(
            "api.archive-task.request",
            "POST /api/v1/tasks/:task_id/transitions/archive",
            ContractSurface::Api,
            "POST /api/v1/tasks/:task_id/transitions/archive",
            ContractDirection::Deserialize,
            ContractStrictness::DenyUnknownFields,
            "urn:kanban-tool:schema:api:archive-task-request:v1",
            "schemas/fixtures/api/archive-task-request.v1.valid.json",
            server_route_test("suite::lifecycle_request_adoption::archive_task_request_dto_serializes_to_committed_fixture"),
            server_route_test("suite::lifecycle_request_adoption::archive_task_request_fixture_is_consumed_by_real_router"),
            ContractTransport::Http { operation_key: Some("POST /api/v1/tasks/:task_id/transitions/archive"), location: HttpTransportLocation::Body, parameters: &[] },
        ),
        OperationContract::adopted(
            "api.add-dependency.request",
            "POST /api/v1/tasks/:task_id/dependencies",
            ContractSurface::Api,
            "POST /api/v1/tasks/:task_id/dependencies",
            ContractDirection::Deserialize,
            ContractStrictness::DenyUnknownFields,
            "urn:kanban-tool:schema:api:add-dependency-request:v1",
            "schemas/fixtures/api/add-dependency-request.v1.valid.json",
            server_route_test("suite::lifecycle_request_adoption::add_dependency_request_dto_serializes_to_committed_fixture"),
            server_route_test("suite::lifecycle_request_adoption::add_dependency_request_fixture_is_consumed_by_real_router"),
            ContractTransport::Http { operation_key: Some("POST /api/v1/tasks/:task_id/dependencies"), location: HttpTransportLocation::Body, parameters: &[] },
        ),
        OperationContract::adopted(
            "api.list-task-labels.path",
            "GET /api/v1/tasks/:task_id/labels path",
            ContractSurface::Api,
            "GET /api/v1/tasks/:task_id/labels",
            ContractDirection::Deserialize,
            ContractStrictness::DenyUnknownFields,
            "urn:kanban-tool:schema:api:list-task-labels-path:v1",
            "schemas/fixtures/api/list-task-labels-path.v1.valid.json",
            server_route_test("suite::labels_adoption::list_task_labels_path_dto_serializes_to_committed_fixture"),
            server_route_test("suite::labels_adoption::list_task_labels_path_fixture_is_consumed_by_real_router"),
            ContractTransport::Http { operation_key: Some("GET /api/v1/tasks/:task_id/labels"), location: HttpTransportLocation::Path, parameters: &[WireParameter { name: "task_id", cardinality: Some(WireParameterCardinality::RequiredOne) }] },
        ),
        OperationContract::adopted(
            "api.list-task-labels.response",
            "GET /api/v1/tasks/:task_id/labels response",
            ContractSurface::Api,
            "GET /api/v1/tasks/:task_id/labels",
            ContractDirection::Serialize,
            ContractStrictness::DenyUnknownFields,
            "urn:kanban-tool:schema:api:list-task-labels-response:v1",
            "schemas/fixtures/api/list-task-labels-response.v1.valid.json",
            server_route_test("suite::labels_adoption::list_task_labels_response_fixture_is_produced_by_real_router"),
            server_route_test("suite::labels_adoption::list_task_labels_response_fixture_is_consumed_by_contract_root"),
            ContractTransport::Http { operation_key: Some("GET /api/v1/tasks/:task_id/labels"), location: HttpTransportLocation::Success, parameters: &[] },
        ),
        OperationContract::adopted(
            "api.add-task-label.path",
            "POST /api/v1/tasks/:task_id/labels path",
            ContractSurface::Api,
            "POST /api/v1/tasks/:task_id/labels",
            ContractDirection::Deserialize,
            ContractStrictness::DenyUnknownFields,
            "urn:kanban-tool:schema:api:add-task-label-path:v1",
            "schemas/fixtures/api/add-task-label-path.v1.valid.json",
            server_route_test("suite::labels_adoption::add_task_label_path_dto_serializes_to_committed_fixture"),
            server_route_test("suite::labels_adoption::add_task_label_path_fixture_is_consumed_by_real_router"),
            ContractTransport::Http { operation_key: Some("POST /api/v1/tasks/:task_id/labels"), location: HttpTransportLocation::Path, parameters: &[WireParameter { name: "task_id", cardinality: Some(WireParameterCardinality::RequiredOne) }] },
        ),
        OperationContract::adopted(
            "api.add-task-label.request",
            "POST /api/v1/tasks/:task_id/labels request",
            ContractSurface::Api,
            "POST /api/v1/tasks/:task_id/labels",
            ContractDirection::Deserialize,
            ContractStrictness::DenyUnknownFields,
            "urn:kanban-tool:schema:api:add-task-label-request:v1",
            "schemas/fixtures/api/add-task-label-request.v1.valid.json",
            server_route_test("suite::labels_adoption::add_task_label_request_dto_serializes_to_committed_fixture"),
            server_route_test("suite::labels_adoption::add_task_label_request_fixture_is_consumed_by_real_router"),
            ContractTransport::Http { operation_key: Some("POST /api/v1/tasks/:task_id/labels"), location: HttpTransportLocation::Body, parameters: &[] },
        ),
        OperationContract::adopted(
            "api.add-task-label.response",
            "POST /api/v1/tasks/:task_id/labels response",
            ContractSurface::Api,
            "POST /api/v1/tasks/:task_id/labels",
            ContractDirection::Serialize,
            ContractStrictness::DenyUnknownFields,
            "urn:kanban-tool:schema:api:add-task-label-response:v1",
            "schemas/fixtures/api/add-task-label-response.v1.valid.json",
            server_route_test("suite::labels_adoption::add_task_label_response_fixture_is_produced_by_real_router"),
            server_route_test("suite::labels_adoption::add_task_label_response_fixture_is_consumed_by_contract_root"),
            ContractTransport::Http { operation_key: Some("POST /api/v1/tasks/:task_id/labels"), location: HttpTransportLocation::Success, parameters: &[] },
        ),
        OperationContract::adopted(
            "api.remove-task-label.path",
            "DELETE /api/v1/tasks/:task_id/labels/:label_id path",
            ContractSurface::Api,
            "DELETE /api/v1/tasks/:task_id/labels/:label_id",
            ContractDirection::Deserialize,
            ContractStrictness::DenyUnknownFields,
            "urn:kanban-tool:schema:api:remove-task-label-path:v1",
            "schemas/fixtures/api/remove-task-label-path.v1.valid.json",
            server_route_test("suite::labels_adoption::remove_task_label_path_dto_serializes_to_committed_fixture"),
            server_route_test("suite::labels_adoption::remove_task_label_path_fixture_is_consumed_by_real_router"),
            ContractTransport::Http { operation_key: Some("DELETE /api/v1/tasks/:task_id/labels/:label_id"), location: HttpTransportLocation::Path, parameters: &[WireParameter { name: "task_id", cardinality: Some(WireParameterCardinality::RequiredOne) }, WireParameter { name: "label_id", cardinality: Some(WireParameterCardinality::RequiredOne) }] },
        ),
        OperationContract::adopted(
            "api.remove-task-label.response",
            "DELETE /api/v1/tasks/:task_id/labels/:label_id response",
            ContractSurface::Api,
            "DELETE /api/v1/tasks/:task_id/labels/:label_id",
            ContractDirection::Serialize,
            ContractStrictness::DenyUnknownFields,
            "urn:kanban-tool:schema:api:remove-task-label-response:v1",
            "schemas/fixtures/api/remove-task-label-response.v1.valid.json",
            server_route_test("suite::labels_adoption::remove_task_label_response_fixture_is_produced_by_real_router"),
            server_route_test("suite::labels_adoption::remove_task_label_response_fixture_is_consumed_by_contract_root"),
            ContractTransport::Http { operation_key: Some("DELETE /api/v1/tasks/:task_id/labels/:label_id"), location: HttpTransportLocation::Success, parameters: &[] },
        ),
        OperationContract::adopted(
            "api.list-runs.path",
            "GET /api/v1/tasks/:task_id/runs path",
            ContractSurface::Api,
            "GET /api/v1/tasks/:task_id/runs",
            ContractDirection::Deserialize,
            ContractStrictness::DenyUnknownFields,
            "urn:kanban-tool:schema:api:list-runs-path:v1",
            "schemas/fixtures/api/list-runs-path.v1.valid.json",
            server_route_test("suite::runs_adoption::list_runs_path_dto_serializes_to_committed_fixture"),
            server_route_test("suite::runs_adoption::list_runs_path_fixture_is_consumed_by_real_router"),
            ContractTransport::Http { operation_key: Some("GET /api/v1/tasks/:task_id/runs"), location: HttpTransportLocation::Path, parameters: &[WireParameter { name: "task_id", cardinality: Some(WireParameterCardinality::RequiredOne) }] },
        ),
        OperationContract::adopted(
            "api.list-runs.response",
            "GET /api/v1/tasks/:task_id/runs response",
            ContractSurface::Api,
            "GET /api/v1/tasks/:task_id/runs",
            ContractDirection::Serialize,
            ContractStrictness::DenyUnknownFields,
            "urn:kanban-tool:schema:api:list-runs-response:v1",
            "schemas/fixtures/api/list-runs-response.v1.valid.json",
            server_route_test("suite::runs_adoption::list_runs_response_fixture_is_produced_by_real_router"),
            server_route_test("suite::runs_adoption::list_runs_response_fixture_is_consumed_by_contract_root"),
            ContractTransport::Http { operation_key: Some("GET /api/v1/tasks/:task_id/runs"), location: HttpTransportLocation::Success, parameters: &[] },
        ),
        OperationContract::adopted(
            "api.get-run.path",
            "GET /api/v1/runs/:run_id path",
            ContractSurface::Api,
            "GET /api/v1/runs/:run_id",
            ContractDirection::Deserialize,
            ContractStrictness::DenyUnknownFields,
            "urn:kanban-tool:schema:api:get-run-path:v1",
            "schemas/fixtures/api/get-run-path.v1.valid.json",
            server_route_test("suite::runs_adoption::get_run_path_dto_serializes_to_committed_fixture"),
            server_route_test("suite::runs_adoption::get_run_path_fixture_is_consumed_by_real_router"),
            ContractTransport::Http { operation_key: Some("GET /api/v1/runs/:run_id"), location: HttpTransportLocation::Path, parameters: &[WireParameter { name: "run_id", cardinality: Some(WireParameterCardinality::RequiredOne) }] },
        ),
        OperationContract::adopted(
            "api.get-run.response",
            "GET /api/v1/runs/:run_id response",
            ContractSurface::Api,
            "GET /api/v1/runs/:run_id",
            ContractDirection::Serialize,
            ContractStrictness::DenyUnknownFields,
            "urn:kanban-tool:schema:api:get-run-response:v1",
            "schemas/fixtures/api/get-run-response.v1.valid.json",
            server_route_test("suite::runs_adoption::get_run_response_fixture_is_produced_by_real_router"),
            server_route_test("suite::runs_adoption::get_run_response_fixture_is_consumed_by_contract_root"),
            ContractTransport::Http { operation_key: Some("GET /api/v1/runs/:run_id"), location: HttpTransportLocation::Success, parameters: &[] },
        ),
        OperationContract::adopted(
            "api.create-task.path",
            "POST /api/v1/boards/:board/tasks path",
            ContractSurface::Api,
            "POST /api/v1/boards/:board/tasks",
            ContractDirection::Deserialize,
            ContractStrictness::DenyUnknownFields,
            "urn:kanban-tool:schema:api:create-task-path:v1",
            "schemas/fixtures/api/create-task-path.v1.valid.json",
            server_route_test("suite::create_task_adoption::create_task_path_dto_serializes_to_committed_fixture"),
            server_route_test("suite::create_task_adoption::create_task_path_fixture_is_consumed_by_real_router"),
            ContractTransport::Http { operation_key: Some("POST /api/v1/boards/:board/tasks"), location: HttpTransportLocation::Path, parameters: &[WireParameter { name: "board", cardinality: Some(WireParameterCardinality::RequiredOne) }] },
        ),
        OperationContract::adopted(
            "api.create-task.request",
            "POST /api/v1/boards/:board/tasks request",
            ContractSurface::Api,
            "POST /api/v1/boards/:board/tasks",
            ContractDirection::Deserialize,
            ContractStrictness::DenyUnknownFields,
            "urn:kanban-tool:schema:api:create-task-request:v1",
            "schemas/fixtures/api/create-task-request.v1.valid.json",
            server_route_test("suite::create_task_adoption::create_task_request_dto_serializes_to_committed_fixture"),
            server_route_test("suite::create_task_adoption::create_task_request_fixture_is_consumed_by_real_router"),
            ContractTransport::Http { operation_key: Some("POST /api/v1/boards/:board/tasks"), location: HttpTransportLocation::Body, parameters: &[] },
        ),
        OperationContract::adopted(
            "api.create-task.response",
            "POST /api/v1/boards/:board/tasks response",
            ContractSurface::Api,
            "POST /api/v1/boards/:board/tasks",
            ContractDirection::Serialize,
            ContractStrictness::DenyUnknownFields,
            "urn:kanban-tool:schema:api:create-task-response:v1",
            "schemas/fixtures/api/create-task-response.v1.valid.json",
            server_route_test("suite::create_task_adoption::create_task_response_fixture_is_produced_by_real_router"),
            server_route_test("suite::create_task_adoption::create_task_response_fixture_is_consumed_by_contract_root"),
            ContractTransport::Http { operation_key: Some("POST /api/v1/boards/:board/tasks"), location: HttpTransportLocation::Success, parameters: &[] },
        ),
        OperationContract::adopted(
            "api.list-comments.path",
            "GET /api/v1/tasks/:task_id/comments path",
            ContractSurface::Api,
            "GET /api/v1/tasks/:task_id/comments",
            ContractDirection::Deserialize,
            ContractStrictness::DenyUnknownFields,
            "urn:kanban-tool:schema:api:list-comments-path:v1",
            "schemas/fixtures/api/list-comments-path.v1.valid.json",
            server_route_test("suite::comments_adoption::list_comments_path_dto_serializes_to_committed_fixture"),
            server_route_test("suite::comments_adoption::list_comments_path_fixture_is_consumed_by_real_router"),
            ContractTransport::Http { operation_key: Some("GET /api/v1/tasks/:task_id/comments"), location: HttpTransportLocation::Path, parameters: &[WireParameter { name: "task_id", cardinality: Some(WireParameterCardinality::RequiredOne) }] },
        ),
        OperationContract::adopted(
            "api.list-comments.response",
            "GET /api/v1/tasks/:task_id/comments response",
            ContractSurface::Api,
            "GET /api/v1/tasks/:task_id/comments",
            ContractDirection::Serialize,
            ContractStrictness::DenyUnknownFields,
            "urn:kanban-tool:schema:api:list-comments-response:v1",
            "schemas/fixtures/api/list-comments-response.v1.valid.json",
            server_route_test("suite::comments_adoption::list_comments_response_fixture_is_produced_by_real_router"),
            server_route_test("suite::comments_adoption::list_comments_response_fixture_is_consumed_by_contract_root"),
            ContractTransport::Http { operation_key: Some("GET /api/v1/tasks/:task_id/comments"), location: HttpTransportLocation::Success, parameters: &[] },
        ),
        OperationContract::adopted(
            "api.create-comment.path",
            "POST /api/v1/tasks/:task_id/comments path",
            ContractSurface::Api,
            "POST /api/v1/tasks/:task_id/comments",
            ContractDirection::Deserialize,
            ContractStrictness::DenyUnknownFields,
            "urn:kanban-tool:schema:api:create-comment-path:v1",
            "schemas/fixtures/api/create-comment-path.v1.valid.json",
            server_route_test("suite::comments_adoption::create_comment_path_dto_serializes_to_committed_fixture"),
            server_route_test("suite::comments_adoption::create_comment_path_fixture_is_consumed_by_real_router"),
            ContractTransport::Http { operation_key: Some("POST /api/v1/tasks/:task_id/comments"), location: HttpTransportLocation::Path, parameters: &[WireParameter { name: "task_id", cardinality: Some(WireParameterCardinality::RequiredOne) }] },
        ),
        OperationContract::adopted(
            "api.create-comment.request",
            "POST /api/v1/tasks/:task_id/comments request",
            ContractSurface::Api,
            "POST /api/v1/tasks/:task_id/comments",
            ContractDirection::Deserialize,
            ContractStrictness::DenyUnknownFields,
            "urn:kanban-tool:schema:api:create-comment-request:v1",
            "schemas/fixtures/api/create-comment-request.v1.valid.json",
            server_route_test("suite::comments_adoption::create_comment_request_dto_serializes_to_committed_fixture"),
            server_route_test("suite::comments_adoption::create_comment_request_fixture_is_consumed_by_real_router"),
            ContractTransport::Http { operation_key: Some("POST /api/v1/tasks/:task_id/comments"), location: HttpTransportLocation::Body, parameters: &[] },
        ),
        OperationContract::adopted(
            "api.create-comment.response",
            "POST /api/v1/tasks/:task_id/comments response",
            ContractSurface::Api,
            "POST /api/v1/tasks/:task_id/comments",
            ContractDirection::Serialize,
            ContractStrictness::DenyUnknownFields,
            "urn:kanban-tool:schema:api:create-comment-response:v1",
            "schemas/fixtures/api/create-comment-response.v1.valid.json",
            server_route_test("suite::comments_adoption::create_comment_response_fixture_is_produced_by_real_router"),
            server_route_test("suite::comments_adoption::create_comment_response_fixture_is_consumed_by_contract_root"),
            ContractTransport::Http { operation_key: Some("POST /api/v1/tasks/:task_id/comments"), location: HttpTransportLocation::Success, parameters: &[] },
        ),
        OperationContract::adopted(
            "api.list-steps.path",
            "GET /api/v1/tasks/:task_id/steps path",
            ContractSurface::Api,
            "GET /api/v1/tasks/:task_id/steps",
            ContractDirection::Deserialize,
            ContractStrictness::DenyUnknownFields,
            "urn:kanban-tool:schema:api:list-steps-path:v1",
            "schemas/fixtures/api/list-steps-path.v1.valid.json",
            server_route_test("suite::steps_adoption::list_steps_path_dto_serializes_to_committed_fixture"),
            server_route_test("suite::steps_adoption::list_steps_path_fixture_is_consumed_by_real_router"),
            ContractTransport::Http { operation_key: Some("GET /api/v1/tasks/:task_id/steps"), location: HttpTransportLocation::Path, parameters: &[WireParameter { name: "task_id", cardinality: Some(WireParameterCardinality::RequiredOne) }] },
        ),
        OperationContract::adopted(
            "api.list-steps.response",
            "GET /api/v1/tasks/:task_id/steps response",
            ContractSurface::Api,
            "GET /api/v1/tasks/:task_id/steps",
            ContractDirection::Serialize,
            ContractStrictness::DenyUnknownFields,
            "urn:kanban-tool:schema:api:list-steps-response:v1",
            "schemas/fixtures/api/list-steps-response.v1.valid.json",
            server_route_test("suite::steps_adoption::list_steps_response_fixture_is_produced_by_real_router"),
            server_route_test("suite::steps_adoption::list_steps_response_fixture_is_consumed_by_contract_root"),
            ContractTransport::Http { operation_key: Some("GET /api/v1/tasks/:task_id/steps"), location: HttpTransportLocation::Success, parameters: &[] },
        ),
        OperationContract::adopted(
            "api.create-step.path",
            "POST /api/v1/tasks/:task_id/steps path",
            ContractSurface::Api,
            "POST /api/v1/tasks/:task_id/steps",
            ContractDirection::Deserialize,
            ContractStrictness::DenyUnknownFields,
            "urn:kanban-tool:schema:api:create-step-path:v1",
            "schemas/fixtures/api/create-step-path.v1.valid.json",
            server_route_test("suite::steps_adoption::create_step_path_dto_serializes_to_committed_fixture"),
            server_route_test("suite::steps_adoption::create_step_path_fixture_is_consumed_by_real_router"),
            ContractTransport::Http { operation_key: Some("POST /api/v1/tasks/:task_id/steps"), location: HttpTransportLocation::Path, parameters: &[WireParameter { name: "task_id", cardinality: Some(WireParameterCardinality::RequiredOne) }] },
        ),
        OperationContract::adopted(
            "api.create-step.request",
            "POST /api/v1/tasks/:task_id/steps request",
            ContractSurface::Api,
            "POST /api/v1/tasks/:task_id/steps",
            ContractDirection::Deserialize,
            ContractStrictness::DenyUnknownFields,
            "urn:kanban-tool:schema:api:create-step-request:v1",
            "schemas/fixtures/api/create-step-request.v1.valid.json",
            server_route_test("suite::steps_adoption::create_step_request_dto_serializes_to_committed_fixture"),
            server_route_test("suite::steps_adoption::create_step_request_fixture_is_consumed_by_real_router"),
            ContractTransport::Http { operation_key: Some("POST /api/v1/tasks/:task_id/steps"), location: HttpTransportLocation::Body, parameters: &[] },
        ),
        OperationContract::adopted(
            "api.create-step.response",
            "POST /api/v1/tasks/:task_id/steps response",
            ContractSurface::Api,
            "POST /api/v1/tasks/:task_id/steps",
            ContractDirection::Serialize,
            ContractStrictness::DenyUnknownFields,
            "urn:kanban-tool:schema:api:create-step-response:v1",
            "schemas/fixtures/api/create-step-response.v1.valid.json",
            server_route_test("suite::steps_adoption::create_step_response_fixture_is_produced_by_real_router"),
            server_route_test("suite::steps_adoption::create_step_response_fixture_is_consumed_by_contract_root"),
            ContractTransport::Http { operation_key: Some("POST /api/v1/tasks/:task_id/steps"), location: HttpTransportLocation::Success, parameters: &[] },
        ),
        OperationContract::adopted(
            "api.update-step.path",
            "PATCH /api/v1/tasks/:task_id/steps/:step_id path",
            ContractSurface::Api,
            "PATCH /api/v1/tasks/:task_id/steps/:step_id",
            ContractDirection::Deserialize,
            ContractStrictness::DenyUnknownFields,
            "urn:kanban-tool:schema:api:update-step-path:v1",
            "schemas/fixtures/api/update-step-path.v1.valid.json",
            server_route_test("suite::steps_adoption::update_step_path_dto_serializes_to_committed_fixture"),
            server_route_test("suite::steps_adoption::update_step_path_fixture_is_consumed_by_real_router"),
            ContractTransport::Http { operation_key: Some("PATCH /api/v1/tasks/:task_id/steps/:step_id"), location: HttpTransportLocation::Path, parameters: &[WireParameter { name: "task_id", cardinality: Some(WireParameterCardinality::RequiredOne) }, WireParameter { name: "step_id", cardinality: Some(WireParameterCardinality::RequiredOne) }] },
        ),
        OperationContract::adopted(
            "api.update-step.request",
            "PATCH /api/v1/tasks/:task_id/steps/:step_id request",
            ContractSurface::Api,
            "PATCH /api/v1/tasks/:task_id/steps/:step_id",
            ContractDirection::Deserialize,
            ContractStrictness::DenyUnknownFields,
            "urn:kanban-tool:schema:api:update-step-request:v1",
            "schemas/fixtures/api/update-step-request.v1.valid.json",
            server_route_test("suite::steps_adoption::update_step_request_dto_serializes_to_committed_fixture"),
            server_route_test("suite::steps_adoption::update_step_request_fixture_is_consumed_by_real_router"),
            ContractTransport::Http { operation_key: Some("PATCH /api/v1/tasks/:task_id/steps/:step_id"), location: HttpTransportLocation::Body, parameters: &[] },
        ),
        OperationContract::adopted(
            "api.update-step.response",
            "PATCH /api/v1/tasks/:task_id/steps/:step_id response",
            ContractSurface::Api,
            "PATCH /api/v1/tasks/:task_id/steps/:step_id",
            ContractDirection::Serialize,
            ContractStrictness::DenyUnknownFields,
            "urn:kanban-tool:schema:api:update-step-response:v1",
            "schemas/fixtures/api/update-step-response.v1.valid.json",
            server_route_test("suite::steps_adoption::update_step_response_fixture_is_produced_by_real_router"),
            server_route_test("suite::steps_adoption::update_step_response_fixture_is_consumed_by_contract_root"),
            ContractTransport::Http { operation_key: Some("PATCH /api/v1/tasks/:task_id/steps/:step_id"), location: HttpTransportLocation::Success, parameters: &[] },
        ),
        OperationContract::adopted(
            "api.remove-step.path",
            "DELETE /api/v1/tasks/:task_id/steps/:step_id path",
            ContractSurface::Api,
            "DELETE /api/v1/tasks/:task_id/steps/:step_id",
            ContractDirection::Deserialize,
            ContractStrictness::DenyUnknownFields,
            "urn:kanban-tool:schema:api:remove-step-path:v1",
            "schemas/fixtures/api/remove-step-path.v1.valid.json",
            server_route_test("suite::steps_adoption::remove_step_path_dto_serializes_to_committed_fixture"),
            server_route_test("suite::steps_adoption::remove_step_path_fixture_is_consumed_by_real_router"),
            ContractTransport::Http { operation_key: Some("DELETE /api/v1/tasks/:task_id/steps/:step_id"), location: HttpTransportLocation::Path, parameters: &[WireParameter { name: "task_id", cardinality: Some(WireParameterCardinality::RequiredOne) }, WireParameter { name: "step_id", cardinality: Some(WireParameterCardinality::RequiredOne) }] },
        ),
        OperationContract::adopted(
            "api.remove-step.response",
            "DELETE /api/v1/tasks/:task_id/steps/:step_id response",
            ContractSurface::Api,
            "DELETE /api/v1/tasks/:task_id/steps/:step_id",
            ContractDirection::Serialize,
            ContractStrictness::DenyUnknownFields,
            "urn:kanban-tool:schema:api:remove-step-response:v1",
            "schemas/fixtures/api/remove-step-response.v1.valid.json",
            server_route_test("suite::steps_adoption::remove_step_response_fixture_is_produced_by_real_router"),
            server_route_test("suite::steps_adoption::remove_step_response_fixture_is_consumed_by_contract_root"),
            ContractTransport::Http { operation_key: Some("DELETE /api/v1/tasks/:task_id/steps/:step_id"), location: HttpTransportLocation::Success, parameters: &[] },
        ),
        OperationContract::adopted(
            "api.complete-step.path",
            "POST /api/v1/tasks/:task_id/steps/:step_id/done path",
            ContractSurface::Api,
            "POST /api/v1/tasks/:task_id/steps/:step_id/done",
            ContractDirection::Deserialize,
            ContractStrictness::DenyUnknownFields,
            "urn:kanban-tool:schema:api:complete-step-path:v1",
            "schemas/fixtures/api/complete-step-path.v1.valid.json",
            server_route_test("suite::steps_adoption::complete_step_path_dto_serializes_to_committed_fixture"),
            server_route_test("suite::steps_adoption::complete_step_path_fixture_is_consumed_by_real_router"),
            ContractTransport::Http { operation_key: Some("POST /api/v1/tasks/:task_id/steps/:step_id/done"), location: HttpTransportLocation::Path, parameters: &[WireParameter { name: "task_id", cardinality: Some(WireParameterCardinality::RequiredOne) }, WireParameter { name: "step_id", cardinality: Some(WireParameterCardinality::RequiredOne) }] },
        ),
        OperationContract::adopted(
            "api.complete-step.request",
            "POST /api/v1/tasks/:task_id/steps/:step_id/done request",
            ContractSurface::Api,
            "POST /api/v1/tasks/:task_id/steps/:step_id/done",
            ContractDirection::Deserialize,
            ContractStrictness::DenyUnknownFields,
            "urn:kanban-tool:schema:api:complete-step-request:v1",
            "schemas/fixtures/api/complete-step-request.v1.valid.json",
            server_route_test("suite::steps_adoption::complete_step_request_dto_serializes_to_committed_fixture"),
            server_route_test("suite::steps_adoption::complete_step_request_fixture_is_consumed_by_real_router"),
            ContractTransport::Http { operation_key: Some("POST /api/v1/tasks/:task_id/steps/:step_id/done"), location: HttpTransportLocation::Body, parameters: &[] },
        ),
        OperationContract::adopted(
            "api.complete-step.response",
            "POST /api/v1/tasks/:task_id/steps/:step_id/done response",
            ContractSurface::Api,
            "POST /api/v1/tasks/:task_id/steps/:step_id/done",
            ContractDirection::Serialize,
            ContractStrictness::DenyUnknownFields,
            "urn:kanban-tool:schema:api:complete-step-response:v1",
            "schemas/fixtures/api/complete-step-response.v1.valid.json",
            server_route_test("suite::steps_adoption::complete_step_response_fixture_is_produced_by_real_router"),
            server_route_test("suite::steps_adoption::complete_step_response_fixture_is_consumed_by_contract_root"),
            ContractTransport::Http { operation_key: Some("POST /api/v1/tasks/:task_id/steps/:step_id/done"), location: HttpTransportLocation::Success, parameters: &[] },
        ),
        OperationContract::adopted(
            "api.skip-step.path",
            "POST /api/v1/tasks/:task_id/steps/:step_id/skip path",
            ContractSurface::Api,
            "POST /api/v1/tasks/:task_id/steps/:step_id/skip",
            ContractDirection::Deserialize,
            ContractStrictness::DenyUnknownFields,
            "urn:kanban-tool:schema:api:skip-step-path:v1",
            "schemas/fixtures/api/skip-step-path.v1.valid.json",
            server_route_test("suite::steps_adoption::skip_step_path_dto_serializes_to_committed_fixture"),
            server_route_test("suite::steps_adoption::skip_step_path_fixture_is_consumed_by_real_router"),
            ContractTransport::Http { operation_key: Some("POST /api/v1/tasks/:task_id/steps/:step_id/skip"), location: HttpTransportLocation::Path, parameters: &[WireParameter { name: "task_id", cardinality: Some(WireParameterCardinality::RequiredOne) }, WireParameter { name: "step_id", cardinality: Some(WireParameterCardinality::RequiredOne) }] },
        ),
    ];
    assert(r@ =~= legacy_rows_5());
    r
}

/// Historical inventory rows 240 to 279.
#[verifier::opaque]
pub open spec fn legacy_rows_6() -> Seq<OperationContract> {
    seq![
        OperationContract::adopted(
            "api.skip-step.request",
            "POST /api/v1/tasks/:task_id/steps/:step_id/skip request",
            ContractSurface::Api,
            "POST /api/v1/tasks/:task_id/steps/:step_id/skip",
            ContractDirection::Deserialize,
            ContractStrictness::DenyUnknownFields,
            "urn:kanban-tool:schema:api:skip-step-request:v1",
            "schemas/fixtures/api/skip-step-request.v1.valid.json",
            server_route_test("suite::steps_adoption::skip_step_request_dto_serializes_to_committed_fixture"),
            server_route_test("suite::steps_adoption::skip_step_request_fixture_is_consumed_by_real_router"),
            ContractTransport::Http { operation_key: Some("POST /api/v1/tasks/:task_id/steps/:step_id/skip"), location: HttpTransportLocation::Body, parameters: &[] },
        ),
        OperationContract::adopted(
            "api.skip-step.response",
            "POST /api/v1/tasks/:task_id/steps/:step_id/skip response",
            ContractSurface::Api,
            "POST /api/v1/tasks/:task_id/steps/:step_id/skip",
            ContractDirection::Serialize,
            ContractStrictness::DenyUnknownFields,
            "urn:kanban-tool:schema:api:skip-step-response:v1",
            "schemas/fixtures/api/skip-step-response.v1.valid.json",
            server_route_test("suite::steps_adoption::skip_step_response_fixture_is_produced_by_real_router"),
            server_route_test("suite::steps_adoption::skip_step_response_fixture_is_consumed_by_contract_root"),
            ContractTransport::Http { operation_key: Some("POST /api/v1/tasks/:task_id/steps/:step_id/skip"), location: HttpTransportLocation::Success, parameters: &[] },
        ),
        OperationContract::adopted(
            "api.reopen-step.path",
            "POST /api/v1/tasks/:task_id/steps/:step_id/reopen path",
            ContractSurface::Api,
            "POST /api/v1/tasks/:task_id/steps/:step_id/reopen",
            ContractDirection::Deserialize,
            ContractStrictness::DenyUnknownFields,
            "urn:kanban-tool:schema:api:reopen-step-path:v1",
            "schemas/fixtures/api/reopen-step-path.v1.valid.json",
            server_route_test("suite::steps_adoption::reopen_step_path_dto_serializes_to_committed_fixture"),
            server_route_test("suite::steps_adoption::reopen_step_path_fixture_is_consumed_by_real_router"),
            ContractTransport::Http { operation_key: Some("POST /api/v1/tasks/:task_id/steps/:step_id/reopen"), location: HttpTransportLocation::Path, parameters: &[WireParameter { name: "task_id", cardinality: Some(WireParameterCardinality::RequiredOne) }, WireParameter { name: "step_id", cardinality: Some(WireParameterCardinality::RequiredOne) }] },
        ),
        OperationContract::adopted(
            "api.reopen-step.request",
            "POST /api/v1/tasks/:task_id/steps/:step_id/reopen request",
            ContractSurface::Api,
            "POST /api/v1/tasks/:task_id/steps/:step_id/reopen",
            ContractDirection::Deserialize,
            ContractStrictness::DenyUnknownFields,
            "urn:kanban-tool:schema:api:reopen-step-request:v1",
            "schemas/fixtures/api/reopen-step-request.v1.valid.json",
            server_route_test("suite::steps_adoption::reopen_step_request_dto_serializes_to_committed_fixture"),
            server_route_test("suite::steps_adoption::reopen_step_request_fixture_is_consumed_by_real_router"),
            ContractTransport::Http { operation_key: Some("POST /api/v1/tasks/:task_id/steps/:step_id/reopen"), location: HttpTransportLocation::Body, parameters: &[] },
        ),
        OperationContract::adopted(
            "api.reopen-step.response",
            "POST /api/v1/tasks/:task_id/steps/:step_id/reopen response",
            ContractSurface::Api,
            "POST /api/v1/tasks/:task_id/steps/:step_id/reopen",
            ContractDirection::Serialize,
            ContractStrictness::DenyUnknownFields,
            "urn:kanban-tool:schema:api:reopen-step-response:v1",
            "schemas/fixtures/api/reopen-step-response.v1.valid.json",
            server_route_test("suite::steps_adoption::reopen_step_response_fixture_is_produced_by_real_router"),
            server_route_test("suite::steps_adoption::reopen_step_response_fixture_is_consumed_by_contract_root"),
            ContractTransport::Http { operation_key: Some("POST /api/v1/tasks/:task_id/steps/:step_id/reopen"), location: HttpTransportLocation::Success, parameters: &[] },
        ),
        OperationContract::adopted(
            "api.list-events.response",
            "GET /api/v1/events response",
            ContractSurface::Api,
            "GET /api/v1/events",
            ContractDirection::Serialize,
            ContractStrictness::DenyUnknownFields,
            "urn:kanban-tool:schema:api:list-events-response:v1",
            "schemas/fixtures/api/list-events-response.v1.valid.json",
            server_route_test("suite::events::list_events_response_fixture_is_produced_by_real_router"),
            server_route_test("suite::events::list_events_response_fixture_is_consumed_by_contract_root"),
            ContractTransport::Http { operation_key: Some("GET /api/v1/events"), location: HttpTransportLocation::Success, parameters: &[] },
        ),
        OperationContract::adopted(
            "api.list-label-ontology-signals.response",
            "GET /api/v1/boards/:board/label-ontology/signals response",
            ContractSurface::Api,
            "GET /api/v1/boards/:board/label-ontology/signals",
            ContractDirection::Serialize,
            ContractStrictness::DenyUnknownFields,
            "urn:kanban-tool:schema:api:list-label-ontology-signals-response:v1",
            "schemas/fixtures/api/list-label-ontology-signals-response.v1.valid.json",
            server_route_test("suite::ontology_signals::list_label_ontology_signals_response_fixture_is_produced_by_real_router"),
            server_route_test("suite::ontology_signals::list_label_ontology_signals_response_fixture_is_consumed_by_contract_root"),
            ContractTransport::Http { operation_key: Some("GET /api/v1/boards/:board/label-ontology/signals"), location: HttpTransportLocation::Success, parameters: &[] },
        ),
        OperationContract::adopted(
            "api.list-board-labels.path",
            "GET /api/v1/boards/:board/labels path",
            ContractSurface::Api,
            "GET /api/v1/boards/:board/labels",
            ContractDirection::Deserialize,
            ContractStrictness::DenyUnknownFields,
            "urn:kanban-tool:schema:api:list-board-labels-path:v1",
            "schemas/fixtures/api/list-board-labels-path.v1.valid.json",
            server_route_test("suite::labels_adoption::list_board_labels_path_dto_serializes_to_committed_fixture"),
            server_route_test("suite::labels_adoption::list_board_labels_path_fixture_is_consumed_by_real_router"),
            ContractTransport::Http { operation_key: Some("GET /api/v1/boards/:board/labels"), location: HttpTransportLocation::Path, parameters: &[WireParameter { name: "board", cardinality: Some(WireParameterCardinality::RequiredOne) }] },
        ),
        OperationContract::adopted(
            "api.list-board-labels.response",
            "GET /api/v1/boards/:board/labels success",
            ContractSurface::Api,
            "GET /api/v1/boards/:board/labels",
            ContractDirection::Serialize,
            ContractStrictness::DenyUnknownFields,
            "urn:kanban-tool:schema:api:list-board-labels-response:v1",
            "schemas/fixtures/api/list-board-labels-response.v1.valid.json",
            server_route_test("suite::labels_adoption::list_board_labels_response_fixture_is_produced_by_real_router"),
            server_route_test("suite::labels_adoption::list_board_labels_response_fixture_is_consumed_by_contract_root"),
            ContractTransport::Http { operation_key: Some("GET /api/v1/boards/:board/labels"), location: HttpTransportLocation::Success, parameters: &[] },
        ),
        OperationContract::adopted(
            "api.create-board-label.path",
            "POST /api/v1/boards/:board/labels path",
            ContractSurface::Api,
            "POST /api/v1/boards/:board/labels",
            ContractDirection::Deserialize,
            ContractStrictness::DenyUnknownFields,
            "urn:kanban-tool:schema:api:create-board-label-path:v1",
            "schemas/fixtures/api/create-board-label-path.v1.valid.json",
            server_route_test("suite::labels_adoption::create_board_label_path_dto_serializes_to_committed_fixture"),
            server_route_test("suite::labels_adoption::create_board_label_path_fixture_is_consumed_by_real_router"),
            ContractTransport::Http { operation_key: Some("POST /api/v1/boards/:board/labels"), location: HttpTransportLocation::Path, parameters: &[WireParameter { name: "board", cardinality: Some(WireParameterCardinality::RequiredOne) }] },
        ),
        OperationContract::adopted(
            "api.create-board-label.request",
            "POST /api/v1/boards/:board/labels body",
            ContractSurface::Api,
            "POST /api/v1/boards/:board/labels",
            ContractDirection::Deserialize,
            ContractStrictness::DenyUnknownFields,
            "urn:kanban-tool:schema:api:create-board-label-request:v1",
            "schemas/fixtures/api/create-board-label-request.v1.valid.json",
            server_route_test("suite::labels_adoption::create_board_label_request_dto_serializes_to_committed_fixture"),
            server_route_test("suite::labels_adoption::create_board_label_request_fixture_is_consumed_by_real_router"),
            ContractTransport::Http { operation_key: Some("POST /api/v1/boards/:board/labels"), location: HttpTransportLocation::Body, parameters: &[] },
        ),
        OperationContract::adopted(
            "api.create-board-label.response",
            "POST /api/v1/boards/:board/labels success",
            ContractSurface::Api,
            "POST /api/v1/boards/:board/labels",
            ContractDirection::Serialize,
            ContractStrictness::DenyUnknownFields,
            "urn:kanban-tool:schema:api:create-board-label-response:v1",
            "schemas/fixtures/api/create-board-label-response.v1.valid.json",
            server_route_test("suite::labels_adoption::create_board_label_response_fixture_is_produced_by_real_router"),
            server_route_test("suite::labels_adoption::create_board_label_response_fixture_is_consumed_by_contract_root"),
            ContractTransport::Http { operation_key: Some("POST /api/v1/boards/:board/labels"), location: HttpTransportLocation::Success, parameters: &[] },
        ),
        OperationContract::unadopted(
            "api.list-label-semantics.path",
            "GET /api/v1/boards/:board/labels/semantics path",
            ContractSurface::Api,
            "GET /api/v1/boards/:board/labels/semantics",
            ContractDirection::Deserialize,
            ContractStrictness::DenyUnknownFields,
            Some("urn:kanban-tool:schema:api:list-label-semantics-path:v1"),
            Some("schemas/fixtures/api/list-label-semantics-path.v1.valid.json"),
            MigrationState::Generated,
            ContractTransport::Http { operation_key: Some("GET /api/v1/boards/:board/labels/semantics"), location: HttpTransportLocation::Path, parameters: &[WireParameter { name: "board", cardinality: Some(WireParameterCardinality::RequiredOne) }] },
        ),
        OperationContract::unadopted(
            "api.list-label-semantics.response",
            "GET /api/v1/boards/:board/labels/semantics success",
            ContractSurface::Api,
            "GET /api/v1/boards/:board/labels/semantics",
            ContractDirection::Serialize,
            ContractStrictness::DenyUnknownFields,
            Some("urn:kanban-tool:schema:api:list-label-semantics-response:v1"),
            Some("schemas/fixtures/api/list-label-semantics-response.v1.valid.json"),
            MigrationState::Generated,
            ContractTransport::Http { operation_key: Some("GET /api/v1/boards/:board/labels/semantics"), location: HttpTransportLocation::Success, parameters: &[] },
        ),
        OperationContract::unadopted(
            "api.get-label-semantics.path",
            "GET /api/v1/boards/:board/labels/:label_id/semantics path",
            ContractSurface::Api,
            "GET /api/v1/boards/:board/labels/:label_id/semantics",
            ContractDirection::Deserialize,
            ContractStrictness::DenyUnknownFields,
            Some("urn:kanban-tool:schema:api:get-label-semantics-path:v1"),
            Some("schemas/fixtures/api/get-label-semantics-path.v1.valid.json"),
            MigrationState::Generated,
            ContractTransport::Http { operation_key: Some("GET /api/v1/boards/:board/labels/:label_id/semantics"), location: HttpTransportLocation::Path, parameters: &[WireParameter { name: "board", cardinality: Some(WireParameterCardinality::RequiredOne) }, WireParameter { name: "label_id", cardinality: Some(WireParameterCardinality::RequiredOne) }] },
        ),
        OperationContract::unadopted(
            "api.get-label-semantics.response",
            "GET /api/v1/boards/:board/labels/:label_id/semantics success",
            ContractSurface::Api,
            "GET /api/v1/boards/:board/labels/:label_id/semantics",
            ContractDirection::Serialize,
            ContractStrictness::DenyUnknownFields,
            Some("urn:kanban-tool:schema:api:get-label-semantics-response:v1"),
            Some("schemas/fixtures/api/get-label-semantics-response.v1.valid.json"),
            MigrationState::Generated,
            ContractTransport::Http { operation_key: Some("GET /api/v1/boards/:board/labels/:label_id/semantics"), location: HttpTransportLocation::Success, parameters: &[] },
        ),
        OperationContract::unadopted(
            "api.upsert-label-semantics.path",
            "PUT /api/v1/boards/:board/labels/:label_id/semantics path",
            ContractSurface::Api,
            "PUT /api/v1/boards/:board/labels/:label_id/semantics",
            ContractDirection::Deserialize,
            ContractStrictness::DenyUnknownFields,
            Some("urn:kanban-tool:schema:api:upsert-label-semantics-path:v1"),
            Some("schemas/fixtures/api/upsert-label-semantics-path.v1.valid.json"),
            MigrationState::Generated,
            ContractTransport::Http { operation_key: Some("PUT /api/v1/boards/:board/labels/:label_id/semantics"), location: HttpTransportLocation::Path, parameters: &[WireParameter { name: "board", cardinality: Some(WireParameterCardinality::RequiredOne) }, WireParameter { name: "label_id", cardinality: Some(WireParameterCardinality::RequiredOne) }] },
        ),
        OperationContract::unadopted(
            "api.upsert-label-semantics.request",
            "PUT /api/v1/boards/:board/labels/:label_id/semantics body",
            ContractSurface::Api,
            "PUT /api/v1/boards/:board/labels/:label_id/semantics",
            ContractDirection::Deserialize,
            ContractStrictness::DenyUnknownFields,
            Some("urn:kanban-tool:schema:api:upsert-label-semantics-request:v1"),
            Some("schemas/fixtures/api/upsert-label-semantics-request.v1.valid.json"),
            MigrationState::Generated,
            ContractTransport::Http { operation_key: Some("PUT /api/v1/boards/:board/labels/:label_id/semantics"), location: HttpTransportLocation::Body, parameters: &[] },
        ),
        OperationContract::unadopted(
            "api.upsert-label-semantics.response",
            "PUT /api/v1/boards/:board/labels/:label_id/semantics success",
            ContractSurface::Api,
            "PUT /api/v1/boards/:board/labels/:label_id/semantics",
            ContractDirection::Serialize,
            ContractStrictness::DenyUnknownFields,
            Some("urn:kanban-tool:schema:api:upsert-label-semantics-response:v1"),
            Some("schemas/fixtures/api/upsert-label-semantics-response.v1.valid.json"),
            MigrationState::Generated,
            ContractTransport::Http { operation_key: Some("PUT /api/v1/boards/:board/labels/:label_id/semantics"), location: HttpTransportLocation::Success, parameters: &[] },
        ),
        OperationContract::unadopted(
            "api.delete-label-semantics.path",
            "DELETE /api/v1/boards/:board/labels/:label_id/semantics path",
            ContractSurface::Api,
            "DELETE /api/v1/boards/:board/labels/:label_id/semantics",
            ContractDirection::Deserialize,
            ContractStrictness::DenyUnknownFields,
            Some("urn:kanban-tool:schema:api:delete-label-semantics-path:v1"),
            Some("schemas/fixtures/api/delete-label-semantics-path.v1.valid.json"),
            MigrationState::Generated,
            ContractTransport::Http { operation_key: Some("DELETE /api/v1/boards/:board/labels/:label_id/semantics"), location: HttpTransportLocation::Path, parameters: &[WireParameter { name: "board", cardinality: Some(WireParameterCardinality::RequiredOne) }, WireParameter { name: "label_id", cardinality: Some(WireParameterCardinality::RequiredOne) }] },
        ),
        OperationContract::unadopted(
            "api.delete-label-semantics.query",
            "DELETE /api/v1/boards/:board/labels/:label_id/semantics query",
            ContractSurface::Api,
            "DELETE /api/v1/boards/:board/labels/:label_id/semantics",
            ContractDirection::Deserialize,
            ContractStrictness::DenyUnknownFields,
            Some("urn:kanban-tool:schema:api:delete-label-semantics-query:v1"),
            Some("schemas/fixtures/api/delete-label-semantics-query.v1.valid.json"),
            MigrationState::Generated,
            ContractTransport::Http { operation_key: Some("DELETE /api/v1/boards/:board/labels/:label_id/semantics"), location: HttpTransportLocation::Query, parameters: &[] },
        ),
        OperationContract::unadopted(
            "api.list-label-atoms.path",
            "GET /api/v1/boards/:board/labels/atoms path",
            ContractSurface::Api,
            "GET /api/v1/boards/:board/labels/atoms",
            ContractDirection::Deserialize,
            ContractStrictness::DenyUnknownFields,
            Some("urn:kanban-tool:schema:api:list-label-atoms-path:v1"),
            Some("schemas/fixtures/api/list-label-atoms-path.v1.valid.json"),
            MigrationState::Generated,
            ContractTransport::Http { operation_key: Some("GET /api/v1/boards/:board/labels/atoms"), location: HttpTransportLocation::Path, parameters: &[WireParameter { name: "board", cardinality: Some(WireParameterCardinality::RequiredOne) }] },
        ),
        OperationContract::unadopted(
            "api.list-label-atoms.response",
            "GET /api/v1/boards/:board/labels/atoms success",
            ContractSurface::Api,
            "GET /api/v1/boards/:board/labels/atoms",
            ContractDirection::Serialize,
            ContractStrictness::DenyUnknownFields,
            Some("urn:kanban-tool:schema:api:list-label-atoms-response:v1"),
            Some("schemas/fixtures/api/list-label-atoms-response.v1.valid.json"),
            MigrationState::Generated,
            ContractTransport::Http { operation_key: Some("GET /api/v1/boards/:board/labels/atoms"), location: HttpTransportLocation::Success, parameters: &[] },
        ),
        OperationContract::unadopted(
            "api.label-atom.path",
            "GET /api/v1/boards/:board/labels/atoms/:atom_ref/explain path",
            ContractSurface::Api,
            "GET /api/v1/boards/:board/labels/atoms/:atom_ref/explain",
            ContractDirection::Deserialize,
            ContractStrictness::DenyUnknownFields,
            Some("urn:kanban-tool:schema:api:label-atom-path:v1"),
            Some("schemas/fixtures/api/label-atom-path.v1.valid.json"),
            MigrationState::Generated,
            ContractTransport::Http { operation_key: Some("GET /api/v1/boards/:board/labels/atoms/:atom_ref/explain"), location: HttpTransportLocation::Path, parameters: &[WireParameter { name: "board", cardinality: Some(WireParameterCardinality::RequiredOne) }, WireParameter { name: "atom_ref", cardinality: Some(WireParameterCardinality::RequiredOne) }] },
        ),
        OperationContract::unadopted(
            "api.explain-label-atom.response",
            "GET /api/v1/boards/:board/labels/atoms/:atom_ref/explain success",
            ContractSurface::Api,
            "GET /api/v1/boards/:board/labels/atoms/:atom_ref/explain",
            ContractDirection::Serialize,
            ContractStrictness::DenyUnknownFields,
            Some("urn:kanban-tool:schema:api:explain-label-atom-response:v1"),
            Some("schemas/fixtures/api/explain-label-atom-response.v1.valid.json"),
            MigrationState::Generated,
            ContractTransport::Http { operation_key: Some("GET /api/v1/boards/:board/labels/atoms/:atom_ref/explain"), location: HttpTransportLocation::Success, parameters: &[] },
        ),
        OperationContract::unadopted(
            "api.label-atom-index-status.path",
            "GET /api/v1/boards/:board/labels/atom-index/status path",
            ContractSurface::Api,
            "GET /api/v1/boards/:board/labels/atom-index/status",
            ContractDirection::Deserialize,
            ContractStrictness::DenyUnknownFields,
            Some("urn:kanban-tool:schema:api:label-atom-index-status-path:v1"),
            Some("schemas/fixtures/api/label-atom-index-status-path.v1.valid.json"),
            MigrationState::Generated,
            ContractTransport::Http { operation_key: Some("GET /api/v1/boards/:board/labels/atom-index/status"), location: HttpTransportLocation::Path, parameters: &[WireParameter { name: "board", cardinality: Some(WireParameterCardinality::RequiredOne) }] },
        ),
        OperationContract::unadopted(
            "api.label-atom-index-status.response",
            "GET /api/v1/boards/:board/labels/atom-index/status success",
            ContractSurface::Api,
            "GET /api/v1/boards/:board/labels/atom-index/status",
            ContractDirection::Serialize,
            ContractStrictness::DenyUnknownFields,
            Some("urn:kanban-tool:schema:api:label-atom-index-status-response:v1"),
            Some("schemas/fixtures/api/label-atom-index-status-response.v1.valid.json"),
            MigrationState::Generated,
            ContractTransport::Http { operation_key: Some("GET /api/v1/boards/:board/labels/atom-index/status"), location: HttpTransportLocation::Success, parameters: &[] },
        ),
        OperationContract::unadopted(
            "api.rebuild-label-atom-index.path",
            "POST /api/v1/boards/:board/labels/atom-index/rebuild path",
            ContractSurface::Api,
            "POST /api/v1/boards/:board/labels/atom-index/rebuild",
            ContractDirection::Deserialize,
            ContractStrictness::DenyUnknownFields,
            Some("urn:kanban-tool:schema:api:rebuild-label-atom-index-path:v1"),
            Some("schemas/fixtures/api/rebuild-label-atom-index-path.v1.valid.json"),
            MigrationState::Generated,
            ContractTransport::Http { operation_key: Some("POST /api/v1/boards/:board/labels/atom-index/rebuild"), location: HttpTransportLocation::Path, parameters: &[WireParameter { name: "board", cardinality: Some(WireParameterCardinality::RequiredOne) }] },
        ),
        OperationContract::unadopted(
            "api.rebuild-label-atom-index.response",
            "POST /api/v1/boards/:board/labels/atom-index/rebuild success",
            ContractSurface::Api,
            "POST /api/v1/boards/:board/labels/atom-index/rebuild",
            ContractDirection::Serialize,
            ContractStrictness::DenyUnknownFields,
            Some("urn:kanban-tool:schema:api:rebuild-label-atom-index-response:v1"),
            Some("schemas/fixtures/api/rebuild-label-atom-index-response.v1.valid.json"),
            MigrationState::Generated,
            ContractTransport::Http { operation_key: Some("POST /api/v1/boards/:board/labels/atom-index/rebuild"), location: HttpTransportLocation::Success, parameters: &[] },
        ),
        OperationContract::unadopted(
            "api.query-label-atom-index.path",
            "GET /api/v1/boards/:board/labels/atom-index/query path",
            ContractSurface::Api,
            "GET /api/v1/boards/:board/labels/atom-index/query",
            ContractDirection::Deserialize,
            ContractStrictness::DenyUnknownFields,
            Some("urn:kanban-tool:schema:api:query-label-atom-index-path:v1"),
            Some("schemas/fixtures/api/query-label-atom-index-path.v1.valid.json"),
            MigrationState::Generated,
            ContractTransport::Http { operation_key: Some("GET /api/v1/boards/:board/labels/atom-index/query"), location: HttpTransportLocation::Path, parameters: &[WireParameter { name: "board", cardinality: Some(WireParameterCardinality::RequiredOne) }] },
        ),
        OperationContract::unadopted(
            "api.query-label-atom-index.query",
            "GET /api/v1/boards/:board/labels/atom-index/query query",
            ContractSurface::Api,
            "GET /api/v1/boards/:board/labels/atom-index/query",
            ContractDirection::Deserialize,
            ContractStrictness::DenyUnknownFields,
            Some("urn:kanban-tool:schema:api:query-label-atom-index-query:v1"),
            Some("schemas/fixtures/api/query-label-atom-index-query.v1.valid.json"),
            MigrationState::Generated,
            ContractTransport::Http { operation_key: Some("GET /api/v1/boards/:board/labels/atom-index/query"), location: HttpTransportLocation::Query, parameters: &[] },
        ),
        OperationContract::unadopted(
            "api.query-label-atom-index.response",
            "GET /api/v1/boards/:board/labels/atom-index/query success",
            ContractSurface::Api,
            "GET /api/v1/boards/:board/labels/atom-index/query",
            ContractDirection::Serialize,
            ContractStrictness::DenyUnknownFields,
            Some("urn:kanban-tool:schema:api:query-label-atom-index-response:v1"),
            Some("schemas/fixtures/api/query-label-atom-index-response.v1.valid.json"),
            MigrationState::Generated,
            ContractTransport::Http { operation_key: Some("GET /api/v1/boards/:board/labels/atom-index/query"), location: HttpTransportLocation::Success, parameters: &[] },
        ),
        OperationContract::unadopted(
            "api.list-signals.path",
            "GET /api/v1/boards/:board/signals path",
            ContractSurface::Api,
            "GET /api/v1/boards/:board/signals",
            ContractDirection::Deserialize,
            ContractStrictness::DenyUnknownFields,
            Some("urn:kanban-tool:schema:api:list-signals-path:v1"),
            Some("schemas/fixtures/api/list-signals-path.v1.valid.json"),
            MigrationState::Generated,
            ContractTransport::Http { operation_key: Some("GET /api/v1/boards/:board/signals"), location: HttpTransportLocation::Path, parameters: &[WireParameter { name: "board", cardinality: Some(WireParameterCardinality::RequiredOne) }] },
        ),
        OperationContract::unadopted(
            "api.list-signals.query",
            "GET /api/v1/boards/:board/signals query",
            ContractSurface::Api,
            "GET /api/v1/boards/:board/signals",
            ContractDirection::Deserialize,
            ContractStrictness::DenyUnknownFields,
            Some("urn:kanban-tool:schema:api:list-signals-query:v1"),
            Some("schemas/fixtures/api/list-signals-query.v1.valid.json"),
            MigrationState::Generated,
            ContractTransport::Http { operation_key: Some("GET /api/v1/boards/:board/signals"), location: HttpTransportLocation::Query, parameters: &[] },
        ),
        OperationContract::unadopted(
            "api.list-signals.response",
            "GET /api/v1/boards/:board/signals success",
            ContractSurface::Api,
            "GET /api/v1/boards/:board/signals",
            ContractDirection::Serialize,
            ContractStrictness::DenyUnknownFields,
            Some("urn:kanban-tool:schema:api:list-signals-response:v1"),
            Some("schemas/fixtures/api/list-signals-response.v1.valid.json"),
            MigrationState::Generated,
            ContractTransport::Http { operation_key: Some("GET /api/v1/boards/:board/signals"), location: HttpTransportLocation::Success, parameters: &[] },
        ),
        OperationContract::unadopted(
            "api.review-signals.path",
            "GET /api/v1/boards/:board/signals/review path",
            ContractSurface::Api,
            "GET /api/v1/boards/:board/signals/review",
            ContractDirection::Deserialize,
            ContractStrictness::DenyUnknownFields,
            Some("urn:kanban-tool:schema:api:review-signals-path:v1"),
            Some("schemas/fixtures/api/review-signals-path.v1.valid.json"),
            MigrationState::Generated,
            ContractTransport::Http { operation_key: Some("GET /api/v1/boards/:board/signals/review"), location: HttpTransportLocation::Path, parameters: &[WireParameter { name: "board", cardinality: Some(WireParameterCardinality::RequiredOne) }] },
        ),
        OperationContract::unadopted(
            "api.review-signals.query",
            "GET /api/v1/boards/:board/signals/review query",
            ContractSurface::Api,
            "GET /api/v1/boards/:board/signals/review",
            ContractDirection::Deserialize,
            ContractStrictness::DenyUnknownFields,
            Some("urn:kanban-tool:schema:api:review-signals-query:v1"),
            Some("schemas/fixtures/api/review-signals-query.v1.valid.json"),
            MigrationState::Generated,
            ContractTransport::Http { operation_key: Some("GET /api/v1/boards/:board/signals/review"), location: HttpTransportLocation::Query, parameters: &[] },
        ),
        OperationContract::unadopted(
            "api.review-signals.response",
            "GET /api/v1/boards/:board/signals/review success",
            ContractSurface::Api,
            "GET /api/v1/boards/:board/signals/review",
            ContractDirection::Serialize,
            ContractStrictness::DenyUnknownFields,
            Some("urn:kanban-tool:schema:api:review-signals-response:v1"),
            Some("schemas/fixtures/api/review-signals-response.v1.valid.json"),
            MigrationState::Generated,
            ContractTransport::Http { operation_key: Some("GET /api/v1/boards/:board/signals/review"), location: HttpTransportLocation::Success, parameters: &[] },
        ),
        OperationContract::unadopted(
            "api.get-signal.path",
            "GET /api/v1/signals/:signal_id path",
            ContractSurface::Api,
            "GET /api/v1/signals/:signal_id",
            ContractDirection::Deserialize,
            ContractStrictness::DenyUnknownFields,
            Some("urn:kanban-tool:schema:api:get-signal-path:v1"),
            Some("schemas/fixtures/api/get-signal-path.v1.valid.json"),
            MigrationState::Generated,
            ContractTransport::Http { operation_key: Some("GET /api/v1/signals/:signal_id"), location: HttpTransportLocation::Path, parameters: &[WireParameter { name: "signal_id", cardinality: Some(WireParameterCardinality::RequiredOne) }] },
        ),
        OperationContract::unadopted(
            "api.get-signal.response",
            "GET /api/v1/signals/:signal_id success",
            ContractSurface::Api,
            "GET /api/v1/signals/:signal_id",
            ContractDirection::Serialize,
            ContractStrictness::DenyUnknownFields,
            Some("urn:kanban-tool:schema:api:get-signal-response:v1"),
            Some("schemas/fixtures/api/get-signal-response.v1.valid.json"),
            MigrationState::Generated,
            ContractTransport::Http { operation_key: Some("GET /api/v1/signals/:signal_id"), location: HttpTransportLocation::Success, parameters: &[] },
        ),
    ]
}

/// Historical inventory rows 240 to 279.
fn legacy_rows_6_vec() -> (r: Vec<OperationContract>)
    ensures
        r@ == legacy_rows_6(),
{
    reveal(legacy_rows_6);
    let r = vec![
        OperationContract::adopted(
            "api.skip-step.request",
            "POST /api/v1/tasks/:task_id/steps/:step_id/skip request",
            ContractSurface::Api,
            "POST /api/v1/tasks/:task_id/steps/:step_id/skip",
            ContractDirection::Deserialize,
            ContractStrictness::DenyUnknownFields,
            "urn:kanban-tool:schema:api:skip-step-request:v1",
            "schemas/fixtures/api/skip-step-request.v1.valid.json",
            server_route_test("suite::steps_adoption::skip_step_request_dto_serializes_to_committed_fixture"),
            server_route_test("suite::steps_adoption::skip_step_request_fixture_is_consumed_by_real_router"),
            ContractTransport::Http { operation_key: Some("POST /api/v1/tasks/:task_id/steps/:step_id/skip"), location: HttpTransportLocation::Body, parameters: &[] },
        ),
        OperationContract::adopted(
            "api.skip-step.response",
            "POST /api/v1/tasks/:task_id/steps/:step_id/skip response",
            ContractSurface::Api,
            "POST /api/v1/tasks/:task_id/steps/:step_id/skip",
            ContractDirection::Serialize,
            ContractStrictness::DenyUnknownFields,
            "urn:kanban-tool:schema:api:skip-step-response:v1",
            "schemas/fixtures/api/skip-step-response.v1.valid.json",
            server_route_test("suite::steps_adoption::skip_step_response_fixture_is_produced_by_real_router"),
            server_route_test("suite::steps_adoption::skip_step_response_fixture_is_consumed_by_contract_root"),
            ContractTransport::Http { operation_key: Some("POST /api/v1/tasks/:task_id/steps/:step_id/skip"), location: HttpTransportLocation::Success, parameters: &[] },
        ),
        OperationContract::adopted(
            "api.reopen-step.path",
            "POST /api/v1/tasks/:task_id/steps/:step_id/reopen path",
            ContractSurface::Api,
            "POST /api/v1/tasks/:task_id/steps/:step_id/reopen",
            ContractDirection::Deserialize,
            ContractStrictness::DenyUnknownFields,
            "urn:kanban-tool:schema:api:reopen-step-path:v1",
            "schemas/fixtures/api/reopen-step-path.v1.valid.json",
            server_route_test("suite::steps_adoption::reopen_step_path_dto_serializes_to_committed_fixture"),
            server_route_test("suite::steps_adoption::reopen_step_path_fixture_is_consumed_by_real_router"),
            ContractTransport::Http { operation_key: Some("POST /api/v1/tasks/:task_id/steps/:step_id/reopen"), location: HttpTransportLocation::Path, parameters: &[WireParameter { name: "task_id", cardinality: Some(WireParameterCardinality::RequiredOne) }, WireParameter { name: "step_id", cardinality: Some(WireParameterCardinality::RequiredOne) }] },
        ),
        OperationContract::adopted(
            "api.reopen-step.request",
            "POST /api/v1/tasks/:task_id/steps/:step_id/reopen request",
            ContractSurface::Api,
            "POST /api/v1/tasks/:task_id/steps/:step_id/reopen",
            ContractDirection::Deserialize,
            ContractStrictness::DenyUnknownFields,
            "urn:kanban-tool:schema:api:reopen-step-request:v1",
            "schemas/fixtures/api/reopen-step-request.v1.valid.json",
            server_route_test("suite::steps_adoption::reopen_step_request_dto_serializes_to_committed_fixture"),
            server_route_test("suite::steps_adoption::reopen_step_request_fixture_is_consumed_by_real_router"),
            ContractTransport::Http { operation_key: Some("POST /api/v1/tasks/:task_id/steps/:step_id/reopen"), location: HttpTransportLocation::Body, parameters: &[] },
        ),
        OperationContract::adopted(
            "api.reopen-step.response",
            "POST /api/v1/tasks/:task_id/steps/:step_id/reopen response",
            ContractSurface::Api,
            "POST /api/v1/tasks/:task_id/steps/:step_id/reopen",
            ContractDirection::Serialize,
            ContractStrictness::DenyUnknownFields,
            "urn:kanban-tool:schema:api:reopen-step-response:v1",
            "schemas/fixtures/api/reopen-step-response.v1.valid.json",
            server_route_test("suite::steps_adoption::reopen_step_response_fixture_is_produced_by_real_router"),
            server_route_test("suite::steps_adoption::reopen_step_response_fixture_is_consumed_by_contract_root"),
            ContractTransport::Http { operation_key: Some("POST /api/v1/tasks/:task_id/steps/:step_id/reopen"), location: HttpTransportLocation::Success, parameters: &[] },
        ),
        OperationContract::adopted(
            "api.list-events.response",
            "GET /api/v1/events response",
            ContractSurface::Api,
            "GET /api/v1/events",
            ContractDirection::Serialize,
            ContractStrictness::DenyUnknownFields,
            "urn:kanban-tool:schema:api:list-events-response:v1",
            "schemas/fixtures/api/list-events-response.v1.valid.json",
            server_route_test("suite::events::list_events_response_fixture_is_produced_by_real_router"),
            server_route_test("suite::events::list_events_response_fixture_is_consumed_by_contract_root"),
            ContractTransport::Http { operation_key: Some("GET /api/v1/events"), location: HttpTransportLocation::Success, parameters: &[] },
        ),
        OperationContract::adopted(
            "api.list-label-ontology-signals.response",
            "GET /api/v1/boards/:board/label-ontology/signals response",
            ContractSurface::Api,
            "GET /api/v1/boards/:board/label-ontology/signals",
            ContractDirection::Serialize,
            ContractStrictness::DenyUnknownFields,
            "urn:kanban-tool:schema:api:list-label-ontology-signals-response:v1",
            "schemas/fixtures/api/list-label-ontology-signals-response.v1.valid.json",
            server_route_test("suite::ontology_signals::list_label_ontology_signals_response_fixture_is_produced_by_real_router"),
            server_route_test("suite::ontology_signals::list_label_ontology_signals_response_fixture_is_consumed_by_contract_root"),
            ContractTransport::Http { operation_key: Some("GET /api/v1/boards/:board/label-ontology/signals"), location: HttpTransportLocation::Success, parameters: &[] },
        ),
        OperationContract::adopted(
            "api.list-board-labels.path",
            "GET /api/v1/boards/:board/labels path",
            ContractSurface::Api,
            "GET /api/v1/boards/:board/labels",
            ContractDirection::Deserialize,
            ContractStrictness::DenyUnknownFields,
            "urn:kanban-tool:schema:api:list-board-labels-path:v1",
            "schemas/fixtures/api/list-board-labels-path.v1.valid.json",
            server_route_test("suite::labels_adoption::list_board_labels_path_dto_serializes_to_committed_fixture"),
            server_route_test("suite::labels_adoption::list_board_labels_path_fixture_is_consumed_by_real_router"),
            ContractTransport::Http { operation_key: Some("GET /api/v1/boards/:board/labels"), location: HttpTransportLocation::Path, parameters: &[WireParameter { name: "board", cardinality: Some(WireParameterCardinality::RequiredOne) }] },
        ),
        OperationContract::adopted(
            "api.list-board-labels.response",
            "GET /api/v1/boards/:board/labels success",
            ContractSurface::Api,
            "GET /api/v1/boards/:board/labels",
            ContractDirection::Serialize,
            ContractStrictness::DenyUnknownFields,
            "urn:kanban-tool:schema:api:list-board-labels-response:v1",
            "schemas/fixtures/api/list-board-labels-response.v1.valid.json",
            server_route_test("suite::labels_adoption::list_board_labels_response_fixture_is_produced_by_real_router"),
            server_route_test("suite::labels_adoption::list_board_labels_response_fixture_is_consumed_by_contract_root"),
            ContractTransport::Http { operation_key: Some("GET /api/v1/boards/:board/labels"), location: HttpTransportLocation::Success, parameters: &[] },
        ),
        OperationContract::adopted(
            "api.create-board-label.path",
            "POST /api/v1/boards/:board/labels path",
            ContractSurface::Api,
            "POST /api/v1/boards/:board/labels",
            ContractDirection::Deserialize,
            ContractStrictness::DenyUnknownFields,
            "urn:kanban-tool:schema:api:create-board-label-path:v1",
            "schemas/fixtures/api/create-board-label-path.v1.valid.json",
            server_route_test("suite::labels_adoption::create_board_label_path_dto_serializes_to_committed_fixture"),
            server_route_test("suite::labels_adoption::create_board_label_path_fixture_is_consumed_by_real_router"),
            ContractTransport::Http { operation_key: Some("POST /api/v1/boards/:board/labels"), location: HttpTransportLocation::Path, parameters: &[WireParameter { name: "board", cardinality: Some(WireParameterCardinality::RequiredOne) }] },
        ),
        OperationContract::adopted(
            "api.create-board-label.request",
            "POST /api/v1/boards/:board/labels body",
            ContractSurface::Api,
            "POST /api/v1/boards/:board/labels",
            ContractDirection::Deserialize,
            ContractStrictness::DenyUnknownFields,
            "urn:kanban-tool:schema:api:create-board-label-request:v1",
            "schemas/fixtures/api/create-board-label-request.v1.valid.json",
            server_route_test("suite::labels_adoption::create_board_label_request_dto_serializes_to_committed_fixture"),
            server_route_test("suite::labels_adoption::create_board_label_request_fixture_is_consumed_by_real_router"),
            ContractTransport::Http { operation_key: Some("POST /api/v1/boards/:board/labels"), location: HttpTransportLocation::Body, parameters: &[] },
        ),
        OperationContract::adopted(
            "api.create-board-label.response",
            "POST /api/v1/boards/:board/labels success",
            ContractSurface::Api,
            "POST /api/v1/boards/:board/labels",
            ContractDirection::Serialize,
            ContractStrictness::DenyUnknownFields,
            "urn:kanban-tool:schema:api:create-board-label-response:v1",
            "schemas/fixtures/api/create-board-label-response.v1.valid.json",
            server_route_test("suite::labels_adoption::create_board_label_response_fixture_is_produced_by_real_router"),
            server_route_test("suite::labels_adoption::create_board_label_response_fixture_is_consumed_by_contract_root"),
            ContractTransport::Http { operation_key: Some("POST /api/v1/boards/:board/labels"), location: HttpTransportLocation::Success, parameters: &[] },
        ),
        OperationContract::unadopted(
            "api.list-label-semantics.path",
            "GET /api/v1/boards/:board/labels/semantics path",
            ContractSurface::Api,
            "GET /api/v1/boards/:board/labels/semantics",
            ContractDirection::Deserialize,
            ContractStrictness::DenyUnknownFields,
            Some("urn:kanban-tool:schema:api:list-label-semantics-path:v1"),
            Some("schemas/fixtures/api/list-label-semantics-path.v1.valid.json"),
            MigrationState::Generated,
            ContractTransport::Http { operation_key: Some("GET /api/v1/boards/:board/labels/semantics"), location: HttpTransportLocation::Path, parameters: &[WireParameter { name: "board", cardinality: Some(WireParameterCardinality::RequiredOne) }] },
        ),
        OperationContract::unadopted(
            "api.list-label-semantics.response",
            "GET /api/v1/boards/:board/labels/semantics success",
            ContractSurface::Api,
            "GET /api/v1/boards/:board/labels/semantics",
            ContractDirection::Serialize,
            ContractStrictness::DenyUnknownFields,
            Some("urn:kanban-tool:schema:api:list-label-semantics-response:v1"),
            Some("schemas/fixtures/api/list-label-semantics-response.v1.valid.json"),
            MigrationState::Generated,
            ContractTransport::Http { operation_key: Some("GET /api/v1/boards/:board/labels/semantics"), location: HttpTransportLocation::Success, parameters: &[] },
        ),
        OperationContract::unadopted(
            "api.get-label-semantics.path",
            "GET /api/v1/boards/:board/labels/:label_id/semantics path",
            ContractSurface::Api,
            "GET /api/v1/boards/:board/labels/:label_id/semantics",
            ContractDirection::Deserialize,
            ContractStrictness::DenyUnknownFields,
            Some("urn:kanban-tool:schema:api:get-label-semantics-path:v1"),
            Some("schemas/fixtures/api/get-label-semantics-path.v1.valid.json"),
            MigrationState::Generated,
            ContractTransport::Http { operation_key: Some("GET /api/v1/boards/:board/labels/:label_id/semantics"), location: HttpTransportLocation::Path, parameters: &[WireParameter { name: "board", cardinality: Some(WireParameterCardinality::RequiredOne) }, WireParameter { name: "label_id", cardinality: Some(WireParameterCardinality::RequiredOne) }] },
        ),
        OperationContract::unadopted(
            "api.get-label-semantics.response",
            "GET /api/v1/boards/:board/labels/:label_id/semantics success",
            ContractSurface::Api,
            "GET /api/v1/boards/:board/labels/:label_id/semantics",
            ContractDirection::Serialize,
            ContractStrictness::DenyUnknownFields,
            Some("urn:kanban-tool:schema:api:get-label-semantics-response:v1"),
            Some("schemas/fixtures/api/get-label-semantics-response.v1.valid.json"),
            MigrationState::Generated,
            ContractTransport::Http { operation_key: Some("GET /api/v1/boards/:board/labels/:label_id/semantics"), location: HttpTransportLocation::Success, parameters: &[] },
        ),
        OperationContract::unadopted(
            "api.upsert-label-semantics.path",
            "PUT /api/v1/boards/:board/labels/:label_id/semantics path",
            ContractSurface::Api,
            "PUT /api/v1/boards/:board/labels/:label_id/semantics",
            ContractDirection::Deserialize,
            ContractStrictness::DenyUnknownFields,
            Some("urn:kanban-tool:schema:api:upsert-label-semantics-path:v1"),
            Some("schemas/fixtures/api/upsert-label-semantics-path.v1.valid.json"),
            MigrationState::Generated,
            ContractTransport::Http { operation_key: Some("PUT /api/v1/boards/:board/labels/:label_id/semantics"), location: HttpTransportLocation::Path, parameters: &[WireParameter { name: "board", cardinality: Some(WireParameterCardinality::RequiredOne) }, WireParameter { name: "label_id", cardinality: Some(WireParameterCardinality::RequiredOne) }] },
        ),
        OperationContract::unadopted(
            "api.upsert-label-semantics.request",
            "PUT /api/v1/boards/:board/labels/:label_id/semantics body",
            ContractSurface::Api,
            "PUT /api/v1/boards/:board/labels/:label_id/semantics",
            ContractDirection::Deserialize,
            ContractStrictness::DenyUnknownFields,
            Some("urn:kanban-tool:schema:api:upsert-label-semantics-request:v1"),
            Some("schemas/fixtures/api/upsert-label-semantics-request.v1.valid.json"),
            MigrationState::Generated,
            ContractTransport::Http { operation_key: Some("PUT /api/v1/boards/:board/labels/:label_id/semantics"), location: HttpTransportLocation::Body, parameters: &[] },
        ),
        OperationContract::unadopted(
            "api.upsert-label-semantics.response",
            "PUT /api/v1/boards/:board/labels/:label_id/semantics success",
            ContractSurface::Api,
            "PUT /api/v1/boards/:board/labels/:label_id/semantics",
            ContractDirection::Serialize,
            ContractStrictness::DenyUnknownFields,
            Some("urn:kanban-tool:schema:api:upsert-label-semantics-response:v1"),
            Some("schemas/fixtures/api/upsert-label-semantics-response.v1.valid.json"),
            MigrationState::Generated,
            ContractTransport::Http { operation_key: Some("PUT /api/v1/boards/:board/labels/:label_id/semantics"), location: HttpTransportLocation::Success, parameters: &[] },
        ),
        OperationContract::unadopted(
            "api.delete-label-semantics.path",
            "DELETE /api/v1/boards/:board/labels/:label_id/semantics path",
            ContractSurface::Api,
            "DELETE /api/v1/boards/:board/labels/:label_id/semantics",
            ContractDirection::Deserialize,
            ContractStrictness::DenyUnknownFields,
            Some("urn:kanban-tool:schema:api:delete-label-semantics-path:v1"),
            Some("schemas/fixtures/api/delete-label-semantics-path.v1.valid.json"),
            MigrationState::Generated,
            ContractTransport::Http { operation_key: Some("DELETE /api/v1/boards/:board/labels/:label_id/semantics"), location: HttpTransportLocation::Path, parameters: &[WireParameter { name: "board", cardinality: Some(WireParameterCardinality::RequiredOne) }, WireParameter { name: "label_id", cardinality: Some(WireParameterCardinality::RequiredOne) }] },
        ),
        OperationContract::unadopted(
            "api.delete-label-semantics.query",
            "DELETE /api/v1/boards/:board/labels/:label_id/semantics query",
            ContractSurface::Api,
            "DELETE /api/v1/boards/:board/labels/:label_id/semantics",
            ContractDirection::Deserialize,
            ContractStrictness::DenyUnknownFields,
            Some("urn:kanban-tool:schema:api:delete-label-semantics-query:v1"),
            Some("schemas/fixtures/api/delete-label-semantics-query.v1.valid.json"),
            MigrationState::Generated,
            ContractTransport::Http { operation_key: Some("DELETE /api/v1/boards/:board/labels/:label_id/semantics"), location: HttpTransportLocation::Query, parameters: &[] },
        ),
        OperationContract::unadopted(
            "api.list-label-atoms.path",
            "GET /api/v1/boards/:board/labels/atoms path",
            ContractSurface::Api,
            "GET /api/v1/boards/:board/labels/atoms",
            ContractDirection::Deserialize,
            ContractStrictness::DenyUnknownFields,
            Some("urn:kanban-tool:schema:api:list-label-atoms-path:v1"),
            Some("schemas/fixtures/api/list-label-atoms-path.v1.valid.json"),
            MigrationState::Generated,
            ContractTransport::Http { operation_key: Some("GET /api/v1/boards/:board/labels/atoms"), location: HttpTransportLocation::Path, parameters: &[WireParameter { name: "board", cardinality: Some(WireParameterCardinality::RequiredOne) }] },
        ),
        OperationContract::unadopted(
            "api.list-label-atoms.response",
            "GET /api/v1/boards/:board/labels/atoms success",
            ContractSurface::Api,
            "GET /api/v1/boards/:board/labels/atoms",
            ContractDirection::Serialize,
            ContractStrictness::DenyUnknownFields,
            Some("urn:kanban-tool:schema:api:list-label-atoms-response:v1"),
            Some("schemas/fixtures/api/list-label-atoms-response.v1.valid.json"),
            MigrationState::Generated,
            ContractTransport::Http { operation_key: Some("GET /api/v1/boards/:board/labels/atoms"), location: HttpTransportLocation::Success, parameters: &[] },
        ),
        OperationContract::unadopted(
            "api.label-atom.path",
            "GET /api/v1/boards/:board/labels/atoms/:atom_ref/explain path",
            ContractSurface::Api,
            "GET /api/v1/boards/:board/labels/atoms/:atom_ref/explain",
            ContractDirection::Deserialize,
            ContractStrictness::DenyUnknownFields,
            Some("urn:kanban-tool:schema:api:label-atom-path:v1"),
            Some("schemas/fixtures/api/label-atom-path.v1.valid.json"),
            MigrationState::Generated,
            ContractTransport::Http { operation_key: Some("GET /api/v1/boards/:board/labels/atoms/:atom_ref/explain"), location: HttpTransportLocation::Path, parameters: &[WireParameter { name: "board", cardinality: Some(WireParameterCardinality::RequiredOne) }, WireParameter { name: "atom_ref", cardinality: Some(WireParameterCardinality::RequiredOne) }] },
        ),
        OperationContract::unadopted(
            "api.explain-label-atom.response",
            "GET /api/v1/boards/:board/labels/atoms/:atom_ref/explain success",
            ContractSurface::Api,
            "GET /api/v1/boards/:board/labels/atoms/:atom_ref/explain",
            ContractDirection::Serialize,
            ContractStrictness::DenyUnknownFields,
            Some("urn:kanban-tool:schema:api:explain-label-atom-response:v1"),
            Some("schemas/fixtures/api/explain-label-atom-response.v1.valid.json"),
            MigrationState::Generated,
            ContractTransport::Http { operation_key: Some("GET /api/v1/boards/:board/labels/atoms/:atom_ref/explain"), location: HttpTransportLocation::Success, parameters: &[] },
        ),
        OperationContract::unadopted(
            "api.label-atom-index-status.path",
            "GET /api/v1/boards/:board/labels/atom-index/status path",
            ContractSurface::Api,
            "GET /api/v1/boards/:board/labels/atom-index/status",
            ContractDirection::Deserialize,
            ContractStrictness::DenyUnknownFields,
            Some("urn:kanban-tool:schema:api:label-atom-index-status-path:v1"),
            Some("schemas/fixtures/api/label-atom-index-status-path.v1.valid.json"),
            MigrationState::Generated,
            ContractTransport::Http { operation_key: Some("GET /api/v1/boards/:board/labels/atom-index/status"), location: HttpTransportLocation::Path, parameters: &[WireParameter { name: "board", cardinality: Some(WireParameterCardinality::RequiredOne) }] },
        ),
        OperationContract::unadopted(
            "api.label-atom-index-status.response",
            "GET /api/v1/boards/:board/labels/atom-index/status success",
            ContractSurface::Api,
            "GET /api/v1/boards/:board/labels/atom-index/status",
            ContractDirection::Serialize,
            ContractStrictness::DenyUnknownFields,
            Some("urn:kanban-tool:schema:api:label-atom-index-status-response:v1"),
            Some("schemas/fixtures/api/label-atom-index-status-response.v1.valid.json"),
            MigrationState::Generated,
            ContractTransport::Http { operation_key: Some("GET /api/v1/boards/:board/labels/atom-index/status"), location: HttpTransportLocation::Success, parameters: &[] },
        ),
        OperationContract::unadopted(
            "api.rebuild-label-atom-index.path",
            "POST /api/v1/boards/:board/labels/atom-index/rebuild path",
            ContractSurface::Api,
            "POST /api/v1/boards/:board/labels/atom-index/rebuild",
            ContractDirection::Deserialize,
            ContractStrictness::DenyUnknownFields,
            Some("urn:kanban-tool:schema:api:rebuild-label-atom-index-path:v1"),
            Some("schemas/fixtures/api/rebuild-label-atom-index-path.v1.valid.json"),
            MigrationState::Generated,
            ContractTransport::Http { operation_key: Some("POST /api/v1/boards/:board/labels/atom-index/rebuild"), location: HttpTransportLocation::Path, parameters: &[WireParameter { name: "board", cardinality: Some(WireParameterCardinality::RequiredOne) }] },
        ),
        OperationContract::unadopted(
            "api.rebuild-label-atom-index.response",
            "POST /api/v1/boards/:board/labels/atom-index/rebuild success",
            ContractSurface::Api,
            "POST /api/v1/boards/:board/labels/atom-index/rebuild",
            ContractDirection::Serialize,
            ContractStrictness::DenyUnknownFields,
            Some("urn:kanban-tool:schema:api:rebuild-label-atom-index-response:v1"),
            Some("schemas/fixtures/api/rebuild-label-atom-index-response.v1.valid.json"),
            MigrationState::Generated,
            ContractTransport::Http { operation_key: Some("POST /api/v1/boards/:board/labels/atom-index/rebuild"), location: HttpTransportLocation::Success, parameters: &[] },
        ),
        OperationContract::unadopted(
            "api.query-label-atom-index.path",
            "GET /api/v1/boards/:board/labels/atom-index/query path",
            ContractSurface::Api,
            "GET /api/v1/boards/:board/labels/atom-index/query",
            ContractDirection::Deserialize,
            ContractStrictness::DenyUnknownFields,
            Some("urn:kanban-tool:schema:api:query-label-atom-index-path:v1"),
            Some("schemas/fixtures/api/query-label-atom-index-path.v1.valid.json"),
            MigrationState::Generated,
            ContractTransport::Http { operation_key: Some("GET /api/v1/boards/:board/labels/atom-index/query"), location: HttpTransportLocation::Path, parameters: &[WireParameter { name: "board", cardinality: Some(WireParameterCardinality::RequiredOne) }] },
        ),
        OperationContract::unadopted(
            "api.query-label-atom-index.query",
            "GET /api/v1/boards/:board/labels/atom-index/query query",
            ContractSurface::Api,
            "GET /api/v1/boards/:board/labels/atom-index/query",
            ContractDirection::Deserialize,
            ContractStrictness::DenyUnknownFields,
            Some("urn:kanban-tool:schema:api:query-label-atom-index-query:v1"),
            Some("schemas/fixtures/api/query-label-atom-index-query.v1.valid.json"),
            MigrationState::Generated,
            ContractTransport::Http { operation_key: Some("GET /api/v1/boards/:board/labels/atom-index/query"), location: HttpTransportLocation::Query, parameters: &[] },
        ),
        OperationContract::unadopted(
            "api.query-label-atom-index.response",
            "GET /api/v1/boards/:board/labels/atom-index/query success",
            ContractSurface::Api,
            "GET /api/v1/boards/:board/labels/atom-index/query",
            ContractDirection::Serialize,
            ContractStrictness::DenyUnknownFields,
            Some("urn:kanban-tool:schema:api:query-label-atom-index-response:v1"),
            Some("schemas/fixtures/api/query-label-atom-index-response.v1.valid.json"),
            MigrationState::Generated,
            ContractTransport::Http { operation_key: Some("GET /api/v1/boards/:board/labels/atom-index/query"), location: HttpTransportLocation::Success, parameters: &[] },
        ),
        OperationContract::unadopted(
            "api.list-signals.path",
            "GET /api/v1/boards/:board/signals path",
            ContractSurface::Api,
            "GET /api/v1/boards/:board/signals",
            ContractDirection::Deserialize,
            ContractStrictness::DenyUnknownFields,
            Some("urn:kanban-tool:schema:api:list-signals-path:v1"),
            Some("schemas/fixtures/api/list-signals-path.v1.valid.json"),
            MigrationState::Generated,
            ContractTransport::Http { operation_key: Some("GET /api/v1/boards/:board/signals"), location: HttpTransportLocation::Path, parameters: &[WireParameter { name: "board", cardinality: Some(WireParameterCardinality::RequiredOne) }] },
        ),
        OperationContract::unadopted(
            "api.list-signals.query",
            "GET /api/v1/boards/:board/signals query",
            ContractSurface::Api,
            "GET /api/v1/boards/:board/signals",
            ContractDirection::Deserialize,
            ContractStrictness::DenyUnknownFields,
            Some("urn:kanban-tool:schema:api:list-signals-query:v1"),
            Some("schemas/fixtures/api/list-signals-query.v1.valid.json"),
            MigrationState::Generated,
            ContractTransport::Http { operation_key: Some("GET /api/v1/boards/:board/signals"), location: HttpTransportLocation::Query, parameters: &[] },
        ),
        OperationContract::unadopted(
            "api.list-signals.response",
            "GET /api/v1/boards/:board/signals success",
            ContractSurface::Api,
            "GET /api/v1/boards/:board/signals",
            ContractDirection::Serialize,
            ContractStrictness::DenyUnknownFields,
            Some("urn:kanban-tool:schema:api:list-signals-response:v1"),
            Some("schemas/fixtures/api/list-signals-response.v1.valid.json"),
            MigrationState::Generated,
            ContractTransport::Http { operation_key: Some("GET /api/v1/boards/:board/signals"), location: HttpTransportLocation::Success, parameters: &[] },
        ),
        OperationContract::unadopted(
            "api.review-signals.path",
            "GET /api/v1/boards/:board/signals/review path",
            ContractSurface::Api,
            "GET /api/v1/boards/:board/signals/review",
            ContractDirection::Deserialize,
            ContractStrictness::DenyUnknownFields,
            Some("urn:kanban-tool:schema:api:review-signals-path:v1"),
            Some("schemas/fixtures/api/review-signals-path.v1.valid.json"),
            MigrationState::Generated,
            ContractTransport::Http { operation_key: Some("GET /api/v1/boards/:board/signals/review"), location: HttpTransportLocation::Path, parameters: &[WireParameter { name: "board", cardinality: Some(WireParameterCardinality::RequiredOne) }] },
        ),
        OperationContract::unadopted(
            "api.review-signals.query",
            "GET /api/v1/boards/:board/signals/review query",
            ContractSurface::Api,
            "GET /api/v1/boards/:board/signals/review",
            ContractDirection::Deserialize,
            ContractStrictness::DenyUnknownFields,
            Some("urn:kanban-tool:schema:api:review-signals-query:v1"),
            Some("schemas/fixtures/api/review-signals-query.v1.valid.json"),
            MigrationState::Generated,
            ContractTransport::Http { operation_key: Some("GET /api/v1/boards/:board/signals/review"), location: HttpTransportLocation::Query, parameters: &[] },
        ),
        OperationContract::unadopted(
            "api.review-signals.response",
            "GET /api/v1/boards/:board/signals/review success",
            ContractSurface::Api,
            "GET /api/v1/boards/:board/signals/review",
            ContractDirection::Serialize,
            ContractStrictness::DenyUnknownFields,
            Some("urn:kanban-tool:schema:api:review-signals-response:v1"),
            Some("schemas/fixtures/api/review-signals-response.v1.valid.json"),
            MigrationState::Generated,
            ContractTransport::Http { operation_key: Some("GET /api/v1/boards/:board/signals/review"), location: HttpTransportLocation::Success, parameters: &[] },
        ),
        OperationContract::unadopted(
            "api.get-signal.path",
            "GET /api/v1/signals/:signal_id path",
            ContractSurface::Api,
            "GET /api/v1/signals/:signal_id",
            ContractDirection::Deserialize,
            ContractStrictness::DenyUnknownFields,
            Some("urn:kanban-tool:schema:api:get-signal-path:v1"),
            Some("schemas/fixtures/api/get-signal-path.v1.valid.json"),
            MigrationState::Generated,
            ContractTransport::Http { operation_key: Some("GET /api/v1/signals/:signal_id"), location: HttpTransportLocation::Path, parameters: &[WireParameter { name: "signal_id", cardinality: Some(WireParameterCardinality::RequiredOne) }] },
        ),
        OperationContract::unadopted(
            "api.get-signal.response",
            "GET /api/v1/signals/:signal_id success",
            ContractSurface::Api,
            "GET /api/v1/signals/:signal_id",
            ContractDirection::Serialize,
            ContractStrictness::DenyUnknownFields,
            Some("urn:kanban-tool:schema:api:get-signal-response:v1"),
            Some("schemas/fixtures/api/get-signal-response.v1.valid.json"),
            MigrationState::Generated,
            ContractTransport::Http { operation_key: Some("GET /api/v1/signals/:signal_id"), location: HttpTransportLocation::Success, parameters: &[] },
        ),
    ];
    assert(r@ =~= legacy_rows_6());
    r
}

/// Historical inventory rows 280 to 319.
#[verifier::opaque]
pub open spec fn legacy_rows_7() -> Seq<OperationContract> {
    seq![
        OperationContract::unadopted(
            "api.record-signal.path",
            "POST /api/v1/boards/:board/signals path",
            ContractSurface::Api,
            "POST /api/v1/boards/:board/signals",
            ContractDirection::Deserialize,
            ContractStrictness::DenyUnknownFields,
            Some("urn:kanban-tool:schema:api:record-signal-path:v1"),
            Some("schemas/fixtures/api/record-signal-path.v1.valid.json"),
            MigrationState::Generated,
            ContractTransport::Http { operation_key: Some("POST /api/v1/boards/:board/signals"), location: HttpTransportLocation::Path, parameters: &[WireParameter { name: "board", cardinality: Some(WireParameterCardinality::RequiredOne) }] },
        ),
        OperationContract::unadopted(
            "api.record-signal.request",
            "POST /api/v1/boards/:board/signals request",
            ContractSurface::Api,
            "POST /api/v1/boards/:board/signals",
            ContractDirection::Deserialize,
            ContractStrictness::DenyUnknownFields,
            Some("urn:kanban-tool:schema:api:record-signal-request:v1"),
            Some("schemas/fixtures/api/record-signal-request.v1.valid.json"),
            MigrationState::Generated,
            ContractTransport::Http { operation_key: Some("POST /api/v1/boards/:board/signals"), location: HttpTransportLocation::Body, parameters: &[] },
        ),
        OperationContract::unadopted(
            "api.record-signal.response",
            "POST /api/v1/boards/:board/signals success",
            ContractSurface::Api,
            "POST /api/v1/boards/:board/signals",
            ContractDirection::Serialize,
            ContractStrictness::DenyUnknownFields,
            Some("urn:kanban-tool:schema:api:record-signal-response:v1"),
            Some("schemas/fixtures/api/record-signal-response.v1.valid.json"),
            MigrationState::Generated,
            ContractTransport::Http { operation_key: Some("POST /api/v1/boards/:board/signals"), location: HttpTransportLocation::Success, parameters: &[] },
        ),
        OperationContract::unadopted(
            "api.confirm-signals.path",
            "POST /api/v1/boards/:board/signals/confirm path",
            ContractSurface::Api,
            "POST /api/v1/boards/:board/signals/confirm",
            ContractDirection::Deserialize,
            ContractStrictness::DenyUnknownFields,
            Some("urn:kanban-tool:schema:api:confirm-signals-path:v1"),
            Some("schemas/fixtures/api/confirm-signals-path.v1.valid.json"),
            MigrationState::Generated,
            ContractTransport::Http { operation_key: Some("POST /api/v1/boards/:board/signals/confirm"), location: HttpTransportLocation::Path, parameters: &[WireParameter { name: "board", cardinality: Some(WireParameterCardinality::RequiredOne) }] },
        ),
        OperationContract::unadopted(
            "api.confirm-signals.request",
            "POST /api/v1/boards/:board/signals/confirm request",
            ContractSurface::Api,
            "POST /api/v1/boards/:board/signals/confirm",
            ContractDirection::Deserialize,
            ContractStrictness::DenyUnknownFields,
            Some("urn:kanban-tool:schema:api:review-signals-request:v1"),
            Some("schemas/fixtures/api/review-signals-request.v1.valid.json"),
            MigrationState::Generated,
            ContractTransport::Http { operation_key: Some("POST /api/v1/boards/:board/signals/confirm"), location: HttpTransportLocation::Body, parameters: &[] },
        ),
        OperationContract::unadopted(
            "api.confirm-signals.response",
            "POST /api/v1/boards/:board/signals/confirm success",
            ContractSurface::Api,
            "POST /api/v1/boards/:board/signals/confirm",
            ContractDirection::Serialize,
            ContractStrictness::DenyUnknownFields,
            Some("urn:kanban-tool:schema:api:confirm-signals-response:v1"),
            Some("schemas/fixtures/api/confirm-signals-response.v1.valid.json"),
            MigrationState::Generated,
            ContractTransport::Http { operation_key: Some("POST /api/v1/boards/:board/signals/confirm"), location: HttpTransportLocation::Success, parameters: &[] },
        ),
        OperationContract::unadopted(
            "api.reject-signals.path",
            "POST /api/v1/boards/:board/signals/reject path",
            ContractSurface::Api,
            "POST /api/v1/boards/:board/signals/reject",
            ContractDirection::Deserialize,
            ContractStrictness::DenyUnknownFields,
            Some("urn:kanban-tool:schema:api:reject-signals-path:v1"),
            Some("schemas/fixtures/api/reject-signals-path.v1.valid.json"),
            MigrationState::Generated,
            ContractTransport::Http { operation_key: Some("POST /api/v1/boards/:board/signals/reject"), location: HttpTransportLocation::Path, parameters: &[WireParameter { name: "board", cardinality: Some(WireParameterCardinality::RequiredOne) }] },
        ),
        OperationContract::unadopted(
            "api.reject-signals.request",
            "POST /api/v1/boards/:board/signals/reject request",
            ContractSurface::Api,
            "POST /api/v1/boards/:board/signals/reject",
            ContractDirection::Deserialize,
            ContractStrictness::DenyUnknownFields,
            Some("urn:kanban-tool:schema:api:reject-signals-request:v1"),
            Some("schemas/fixtures/api/reject-signals-request.v1.valid.json"),
            MigrationState::Generated,
            ContractTransport::Http { operation_key: Some("POST /api/v1/boards/:board/signals/reject"), location: HttpTransportLocation::Body, parameters: &[] },
        ),
        OperationContract::unadopted(
            "api.reject-signals.response",
            "POST /api/v1/boards/:board/signals/reject success",
            ContractSurface::Api,
            "POST /api/v1/boards/:board/signals/reject",
            ContractDirection::Serialize,
            ContractStrictness::DenyUnknownFields,
            Some("urn:kanban-tool:schema:api:reject-signals-response:v1"),
            Some("schemas/fixtures/api/reject-signals-response.v1.valid.json"),
            MigrationState::Generated,
            ContractTransport::Http { operation_key: Some("POST /api/v1/boards/:board/signals/reject"), location: HttpTransportLocation::Success, parameters: &[] },
        ),
        OperationContract::unadopted(
            "api.resolve-signals.path",
            "POST /api/v1/boards/:board/signals/resolve path",
            ContractSurface::Api,
            "POST /api/v1/boards/:board/signals/resolve",
            ContractDirection::Deserialize,
            ContractStrictness::DenyUnknownFields,
            Some("urn:kanban-tool:schema:api:resolve-signals-path:v1"),
            Some("schemas/fixtures/api/resolve-signals-path.v1.valid.json"),
            MigrationState::Generated,
            ContractTransport::Http { operation_key: Some("POST /api/v1/boards/:board/signals/resolve"), location: HttpTransportLocation::Path, parameters: &[WireParameter { name: "board", cardinality: Some(WireParameterCardinality::RequiredOne) }] },
        ),
        OperationContract::unadopted(
            "api.resolve-signals.request",
            "POST /api/v1/boards/:board/signals/resolve request",
            ContractSurface::Api,
            "POST /api/v1/boards/:board/signals/resolve",
            ContractDirection::Deserialize,
            ContractStrictness::DenyUnknownFields,
            Some("urn:kanban-tool:schema:api:resolve-signals-request:v1"),
            Some("schemas/fixtures/api/resolve-signals-request.v1.valid.json"),
            MigrationState::Generated,
            ContractTransport::Http { operation_key: Some("POST /api/v1/boards/:board/signals/resolve"), location: HttpTransportLocation::Body, parameters: &[] },
        ),
        OperationContract::unadopted(
            "api.resolve-signals.response",
            "POST /api/v1/boards/:board/signals/resolve success",
            ContractSurface::Api,
            "POST /api/v1/boards/:board/signals/resolve",
            ContractDirection::Serialize,
            ContractStrictness::DenyUnknownFields,
            Some("urn:kanban-tool:schema:api:resolve-signals-response:v1"),
            Some("schemas/fixtures/api/resolve-signals-response.v1.valid.json"),
            MigrationState::Generated,
            ContractTransport::Http { operation_key: Some("POST /api/v1/boards/:board/signals/resolve"), location: HttpTransportLocation::Success, parameters: &[] },
        ),
        OperationContract::unadopted(
            "api.supersede-signals.path",
            "POST /api/v1/boards/:board/signals/supersede path",
            ContractSurface::Api,
            "POST /api/v1/boards/:board/signals/supersede",
            ContractDirection::Deserialize,
            ContractStrictness::DenyUnknownFields,
            Some("urn:kanban-tool:schema:api:supersede-signals-path:v1"),
            Some("schemas/fixtures/api/supersede-signals-path.v1.valid.json"),
            MigrationState::Generated,
            ContractTransport::Http { operation_key: Some("POST /api/v1/boards/:board/signals/supersede"), location: HttpTransportLocation::Path, parameters: &[WireParameter { name: "board", cardinality: Some(WireParameterCardinality::RequiredOne) }] },
        ),
        OperationContract::unadopted(
            "api.supersede-signals.request",
            "POST /api/v1/boards/:board/signals/supersede request",
            ContractSurface::Api,
            "POST /api/v1/boards/:board/signals/supersede",
            ContractDirection::Deserialize,
            ContractStrictness::DenyUnknownFields,
            Some("urn:kanban-tool:schema:api:supersede-signals-request:v1"),
            Some("schemas/fixtures/api/supersede-signals-request.v1.valid.json"),
            MigrationState::Generated,
            ContractTransport::Http { operation_key: Some("POST /api/v1/boards/:board/signals/supersede"), location: HttpTransportLocation::Body, parameters: &[] },
        ),
        OperationContract::unadopted(
            "api.supersede-signals.response",
            "POST /api/v1/boards/:board/signals/supersede success",
            ContractSurface::Api,
            "POST /api/v1/boards/:board/signals/supersede",
            ContractDirection::Serialize,
            ContractStrictness::DenyUnknownFields,
            Some("urn:kanban-tool:schema:api:supersede-signals-response:v1"),
            Some("schemas/fixtures/api/supersede-signals-response.v1.valid.json"),
            MigrationState::Generated,
            ContractTransport::Http { operation_key: Some("POST /api/v1/boards/:board/signals/supersede"), location: HttpTransportLocation::Success, parameters: &[] },
        ),
        OperationContract::unadopted(
            "api.suggest-task-labels.path",
            "GET /api/v1/tasks/:task_id/labels/suggestions path",
            ContractSurface::Api,
            "GET /api/v1/tasks/:task_id/labels/suggestions",
            ContractDirection::Deserialize,
            ContractStrictness::DenyUnknownFields,
            Some("urn:kanban-tool:schema:api:suggest-task-labels-path:v1"),
            Some("schemas/fixtures/api/suggest-task-labels-path.v1.valid.json"),
            MigrationState::Generated,
            ContractTransport::Http { operation_key: Some("GET /api/v1/tasks/:task_id/labels/suggestions"), location: HttpTransportLocation::Path, parameters: &[WireParameter { name: "task_id", cardinality: Some(WireParameterCardinality::RequiredOne) }] },
        ),
        OperationContract::unadopted(
            "api.label-suggestion.query",
            "GET /api/v1/tasks/:task_id/labels/suggestions query",
            ContractSurface::Api,
            "GET /api/v1/tasks/:task_id/labels/suggestions",
            ContractDirection::Deserialize,
            ContractStrictness::DenyUnknownFields,
            Some("urn:kanban-tool:schema:api:label-suggestion-query:v1"),
            Some("schemas/fixtures/api/label-suggestion-query.v1.valid.json"),
            MigrationState::Generated,
            ContractTransport::Http { operation_key: Some("GET /api/v1/tasks/:task_id/labels/suggestions"), location: HttpTransportLocation::Query, parameters: &[] },
        ),
        OperationContract::unadopted(
            "api.suggest-task-labels.response",
            "GET /api/v1/tasks/:task_id/labels/suggestions success",
            ContractSurface::Api,
            "GET /api/v1/tasks/:task_id/labels/suggestions",
            ContractDirection::Serialize,
            ContractStrictness::DenyUnknownFields,
            Some("urn:kanban-tool:schema:api:suggest-task-labels-response:v1"),
            Some("schemas/fixtures/api/suggest-task-labels-response.v1.valid.json"),
            MigrationState::Generated,
            ContractTransport::Http { operation_key: Some("GET /api/v1/tasks/:task_id/labels/suggestions"), location: HttpTransportLocation::Success, parameters: &[] },
        ),
        OperationContract::unadopted(
            "api.list-task-label-proposals.path",
            "GET /api/v1/tasks/:task_id/label-proposals path",
            ContractSurface::Api,
            "GET /api/v1/tasks/:task_id/label-proposals",
            ContractDirection::Deserialize,
            ContractStrictness::DenyUnknownFields,
            Some("urn:kanban-tool:schema:api:list-task-label-proposals-path:v1"),
            Some("schemas/fixtures/api/list-task-label-proposals-path.v1.valid.json"),
            MigrationState::Generated,
            ContractTransport::Http { operation_key: Some("GET /api/v1/tasks/:task_id/label-proposals"), location: HttpTransportLocation::Path, parameters: &[WireParameter { name: "task_id", cardinality: Some(WireParameterCardinality::RequiredOne) }] },
        ),
        OperationContract::unadopted(
            "api.list-task-label-proposals.response",
            "GET /api/v1/tasks/:task_id/label-proposals success",
            ContractSurface::Api,
            "GET /api/v1/tasks/:task_id/label-proposals",
            ContractDirection::Serialize,
            ContractStrictness::DenyUnknownFields,
            Some("urn:kanban-tool:schema:api:list-task-label-proposals-response:v1"),
            Some("schemas/fixtures/api/list-task-label-proposals-response.v1.valid.json"),
            MigrationState::Generated,
            ContractTransport::Http { operation_key: Some("GET /api/v1/tasks/:task_id/label-proposals"), location: HttpTransportLocation::Success, parameters: &[] },
        ),
        OperationContract::unadopted(
            "api.propose-task-label.path",
            "POST /api/v1/tasks/:task_id/label-proposals path",
            ContractSurface::Api,
            "POST /api/v1/tasks/:task_id/label-proposals",
            ContractDirection::Deserialize,
            ContractStrictness::DenyUnknownFields,
            Some("urn:kanban-tool:schema:api:propose-task-label-path:v1"),
            Some("schemas/fixtures/api/propose-task-label-path.v1.valid.json"),
            MigrationState::Generated,
            ContractTransport::Http { operation_key: Some("POST /api/v1/tasks/:task_id/label-proposals"), location: HttpTransportLocation::Path, parameters: &[WireParameter { name: "task_id", cardinality: Some(WireParameterCardinality::RequiredOne) }] },
        ),
        OperationContract::unadopted(
            "api.propose-task-label.query",
            "POST /api/v1/tasks/:task_id/label-proposals query",
            ContractSurface::Api,
            "POST /api/v1/tasks/:task_id/label-proposals",
            ContractDirection::Deserialize,
            ContractStrictness::DenyUnknownFields,
            Some("urn:kanban-tool:schema:api:propose-task-label-query:v1"),
            Some("schemas/fixtures/api/propose-task-label-query.v1.valid.json"),
            MigrationState::Generated,
            ContractTransport::Http { operation_key: Some("POST /api/v1/tasks/:task_id/label-proposals"), location: HttpTransportLocation::Query, parameters: &[] },
        ),
        OperationContract::unadopted(
            "api.propose-task-label.request",
            "POST /api/v1/tasks/:task_id/label-proposals body",
            ContractSurface::Api,
            "POST /api/v1/tasks/:task_id/label-proposals",
            ContractDirection::Deserialize,
            ContractStrictness::DenyUnknownFields,
            Some("urn:kanban-tool:schema:api:propose-task-label-request:v1"),
            Some("schemas/fixtures/api/propose-task-label-request.v1.valid.json"),
            MigrationState::Generated,
            ContractTransport::Http { operation_key: Some("POST /api/v1/tasks/:task_id/label-proposals"), location: HttpTransportLocation::Body, parameters: &[] },
        ),
        OperationContract::unadopted(
            "api.propose-task-label.response",
            "POST /api/v1/tasks/:task_id/label-proposals success",
            ContractSurface::Api,
            "POST /api/v1/tasks/:task_id/label-proposals",
            ContractDirection::Serialize,
            ContractStrictness::DenyUnknownFields,
            Some("urn:kanban-tool:schema:api:propose-task-label-response:v1"),
            Some("schemas/fixtures/api/propose-task-label-response.v1.valid.json"),
            MigrationState::Generated,
            ContractTransport::Http { operation_key: Some("POST /api/v1/tasks/:task_id/label-proposals"), location: HttpTransportLocation::Success, parameters: &[] },
        ),
        OperationContract::unadopted(
            "api.record-label-ontology-observation.path",
            "POST /api/v1/tasks/:task_id/label-ontology/observations path",
            ContractSurface::Api,
            "POST /api/v1/tasks/:task_id/label-ontology/observations",
            ContractDirection::Deserialize,
            ContractStrictness::DenyUnknownFields,
            Some("urn:kanban-tool:schema:api:record-label-ontology-observation-path:v1"),
            Some("schemas/fixtures/api/record-label-ontology-observation-path.v1.valid.json"),
            MigrationState::Generated,
            ContractTransport::Http { operation_key: Some("POST /api/v1/tasks/:task_id/label-ontology/observations"), location: HttpTransportLocation::Path, parameters: &[WireParameter { name: "task_id", cardinality: Some(WireParameterCardinality::RequiredOne) }] },
        ),
        OperationContract::unadopted(
            "api.record-label-ontology-observation.body",
            "POST /api/v1/tasks/:task_id/label-ontology/observations body",
            ContractSurface::Api,
            "POST /api/v1/tasks/:task_id/label-ontology/observations",
            ContractDirection::Deserialize,
            ContractStrictness::DenyUnknownFields,
            Some("urn:kanban-tool:schema:api:record-label-ontology-observation-body:v1"),
            Some("schemas/fixtures/api/record-label-ontology-observation-body.v1.valid.json"),
            MigrationState::Generated,
            ContractTransport::Http { operation_key: Some("POST /api/v1/tasks/:task_id/label-ontology/observations"), location: HttpTransportLocation::Body, parameters: &[] },
        ),
        OperationContract::unadopted(
            "api.record-label-ontology-observation.response",
            "POST /api/v1/tasks/:task_id/label-ontology/observations success",
            ContractSurface::Api,
            "POST /api/v1/tasks/:task_id/label-ontology/observations",
            ContractDirection::Serialize,
            ContractStrictness::DenyUnknownFields,
            Some("urn:kanban-tool:schema:api:record-label-ontology-observation-response:v1"),
            Some("schemas/fixtures/api/record-label-ontology-observation-response.v1.valid.json"),
            MigrationState::Generated,
            ContractTransport::Http { operation_key: Some("POST /api/v1/tasks/:task_id/label-ontology/observations"), location: HttpTransportLocation::Success, parameters: &[] },
        ),
        OperationContract::unadopted(
            "api.list-label-ontology-signals.path",
            "GET /api/v1/boards/:board/label-ontology/signals path",
            ContractSurface::Api,
            "GET /api/v1/boards/:board/label-ontology/signals",
            ContractDirection::Deserialize,
            ContractStrictness::DenyUnknownFields,
            Some("urn:kanban-tool:schema:api:list-label-ontology-signals-path:v1"),
            Some("schemas/fixtures/api/list-label-ontology-signals-path.v1.valid.json"),
            MigrationState::Generated,
            ContractTransport::Http { operation_key: Some("GET /api/v1/boards/:board/label-ontology/signals"), location: HttpTransportLocation::Path, parameters: &[WireParameter { name: "board", cardinality: Some(WireParameterCardinality::RequiredOne) }] },
        ),
        OperationContract::unadopted(
            "api.label-ontology-signal.query",
            "GET /api/v1/boards/:board/label-ontology/signals query",
            ContractSurface::Api,
            "GET /api/v1/boards/:board/label-ontology/signals",
            ContractDirection::Deserialize,
            ContractStrictness::DenyUnknownFields,
            Some("urn:kanban-tool:schema:api:label-ontology-signal-query:v1"),
            Some("schemas/fixtures/api/label-ontology-signal-query.v1.valid.json"),
            MigrationState::Generated,
            ContractTransport::Http { operation_key: Some("GET /api/v1/boards/:board/label-ontology/signals"), location: HttpTransportLocation::Query, parameters: &[] },
        ),
        OperationContract::unadopted(
            "api.review-label-ontology.path",
            "GET /api/v1/boards/:board/label-ontology/review path",
            ContractSurface::Api,
            "GET /api/v1/boards/:board/label-ontology/review",
            ContractDirection::Deserialize,
            ContractStrictness::DenyUnknownFields,
            Some("urn:kanban-tool:schema:api:review-label-ontology-path:v1"),
            Some("schemas/fixtures/api/review-label-ontology-path.v1.valid.json"),
            MigrationState::Generated,
            ContractTransport::Http { operation_key: Some("GET /api/v1/boards/:board/label-ontology/review"), location: HttpTransportLocation::Path, parameters: &[WireParameter { name: "board", cardinality: Some(WireParameterCardinality::RequiredOne) }] },
        ),
        OperationContract::unadopted(
            "api.label-ontology-review.query",
            "GET /api/v1/boards/:board/label-ontology/review query",
            ContractSurface::Api,
            "GET /api/v1/boards/:board/label-ontology/review",
            ContractDirection::Deserialize,
            ContractStrictness::DenyUnknownFields,
            Some("urn:kanban-tool:schema:api:label-ontology-review-query:v1"),
            Some("schemas/fixtures/api/label-ontology-review-query.v1.valid.json"),
            MigrationState::Generated,
            ContractTransport::Http { operation_key: Some("GET /api/v1/boards/:board/label-ontology/review"), location: HttpTransportLocation::Query, parameters: &[] },
        ),
        OperationContract::unadopted(
            "api.review-label-ontology.response",
            "GET /api/v1/boards/:board/label-ontology/review success",
            ContractSurface::Api,
            "GET /api/v1/boards/:board/label-ontology/review",
            ContractDirection::Serialize,
            ContractStrictness::DenyUnknownFields,
            Some("urn:kanban-tool:schema:api:review-label-ontology-response:v1"),
            Some("schemas/fixtures/api/review-label-ontology-response.v1.valid.json"),
            MigrationState::Generated,
            ContractTransport::Http { operation_key: Some("GET /api/v1/boards/:board/label-ontology/review"), location: HttpTransportLocation::Success, parameters: &[] },
        ),
        OperationContract::unadopted(
            "api.create-label-ontology-action.path",
            "POST /api/v1/boards/:board/label-ontology/actions path",
            ContractSurface::Api,
            "POST /api/v1/boards/:board/label-ontology/actions",
            ContractDirection::Deserialize,
            ContractStrictness::DenyUnknownFields,
            Some("urn:kanban-tool:schema:api:create-label-ontology-action-path:v1"),
            Some("schemas/fixtures/api/create-label-ontology-action-path.v1.valid.json"),
            MigrationState::Generated,
            ContractTransport::Http { operation_key: Some("POST /api/v1/boards/:board/label-ontology/actions"), location: HttpTransportLocation::Path, parameters: &[WireParameter { name: "board", cardinality: Some(WireParameterCardinality::RequiredOne) }] },
        ),
        OperationContract::unadopted(
            "api.create-label-ontology-action.request",
            "POST /api/v1/boards/:board/label-ontology/actions body",
            ContractSurface::Api,
            "POST /api/v1/boards/:board/label-ontology/actions",
            ContractDirection::Deserialize,
            ContractStrictness::DenyUnknownFields,
            Some("urn:kanban-tool:schema:api:create-label-ontology-action-request:v1"),
            Some("schemas/fixtures/api/create-label-ontology-action-request.v1.valid.json"),
            MigrationState::Generated,
            ContractTransport::Http { operation_key: Some("POST /api/v1/boards/:board/label-ontology/actions"), location: HttpTransportLocation::Body, parameters: &[] },
        ),
        OperationContract::unadopted(
            "api.create-label-ontology-action.response",
            "POST /api/v1/boards/:board/label-ontology/actions success",
            ContractSurface::Api,
            "POST /api/v1/boards/:board/label-ontology/actions",
            ContractDirection::Serialize,
            ContractStrictness::DenyUnknownFields,
            Some("urn:kanban-tool:schema:api:create-label-ontology-action-response:v1"),
            Some("schemas/fixtures/api/create-label-ontology-action-response.v1.valid.json"),
            MigrationState::Generated,
            ContractTransport::Http { operation_key: Some("POST /api/v1/boards/:board/label-ontology/actions"), location: HttpTransportLocation::Success, parameters: &[] },
        ),
        OperationContract::unadopted(
            "api.apply-label-ontology-atom.path",
            "POST /api/v1/boards/:board/label-ontology/apply/atom path",
            ContractSurface::Api,
            "POST /api/v1/boards/:board/label-ontology/apply/atom",
            ContractDirection::Deserialize,
            ContractStrictness::DenyUnknownFields,
            Some("urn:kanban-tool:schema:api:apply-label-ontology-atom-path:v1"),
            Some("schemas/fixtures/api/apply-label-ontology-atom-path.v1.valid.json"),
            MigrationState::Generated,
            ContractTransport::Http { operation_key: Some("POST /api/v1/boards/:board/label-ontology/apply/atom"), location: HttpTransportLocation::Path, parameters: &[WireParameter { name: "board", cardinality: Some(WireParameterCardinality::RequiredOne) }] },
        ),
        OperationContract::unadopted(
            "api.apply-label-ontology-atom.request",
            "POST /api/v1/boards/:board/label-ontology/apply/atom body",
            ContractSurface::Api,
            "POST /api/v1/boards/:board/label-ontology/apply/atom",
            ContractDirection::Deserialize,
            ContractStrictness::DenyUnknownFields,
            Some("urn:kanban-tool:schema:api:apply-label-ontology-atom-request:v1"),
            Some("schemas/fixtures/api/apply-label-ontology-atom-request.v1.valid.json"),
            MigrationState::Generated,
            ContractTransport::Http { operation_key: Some("POST /api/v1/boards/:board/label-ontology/apply/atom"), location: HttpTransportLocation::Body, parameters: &[] },
        ),
        OperationContract::unadopted(
            "api.apply-label-ontology-atom.response",
            "POST /api/v1/boards/:board/label-ontology/apply/atom success",
            ContractSurface::Api,
            "POST /api/v1/boards/:board/label-ontology/apply/atom",
            ContractDirection::Serialize,
            ContractStrictness::DenyUnknownFields,
            Some("urn:kanban-tool:schema:api:apply-label-ontology-atom-response:v1"),
            Some("schemas/fixtures/api/apply-label-ontology-atom-response.v1.valid.json"),
            MigrationState::Generated,
            ContractTransport::Http { operation_key: Some("POST /api/v1/boards/:board/label-ontology/apply/atom"), location: HttpTransportLocation::Success, parameters: &[] },
        ),
        OperationContract::unadopted(
            "api.revert-label-ontology-mutation.path",
            "POST /api/v1/boards/:board/label-ontology/revert path",
            ContractSurface::Api,
            "POST /api/v1/boards/:board/label-ontology/revert",
            ContractDirection::Deserialize,
            ContractStrictness::DenyUnknownFields,
            Some("urn:kanban-tool:schema:api:revert-label-ontology-mutation-path:v1"),
            Some("schemas/fixtures/api/revert-label-ontology-mutation-path.v1.valid.json"),
            MigrationState::Generated,
            ContractTransport::Http { operation_key: Some("POST /api/v1/boards/:board/label-ontology/revert"), location: HttpTransportLocation::Path, parameters: &[WireParameter { name: "board", cardinality: Some(WireParameterCardinality::RequiredOne) }] },
        ),
        OperationContract::unadopted(
            "api.revert-label-ontology-mutation.request",
            "POST /api/v1/boards/:board/label-ontology/revert body",
            ContractSurface::Api,
            "POST /api/v1/boards/:board/label-ontology/revert",
            ContractDirection::Deserialize,
            ContractStrictness::DenyUnknownFields,
            Some("urn:kanban-tool:schema:api:revert-label-ontology-mutation-request:v1"),
            Some("schemas/fixtures/api/revert-label-ontology-mutation-request.v1.valid.json"),
            MigrationState::Generated,
            ContractTransport::Http { operation_key: Some("POST /api/v1/boards/:board/label-ontology/revert"), location: HttpTransportLocation::Body, parameters: &[] },
        ),
    ]
}

/// Historical inventory rows 280 to 319.
fn legacy_rows_7_vec() -> (r: Vec<OperationContract>)
    ensures
        r@ == legacy_rows_7(),
{
    reveal(legacy_rows_7);
    let r = vec![
        OperationContract::unadopted(
            "api.record-signal.path",
            "POST /api/v1/boards/:board/signals path",
            ContractSurface::Api,
            "POST /api/v1/boards/:board/signals",
            ContractDirection::Deserialize,
            ContractStrictness::DenyUnknownFields,
            Some("urn:kanban-tool:schema:api:record-signal-path:v1"),
            Some("schemas/fixtures/api/record-signal-path.v1.valid.json"),
            MigrationState::Generated,
            ContractTransport::Http { operation_key: Some("POST /api/v1/boards/:board/signals"), location: HttpTransportLocation::Path, parameters: &[WireParameter { name: "board", cardinality: Some(WireParameterCardinality::RequiredOne) }] },
        ),
        OperationContract::unadopted(
            "api.record-signal.request",
            "POST /api/v1/boards/:board/signals request",
            ContractSurface::Api,
            "POST /api/v1/boards/:board/signals",
            ContractDirection::Deserialize,
            ContractStrictness::DenyUnknownFields,
            Some("urn:kanban-tool:schema:api:record-signal-request:v1"),
            Some("schemas/fixtures/api/record-signal-request.v1.valid.json"),
            MigrationState::Generated,
            ContractTransport::Http { operation_key: Some("POST /api/v1/boards/:board/signals"), location: HttpTransportLocation::Body, parameters: &[] },
        ),
        OperationContract::unadopted(
            "api.record-signal.response",
            "POST /api/v1/boards/:board/signals success",
            ContractSurface::Api,
            "POST /api/v1/boards/:board/signals",
            ContractDirection::Serialize,
            ContractStrictness::DenyUnknownFields,
            Some("urn:kanban-tool:schema:api:record-signal-response:v1"),
            Some("schemas/fixtures/api/record-signal-response.v1.valid.json"),
            MigrationState::Generated,
            ContractTransport::Http { operation_key: Some("POST /api/v1/boards/:board/signals"), location: HttpTransportLocation::Success, parameters: &[] },
        ),
        OperationContract::unadopted(
            "api.confirm-signals.path",
            "POST /api/v1/boards/:board/signals/confirm path",
            ContractSurface::Api,
            "POST /api/v1/boards/:board/signals/confirm",
            ContractDirection::Deserialize,
            ContractStrictness::DenyUnknownFields,
            Some("urn:kanban-tool:schema:api:confirm-signals-path:v1"),
            Some("schemas/fixtures/api/confirm-signals-path.v1.valid.json"),
            MigrationState::Generated,
            ContractTransport::Http { operation_key: Some("POST /api/v1/boards/:board/signals/confirm"), location: HttpTransportLocation::Path, parameters: &[WireParameter { name: "board", cardinality: Some(WireParameterCardinality::RequiredOne) }] },
        ),
        OperationContract::unadopted(
            "api.confirm-signals.request",
            "POST /api/v1/boards/:board/signals/confirm request",
            ContractSurface::Api,
            "POST /api/v1/boards/:board/signals/confirm",
            ContractDirection::Deserialize,
            ContractStrictness::DenyUnknownFields,
            Some("urn:kanban-tool:schema:api:review-signals-request:v1"),
            Some("schemas/fixtures/api/review-signals-request.v1.valid.json"),
            MigrationState::Generated,
            ContractTransport::Http { operation_key: Some("POST /api/v1/boards/:board/signals/confirm"), location: HttpTransportLocation::Body, parameters: &[] },
        ),
        OperationContract::unadopted(
            "api.confirm-signals.response",
            "POST /api/v1/boards/:board/signals/confirm success",
            ContractSurface::Api,
            "POST /api/v1/boards/:board/signals/confirm",
            ContractDirection::Serialize,
            ContractStrictness::DenyUnknownFields,
            Some("urn:kanban-tool:schema:api:confirm-signals-response:v1"),
            Some("schemas/fixtures/api/confirm-signals-response.v1.valid.json"),
            MigrationState::Generated,
            ContractTransport::Http { operation_key: Some("POST /api/v1/boards/:board/signals/confirm"), location: HttpTransportLocation::Success, parameters: &[] },
        ),
        OperationContract::unadopted(
            "api.reject-signals.path",
            "POST /api/v1/boards/:board/signals/reject path",
            ContractSurface::Api,
            "POST /api/v1/boards/:board/signals/reject",
            ContractDirection::Deserialize,
            ContractStrictness::DenyUnknownFields,
            Some("urn:kanban-tool:schema:api:reject-signals-path:v1"),
            Some("schemas/fixtures/api/reject-signals-path.v1.valid.json"),
            MigrationState::Generated,
            ContractTransport::Http { operation_key: Some("POST /api/v1/boards/:board/signals/reject"), location: HttpTransportLocation::Path, parameters: &[WireParameter { name: "board", cardinality: Some(WireParameterCardinality::RequiredOne) }] },
        ),
        OperationContract::unadopted(
            "api.reject-signals.request",
            "POST /api/v1/boards/:board/signals/reject request",
            ContractSurface::Api,
            "POST /api/v1/boards/:board/signals/reject",
            ContractDirection::Deserialize,
            ContractStrictness::DenyUnknownFields,
            Some("urn:kanban-tool:schema:api:reject-signals-request:v1"),
            Some("schemas/fixtures/api/reject-signals-request.v1.valid.json"),
            MigrationState::Generated,
            ContractTransport::Http { operation_key: Some("POST /api/v1/boards/:board/signals/reject"), location: HttpTransportLocation::Body, parameters: &[] },
        ),
        OperationContract::unadopted(
            "api.reject-signals.response",
            "POST /api/v1/boards/:board/signals/reject success",
            ContractSurface::Api,
            "POST /api/v1/boards/:board/signals/reject",
            ContractDirection::Serialize,
            ContractStrictness::DenyUnknownFields,
            Some("urn:kanban-tool:schema:api:reject-signals-response:v1"),
            Some("schemas/fixtures/api/reject-signals-response.v1.valid.json"),
            MigrationState::Generated,
            ContractTransport::Http { operation_key: Some("POST /api/v1/boards/:board/signals/reject"), location: HttpTransportLocation::Success, parameters: &[] },
        ),
        OperationContract::unadopted(
            "api.resolve-signals.path",
            "POST /api/v1/boards/:board/signals/resolve path",
            ContractSurface::Api,
            "POST /api/v1/boards/:board/signals/resolve",
            ContractDirection::Deserialize,
            ContractStrictness::DenyUnknownFields,
            Some("urn:kanban-tool:schema:api:resolve-signals-path:v1"),
            Some("schemas/fixtures/api/resolve-signals-path.v1.valid.json"),
            MigrationState::Generated,
            ContractTransport::Http { operation_key: Some("POST /api/v1/boards/:board/signals/resolve"), location: HttpTransportLocation::Path, parameters: &[WireParameter { name: "board", cardinality: Some(WireParameterCardinality::RequiredOne) }] },
        ),
        OperationContract::unadopted(
            "api.resolve-signals.request",
            "POST /api/v1/boards/:board/signals/resolve request",
            ContractSurface::Api,
            "POST /api/v1/boards/:board/signals/resolve",
            ContractDirection::Deserialize,
            ContractStrictness::DenyUnknownFields,
            Some("urn:kanban-tool:schema:api:resolve-signals-request:v1"),
            Some("schemas/fixtures/api/resolve-signals-request.v1.valid.json"),
            MigrationState::Generated,
            ContractTransport::Http { operation_key: Some("POST /api/v1/boards/:board/signals/resolve"), location: HttpTransportLocation::Body, parameters: &[] },
        ),
        OperationContract::unadopted(
            "api.resolve-signals.response",
            "POST /api/v1/boards/:board/signals/resolve success",
            ContractSurface::Api,
            "POST /api/v1/boards/:board/signals/resolve",
            ContractDirection::Serialize,
            ContractStrictness::DenyUnknownFields,
            Some("urn:kanban-tool:schema:api:resolve-signals-response:v1"),
            Some("schemas/fixtures/api/resolve-signals-response.v1.valid.json"),
            MigrationState::Generated,
            ContractTransport::Http { operation_key: Some("POST /api/v1/boards/:board/signals/resolve"), location: HttpTransportLocation::Success, parameters: &[] },
        ),
        OperationContract::unadopted(
            "api.supersede-signals.path",
            "POST /api/v1/boards/:board/signals/supersede path",
            ContractSurface::Api,
            "POST /api/v1/boards/:board/signals/supersede",
            ContractDirection::Deserialize,
            ContractStrictness::DenyUnknownFields,
            Some("urn:kanban-tool:schema:api:supersede-signals-path:v1"),
            Some("schemas/fixtures/api/supersede-signals-path.v1.valid.json"),
            MigrationState::Generated,
            ContractTransport::Http { operation_key: Some("POST /api/v1/boards/:board/signals/supersede"), location: HttpTransportLocation::Path, parameters: &[WireParameter { name: "board", cardinality: Some(WireParameterCardinality::RequiredOne) }] },
        ),
        OperationContract::unadopted(
            "api.supersede-signals.request",
            "POST /api/v1/boards/:board/signals/supersede request",
            ContractSurface::Api,
            "POST /api/v1/boards/:board/signals/supersede",
            ContractDirection::Deserialize,
            ContractStrictness::DenyUnknownFields,
            Some("urn:kanban-tool:schema:api:supersede-signals-request:v1"),
            Some("schemas/fixtures/api/supersede-signals-request.v1.valid.json"),
            MigrationState::Generated,
            ContractTransport::Http { operation_key: Some("POST /api/v1/boards/:board/signals/supersede"), location: HttpTransportLocation::Body, parameters: &[] },
        ),
        OperationContract::unadopted(
            "api.supersede-signals.response",
            "POST /api/v1/boards/:board/signals/supersede success",
            ContractSurface::Api,
            "POST /api/v1/boards/:board/signals/supersede",
            ContractDirection::Serialize,
            ContractStrictness::DenyUnknownFields,
            Some("urn:kanban-tool:schema:api:supersede-signals-response:v1"),
            Some("schemas/fixtures/api/supersede-signals-response.v1.valid.json"),
            MigrationState::Generated,
            ContractTransport::Http { operation_key: Some("POST /api/v1/boards/:board/signals/supersede"), location: HttpTransportLocation::Success, parameters: &[] },
        ),
        OperationContract::unadopted(
            "api.suggest-task-labels.path",
            "GET /api/v1/tasks/:task_id/labels/suggestions path",
            ContractSurface::Api,
            "GET /api/v1/tasks/:task_id/labels/suggestions",
            ContractDirection::Deserialize,
            ContractStrictness::DenyUnknownFields,
            Some("urn:kanban-tool:schema:api:suggest-task-labels-path:v1"),
            Some("schemas/fixtures/api/suggest-task-labels-path.v1.valid.json"),
            MigrationState::Generated,
            ContractTransport::Http { operation_key: Some("GET /api/v1/tasks/:task_id/labels/suggestions"), location: HttpTransportLocation::Path, parameters: &[WireParameter { name: "task_id", cardinality: Some(WireParameterCardinality::RequiredOne) }] },
        ),
        OperationContract::unadopted(
            "api.label-suggestion.query",
            "GET /api/v1/tasks/:task_id/labels/suggestions query",
            ContractSurface::Api,
            "GET /api/v1/tasks/:task_id/labels/suggestions",
            ContractDirection::Deserialize,
            ContractStrictness::DenyUnknownFields,
            Some("urn:kanban-tool:schema:api:label-suggestion-query:v1"),
            Some("schemas/fixtures/api/label-suggestion-query.v1.valid.json"),
            MigrationState::Generated,
            ContractTransport::Http { operation_key: Some("GET /api/v1/tasks/:task_id/labels/suggestions"), location: HttpTransportLocation::Query, parameters: &[] },
        ),
        OperationContract::unadopted(
            "api.suggest-task-labels.response",
            "GET /api/v1/tasks/:task_id/labels/suggestions success",
            ContractSurface::Api,
            "GET /api/v1/tasks/:task_id/labels/suggestions",
            ContractDirection::Serialize,
            ContractStrictness::DenyUnknownFields,
            Some("urn:kanban-tool:schema:api:suggest-task-labels-response:v1"),
            Some("schemas/fixtures/api/suggest-task-labels-response.v1.valid.json"),
            MigrationState::Generated,
            ContractTransport::Http { operation_key: Some("GET /api/v1/tasks/:task_id/labels/suggestions"), location: HttpTransportLocation::Success, parameters: &[] },
        ),
        OperationContract::unadopted(
            "api.list-task-label-proposals.path",
            "GET /api/v1/tasks/:task_id/label-proposals path",
            ContractSurface::Api,
            "GET /api/v1/tasks/:task_id/label-proposals",
            ContractDirection::Deserialize,
            ContractStrictness::DenyUnknownFields,
            Some("urn:kanban-tool:schema:api:list-task-label-proposals-path:v1"),
            Some("schemas/fixtures/api/list-task-label-proposals-path.v1.valid.json"),
            MigrationState::Generated,
            ContractTransport::Http { operation_key: Some("GET /api/v1/tasks/:task_id/label-proposals"), location: HttpTransportLocation::Path, parameters: &[WireParameter { name: "task_id", cardinality: Some(WireParameterCardinality::RequiredOne) }] },
        ),
        OperationContract::unadopted(
            "api.list-task-label-proposals.response",
            "GET /api/v1/tasks/:task_id/label-proposals success",
            ContractSurface::Api,
            "GET /api/v1/tasks/:task_id/label-proposals",
            ContractDirection::Serialize,
            ContractStrictness::DenyUnknownFields,
            Some("urn:kanban-tool:schema:api:list-task-label-proposals-response:v1"),
            Some("schemas/fixtures/api/list-task-label-proposals-response.v1.valid.json"),
            MigrationState::Generated,
            ContractTransport::Http { operation_key: Some("GET /api/v1/tasks/:task_id/label-proposals"), location: HttpTransportLocation::Success, parameters: &[] },
        ),
        OperationContract::unadopted(
            "api.propose-task-label.path",
            "POST /api/v1/tasks/:task_id/label-proposals path",
            ContractSurface::Api,
            "POST /api/v1/tasks/:task_id/label-proposals",
            ContractDirection::Deserialize,
            ContractStrictness::DenyUnknownFields,
            Some("urn:kanban-tool:schema:api:propose-task-label-path:v1"),
            Some("schemas/fixtures/api/propose-task-label-path.v1.valid.json"),
            MigrationState::Generated,
            ContractTransport::Http { operation_key: Some("POST /api/v1/tasks/:task_id/label-proposals"), location: HttpTransportLocation::Path, parameters: &[WireParameter { name: "task_id", cardinality: Some(WireParameterCardinality::RequiredOne) }] },
        ),
        OperationContract::unadopted(
            "api.propose-task-label.query",
            "POST /api/v1/tasks/:task_id/label-proposals query",
            ContractSurface::Api,
            "POST /api/v1/tasks/:task_id/label-proposals",
            ContractDirection::Deserialize,
            ContractStrictness::DenyUnknownFields,
            Some("urn:kanban-tool:schema:api:propose-task-label-query:v1"),
            Some("schemas/fixtures/api/propose-task-label-query.v1.valid.json"),
            MigrationState::Generated,
            ContractTransport::Http { operation_key: Some("POST /api/v1/tasks/:task_id/label-proposals"), location: HttpTransportLocation::Query, parameters: &[] },
        ),
        OperationContract::unadopted(
            "api.propose-task-label.request",
            "POST /api/v1/tasks/:task_id/label-proposals body",
            ContractSurface::Api,
            "POST /api/v1/tasks/:task_id/label-proposals",
            ContractDirection::Deserialize,
            ContractStrictness::DenyUnknownFields,
            Some("urn:kanban-tool:schema:api:propose-task-label-request:v1"),
            Some("schemas/fixtures/api/propose-task-label-request.v1.valid.json"),
            MigrationState::Generated,
            ContractTransport::Http { operation_key: Some("POST /api/v1/tasks/:task_id/label-proposals"), location: HttpTransportLocation::Body, parameters: &[] },
        ),
        OperationContract::unadopted(
            "api.propose-task-label.response",
            "POST /api/v1/tasks/:task_id/label-proposals success",
            ContractSurface::Api,
            "POST /api/v1/tasks/:task_id/label-proposals",
            ContractDirection::Serialize,
            ContractStrictness::DenyUnknownFields,
            Some("urn:kanban-tool:schema:api:propose-task-label-response:v1"),
            Some("schemas/fixtures/api/propose-task-label-response.v1.valid.json"),
            MigrationState::Generated,
            ContractTransport::Http { operation_key: Some("POST /api/v1/tasks/:task_id/label-proposals"), location: HttpTransportLocation::Success, parameters: &[] },
        ),
        OperationContract::unadopted(
            "api.record-label-ontology-observation.path",
            "POST /api/v1/tasks/:task_id/label-ontology/observations path",
            ContractSurface::Api,
            "POST /api/v1/tasks/:task_id/label-ontology/observations",
            ContractDirection::Deserialize,
            ContractStrictness::DenyUnknownFields,
            Some("urn:kanban-tool:schema:api:record-label-ontology-observation-path:v1"),
            Some("schemas/fixtures/api/record-label-ontology-observation-path.v1.valid.json"),
            MigrationState::Generated,
            ContractTransport::Http { operation_key: Some("POST /api/v1/tasks/:task_id/label-ontology/observations"), location: HttpTransportLocation::Path, parameters: &[WireParameter { name: "task_id", cardinality: Some(WireParameterCardinality::RequiredOne) }] },
        ),
        OperationContract::unadopted(
            "api.record-label-ontology-observation.body",
            "POST /api/v1/tasks/:task_id/label-ontology/observations body",
            ContractSurface::Api,
            "POST /api/v1/tasks/:task_id/label-ontology/observations",
            ContractDirection::Deserialize,
            ContractStrictness::DenyUnknownFields,
            Some("urn:kanban-tool:schema:api:record-label-ontology-observation-body:v1"),
            Some("schemas/fixtures/api/record-label-ontology-observation-body.v1.valid.json"),
            MigrationState::Generated,
            ContractTransport::Http { operation_key: Some("POST /api/v1/tasks/:task_id/label-ontology/observations"), location: HttpTransportLocation::Body, parameters: &[] },
        ),
        OperationContract::unadopted(
            "api.record-label-ontology-observation.response",
            "POST /api/v1/tasks/:task_id/label-ontology/observations success",
            ContractSurface::Api,
            "POST /api/v1/tasks/:task_id/label-ontology/observations",
            ContractDirection::Serialize,
            ContractStrictness::DenyUnknownFields,
            Some("urn:kanban-tool:schema:api:record-label-ontology-observation-response:v1"),
            Some("schemas/fixtures/api/record-label-ontology-observation-response.v1.valid.json"),
            MigrationState::Generated,
            ContractTransport::Http { operation_key: Some("POST /api/v1/tasks/:task_id/label-ontology/observations"), location: HttpTransportLocation::Success, parameters: &[] },
        ),
        OperationContract::unadopted(
            "api.list-label-ontology-signals.path",
            "GET /api/v1/boards/:board/label-ontology/signals path",
            ContractSurface::Api,
            "GET /api/v1/boards/:board/label-ontology/signals",
            ContractDirection::Deserialize,
            ContractStrictness::DenyUnknownFields,
            Some("urn:kanban-tool:schema:api:list-label-ontology-signals-path:v1"),
            Some("schemas/fixtures/api/list-label-ontology-signals-path.v1.valid.json"),
            MigrationState::Generated,
            ContractTransport::Http { operation_key: Some("GET /api/v1/boards/:board/label-ontology/signals"), location: HttpTransportLocation::Path, parameters: &[WireParameter { name: "board", cardinality: Some(WireParameterCardinality::RequiredOne) }] },
        ),
        OperationContract::unadopted(
            "api.label-ontology-signal.query",
            "GET /api/v1/boards/:board/label-ontology/signals query",
            ContractSurface::Api,
            "GET /api/v1/boards/:board/label-ontology/signals",
            ContractDirection::Deserialize,
            ContractStrictness::DenyUnknownFields,
            Some("urn:kanban-tool:schema:api:label-ontology-signal-query:v1"),
            Some("schemas/fixtures/api/label-ontology-signal-query.v1.valid.json"),
            MigrationState::Generated,
            ContractTransport::Http { operation_key: Some("GET /api/v1/boards/:board/label-ontology/signals"), location: HttpTransportLocation::Query, parameters: &[] },
        ),
        OperationContract::unadopted(
            "api.review-label-ontology.path",
            "GET /api/v1/boards/:board/label-ontology/review path",
            ContractSurface::Api,
            "GET /api/v1/boards/:board/label-ontology/review",
            ContractDirection::Deserialize,
            ContractStrictness::DenyUnknownFields,
            Some("urn:kanban-tool:schema:api:review-label-ontology-path:v1"),
            Some("schemas/fixtures/api/review-label-ontology-path.v1.valid.json"),
            MigrationState::Generated,
            ContractTransport::Http { operation_key: Some("GET /api/v1/boards/:board/label-ontology/review"), location: HttpTransportLocation::Path, parameters: &[WireParameter { name: "board", cardinality: Some(WireParameterCardinality::RequiredOne) }] },
        ),
        OperationContract::unadopted(
            "api.label-ontology-review.query",
            "GET /api/v1/boards/:board/label-ontology/review query",
            ContractSurface::Api,
            "GET /api/v1/boards/:board/label-ontology/review",
            ContractDirection::Deserialize,
            ContractStrictness::DenyUnknownFields,
            Some("urn:kanban-tool:schema:api:label-ontology-review-query:v1"),
            Some("schemas/fixtures/api/label-ontology-review-query.v1.valid.json"),
            MigrationState::Generated,
            ContractTransport::Http { operation_key: Some("GET /api/v1/boards/:board/label-ontology/review"), location: HttpTransportLocation::Query, parameters: &[] },
        ),
        OperationContract::unadopted(
            "api.review-label-ontology.response",
            "GET /api/v1/boards/:board/label-ontology/review success",
            ContractSurface::Api,
            "GET /api/v1/boards/:board/label-ontology/review",
            ContractDirection::Serialize,
            ContractStrictness::DenyUnknownFields,
            Some("urn:kanban-tool:schema:api:review-label-ontology-response:v1"),
            Some("schemas/fixtures/api/review-label-ontology-response.v1.valid.json"),
            MigrationState::Generated,
            ContractTransport::Http { operation_key: Some("GET /api/v1/boards/:board/label-ontology/review"), location: HttpTransportLocation::Success, parameters: &[] },
        ),
        OperationContract::unadopted(
            "api.create-label-ontology-action.path",
            "POST /api/v1/boards/:board/label-ontology/actions path",
            ContractSurface::Api,
            "POST /api/v1/boards/:board/label-ontology/actions",
            ContractDirection::Deserialize,
            ContractStrictness::DenyUnknownFields,
            Some("urn:kanban-tool:schema:api:create-label-ontology-action-path:v1"),
            Some("schemas/fixtures/api/create-label-ontology-action-path.v1.valid.json"),
            MigrationState::Generated,
            ContractTransport::Http { operation_key: Some("POST /api/v1/boards/:board/label-ontology/actions"), location: HttpTransportLocation::Path, parameters: &[WireParameter { name: "board", cardinality: Some(WireParameterCardinality::RequiredOne) }] },
        ),
        OperationContract::unadopted(
            "api.create-label-ontology-action.request",
            "POST /api/v1/boards/:board/label-ontology/actions body",
            ContractSurface::Api,
            "POST /api/v1/boards/:board/label-ontology/actions",
            ContractDirection::Deserialize,
            ContractStrictness::DenyUnknownFields,
            Some("urn:kanban-tool:schema:api:create-label-ontology-action-request:v1"),
            Some("schemas/fixtures/api/create-label-ontology-action-request.v1.valid.json"),
            MigrationState::Generated,
            ContractTransport::Http { operation_key: Some("POST /api/v1/boards/:board/label-ontology/actions"), location: HttpTransportLocation::Body, parameters: &[] },
        ),
        OperationContract::unadopted(
            "api.create-label-ontology-action.response",
            "POST /api/v1/boards/:board/label-ontology/actions success",
            ContractSurface::Api,
            "POST /api/v1/boards/:board/label-ontology/actions",
            ContractDirection::Serialize,
            ContractStrictness::DenyUnknownFields,
            Some("urn:kanban-tool:schema:api:create-label-ontology-action-response:v1"),
            Some("schemas/fixtures/api/create-label-ontology-action-response.v1.valid.json"),
            MigrationState::Generated,
            ContractTransport::Http { operation_key: Some("POST /api/v1/boards/:board/label-ontology/actions"), location: HttpTransportLocation::Success, parameters: &[] },
        ),
        OperationContract::unadopted(
            "api.apply-label-ontology-atom.path",
            "POST /api/v1/boards/:board/label-ontology/apply/atom path",
            ContractSurface::Api,
            "POST /api/v1/boards/:board/label-ontology/apply/atom",
            ContractDirection::Deserialize,
            ContractStrictness::DenyUnknownFields,
            Some("urn:kanban-tool:schema:api:apply-label-ontology-atom-path:v1"),
            Some("schemas/fixtures/api/apply-label-ontology-atom-path.v1.valid.json"),
            MigrationState::Generated,
            ContractTransport::Http { operation_key: Some("POST /api/v1/boards/:board/label-ontology/apply/atom"), location: HttpTransportLocation::Path, parameters: &[WireParameter { name: "board", cardinality: Some(WireParameterCardinality::RequiredOne) }] },
        ),
        OperationContract::unadopted(
            "api.apply-label-ontology-atom.request",
            "POST /api/v1/boards/:board/label-ontology/apply/atom body",
            ContractSurface::Api,
            "POST /api/v1/boards/:board/label-ontology/apply/atom",
            ContractDirection::Deserialize,
            ContractStrictness::DenyUnknownFields,
            Some("urn:kanban-tool:schema:api:apply-label-ontology-atom-request:v1"),
            Some("schemas/fixtures/api/apply-label-ontology-atom-request.v1.valid.json"),
            MigrationState::Generated,
            ContractTransport::Http { operation_key: Some("POST /api/v1/boards/:board/label-ontology/apply/atom"), location: HttpTransportLocation::Body, parameters: &[] },
        ),
        OperationContract::unadopted(
            "api.apply-label-ontology-atom.response",
            "POST /api/v1/boards/:board/label-ontology/apply/atom success",
            ContractSurface::Api,
            "POST /api/v1/boards/:board/label-ontology/apply/atom",
            ContractDirection::Serialize,
            ContractStrictness::DenyUnknownFields,
            Some("urn:kanban-tool:schema:api:apply-label-ontology-atom-response:v1"),
            Some("schemas/fixtures/api/apply-label-ontology-atom-response.v1.valid.json"),
            MigrationState::Generated,
            ContractTransport::Http { operation_key: Some("POST /api/v1/boards/:board/label-ontology/apply/atom"), location: HttpTransportLocation::Success, parameters: &[] },
        ),
        OperationContract::unadopted(
            "api.revert-label-ontology-mutation.path",
            "POST /api/v1/boards/:board/label-ontology/revert path",
            ContractSurface::Api,
            "POST /api/v1/boards/:board/label-ontology/revert",
            ContractDirection::Deserialize,
            ContractStrictness::DenyUnknownFields,
            Some("urn:kanban-tool:schema:api:revert-label-ontology-mutation-path:v1"),
            Some("schemas/fixtures/api/revert-label-ontology-mutation-path.v1.valid.json"),
            MigrationState::Generated,
            ContractTransport::Http { operation_key: Some("POST /api/v1/boards/:board/label-ontology/revert"), location: HttpTransportLocation::Path, parameters: &[WireParameter { name: "board", cardinality: Some(WireParameterCardinality::RequiredOne) }] },
        ),
        OperationContract::unadopted(
            "api.revert-label-ontology-mutation.request",
            "POST /api/v1/boards/:board/label-ontology/revert body",
            ContractSurface::Api,
            "POST /api/v1/boards/:board/label-ontology/revert",
            ContractDirection::Deserialize,
            ContractStrictness::DenyUnknownFields,
            Some("urn:kanban-tool:schema:api:revert-label-ontology-mutation-request:v1"),
            Some("schemas/fixtures/api/revert-label-ontology-mutation-request.v1.valid.json"),
            MigrationState::Generated,
            ContractTransport::Http { operation_key: Some("POST /api/v1/boards/:board/label-ontology/revert"), location: HttpTransportLocation::Body, parameters: &[] },
        ),
    ];
    assert(r@ =~= legacy_rows_7());
    r
}

/// Historical inventory rows 320 to 355.
#[verifier::opaque]
pub open spec fn legacy_rows_8() -> Seq<OperationContract> {
    seq![
        OperationContract::unadopted(
            "api.revert-label-ontology-mutation.response",
            "POST /api/v1/boards/:board/label-ontology/revert success",
            ContractSurface::Api,
            "POST /api/v1/boards/:board/label-ontology/revert",
            ContractDirection::Serialize,
            ContractStrictness::DenyUnknownFields,
            Some("urn:kanban-tool:schema:api:revert-label-ontology-mutation-response:v1"),
            Some("schemas/fixtures/api/revert-label-ontology-mutation-response.v1.valid.json"),
            MigrationState::Generated,
            ContractTransport::Http { operation_key: Some("POST /api/v1/boards/:board/label-ontology/revert"), location: HttpTransportLocation::Success, parameters: &[] },
        ),
        OperationContract::unadopted(
            "api.validate-label-ontology-action.path",
            "POST /api/v1/boards/:board/label-ontology/validate path",
            ContractSurface::Api,
            "POST /api/v1/boards/:board/label-ontology/validate",
            ContractDirection::Deserialize,
            ContractStrictness::DenyUnknownFields,
            Some("urn:kanban-tool:schema:api:validate-label-ontology-action-path:v1"),
            Some("schemas/fixtures/api/validate-label-ontology-action-path.v1.valid.json"),
            MigrationState::Generated,
            ContractTransport::Http { operation_key: Some("POST /api/v1/boards/:board/label-ontology/validate"), location: HttpTransportLocation::Path, parameters: &[WireParameter { name: "board", cardinality: Some(WireParameterCardinality::RequiredOne) }] },
        ),
        OperationContract::unadopted(
            "api.validate-label-ontology-action.request",
            "POST /api/v1/boards/:board/label-ontology/validate body",
            ContractSurface::Api,
            "POST /api/v1/boards/:board/label-ontology/validate",
            ContractDirection::Deserialize,
            ContractStrictness::DenyUnknownFields,
            Some("urn:kanban-tool:schema:api:validate-label-ontology-action-request:v1"),
            Some("schemas/fixtures/api/validate-label-ontology-action-request.v1.valid.json"),
            MigrationState::Generated,
            ContractTransport::Http { operation_key: Some("POST /api/v1/boards/:board/label-ontology/validate"), location: HttpTransportLocation::Body, parameters: &[] },
        ),
        OperationContract::unadopted(
            "api.validate-label-ontology-action.response",
            "POST /api/v1/boards/:board/label-ontology/validate success",
            ContractSurface::Api,
            "POST /api/v1/boards/:board/label-ontology/validate",
            ContractDirection::Serialize,
            ContractStrictness::DenyUnknownFields,
            Some("urn:kanban-tool:schema:api:validate-label-ontology-action-response:v1"),
            Some("schemas/fixtures/api/validate-label-ontology-action-response.v1.valid.json"),
            MigrationState::Generated,
            ContractTransport::Http { operation_key: Some("POST /api/v1/boards/:board/label-ontology/validate"), location: HttpTransportLocation::Success, parameters: &[] },
        ),
        OperationContract::unadopted(
            "api.get-label-ontology-signal.path",
            "GET /api/v1/label-ontology/signals/:signal_id path",
            ContractSurface::Api,
            "GET /api/v1/label-ontology/signals/:signal_id",
            ContractDirection::Deserialize,
            ContractStrictness::DenyUnknownFields,
            Some("urn:kanban-tool:schema:api:get-label-ontology-signal-path:v1"),
            Some("schemas/fixtures/api/get-label-ontology-signal-path.v1.valid.json"),
            MigrationState::Generated,
            ContractTransport::Http { operation_key: Some("GET /api/v1/label-ontology/signals/:signal_id"), location: HttpTransportLocation::Path, parameters: &[WireParameter { name: "signal_id", cardinality: Some(WireParameterCardinality::RequiredOne) }] },
        ),
        OperationContract::unadopted(
            "api.get-label-ontology-signal.response",
            "GET /api/v1/label-ontology/signals/:signal_id success",
            ContractSurface::Api,
            "GET /api/v1/label-ontology/signals/:signal_id",
            ContractDirection::Serialize,
            ContractStrictness::DenyUnknownFields,
            Some("urn:kanban-tool:schema:api:get-label-ontology-signal-response:v1"),
            Some("schemas/fixtures/api/get-label-ontology-signal-response.v1.valid.json"),
            MigrationState::Generated,
            ContractTransport::Http { operation_key: Some("GET /api/v1/label-ontology/signals/:signal_id"), location: HttpTransportLocation::Success, parameters: &[] },
        ),
        OperationContract::unadopted(
            "api.get-label-proposal.path",
            "GET /api/v1/label-proposals/:proposal_id path",
            ContractSurface::Api,
            "GET /api/v1/label-proposals/:proposal_id",
            ContractDirection::Deserialize,
            ContractStrictness::DenyUnknownFields,
            Some("urn:kanban-tool:schema:api:get-label-proposal-path:v1"),
            Some("schemas/fixtures/api/get-label-proposal-path.v1.valid.json"),
            MigrationState::Generated,
            ContractTransport::Http { operation_key: Some("GET /api/v1/label-proposals/:proposal_id"), location: HttpTransportLocation::Path, parameters: &[WireParameter { name: "proposal_id", cardinality: Some(WireParameterCardinality::RequiredOne) }] },
        ),
        OperationContract::unadopted(
            "api.get-label-proposal.response",
            "GET /api/v1/label-proposals/:proposal_id success",
            ContractSurface::Api,
            "GET /api/v1/label-proposals/:proposal_id",
            ContractDirection::Serialize,
            ContractStrictness::DenyUnknownFields,
            Some("urn:kanban-tool:schema:api:get-label-proposal-response:v1"),
            Some("schemas/fixtures/api/get-label-proposal-response.v1.valid.json"),
            MigrationState::Generated,
            ContractTransport::Http { operation_key: Some("GET /api/v1/label-proposals/:proposal_id"), location: HttpTransportLocation::Success, parameters: &[] },
        ),
        OperationContract::unadopted(
            "api.accept-label-proposal.path",
            "POST /api/v1/label-proposals/:proposal_id/accept path",
            ContractSurface::Api,
            "POST /api/v1/label-proposals/:proposal_id/accept",
            ContractDirection::Deserialize,
            ContractStrictness::DenyUnknownFields,
            Some("urn:kanban-tool:schema:api:accept-label-proposal-path:v1"),
            Some("schemas/fixtures/api/accept-label-proposal-path.v1.valid.json"),
            MigrationState::Generated,
            ContractTransport::Http { operation_key: Some("POST /api/v1/label-proposals/:proposal_id/accept"), location: HttpTransportLocation::Path, parameters: &[WireParameter { name: "proposal_id", cardinality: Some(WireParameterCardinality::RequiredOne) }] },
        ),
        OperationContract::unadopted(
            "api.accept-label-proposal.body",
            "POST /api/v1/label-proposals/:proposal_id/accept body",
            ContractSurface::Api,
            "POST /api/v1/label-proposals/:proposal_id/accept",
            ContractDirection::Deserialize,
            ContractStrictness::DenyUnknownFields,
            Some("urn:kanban-tool:schema:api:accept-label-proposal-body:v1"),
            Some("schemas/fixtures/api/accept-label-proposal-body.v1.valid.json"),
            MigrationState::Generated,
            ContractTransport::Http { operation_key: Some("POST /api/v1/label-proposals/:proposal_id/accept"), location: HttpTransportLocation::Body, parameters: &[] },
        ),
        OperationContract::unadopted(
            "api.accept-label-proposal.response",
            "POST /api/v1/label-proposals/:proposal_id/accept success",
            ContractSurface::Api,
            "POST /api/v1/label-proposals/:proposal_id/accept",
            ContractDirection::Serialize,
            ContractStrictness::DenyUnknownFields,
            Some("urn:kanban-tool:schema:api:accept-label-proposal-response:v1"),
            Some("schemas/fixtures/api/accept-label-proposal-response.v1.valid.json"),
            MigrationState::Generated,
            ContractTransport::Http { operation_key: Some("POST /api/v1/label-proposals/:proposal_id/accept"), location: HttpTransportLocation::Success, parameters: &[] },
        ),
        OperationContract::unadopted(
            "api.reject-label-proposal.path",
            "POST /api/v1/label-proposals/:proposal_id/reject path",
            ContractSurface::Api,
            "POST /api/v1/label-proposals/:proposal_id/reject",
            ContractDirection::Deserialize,
            ContractStrictness::DenyUnknownFields,
            Some("urn:kanban-tool:schema:api:reject-label-proposal-path:v1"),
            Some("schemas/fixtures/api/reject-label-proposal-path.v1.valid.json"),
            MigrationState::Generated,
            ContractTransport::Http { operation_key: Some("POST /api/v1/label-proposals/:proposal_id/reject"), location: HttpTransportLocation::Path, parameters: &[WireParameter { name: "proposal_id", cardinality: Some(WireParameterCardinality::RequiredOne) }] },
        ),
        OperationContract::unadopted(
            "api.reject-label-proposal.body",
            "POST /api/v1/label-proposals/:proposal_id/reject body",
            ContractSurface::Api,
            "POST /api/v1/label-proposals/:proposal_id/reject",
            ContractDirection::Deserialize,
            ContractStrictness::DenyUnknownFields,
            Some("urn:kanban-tool:schema:api:reject-label-proposal-body:v1"),
            Some("schemas/fixtures/api/reject-label-proposal-body.v1.valid.json"),
            MigrationState::Generated,
            ContractTransport::Http { operation_key: Some("POST /api/v1/label-proposals/:proposal_id/reject"), location: HttpTransportLocation::Body, parameters: &[] },
        ),
        OperationContract::unadopted(
            "api.reject-label-proposal.response",
            "POST /api/v1/label-proposals/:proposal_id/reject success",
            ContractSurface::Api,
            "POST /api/v1/label-proposals/:proposal_id/reject",
            ContractDirection::Serialize,
            ContractStrictness::DenyUnknownFields,
            Some("urn:kanban-tool:schema:api:reject-label-proposal-response:v1"),
            Some("schemas/fixtures/api/reject-label-proposal-response.v1.valid.json"),
            MigrationState::Generated,
            ContractTransport::Http { operation_key: Some("POST /api/v1/label-proposals/:proposal_id/reject"), location: HttpTransportLocation::Success, parameters: &[] },
        ),
        OperationContract::adopted(
            "sse.stream-events.query",
            "GET /api/v1/stream/events query",
            ContractSurface::Sse,
            "GET /api/v1/stream/events",
            ContractDirection::Deserialize,
            ContractStrictness::DenyUnknownFields,
            "urn:kanban-tool:schema:sse:stream-events-query:v1",
            "schemas/fixtures/sse/stream-events-query.v1.valid.json",
            server_route_test("suite::sse_adoption::stream_events_query_dto_serializes_to_committed_fixture"),
            server_route_test("suite::sse_adoption::stream_events_query_fixture_is_consumed_by_real_router"),
            ContractTransport::Http { operation_key: Some("GET /api/v1/stream/events"), location: HttpTransportLocation::Query, parameters: &[WireParameter { name: "board", cardinality: Some(WireParameterCardinality::OptionalOne) }, WireParameter { name: "task_id", cardinality: Some(WireParameterCardinality::OptionalOne) }, WireParameter { name: "after", cardinality: Some(WireParameterCardinality::OptionalOne) }, WireParameter { name: "limit", cardinality: Some(WireParameterCardinality::OptionalOne) }] },
        ),
        OperationContract::adopted(
            "sse.event.data",
            "GET /api/v1/stream/events data",
            ContractSurface::Sse,
            "GET /api/v1/stream/events",
            ContractDirection::Serialize,
            ContractStrictness::DenyUnknownFields,
            "urn:kanban-tool:schema:sse:stream-event-data:v1",
            "schemas/fixtures/sse/stream-event-data.v1.valid.json",
            server_route_test("suite::sse_adoption::stream_event_data_fixture_is_produced_by_real_router"),
            server_route_test("suite::sse_adoption::stream_event_data_fixture_is_consumed_by_contract_root"),
            ContractTransport::Http { operation_key: Some("GET /api/v1/stream/events"), location: HttpTransportLocation::Sse, parameters: &[] },
        ),
        OperationContract::adopted(
            "metadata.decision.input",
            "task_comments.metadata_json(kind=decision)",
            ContractSurface::Metadata,
            "structured decision comment metadata input",
            ContractDirection::Deserialize,
            ContractStrictness::Typed,
            "urn:kanban-tool:schema:metadata:decision:v1",
            "schemas/fixtures/metadata/decision.v1.valid.json",
            cli_test("metadata_contract_adoption", "metadata_decision_input_fixture_is_produced_by_cli_contract_dto"),
            cli_test("comments", "metadata_decision_input_fixture_is_consumed_by_real_cli"),
            ContractTransport::NoTransport,
        ),
        OperationContract::adopted(
            "metadata.signal-record.input",
            "kanban signal record input",
            ContractSurface::Metadata,
            "generic signal record input",
            ContractDirection::Deserialize,
            ContractStrictness::Typed,
            "urn:kanban-tool:schema:metadata:signal-record-input:v1",
            "schemas/fixtures/metadata/signal-record-input.v1.valid.json",
            cli_test("metadata_contract_adoption", "metadata_signal_record_input_fixture_is_produced_by_cli_contract_dto"),
            cli_test("signal", "metadata_signal_record_input_fixture_is_consumed_by_real_cli"),
            ContractTransport::NoTransport,
        ),
        OperationContract::adopted(
            "metadata.signal-link.output",
            "task comment signal backlink metadata",
            ContractSurface::Metadata,
            "signal backlink comment metadata output",
            ContractDirection::Serialize,
            ContractStrictness::Typed,
            "urn:kanban-tool:schema:metadata:signal-link-output:v1",
            "schemas/fixtures/metadata/signal-link-output.v1.valid.json",
            cli_test("signal", "metadata_signal_link_output_fixture_is_produced_by_real_service_adapter"),
            cli_test("metadata_contract_adoption", "metadata_signal_link_output_fixture_is_consumed_by_cli_contract_dto"),
            ContractTransport::NoTransport,
        ),
        OperationContract::adopted(
            "metadata.label-proposal-candidate.input",
            "kanban label propose --proposal-json",
            ContractSurface::Metadata,
            "label proposal candidate input",
            ContractDirection::Deserialize,
            ContractStrictness::Typed,
            "urn:kanban-tool:schema:metadata:label-proposal-candidate-input:v1",
            "schemas/fixtures/metadata/label-proposal-candidate-input.v1.valid.json",
            cli_test("metadata_contract_adoption", "metadata_label_proposal_candidate_input_fixture_is_produced_by_cli_contract_dto"),
            cli_test("task", "metadata_label_proposal_candidate_input_fixture_is_consumed_by_real_cli"),
            ContractTransport::NoTransport,
        ),
        OperationContract::adopted(
            "metadata.ontology-record.input",
            "kanban label ontology record input",
            ContractSurface::Metadata,
            "label ontology observation input",
            ContractDirection::Deserialize,
            ContractStrictness::Typed,
            "urn:kanban-tool:schema:metadata:ontology-record-input:v1",
            "schemas/fixtures/metadata/ontology-record-input.v1.valid.json",
            cli_test("metadata_contract_adoption", "metadata_ontology_record_input_fixture_is_produced_by_cli_contract_dto"),
            cli_test("task", "metadata_ontology_record_input_fixture_is_consumed_by_real_cli"),
            ContractTransport::NoTransport,
        ),
        OperationContract::adopted(
            "metadata.ontology-validation-evidence.input",
            "kanban label ontology validate external evidence",
            ContractSurface::Metadata,
            "label ontology external validation evidence",
            ContractDirection::Deserialize,
            ContractStrictness::OpaqueExtension,
            "urn:kanban-tool:schema:metadata:ontology-validation-evidence-input:v1",
            "schemas/fixtures/metadata/ontology-validation-evidence-input.v1.valid.json",
            cli_test("metadata_contract_adoption", "metadata_ontology_validation_evidence_input_fixture_is_produced_by_cli_contract_dto"),
            cli_test("cli_label_contract_adoption", "metadata_ontology_validation_evidence_input_fixture_is_consumed_by_real_cli"),
            ContractTransport::NoTransport,
        ),
        OperationContract::unadopted(
            "config.project.input",
            ".kb/config.toml",
            ContractSurface::Config,
            "project-local config after TOML decoding",
            ContractDirection::Deserialize,
            ContractStrictness::DenyUnknownFields,
            None,
            None,
            MigrationState::Planned,
            ContractTransport::NoTransport,
        ),
        OperationContract::unadopted(
            "config.selected-worker-profile.input",
            "selected [workers.<profile>] section",
            ContractSurface::Config,
            "selected dispatcher worker profile after TOML decoding",
            ContractDirection::Deserialize,
            ContractStrictness::DenyUnknownFields,
            None,
            None,
            MigrationState::Planned,
            ContractTransport::NoTransport,
        ),
        OperationContract::adopted(
            "api.board-task-map.path",
            "GET /api/v1/boards/:board/task-map path",
            ContractSurface::Api,
            "GET /api/v1/boards/:board/task-map",
            ContractDirection::Deserialize,
            ContractStrictness::DenyUnknownFields,
            "urn:kanban-tool:schema:api:board-task-map-path:v1",
            "schemas/fixtures/api/board-task-map-path.v1.valid.json",
            server_route_test("suite::task_graph_adoption::board_task_map_path_dto_serializes_to_committed_fixture"),
            server_route_test("suite::task_graph_adoption::board_task_map_path_fixture_is_consumed_by_real_router"),
            ContractTransport::Http { operation_key: Some("GET /api/v1/boards/:board/task-map"), location: HttpTransportLocation::Path, parameters: &[WireParameter { name: "board", cardinality: Some(WireParameterCardinality::RequiredOne) }] },
        ),
        OperationContract::adopted(
            "api.board-task-map.query",
            "GET /api/v1/boards/:board/task-map query",
            ContractSurface::Api,
            "GET /api/v1/boards/:board/task-map",
            ContractDirection::Deserialize,
            ContractStrictness::DenyUnknownFields,
            "urn:kanban-tool:schema:api:board-task-map-query:v1",
            "schemas/fixtures/api/board-task-map-query.v1.valid.json",
            server_route_test("suite::task_graph_adoption::board_task_map_query_dto_serializes_to_committed_fixture"),
            server_route_test("suite::task_graph_adoption::board_task_map_query_fixture_is_consumed_by_real_router"),
            ContractTransport::Http { operation_key: Some("GET /api/v1/boards/:board/task-map"), location: HttpTransportLocation::Query, parameters: &[WireParameter { name: "active_only", cardinality: Some(WireParameterCardinality::OptionalOne) }, WireParameter { name: "context_depth", cardinality: Some(WireParameterCardinality::OptionalOne) }, WireParameter { name: "limit_nodes", cardinality: Some(WireParameterCardinality::OptionalOne) }, WireParameter { name: "include_done_context", cardinality: Some(WireParameterCardinality::OptionalOne) }, WireParameter { name: "include_archived_context", cardinality: Some(WireParameterCardinality::OptionalOne) }, WireParameter { name: "hide_isolated", cardinality: Some(WireParameterCardinality::OptionalOne) }] },
        ),
        OperationContract::adopted(
            "api.board-task-map.response",
            "GET /api/v1/boards/:board/task-map response",
            ContractSurface::Api,
            "GET /api/v1/boards/:board/task-map",
            ContractDirection::Serialize,
            ContractStrictness::DenyUnknownFields,
            "urn:kanban-tool:schema:api:board-task-map-response:v1",
            "schemas/fixtures/api/board-task-map-response.v1.valid.json",
            server_route_test("suite::task_graph_adoption::board_task_map_response_fixture_is_produced_by_real_router"),
            server_route_test("suite::task_graph_adoption::board_task_map_response_fixture_is_consumed_by_contract_root"),
            ContractTransport::Http { operation_key: Some("GET /api/v1/boards/:board/task-map"), location: HttpTransportLocation::Success, parameters: &[] },
        ),
        OperationContract::adopted(
            "api.get-task.path",
            "GET /api/v1/tasks/:task_id path",
            ContractSurface::Api,
            "GET /api/v1/tasks/:task_id",
            ContractDirection::Deserialize,
            ContractStrictness::DenyUnknownFields,
            "urn:kanban-tool:schema:api:get-task-path:v1",
            "schemas/fixtures/api/get-task-path.v1.valid.json",
            server_route_test("suite::task_core_adoption::get_task_path_dto_serializes_to_committed_fixture"),
            server_route_test("suite::task_core_adoption::get_task_path_fixture_is_consumed_by_real_router"),
            ContractTransport::Http { operation_key: Some("GET /api/v1/tasks/:task_id"), location: HttpTransportLocation::Path, parameters: &[WireParameter { name: "task_id", cardinality: Some(WireParameterCardinality::RequiredOne) }] },
        ),
        OperationContract::adopted(
            "api.get-task.query",
            "GET /api/v1/tasks/:task_id query",
            ContractSurface::Api,
            "GET /api/v1/tasks/:task_id",
            ContractDirection::Deserialize,
            ContractStrictness::DenyUnknownFields,
            "urn:kanban-tool:schema:api:get-task-query:v1",
            "schemas/fixtures/api/get-task-query.v1.valid.json",
            server_route_test("suite::task_core_adoption::get_task_query_dto_serializes_to_committed_fixture"),
            server_route_test("suite::task_core_adoption::get_task_query_fixture_is_consumed_by_real_router"),
            ContractTransport::Http { operation_key: Some("GET /api/v1/tasks/:task_id"), location: HttpTransportLocation::Query, parameters: &[WireParameter { name: "include", cardinality: Some(WireParameterCardinality::OptionalOne) }] },
        ),
        OperationContract::adopted(
            "api.get-task.response",
            "GET /api/v1/tasks/:task_id response",
            ContractSurface::Api,
            "GET /api/v1/tasks/:task_id",
            ContractDirection::Serialize,
            ContractStrictness::DenyUnknownFields,
            "urn:kanban-tool:schema:api:get-task-response:v1",
            "schemas/fixtures/api/get-task-response.v1.valid.json",
            server_route_test("suite::task_core_adoption::get_task_response_fixture_is_produced_by_real_router"),
            server_route_test("suite::task_core_adoption::get_task_response_fixture_is_consumed_by_contract_root"),
            ContractTransport::Http { operation_key: Some("GET /api/v1/tasks/:task_id"), location: HttpTransportLocation::Success, parameters: &[] },
        ),
        OperationContract::adopted(
            "api.update-task.path",
            "PATCH /api/v1/tasks/:task_id path",
            ContractSurface::Api,
            "PATCH /api/v1/tasks/:task_id",
            ContractDirection::Deserialize,
            ContractStrictness::DenyUnknownFields,
            "urn:kanban-tool:schema:api:update-task-path:v1",
            "schemas/fixtures/api/update-task-path.v1.valid.json",
            server_route_test("suite::task_core_adoption::update_task_path_dto_serializes_to_committed_fixture"),
            server_route_test("suite::task_core_adoption::update_task_path_fixture_is_consumed_by_real_router"),
            ContractTransport::Http { operation_key: Some("PATCH /api/v1/tasks/:task_id"), location: HttpTransportLocation::Path, parameters: &[WireParameter { name: "task_id", cardinality: Some(WireParameterCardinality::RequiredOne) }] },
        ),
        OperationContract::adopted(
            "api.update-task.request",
            "PATCH /api/v1/tasks/:task_id body",
            ContractSurface::Api,
            "PATCH /api/v1/tasks/:task_id",
            ContractDirection::Deserialize,
            ContractStrictness::DenyUnknownFields,
            "urn:kanban-tool:schema:api:update-task-request:v1",
            "schemas/fixtures/api/update-task-request.v1.valid.json",
            server_route_test("suite::task_core_adoption::update_task_request_dto_serializes_to_committed_fixture"),
            server_route_test("suite::task_core_adoption::update_task_request_fixture_is_consumed_by_real_router"),
            ContractTransport::Http { operation_key: Some("PATCH /api/v1/tasks/:task_id"), location: HttpTransportLocation::Body, parameters: &[] },
        ),
        OperationContract::adopted(
            "api.update-task.response",
            "PATCH /api/v1/tasks/:task_id response",
            ContractSurface::Api,
            "PATCH /api/v1/tasks/:task_id",
            ContractDirection::Serialize,
            ContractStrictness::DenyUnknownFields,
            "urn:kanban-tool:schema:api:update-task-response:v1",
            "schemas/fixtures/api/update-task-response.v1.valid.json",
            server_route_test("suite::task_core_adoption::update_task_response_fixture_is_produced_by_real_router"),
            server_route_test("suite::task_core_adoption::update_task_response_fixture_is_consumed_by_contract_root"),
            ContractTransport::Http { operation_key: Some("PATCH /api/v1/tasks/:task_id"), location: HttpTransportLocation::Success, parameters: &[] },
        ),
        OperationContract::adopted(
            "api.task-neighborhood.path",
            "GET /api/v1/tasks/:task_id/neighborhood path",
            ContractSurface::Api,
            "GET /api/v1/tasks/:task_id/neighborhood",
            ContractDirection::Deserialize,
            ContractStrictness::DenyUnknownFields,
            "urn:kanban-tool:schema:api:task-neighborhood-path:v1",
            "schemas/fixtures/api/task-neighborhood-path.v1.valid.json",
            server_route_test("suite::task_graph_adoption::task_neighborhood_path_dto_serializes_to_committed_fixture"),
            server_route_test("suite::task_graph_adoption::task_neighborhood_path_fixture_is_consumed_by_real_router"),
            ContractTransport::Http { operation_key: Some("GET /api/v1/tasks/:task_id/neighborhood"), location: HttpTransportLocation::Path, parameters: &[WireParameter { name: "task_id", cardinality: Some(WireParameterCardinality::RequiredOne) }] },
        ),
        OperationContract::adopted(
            "api.task-neighborhood.query",
            "GET /api/v1/tasks/:task_id/neighborhood query",
            ContractSurface::Api,
            "GET /api/v1/tasks/:task_id/neighborhood",
            ContractDirection::Deserialize,
            ContractStrictness::DenyUnknownFields,
            "urn:kanban-tool:schema:api:task-neighborhood-query:v1",
            "schemas/fixtures/api/task-neighborhood-query.v1.valid.json",
            server_route_test("suite::task_graph_adoption::task_neighborhood_query_dto_serializes_to_committed_fixture"),
            server_route_test("suite::task_graph_adoption::task_neighborhood_query_fixture_is_consumed_by_real_router"),
            ContractTransport::Http { operation_key: Some("GET /api/v1/tasks/:task_id/neighborhood"), location: HttpTransportLocation::Query, parameters: &[WireParameter { name: "depth", cardinality: Some(WireParameterCardinality::OptionalOne) }, WireParameter { name: "limit_nodes", cardinality: Some(WireParameterCardinality::OptionalOne) }, WireParameter { name: "include_archived_context", cardinality: Some(WireParameterCardinality::OptionalOne) }] },
        ),
        OperationContract::adopted(
            "api.task-neighborhood.response",
            "GET /api/v1/tasks/:task_id/neighborhood response",
            ContractSurface::Api,
            "GET /api/v1/tasks/:task_id/neighborhood",
            ContractDirection::Serialize,
            ContractStrictness::DenyUnknownFields,
            "urn:kanban-tool:schema:api:task-neighborhood-response:v1",
            "schemas/fixtures/api/task-neighborhood-response.v1.valid.json",
            server_route_test("suite::task_graph_adoption::task_neighborhood_response_fixture_is_produced_by_real_router"),
            server_route_test("suite::task_graph_adoption::task_neighborhood_response_fixture_is_consumed_by_contract_root"),
            ContractTransport::Http { operation_key: Some("GET /api/v1/tasks/:task_id/neighborhood"), location: HttpTransportLocation::Success, parameters: &[] },
        ),
    ]
}

/// Historical inventory rows 320 to 355.
fn legacy_rows_8_vec() -> (r: Vec<OperationContract>)
    ensures
        r@ == legacy_rows_8(),
{
    reveal(legacy_rows_8);
    let r = vec![
        OperationContract::unadopted(
            "api.revert-label-ontology-mutation.response",
            "POST /api/v1/boards/:board/label-ontology/revert success",
            ContractSurface::Api,
            "POST /api/v1/boards/:board/label-ontology/revert",
            ContractDirection::Serialize,
            ContractStrictness::DenyUnknownFields,
            Some("urn:kanban-tool:schema:api:revert-label-ontology-mutation-response:v1"),
            Some("schemas/fixtures/api/revert-label-ontology-mutation-response.v1.valid.json"),
            MigrationState::Generated,
            ContractTransport::Http { operation_key: Some("POST /api/v1/boards/:board/label-ontology/revert"), location: HttpTransportLocation::Success, parameters: &[] },
        ),
        OperationContract::unadopted(
            "api.validate-label-ontology-action.path",
            "POST /api/v1/boards/:board/label-ontology/validate path",
            ContractSurface::Api,
            "POST /api/v1/boards/:board/label-ontology/validate",
            ContractDirection::Deserialize,
            ContractStrictness::DenyUnknownFields,
            Some("urn:kanban-tool:schema:api:validate-label-ontology-action-path:v1"),
            Some("schemas/fixtures/api/validate-label-ontology-action-path.v1.valid.json"),
            MigrationState::Generated,
            ContractTransport::Http { operation_key: Some("POST /api/v1/boards/:board/label-ontology/validate"), location: HttpTransportLocation::Path, parameters: &[WireParameter { name: "board", cardinality: Some(WireParameterCardinality::RequiredOne) }] },
        ),
        OperationContract::unadopted(
            "api.validate-label-ontology-action.request",
            "POST /api/v1/boards/:board/label-ontology/validate body",
            ContractSurface::Api,
            "POST /api/v1/boards/:board/label-ontology/validate",
            ContractDirection::Deserialize,
            ContractStrictness::DenyUnknownFields,
            Some("urn:kanban-tool:schema:api:validate-label-ontology-action-request:v1"),
            Some("schemas/fixtures/api/validate-label-ontology-action-request.v1.valid.json"),
            MigrationState::Generated,
            ContractTransport::Http { operation_key: Some("POST /api/v1/boards/:board/label-ontology/validate"), location: HttpTransportLocation::Body, parameters: &[] },
        ),
        OperationContract::unadopted(
            "api.validate-label-ontology-action.response",
            "POST /api/v1/boards/:board/label-ontology/validate success",
            ContractSurface::Api,
            "POST /api/v1/boards/:board/label-ontology/validate",
            ContractDirection::Serialize,
            ContractStrictness::DenyUnknownFields,
            Some("urn:kanban-tool:schema:api:validate-label-ontology-action-response:v1"),
            Some("schemas/fixtures/api/validate-label-ontology-action-response.v1.valid.json"),
            MigrationState::Generated,
            ContractTransport::Http { operation_key: Some("POST /api/v1/boards/:board/label-ontology/validate"), location: HttpTransportLocation::Success, parameters: &[] },
        ),
        OperationContract::unadopted(
            "api.get-label-ontology-signal.path",
            "GET /api/v1/label-ontology/signals/:signal_id path",
            ContractSurface::Api,
            "GET /api/v1/label-ontology/signals/:signal_id",
            ContractDirection::Deserialize,
            ContractStrictness::DenyUnknownFields,
            Some("urn:kanban-tool:schema:api:get-label-ontology-signal-path:v1"),
            Some("schemas/fixtures/api/get-label-ontology-signal-path.v1.valid.json"),
            MigrationState::Generated,
            ContractTransport::Http { operation_key: Some("GET /api/v1/label-ontology/signals/:signal_id"), location: HttpTransportLocation::Path, parameters: &[WireParameter { name: "signal_id", cardinality: Some(WireParameterCardinality::RequiredOne) }] },
        ),
        OperationContract::unadopted(
            "api.get-label-ontology-signal.response",
            "GET /api/v1/label-ontology/signals/:signal_id success",
            ContractSurface::Api,
            "GET /api/v1/label-ontology/signals/:signal_id",
            ContractDirection::Serialize,
            ContractStrictness::DenyUnknownFields,
            Some("urn:kanban-tool:schema:api:get-label-ontology-signal-response:v1"),
            Some("schemas/fixtures/api/get-label-ontology-signal-response.v1.valid.json"),
            MigrationState::Generated,
            ContractTransport::Http { operation_key: Some("GET /api/v1/label-ontology/signals/:signal_id"), location: HttpTransportLocation::Success, parameters: &[] },
        ),
        OperationContract::unadopted(
            "api.get-label-proposal.path",
            "GET /api/v1/label-proposals/:proposal_id path",
            ContractSurface::Api,
            "GET /api/v1/label-proposals/:proposal_id",
            ContractDirection::Deserialize,
            ContractStrictness::DenyUnknownFields,
            Some("urn:kanban-tool:schema:api:get-label-proposal-path:v1"),
            Some("schemas/fixtures/api/get-label-proposal-path.v1.valid.json"),
            MigrationState::Generated,
            ContractTransport::Http { operation_key: Some("GET /api/v1/label-proposals/:proposal_id"), location: HttpTransportLocation::Path, parameters: &[WireParameter { name: "proposal_id", cardinality: Some(WireParameterCardinality::RequiredOne) }] },
        ),
        OperationContract::unadopted(
            "api.get-label-proposal.response",
            "GET /api/v1/label-proposals/:proposal_id success",
            ContractSurface::Api,
            "GET /api/v1/label-proposals/:proposal_id",
            ContractDirection::Serialize,
            ContractStrictness::DenyUnknownFields,
            Some("urn:kanban-tool:schema:api:get-label-proposal-response:v1"),
            Some("schemas/fixtures/api/get-label-proposal-response.v1.valid.json"),
            MigrationState::Generated,
            ContractTransport::Http { operation_key: Some("GET /api/v1/label-proposals/:proposal_id"), location: HttpTransportLocation::Success, parameters: &[] },
        ),
        OperationContract::unadopted(
            "api.accept-label-proposal.path",
            "POST /api/v1/label-proposals/:proposal_id/accept path",
            ContractSurface::Api,
            "POST /api/v1/label-proposals/:proposal_id/accept",
            ContractDirection::Deserialize,
            ContractStrictness::DenyUnknownFields,
            Some("urn:kanban-tool:schema:api:accept-label-proposal-path:v1"),
            Some("schemas/fixtures/api/accept-label-proposal-path.v1.valid.json"),
            MigrationState::Generated,
            ContractTransport::Http { operation_key: Some("POST /api/v1/label-proposals/:proposal_id/accept"), location: HttpTransportLocation::Path, parameters: &[WireParameter { name: "proposal_id", cardinality: Some(WireParameterCardinality::RequiredOne) }] },
        ),
        OperationContract::unadopted(
            "api.accept-label-proposal.body",
            "POST /api/v1/label-proposals/:proposal_id/accept body",
            ContractSurface::Api,
            "POST /api/v1/label-proposals/:proposal_id/accept",
            ContractDirection::Deserialize,
            ContractStrictness::DenyUnknownFields,
            Some("urn:kanban-tool:schema:api:accept-label-proposal-body:v1"),
            Some("schemas/fixtures/api/accept-label-proposal-body.v1.valid.json"),
            MigrationState::Generated,
            ContractTransport::Http { operation_key: Some("POST /api/v1/label-proposals/:proposal_id/accept"), location: HttpTransportLocation::Body, parameters: &[] },
        ),
        OperationContract::unadopted(
            "api.accept-label-proposal.response",
            "POST /api/v1/label-proposals/:proposal_id/accept success",
            ContractSurface::Api,
            "POST /api/v1/label-proposals/:proposal_id/accept",
            ContractDirection::Serialize,
            ContractStrictness::DenyUnknownFields,
            Some("urn:kanban-tool:schema:api:accept-label-proposal-response:v1"),
            Some("schemas/fixtures/api/accept-label-proposal-response.v1.valid.json"),
            MigrationState::Generated,
            ContractTransport::Http { operation_key: Some("POST /api/v1/label-proposals/:proposal_id/accept"), location: HttpTransportLocation::Success, parameters: &[] },
        ),
        OperationContract::unadopted(
            "api.reject-label-proposal.path",
            "POST /api/v1/label-proposals/:proposal_id/reject path",
            ContractSurface::Api,
            "POST /api/v1/label-proposals/:proposal_id/reject",
            ContractDirection::Deserialize,
            ContractStrictness::DenyUnknownFields,
            Some("urn:kanban-tool:schema:api:reject-label-proposal-path:v1"),
            Some("schemas/fixtures/api/reject-label-proposal-path.v1.valid.json"),
            MigrationState::Generated,
            ContractTransport::Http { operation_key: Some("POST /api/v1/label-proposals/:proposal_id/reject"), location: HttpTransportLocation::Path, parameters: &[WireParameter { name: "proposal_id", cardinality: Some(WireParameterCardinality::RequiredOne) }] },
        ),
        OperationContract::unadopted(
            "api.reject-label-proposal.body",
            "POST /api/v1/label-proposals/:proposal_id/reject body",
            ContractSurface::Api,
            "POST /api/v1/label-proposals/:proposal_id/reject",
            ContractDirection::Deserialize,
            ContractStrictness::DenyUnknownFields,
            Some("urn:kanban-tool:schema:api:reject-label-proposal-body:v1"),
            Some("schemas/fixtures/api/reject-label-proposal-body.v1.valid.json"),
            MigrationState::Generated,
            ContractTransport::Http { operation_key: Some("POST /api/v1/label-proposals/:proposal_id/reject"), location: HttpTransportLocation::Body, parameters: &[] },
        ),
        OperationContract::unadopted(
            "api.reject-label-proposal.response",
            "POST /api/v1/label-proposals/:proposal_id/reject success",
            ContractSurface::Api,
            "POST /api/v1/label-proposals/:proposal_id/reject",
            ContractDirection::Serialize,
            ContractStrictness::DenyUnknownFields,
            Some("urn:kanban-tool:schema:api:reject-label-proposal-response:v1"),
            Some("schemas/fixtures/api/reject-label-proposal-response.v1.valid.json"),
            MigrationState::Generated,
            ContractTransport::Http { operation_key: Some("POST /api/v1/label-proposals/:proposal_id/reject"), location: HttpTransportLocation::Success, parameters: &[] },
        ),
        OperationContract::adopted(
            "sse.stream-events.query",
            "GET /api/v1/stream/events query",
            ContractSurface::Sse,
            "GET /api/v1/stream/events",
            ContractDirection::Deserialize,
            ContractStrictness::DenyUnknownFields,
            "urn:kanban-tool:schema:sse:stream-events-query:v1",
            "schemas/fixtures/sse/stream-events-query.v1.valid.json",
            server_route_test("suite::sse_adoption::stream_events_query_dto_serializes_to_committed_fixture"),
            server_route_test("suite::sse_adoption::stream_events_query_fixture_is_consumed_by_real_router"),
            ContractTransport::Http { operation_key: Some("GET /api/v1/stream/events"), location: HttpTransportLocation::Query, parameters: &[WireParameter { name: "board", cardinality: Some(WireParameterCardinality::OptionalOne) }, WireParameter { name: "task_id", cardinality: Some(WireParameterCardinality::OptionalOne) }, WireParameter { name: "after", cardinality: Some(WireParameterCardinality::OptionalOne) }, WireParameter { name: "limit", cardinality: Some(WireParameterCardinality::OptionalOne) }] },
        ),
        OperationContract::adopted(
            "sse.event.data",
            "GET /api/v1/stream/events data",
            ContractSurface::Sse,
            "GET /api/v1/stream/events",
            ContractDirection::Serialize,
            ContractStrictness::DenyUnknownFields,
            "urn:kanban-tool:schema:sse:stream-event-data:v1",
            "schemas/fixtures/sse/stream-event-data.v1.valid.json",
            server_route_test("suite::sse_adoption::stream_event_data_fixture_is_produced_by_real_router"),
            server_route_test("suite::sse_adoption::stream_event_data_fixture_is_consumed_by_contract_root"),
            ContractTransport::Http { operation_key: Some("GET /api/v1/stream/events"), location: HttpTransportLocation::Sse, parameters: &[] },
        ),
        OperationContract::adopted(
            "metadata.decision.input",
            "task_comments.metadata_json(kind=decision)",
            ContractSurface::Metadata,
            "structured decision comment metadata input",
            ContractDirection::Deserialize,
            ContractStrictness::Typed,
            "urn:kanban-tool:schema:metadata:decision:v1",
            "schemas/fixtures/metadata/decision.v1.valid.json",
            cli_test("metadata_contract_adoption", "metadata_decision_input_fixture_is_produced_by_cli_contract_dto"),
            cli_test("comments", "metadata_decision_input_fixture_is_consumed_by_real_cli"),
            ContractTransport::NoTransport,
        ),
        OperationContract::adopted(
            "metadata.signal-record.input",
            "kanban signal record input",
            ContractSurface::Metadata,
            "generic signal record input",
            ContractDirection::Deserialize,
            ContractStrictness::Typed,
            "urn:kanban-tool:schema:metadata:signal-record-input:v1",
            "schemas/fixtures/metadata/signal-record-input.v1.valid.json",
            cli_test("metadata_contract_adoption", "metadata_signal_record_input_fixture_is_produced_by_cli_contract_dto"),
            cli_test("signal", "metadata_signal_record_input_fixture_is_consumed_by_real_cli"),
            ContractTransport::NoTransport,
        ),
        OperationContract::adopted(
            "metadata.signal-link.output",
            "task comment signal backlink metadata",
            ContractSurface::Metadata,
            "signal backlink comment metadata output",
            ContractDirection::Serialize,
            ContractStrictness::Typed,
            "urn:kanban-tool:schema:metadata:signal-link-output:v1",
            "schemas/fixtures/metadata/signal-link-output.v1.valid.json",
            cli_test("signal", "metadata_signal_link_output_fixture_is_produced_by_real_service_adapter"),
            cli_test("metadata_contract_adoption", "metadata_signal_link_output_fixture_is_consumed_by_cli_contract_dto"),
            ContractTransport::NoTransport,
        ),
        OperationContract::adopted(
            "metadata.label-proposal-candidate.input",
            "kanban label propose --proposal-json",
            ContractSurface::Metadata,
            "label proposal candidate input",
            ContractDirection::Deserialize,
            ContractStrictness::Typed,
            "urn:kanban-tool:schema:metadata:label-proposal-candidate-input:v1",
            "schemas/fixtures/metadata/label-proposal-candidate-input.v1.valid.json",
            cli_test("metadata_contract_adoption", "metadata_label_proposal_candidate_input_fixture_is_produced_by_cli_contract_dto"),
            cli_test("task", "metadata_label_proposal_candidate_input_fixture_is_consumed_by_real_cli"),
            ContractTransport::NoTransport,
        ),
        OperationContract::adopted(
            "metadata.ontology-record.input",
            "kanban label ontology record input",
            ContractSurface::Metadata,
            "label ontology observation input",
            ContractDirection::Deserialize,
            ContractStrictness::Typed,
            "urn:kanban-tool:schema:metadata:ontology-record-input:v1",
            "schemas/fixtures/metadata/ontology-record-input.v1.valid.json",
            cli_test("metadata_contract_adoption", "metadata_ontology_record_input_fixture_is_produced_by_cli_contract_dto"),
            cli_test("task", "metadata_ontology_record_input_fixture_is_consumed_by_real_cli"),
            ContractTransport::NoTransport,
        ),
        OperationContract::adopted(
            "metadata.ontology-validation-evidence.input",
            "kanban label ontology validate external evidence",
            ContractSurface::Metadata,
            "label ontology external validation evidence",
            ContractDirection::Deserialize,
            ContractStrictness::OpaqueExtension,
            "urn:kanban-tool:schema:metadata:ontology-validation-evidence-input:v1",
            "schemas/fixtures/metadata/ontology-validation-evidence-input.v1.valid.json",
            cli_test("metadata_contract_adoption", "metadata_ontology_validation_evidence_input_fixture_is_produced_by_cli_contract_dto"),
            cli_test("cli_label_contract_adoption", "metadata_ontology_validation_evidence_input_fixture_is_consumed_by_real_cli"),
            ContractTransport::NoTransport,
        ),
        OperationContract::unadopted(
            "config.project.input",
            ".kb/config.toml",
            ContractSurface::Config,
            "project-local config after TOML decoding",
            ContractDirection::Deserialize,
            ContractStrictness::DenyUnknownFields,
            None,
            None,
            MigrationState::Planned,
            ContractTransport::NoTransport,
        ),
        OperationContract::unadopted(
            "config.selected-worker-profile.input",
            "selected [workers.<profile>] section",
            ContractSurface::Config,
            "selected dispatcher worker profile after TOML decoding",
            ContractDirection::Deserialize,
            ContractStrictness::DenyUnknownFields,
            None,
            None,
            MigrationState::Planned,
            ContractTransport::NoTransport,
        ),
        OperationContract::adopted(
            "api.board-task-map.path",
            "GET /api/v1/boards/:board/task-map path",
            ContractSurface::Api,
            "GET /api/v1/boards/:board/task-map",
            ContractDirection::Deserialize,
            ContractStrictness::DenyUnknownFields,
            "urn:kanban-tool:schema:api:board-task-map-path:v1",
            "schemas/fixtures/api/board-task-map-path.v1.valid.json",
            server_route_test("suite::task_graph_adoption::board_task_map_path_dto_serializes_to_committed_fixture"),
            server_route_test("suite::task_graph_adoption::board_task_map_path_fixture_is_consumed_by_real_router"),
            ContractTransport::Http { operation_key: Some("GET /api/v1/boards/:board/task-map"), location: HttpTransportLocation::Path, parameters: &[WireParameter { name: "board", cardinality: Some(WireParameterCardinality::RequiredOne) }] },
        ),
        OperationContract::adopted(
            "api.board-task-map.query",
            "GET /api/v1/boards/:board/task-map query",
            ContractSurface::Api,
            "GET /api/v1/boards/:board/task-map",
            ContractDirection::Deserialize,
            ContractStrictness::DenyUnknownFields,
            "urn:kanban-tool:schema:api:board-task-map-query:v1",
            "schemas/fixtures/api/board-task-map-query.v1.valid.json",
            server_route_test("suite::task_graph_adoption::board_task_map_query_dto_serializes_to_committed_fixture"),
            server_route_test("suite::task_graph_adoption::board_task_map_query_fixture_is_consumed_by_real_router"),
            ContractTransport::Http { operation_key: Some("GET /api/v1/boards/:board/task-map"), location: HttpTransportLocation::Query, parameters: &[WireParameter { name: "active_only", cardinality: Some(WireParameterCardinality::OptionalOne) }, WireParameter { name: "context_depth", cardinality: Some(WireParameterCardinality::OptionalOne) }, WireParameter { name: "limit_nodes", cardinality: Some(WireParameterCardinality::OptionalOne) }, WireParameter { name: "include_done_context", cardinality: Some(WireParameterCardinality::OptionalOne) }, WireParameter { name: "include_archived_context", cardinality: Some(WireParameterCardinality::OptionalOne) }, WireParameter { name: "hide_isolated", cardinality: Some(WireParameterCardinality::OptionalOne) }] },
        ),
        OperationContract::adopted(
            "api.board-task-map.response",
            "GET /api/v1/boards/:board/task-map response",
            ContractSurface::Api,
            "GET /api/v1/boards/:board/task-map",
            ContractDirection::Serialize,
            ContractStrictness::DenyUnknownFields,
            "urn:kanban-tool:schema:api:board-task-map-response:v1",
            "schemas/fixtures/api/board-task-map-response.v1.valid.json",
            server_route_test("suite::task_graph_adoption::board_task_map_response_fixture_is_produced_by_real_router"),
            server_route_test("suite::task_graph_adoption::board_task_map_response_fixture_is_consumed_by_contract_root"),
            ContractTransport::Http { operation_key: Some("GET /api/v1/boards/:board/task-map"), location: HttpTransportLocation::Success, parameters: &[] },
        ),
        OperationContract::adopted(
            "api.get-task.path",
            "GET /api/v1/tasks/:task_id path",
            ContractSurface::Api,
            "GET /api/v1/tasks/:task_id",
            ContractDirection::Deserialize,
            ContractStrictness::DenyUnknownFields,
            "urn:kanban-tool:schema:api:get-task-path:v1",
            "schemas/fixtures/api/get-task-path.v1.valid.json",
            server_route_test("suite::task_core_adoption::get_task_path_dto_serializes_to_committed_fixture"),
            server_route_test("suite::task_core_adoption::get_task_path_fixture_is_consumed_by_real_router"),
            ContractTransport::Http { operation_key: Some("GET /api/v1/tasks/:task_id"), location: HttpTransportLocation::Path, parameters: &[WireParameter { name: "task_id", cardinality: Some(WireParameterCardinality::RequiredOne) }] },
        ),
        OperationContract::adopted(
            "api.get-task.query",
            "GET /api/v1/tasks/:task_id query",
            ContractSurface::Api,
            "GET /api/v1/tasks/:task_id",
            ContractDirection::Deserialize,
            ContractStrictness::DenyUnknownFields,
            "urn:kanban-tool:schema:api:get-task-query:v1",
            "schemas/fixtures/api/get-task-query.v1.valid.json",
            server_route_test("suite::task_core_adoption::get_task_query_dto_serializes_to_committed_fixture"),
            server_route_test("suite::task_core_adoption::get_task_query_fixture_is_consumed_by_real_router"),
            ContractTransport::Http { operation_key: Some("GET /api/v1/tasks/:task_id"), location: HttpTransportLocation::Query, parameters: &[WireParameter { name: "include", cardinality: Some(WireParameterCardinality::OptionalOne) }] },
        ),
        OperationContract::adopted(
            "api.get-task.response",
            "GET /api/v1/tasks/:task_id response",
            ContractSurface::Api,
            "GET /api/v1/tasks/:task_id",
            ContractDirection::Serialize,
            ContractStrictness::DenyUnknownFields,
            "urn:kanban-tool:schema:api:get-task-response:v1",
            "schemas/fixtures/api/get-task-response.v1.valid.json",
            server_route_test("suite::task_core_adoption::get_task_response_fixture_is_produced_by_real_router"),
            server_route_test("suite::task_core_adoption::get_task_response_fixture_is_consumed_by_contract_root"),
            ContractTransport::Http { operation_key: Some("GET /api/v1/tasks/:task_id"), location: HttpTransportLocation::Success, parameters: &[] },
        ),
        OperationContract::adopted(
            "api.update-task.path",
            "PATCH /api/v1/tasks/:task_id path",
            ContractSurface::Api,
            "PATCH /api/v1/tasks/:task_id",
            ContractDirection::Deserialize,
            ContractStrictness::DenyUnknownFields,
            "urn:kanban-tool:schema:api:update-task-path:v1",
            "schemas/fixtures/api/update-task-path.v1.valid.json",
            server_route_test("suite::task_core_adoption::update_task_path_dto_serializes_to_committed_fixture"),
            server_route_test("suite::task_core_adoption::update_task_path_fixture_is_consumed_by_real_router"),
            ContractTransport::Http { operation_key: Some("PATCH /api/v1/tasks/:task_id"), location: HttpTransportLocation::Path, parameters: &[WireParameter { name: "task_id", cardinality: Some(WireParameterCardinality::RequiredOne) }] },
        ),
        OperationContract::adopted(
            "api.update-task.request",
            "PATCH /api/v1/tasks/:task_id body",
            ContractSurface::Api,
            "PATCH /api/v1/tasks/:task_id",
            ContractDirection::Deserialize,
            ContractStrictness::DenyUnknownFields,
            "urn:kanban-tool:schema:api:update-task-request:v1",
            "schemas/fixtures/api/update-task-request.v1.valid.json",
            server_route_test("suite::task_core_adoption::update_task_request_dto_serializes_to_committed_fixture"),
            server_route_test("suite::task_core_adoption::update_task_request_fixture_is_consumed_by_real_router"),
            ContractTransport::Http { operation_key: Some("PATCH /api/v1/tasks/:task_id"), location: HttpTransportLocation::Body, parameters: &[] },
        ),
        OperationContract::adopted(
            "api.update-task.response",
            "PATCH /api/v1/tasks/:task_id response",
            ContractSurface::Api,
            "PATCH /api/v1/tasks/:task_id",
            ContractDirection::Serialize,
            ContractStrictness::DenyUnknownFields,
            "urn:kanban-tool:schema:api:update-task-response:v1",
            "schemas/fixtures/api/update-task-response.v1.valid.json",
            server_route_test("suite::task_core_adoption::update_task_response_fixture_is_produced_by_real_router"),
            server_route_test("suite::task_core_adoption::update_task_response_fixture_is_consumed_by_contract_root"),
            ContractTransport::Http { operation_key: Some("PATCH /api/v1/tasks/:task_id"), location: HttpTransportLocation::Success, parameters: &[] },
        ),
        OperationContract::adopted(
            "api.task-neighborhood.path",
            "GET /api/v1/tasks/:task_id/neighborhood path",
            ContractSurface::Api,
            "GET /api/v1/tasks/:task_id/neighborhood",
            ContractDirection::Deserialize,
            ContractStrictness::DenyUnknownFields,
            "urn:kanban-tool:schema:api:task-neighborhood-path:v1",
            "schemas/fixtures/api/task-neighborhood-path.v1.valid.json",
            server_route_test("suite::task_graph_adoption::task_neighborhood_path_dto_serializes_to_committed_fixture"),
            server_route_test("suite::task_graph_adoption::task_neighborhood_path_fixture_is_consumed_by_real_router"),
            ContractTransport::Http { operation_key: Some("GET /api/v1/tasks/:task_id/neighborhood"), location: HttpTransportLocation::Path, parameters: &[WireParameter { name: "task_id", cardinality: Some(WireParameterCardinality::RequiredOne) }] },
        ),
        OperationContract::adopted(
            "api.task-neighborhood.query",
            "GET /api/v1/tasks/:task_id/neighborhood query",
            ContractSurface::Api,
            "GET /api/v1/tasks/:task_id/neighborhood",
            ContractDirection::Deserialize,
            ContractStrictness::DenyUnknownFields,
            "urn:kanban-tool:schema:api:task-neighborhood-query:v1",
            "schemas/fixtures/api/task-neighborhood-query.v1.valid.json",
            server_route_test("suite::task_graph_adoption::task_neighborhood_query_dto_serializes_to_committed_fixture"),
            server_route_test("suite::task_graph_adoption::task_neighborhood_query_fixture_is_consumed_by_real_router"),
            ContractTransport::Http { operation_key: Some("GET /api/v1/tasks/:task_id/neighborhood"), location: HttpTransportLocation::Query, parameters: &[WireParameter { name: "depth", cardinality: Some(WireParameterCardinality::OptionalOne) }, WireParameter { name: "limit_nodes", cardinality: Some(WireParameterCardinality::OptionalOne) }, WireParameter { name: "include_archived_context", cardinality: Some(WireParameterCardinality::OptionalOne) }] },
        ),
        OperationContract::adopted(
            "api.task-neighborhood.response",
            "GET /api/v1/tasks/:task_id/neighborhood response",
            ContractSurface::Api,
            "GET /api/v1/tasks/:task_id/neighborhood",
            ContractDirection::Serialize,
            ContractStrictness::DenyUnknownFields,
            "urn:kanban-tool:schema:api:task-neighborhood-response:v1",
            "schemas/fixtures/api/task-neighborhood-response.v1.valid.json",
            server_route_test("suite::task_graph_adoption::task_neighborhood_response_fixture_is_produced_by_real_router"),
            server_route_test("suite::task_graph_adoption::task_neighborhood_response_fixture_is_consumed_by_contract_root"),
            ContractTransport::Http { operation_key: Some("GET /api/v1/tasks/:task_id/neighborhood"), location: HttpTransportLocation::Success, parameters: &[] },
        ),
    ];
    assert(r@ =~= legacy_rows_8());
    r
}

/// The historical inventory rows, in their committed order.
pub open spec fn legacy_rows() -> Seq<OperationContract> {
    legacy_rows_0()
        + legacy_rows_1()
        + legacy_rows_2()
        + legacy_rows_3()
        + legacy_rows_4()
        + legacy_rows_5()
        + legacy_rows_6()
        + legacy_rows_7()
        + legacy_rows_8()
}

/// The historical inventory rows, in their committed order.
pub fn legacy_inventory() -> (r: Vec<OperationContract>)
    ensures
        r@ == legacy_rows(),
{
    let mut r = legacy_rows_0_vec();
    let mut part = legacy_rows_1_vec();
    r.append(&mut part);
    let mut part = legacy_rows_2_vec();
    r.append(&mut part);
    let mut part = legacy_rows_3_vec();
    r.append(&mut part);
    let mut part = legacy_rows_4_vec();
    r.append(&mut part);
    let mut part = legacy_rows_5_vec();
    r.append(&mut part);
    let mut part = legacy_rows_6_vec();
    r.append(&mut part);
    let mut part = legacy_rows_7_vec();
    r.append(&mut part);
    let mut part = legacy_rows_8_vec();
    r.append(&mut part);
    assert(r@ =~= legacy_rows());
    r
}

/// The maintenance API request and response rows and the maintenance CLI output rows.
#[verifier::opaque]
pub open spec fn maintenance_rows() -> Seq<OperationContract> {
    seq![
        OperationContract::adopted(
            "api.maintenance-path.request",
            "POST /api/v1/maintenance/{operation} body",
            ContractSurface::Api,
            "POST /api/v1/maintenance/{operation}",
            ContractDirection::Deserialize,
            ContractStrictness::DenyUnknownFields,
            "urn:kanban-tool:schema:api:maintenance-path-request:v1",
            "schemas/fixtures/api/maintenance-path-request.v1.valid.json",
            server_route_test("maintenance_adoption::maintenance_path_request_producer"),
            server_route_test("maintenance_adoption::maintenance_path_request_consumer"),
            ContractTransport::Http { operation_key: Some("POST /api/v1/maintenance/{operation}"), location: HttpTransportLocation::Body, parameters: &[] },
        ),
        OperationContract::adopted(
            "api.maintenance-import.request",
            "POST /api/v1/maintenance/import body",
            ContractSurface::Api,
            "POST /api/v1/maintenance/import",
            ContractDirection::Deserialize,
            ContractStrictness::DenyUnknownFields,
            "urn:kanban-tool:schema:api:maintenance-import-request:v1",
            "schemas/fixtures/api/maintenance-import-request.v1.valid.json",
            server_route_test("maintenance_adoption::maintenance_import_request_producer"),
            server_route_test("maintenance_adoption::maintenance_import_request_consumer"),
            ContractTransport::Http { operation_key: Some("POST /api/v1/maintenance/import"), location: HttpTransportLocation::Body, parameters: &[] },
        ),
        OperationContract::adopted(
            "api.maintenance-backup.request",
            "POST /api/v1/maintenance/backup body",
            ContractSurface::Api,
            "POST /api/v1/maintenance/backup",
            ContractDirection::Deserialize,
            ContractStrictness::DenyUnknownFields,
            "urn:kanban-tool:schema:api:maintenance-backup-request:v1",
            "schemas/fixtures/api/maintenance-backup-request.v1.valid.json",
            server_route_test("maintenance_adoption::maintenance_backup_request_producer"),
            server_route_test("maintenance_adoption::maintenance_backup_request_consumer"),
            ContractTransport::Http { operation_key: Some("POST /api/v1/maintenance/backup"), location: HttpTransportLocation::Body, parameters: &[] },
        ),
        OperationContract::adopted(
            "api.maintenance-export.request",
            "POST /api/v1/maintenance/export body",
            ContractSurface::Api,
            "POST /api/v1/maintenance/export",
            ContractDirection::Deserialize,
            ContractStrictness::DenyUnknownFields,
            "urn:kanban-tool:schema:api:maintenance-export-request:v1",
            "schemas/fixtures/api/maintenance-export-request.v1.valid.json",
            server_route_test("maintenance_adoption::maintenance_export_request_producer"),
            server_route_test("maintenance_adoption::maintenance_export_request_consumer"),
            ContractTransport::Http { operation_key: Some("POST /api/v1/maintenance/export"), location: HttpTransportLocation::Body, parameters: &[] },
        ),
        OperationContract::adopted(
            "api.maintenance-run.request",
            "POST /api/v1/maintenance/run body",
            ContractSurface::Api,
            "POST /api/v1/maintenance/run",
            ContractDirection::Deserialize,
            ContractStrictness::DenyUnknownFields,
            "urn:kanban-tool:schema:api:maintenance-run-request:v1",
            "schemas/fixtures/api/maintenance-run-request.v1.valid.json",
            server_route_test("maintenance_adoption::maintenance_run_request_producer"),
            server_route_test("maintenance_adoption::maintenance_run_request_consumer"),
            ContractTransport::Http { operation_key: Some("POST /api/v1/maintenance/run"), location: HttpTransportLocation::Body, parameters: &[] },
        ),
        OperationContract::adopted(
            "api.maintenance-rebuild.request",
            "POST /api/v1/maintenance/rebuild body",
            ContractSurface::Api,
            "POST /api/v1/maintenance/rebuild",
            ContractDirection::Deserialize,
            ContractStrictness::DenyUnknownFields,
            "urn:kanban-tool:schema:api:maintenance-rebuild-request:v1",
            "schemas/fixtures/api/maintenance-rebuild-request.v1.valid.json",
            server_route_test("maintenance_adoption::maintenance_rebuild_request_producer"),
            server_route_test("maintenance_adoption::maintenance_rebuild_request_consumer"),
            ContractTransport::Http { operation_key: Some("POST /api/v1/maintenance/rebuild"), location: HttpTransportLocation::Body, parameters: &[] },
        ),
        OperationContract::adopted(
            "api.maintenance-cleanup.request",
            "POST /api/v1/maintenance/cleanup body",
            ContractSurface::Api,
            "POST /api/v1/maintenance/cleanup",
            ContractDirection::Deserialize,
            ContractStrictness::DenyUnknownFields,
            "urn:kanban-tool:schema:api:maintenance-cleanup-request:v1",
            "schemas/fixtures/api/maintenance-cleanup-request.v1.valid.json",
            server_route_test("maintenance_adoption::maintenance_cleanup_request_producer"),
            server_route_test("maintenance_adoption::maintenance_cleanup_request_consumer"),
            ContractTransport::Http { operation_key: Some("POST /api/v1/maintenance/cleanup"), location: HttpTransportLocation::Body, parameters: &[] },
        ),
        OperationContract::adopted(
            "api.maintenance-import-v30.request",
            "POST /api/v1/maintenance/import-v30 body",
            ContractSurface::Api,
            "POST /api/v1/maintenance/import-v30",
            ContractDirection::Deserialize,
            ContractStrictness::DenyUnknownFields,
            "urn:kanban-tool:schema:api:maintenance-import-v30-request:v1",
            "schemas/fixtures/api/maintenance-import-v30-request.v1.valid.json",
            server_route_test("maintenance_adoption::legacy_import_v30_request_producer"),
            server_route_test("maintenance_adoption::legacy_import_v30_request_consumer"),
            ContractTransport::Http { operation_key: Some("POST /api/v1/maintenance/import-v30"), location: HttpTransportLocation::Body, parameters: &[] },
        ),
        OperationContract::adopted(
            "api.maintenance-backup.response",
            "POST /api/v1/maintenance/backup response",
            ContractSurface::Api,
            "POST /api/v1/maintenance/backup",
            ContractDirection::Serialize,
            ContractStrictness::DenyUnknownFields,
            "urn:kanban-tool:schema:api:maintenance-backup-response:v1",
            "schemas/fixtures/api/maintenance-backup-response.v1.valid.json",
            server_route_test("maintenance_adoption::maintenance_backup_response_producer"),
            server_route_test("maintenance_adoption::maintenance_backup_response_consumer"),
            ContractTransport::Http { operation_key: Some("POST /api/v1/maintenance/backup"), location: HttpTransportLocation::Success, parameters: &[] },
        ),
        OperationContract::adopted(
            "api.maintenance-export.response",
            "POST /api/v1/maintenance/export response",
            ContractSurface::Api,
            "POST /api/v1/maintenance/export",
            ContractDirection::Serialize,
            ContractStrictness::DenyUnknownFields,
            "urn:kanban-tool:schema:api:maintenance-export-response:v1",
            "schemas/fixtures/api/maintenance-export-response.v1.valid.json",
            server_route_test("maintenance_adoption::maintenance_export_response_producer"),
            server_route_test("maintenance_adoption::maintenance_export_response_consumer"),
            ContractTransport::Http { operation_key: Some("POST /api/v1/maintenance/export"), location: HttpTransportLocation::Success, parameters: &[] },
        ),
        OperationContract::adopted(
            "api.maintenance-import.response",
            "POST /api/v1/maintenance/import response",
            ContractSurface::Api,
            "POST /api/v1/maintenance/import",
            ContractDirection::Serialize,
            ContractStrictness::DenyUnknownFields,
            "urn:kanban-tool:schema:api:maintenance-import-response:v1",
            "schemas/fixtures/api/maintenance-import-response.v1.valid.json",
            server_route_test("maintenance_adoption::maintenance_import_response_producer"),
            server_route_test("maintenance_adoption::maintenance_import_response_consumer"),
            ContractTransport::Http { operation_key: Some("POST /api/v1/maintenance/import"), location: HttpTransportLocation::Success, parameters: &[] },
        ),
        OperationContract::adopted(
            "api.maintenance-vacuum.response",
            "POST /api/v1/maintenance/vacuum response",
            ContractSurface::Api,
            "POST /api/v1/maintenance/vacuum",
            ContractDirection::Serialize,
            ContractStrictness::DenyUnknownFields,
            "urn:kanban-tool:schema:api:maintenance-vacuum-response:v1",
            "schemas/fixtures/api/maintenance-vacuum-response.v1.valid.json",
            server_route_test("maintenance_adoption::maintenance_vacuum_response_producer"),
            server_route_test("maintenance_adoption::maintenance_vacuum_response_consumer"),
            ContractTransport::Http { operation_key: Some("POST /api/v1/maintenance/vacuum"), location: HttpTransportLocation::Success, parameters: &[] },
        ),
        OperationContract::adopted(
            "api.maintenance-status.response",
            "GET /api/v1/maintenance/status response",
            ContractSurface::Api,
            "GET /api/v1/maintenance/status",
            ContractDirection::Serialize,
            ContractStrictness::DenyUnknownFields,
            "urn:kanban-tool:schema:api:maintenance-status-response:v1",
            "schemas/fixtures/api/maintenance-status-response.v1.valid.json",
            server_route_test("maintenance_adoption::maintenance_status_response_producer"),
            server_route_test("maintenance_adoption::maintenance_status_response_consumer"),
            ContractTransport::Http { operation_key: Some("GET /api/v1/maintenance/status"), location: HttpTransportLocation::Success, parameters: &[] },
        ),
        OperationContract::adopted(
            "api.maintenance-run.response",
            "POST /api/v1/maintenance/run response",
            ContractSurface::Api,
            "POST /api/v1/maintenance/run",
            ContractDirection::Serialize,
            ContractStrictness::DenyUnknownFields,
            "urn:kanban-tool:schema:api:maintenance-run-response:v1",
            "schemas/fixtures/api/maintenance-run-response.v1.valid.json",
            server_route_test("maintenance_adoption::maintenance_run_response_producer"),
            server_route_test("maintenance_adoption::maintenance_run_response_consumer"),
            ContractTransport::Http { operation_key: Some("POST /api/v1/maintenance/run"), location: HttpTransportLocation::Success, parameters: &[] },
        ),
        OperationContract::adopted(
            "api.maintenance-rebuild.response",
            "POST /api/v1/maintenance/rebuild response",
            ContractSurface::Api,
            "POST /api/v1/maintenance/rebuild",
            ContractDirection::Serialize,
            ContractStrictness::DenyUnknownFields,
            "urn:kanban-tool:schema:api:maintenance-rebuild-response:v1",
            "schemas/fixtures/api/maintenance-rebuild-response.v1.valid.json",
            server_route_test("maintenance_adoption::maintenance_rebuild_response_producer"),
            server_route_test("maintenance_adoption::maintenance_rebuild_response_consumer"),
            ContractTransport::Http { operation_key: Some("POST /api/v1/maintenance/rebuild"), location: HttpTransportLocation::Success, parameters: &[] },
        ),
        OperationContract::adopted(
            "api.maintenance-cleanup.response",
            "POST /api/v1/maintenance/cleanup response",
            ContractSurface::Api,
            "POST /api/v1/maintenance/cleanup",
            ContractDirection::Serialize,
            ContractStrictness::DenyUnknownFields,
            "urn:kanban-tool:schema:api:maintenance-cleanup-response:v1",
            "schemas/fixtures/api/maintenance-cleanup-response.v1.valid.json",
            server_route_test("maintenance_adoption::maintenance_cleanup_response_producer"),
            server_route_test("maintenance_adoption::maintenance_cleanup_response_consumer"),
            ContractTransport::Http { operation_key: Some("POST /api/v1/maintenance/cleanup"), location: HttpTransportLocation::Success, parameters: &[] },
        ),
        OperationContract::adopted(
            "api.maintenance-import-v30.response",
            "POST /api/v1/maintenance/import-v30 response",
            ContractSurface::Api,
            "POST /api/v1/maintenance/import-v30",
            ContractDirection::Serialize,
            ContractStrictness::DenyUnknownFields,
            "urn:kanban-tool:schema:api:maintenance-import-v30-response:v1",
            "schemas/fixtures/api/maintenance-import-v30-response.v1.valid.json",
            server_route_test("maintenance_adoption::legacy_import_v30_response_producer"),
            server_route_test("maintenance_adoption::legacy_import_v30_response_consumer"),
            ContractTransport::Http { operation_key: Some("POST /api/v1/maintenance/import-v30"), location: HttpTransportLocation::Success, parameters: &[] },
        ),
        OperationContract::adopted(
            "cli.maintenance-backup.output",
            "kanban backup --json stdout",
            ContractSurface::Cli,
            "backup",
            ContractDirection::Serialize,
            ContractStrictness::DenyUnknownFields,
            "urn:kanban-tool:schema:cli:maintenance-backup-output:v1",
            "schemas/fixtures/cli/maintenance-backup-output.v1.valid.json",
            cli_test("cli_maintenance_contract_adoption", "maintenance_adoption::maintenance_backup_cli_producer"),
            cli_test("cli_maintenance_contract_adoption", "maintenance_adoption::maintenance_backup_cli_consumer"),
            ContractTransport::NoTransport,
        ),
        OperationContract::adopted(
            "cli.maintenance-export.output",
            "kanban export --json stdout",
            ContractSurface::Cli,
            "export",
            ContractDirection::Serialize,
            ContractStrictness::DenyUnknownFields,
            "urn:kanban-tool:schema:cli:maintenance-export-output:v1",
            "schemas/fixtures/cli/maintenance-export-output.v1.valid.json",
            cli_test("cli_maintenance_contract_adoption", "maintenance_adoption::maintenance_export_cli_producer"),
            cli_test("cli_maintenance_contract_adoption", "maintenance_adoption::maintenance_export_cli_consumer"),
            ContractTransport::NoTransport,
        ),
        OperationContract::adopted(
            "cli.maintenance-import.output",
            "kanban import --json stdout",
            ContractSurface::Cli,
            "import",
            ContractDirection::Serialize,
            ContractStrictness::DenyUnknownFields,
            "urn:kanban-tool:schema:cli:maintenance-import-output:v1",
            "schemas/fixtures/cli/maintenance-import-output.v1.valid.json",
            cli_test("cli_maintenance_contract_adoption", "maintenance_adoption::maintenance_import_cli_producer"),
            cli_test("cli_maintenance_contract_adoption", "maintenance_adoption::maintenance_import_cli_consumer"),
            ContractTransport::NoTransport,
        ),
        OperationContract::adopted(
            "cli.maintenance-vacuum.output",
            "kanban vacuum --json stdout",
            ContractSurface::Cli,
            "vacuum",
            ContractDirection::Serialize,
            ContractStrictness::DenyUnknownFields,
            "urn:kanban-tool:schema:cli:maintenance-vacuum-output:v1",
            "schemas/fixtures/cli/maintenance-vacuum-output.v1.valid.json",
            cli_test("cli_maintenance_contract_adoption", "maintenance_adoption::maintenance_vacuum_cli_producer"),
            cli_test("cli_maintenance_contract_adoption", "maintenance_adoption::maintenance_vacuum_cli_consumer"),
            ContractTransport::NoTransport,
        ),
        OperationContract::adopted(
            "cli.maintenance-status-v1.output",
            "kanban maintenance status --json stdout",
            ContractSurface::Cli,
            "maintenance status",
            ContractDirection::Serialize,
            ContractStrictness::DenyUnknownFields,
            "urn:kanban-tool:schema:cli:maintenance-status-output:v1",
            "schemas/fixtures/cli/maintenance-status-output.v1.valid.json",
            cli_test("cli_maintenance_contract_adoption", "maintenance_adoption::maintenance_status_cli_producer"),
            cli_test("cli_maintenance_contract_adoption", "maintenance_adoption::maintenance_status_cli_consumer"),
            ContractTransport::NoTransport,
        ),
        OperationContract::adopted(
            "cli.maintenance-run-v1.output",
            "kanban maintenance run --json stdout",
            ContractSurface::Cli,
            "maintenance run",
            ContractDirection::Serialize,
            ContractStrictness::DenyUnknownFields,
            "urn:kanban-tool:schema:cli:maintenance-run-output:v1",
            "schemas/fixtures/cli/maintenance-run-output.v1.valid.json",
            cli_test("cli_maintenance_contract_adoption", "maintenance_adoption::maintenance_run_cli_producer"),
            cli_test("cli_maintenance_contract_adoption", "maintenance_adoption::maintenance_run_cli_consumer"),
            ContractTransport::NoTransport,
        ),
        OperationContract::adopted(
            "cli.maintenance-rebuild-v1.output",
            "kanban maintenance rebuild --json stdout",
            ContractSurface::Cli,
            "maintenance rebuild",
            ContractDirection::Serialize,
            ContractStrictness::DenyUnknownFields,
            "urn:kanban-tool:schema:cli:maintenance-rebuild-output.v1",
            "schemas/fixtures/cli/maintenance-rebuild-output.v1.valid.json",
            cli_test("cli_maintenance_contract_adoption", "maintenance_adoption::maintenance_rebuild_cli_producer"),
            cli_test("cli_maintenance_contract_adoption", "maintenance_adoption::maintenance_rebuild_cli_consumer"),
            ContractTransport::NoTransport,
        ),
        OperationContract::adopted(
            "cli.maintenance-cleanup.output",
            "kanban maintenance cleanup --json stdout",
            ContractSurface::Cli,
            "maintenance cleanup",
            ContractDirection::Serialize,
            ContractStrictness::DenyUnknownFields,
            "urn:kanban-tool:schema:cli:maintenance-cleanup-output.v1",
            "schemas/fixtures/cli/maintenance-cleanup-output.v1.valid.json",
            cli_test("cli_maintenance_contract_adoption", "maintenance_adoption::maintenance_cleanup_cli_producer"),
            cli_test("cli_maintenance_contract_adoption", "maintenance_adoption::maintenance_cleanup_cli_consumer"),
            ContractTransport::NoTransport,
        ),
        OperationContract::adopted(
            "cli.import-v30.output",
            "kanban import-v30 --json stdout",
            ContractSurface::Cli,
            "import-v30",
            ContractDirection::Serialize,
            ContractStrictness::DenyUnknownFields,
            "urn:kanban-tool:schema:cli:import-v30-output:v1",
            "schemas/fixtures/cli/import-v30-output.v1.valid.json",
            cli_test("cli_maintenance_contract_adoption", "maintenance_adoption::legacy_import_v30_cli_producer"),
            cli_test("cli_maintenance_contract_adoption", "maintenance_adoption::legacy_import_v30_cli_consumer"),
            ContractTransport::NoTransport,
        ),
    ]
}

/// The maintenance API request and response rows and the maintenance CLI output rows.
pub fn maintenance_operation_contracts() -> (r: Vec<OperationContract>)
    ensures
        r@ == maintenance_rows(),
{
    reveal(maintenance_rows);
    let r = vec![
        OperationContract::adopted(
            "api.maintenance-path.request",
            "POST /api/v1/maintenance/{operation} body",
            ContractSurface::Api,
            "POST /api/v1/maintenance/{operation}",
            ContractDirection::Deserialize,
            ContractStrictness::DenyUnknownFields,
            "urn:kanban-tool:schema:api:maintenance-path-request:v1",
            "schemas/fixtures/api/maintenance-path-request.v1.valid.json",
            server_route_test("maintenance_adoption::maintenance_path_request_producer"),
            server_route_test("maintenance_adoption::maintenance_path_request_consumer"),
            ContractTransport::Http { operation_key: Some("POST /api/v1/maintenance/{operation}"), location: HttpTransportLocation::Body, parameters: &[] },
        ),
        OperationContract::adopted(
            "api.maintenance-import.request",
            "POST /api/v1/maintenance/import body",
            ContractSurface::Api,
            "POST /api/v1/maintenance/import",
            ContractDirection::Deserialize,
            ContractStrictness::DenyUnknownFields,
            "urn:kanban-tool:schema:api:maintenance-import-request:v1",
            "schemas/fixtures/api/maintenance-import-request.v1.valid.json",
            server_route_test("maintenance_adoption::maintenance_import_request_producer"),
            server_route_test("maintenance_adoption::maintenance_import_request_consumer"),
            ContractTransport::Http { operation_key: Some("POST /api/v1/maintenance/import"), location: HttpTransportLocation::Body, parameters: &[] },
        ),
        OperationContract::adopted(
            "api.maintenance-backup.request",
            "POST /api/v1/maintenance/backup body",
            ContractSurface::Api,
            "POST /api/v1/maintenance/backup",
            ContractDirection::Deserialize,
            ContractStrictness::DenyUnknownFields,
            "urn:kanban-tool:schema:api:maintenance-backup-request:v1",
            "schemas/fixtures/api/maintenance-backup-request.v1.valid.json",
            server_route_test("maintenance_adoption::maintenance_backup_request_producer"),
            server_route_test("maintenance_adoption::maintenance_backup_request_consumer"),
            ContractTransport::Http { operation_key: Some("POST /api/v1/maintenance/backup"), location: HttpTransportLocation::Body, parameters: &[] },
        ),
        OperationContract::adopted(
            "api.maintenance-export.request",
            "POST /api/v1/maintenance/export body",
            ContractSurface::Api,
            "POST /api/v1/maintenance/export",
            ContractDirection::Deserialize,
            ContractStrictness::DenyUnknownFields,
            "urn:kanban-tool:schema:api:maintenance-export-request:v1",
            "schemas/fixtures/api/maintenance-export-request.v1.valid.json",
            server_route_test("maintenance_adoption::maintenance_export_request_producer"),
            server_route_test("maintenance_adoption::maintenance_export_request_consumer"),
            ContractTransport::Http { operation_key: Some("POST /api/v1/maintenance/export"), location: HttpTransportLocation::Body, parameters: &[] },
        ),
        OperationContract::adopted(
            "api.maintenance-run.request",
            "POST /api/v1/maintenance/run body",
            ContractSurface::Api,
            "POST /api/v1/maintenance/run",
            ContractDirection::Deserialize,
            ContractStrictness::DenyUnknownFields,
            "urn:kanban-tool:schema:api:maintenance-run-request:v1",
            "schemas/fixtures/api/maintenance-run-request.v1.valid.json",
            server_route_test("maintenance_adoption::maintenance_run_request_producer"),
            server_route_test("maintenance_adoption::maintenance_run_request_consumer"),
            ContractTransport::Http { operation_key: Some("POST /api/v1/maintenance/run"), location: HttpTransportLocation::Body, parameters: &[] },
        ),
        OperationContract::adopted(
            "api.maintenance-rebuild.request",
            "POST /api/v1/maintenance/rebuild body",
            ContractSurface::Api,
            "POST /api/v1/maintenance/rebuild",
            ContractDirection::Deserialize,
            ContractStrictness::DenyUnknownFields,
            "urn:kanban-tool:schema:api:maintenance-rebuild-request:v1",
            "schemas/fixtures/api/maintenance-rebuild-request.v1.valid.json",
            server_route_test("maintenance_adoption::maintenance_rebuild_request_producer"),
            server_route_test("maintenance_adoption::maintenance_rebuild_request_consumer"),
            ContractTransport::Http { operation_key: Some("POST /api/v1/maintenance/rebuild"), location: HttpTransportLocation::Body, parameters: &[] },
        ),
        OperationContract::adopted(
            "api.maintenance-cleanup.request",
            "POST /api/v1/maintenance/cleanup body",
            ContractSurface::Api,
            "POST /api/v1/maintenance/cleanup",
            ContractDirection::Deserialize,
            ContractStrictness::DenyUnknownFields,
            "urn:kanban-tool:schema:api:maintenance-cleanup-request:v1",
            "schemas/fixtures/api/maintenance-cleanup-request.v1.valid.json",
            server_route_test("maintenance_adoption::maintenance_cleanup_request_producer"),
            server_route_test("maintenance_adoption::maintenance_cleanup_request_consumer"),
            ContractTransport::Http { operation_key: Some("POST /api/v1/maintenance/cleanup"), location: HttpTransportLocation::Body, parameters: &[] },
        ),
        OperationContract::adopted(
            "api.maintenance-import-v30.request",
            "POST /api/v1/maintenance/import-v30 body",
            ContractSurface::Api,
            "POST /api/v1/maintenance/import-v30",
            ContractDirection::Deserialize,
            ContractStrictness::DenyUnknownFields,
            "urn:kanban-tool:schema:api:maintenance-import-v30-request:v1",
            "schemas/fixtures/api/maintenance-import-v30-request.v1.valid.json",
            server_route_test("maintenance_adoption::legacy_import_v30_request_producer"),
            server_route_test("maintenance_adoption::legacy_import_v30_request_consumer"),
            ContractTransport::Http { operation_key: Some("POST /api/v1/maintenance/import-v30"), location: HttpTransportLocation::Body, parameters: &[] },
        ),
        OperationContract::adopted(
            "api.maintenance-backup.response",
            "POST /api/v1/maintenance/backup response",
            ContractSurface::Api,
            "POST /api/v1/maintenance/backup",
            ContractDirection::Serialize,
            ContractStrictness::DenyUnknownFields,
            "urn:kanban-tool:schema:api:maintenance-backup-response:v1",
            "schemas/fixtures/api/maintenance-backup-response.v1.valid.json",
            server_route_test("maintenance_adoption::maintenance_backup_response_producer"),
            server_route_test("maintenance_adoption::maintenance_backup_response_consumer"),
            ContractTransport::Http { operation_key: Some("POST /api/v1/maintenance/backup"), location: HttpTransportLocation::Success, parameters: &[] },
        ),
        OperationContract::adopted(
            "api.maintenance-export.response",
            "POST /api/v1/maintenance/export response",
            ContractSurface::Api,
            "POST /api/v1/maintenance/export",
            ContractDirection::Serialize,
            ContractStrictness::DenyUnknownFields,
            "urn:kanban-tool:schema:api:maintenance-export-response:v1",
            "schemas/fixtures/api/maintenance-export-response.v1.valid.json",
            server_route_test("maintenance_adoption::maintenance_export_response_producer"),
            server_route_test("maintenance_adoption::maintenance_export_response_consumer"),
            ContractTransport::Http { operation_key: Some("POST /api/v1/maintenance/export"), location: HttpTransportLocation::Success, parameters: &[] },
        ),
        OperationContract::adopted(
            "api.maintenance-import.response",
            "POST /api/v1/maintenance/import response",
            ContractSurface::Api,
            "POST /api/v1/maintenance/import",
            ContractDirection::Serialize,
            ContractStrictness::DenyUnknownFields,
            "urn:kanban-tool:schema:api:maintenance-import-response:v1",
            "schemas/fixtures/api/maintenance-import-response.v1.valid.json",
            server_route_test("maintenance_adoption::maintenance_import_response_producer"),
            server_route_test("maintenance_adoption::maintenance_import_response_consumer"),
            ContractTransport::Http { operation_key: Some("POST /api/v1/maintenance/import"), location: HttpTransportLocation::Success, parameters: &[] },
        ),
        OperationContract::adopted(
            "api.maintenance-vacuum.response",
            "POST /api/v1/maintenance/vacuum response",
            ContractSurface::Api,
            "POST /api/v1/maintenance/vacuum",
            ContractDirection::Serialize,
            ContractStrictness::DenyUnknownFields,
            "urn:kanban-tool:schema:api:maintenance-vacuum-response:v1",
            "schemas/fixtures/api/maintenance-vacuum-response.v1.valid.json",
            server_route_test("maintenance_adoption::maintenance_vacuum_response_producer"),
            server_route_test("maintenance_adoption::maintenance_vacuum_response_consumer"),
            ContractTransport::Http { operation_key: Some("POST /api/v1/maintenance/vacuum"), location: HttpTransportLocation::Success, parameters: &[] },
        ),
        OperationContract::adopted(
            "api.maintenance-status.response",
            "GET /api/v1/maintenance/status response",
            ContractSurface::Api,
            "GET /api/v1/maintenance/status",
            ContractDirection::Serialize,
            ContractStrictness::DenyUnknownFields,
            "urn:kanban-tool:schema:api:maintenance-status-response:v1",
            "schemas/fixtures/api/maintenance-status-response.v1.valid.json",
            server_route_test("maintenance_adoption::maintenance_status_response_producer"),
            server_route_test("maintenance_adoption::maintenance_status_response_consumer"),
            ContractTransport::Http { operation_key: Some("GET /api/v1/maintenance/status"), location: HttpTransportLocation::Success, parameters: &[] },
        ),
        OperationContract::adopted(
            "api.maintenance-run.response",
            "POST /api/v1/maintenance/run response",
            ContractSurface::Api,
            "POST /api/v1/maintenance/run",
            ContractDirection::Serialize,
            ContractStrictness::DenyUnknownFields,
            "urn:kanban-tool:schema:api:maintenance-run-response:v1",
            "schemas/fixtures/api/maintenance-run-response.v1.valid.json",
            server_route_test("maintenance_adoption::maintenance_run_response_producer"),
            server_route_test("maintenance_adoption::maintenance_run_response_consumer"),
            ContractTransport::Http { operation_key: Some("POST /api/v1/maintenance/run"), location: HttpTransportLocation::Success, parameters: &[] },
        ),
        OperationContract::adopted(
            "api.maintenance-rebuild.response",
            "POST /api/v1/maintenance/rebuild response",
            ContractSurface::Api,
            "POST /api/v1/maintenance/rebuild",
            ContractDirection::Serialize,
            ContractStrictness::DenyUnknownFields,
            "urn:kanban-tool:schema:api:maintenance-rebuild-response:v1",
            "schemas/fixtures/api/maintenance-rebuild-response.v1.valid.json",
            server_route_test("maintenance_adoption::maintenance_rebuild_response_producer"),
            server_route_test("maintenance_adoption::maintenance_rebuild_response_consumer"),
            ContractTransport::Http { operation_key: Some("POST /api/v1/maintenance/rebuild"), location: HttpTransportLocation::Success, parameters: &[] },
        ),
        OperationContract::adopted(
            "api.maintenance-cleanup.response",
            "POST /api/v1/maintenance/cleanup response",
            ContractSurface::Api,
            "POST /api/v1/maintenance/cleanup",
            ContractDirection::Serialize,
            ContractStrictness::DenyUnknownFields,
            "urn:kanban-tool:schema:api:maintenance-cleanup-response:v1",
            "schemas/fixtures/api/maintenance-cleanup-response.v1.valid.json",
            server_route_test("maintenance_adoption::maintenance_cleanup_response_producer"),
            server_route_test("maintenance_adoption::maintenance_cleanup_response_consumer"),
            ContractTransport::Http { operation_key: Some("POST /api/v1/maintenance/cleanup"), location: HttpTransportLocation::Success, parameters: &[] },
        ),
        OperationContract::adopted(
            "api.maintenance-import-v30.response",
            "POST /api/v1/maintenance/import-v30 response",
            ContractSurface::Api,
            "POST /api/v1/maintenance/import-v30",
            ContractDirection::Serialize,
            ContractStrictness::DenyUnknownFields,
            "urn:kanban-tool:schema:api:maintenance-import-v30-response:v1",
            "schemas/fixtures/api/maintenance-import-v30-response.v1.valid.json",
            server_route_test("maintenance_adoption::legacy_import_v30_response_producer"),
            server_route_test("maintenance_adoption::legacy_import_v30_response_consumer"),
            ContractTransport::Http { operation_key: Some("POST /api/v1/maintenance/import-v30"), location: HttpTransportLocation::Success, parameters: &[] },
        ),
        OperationContract::adopted(
            "cli.maintenance-backup.output",
            "kanban backup --json stdout",
            ContractSurface::Cli,
            "backup",
            ContractDirection::Serialize,
            ContractStrictness::DenyUnknownFields,
            "urn:kanban-tool:schema:cli:maintenance-backup-output:v1",
            "schemas/fixtures/cli/maintenance-backup-output.v1.valid.json",
            cli_test("cli_maintenance_contract_adoption", "maintenance_adoption::maintenance_backup_cli_producer"),
            cli_test("cli_maintenance_contract_adoption", "maintenance_adoption::maintenance_backup_cli_consumer"),
            ContractTransport::NoTransport,
        ),
        OperationContract::adopted(
            "cli.maintenance-export.output",
            "kanban export --json stdout",
            ContractSurface::Cli,
            "export",
            ContractDirection::Serialize,
            ContractStrictness::DenyUnknownFields,
            "urn:kanban-tool:schema:cli:maintenance-export-output:v1",
            "schemas/fixtures/cli/maintenance-export-output.v1.valid.json",
            cli_test("cli_maintenance_contract_adoption", "maintenance_adoption::maintenance_export_cli_producer"),
            cli_test("cli_maintenance_contract_adoption", "maintenance_adoption::maintenance_export_cli_consumer"),
            ContractTransport::NoTransport,
        ),
        OperationContract::adopted(
            "cli.maintenance-import.output",
            "kanban import --json stdout",
            ContractSurface::Cli,
            "import",
            ContractDirection::Serialize,
            ContractStrictness::DenyUnknownFields,
            "urn:kanban-tool:schema:cli:maintenance-import-output:v1",
            "schemas/fixtures/cli/maintenance-import-output.v1.valid.json",
            cli_test("cli_maintenance_contract_adoption", "maintenance_adoption::maintenance_import_cli_producer"),
            cli_test("cli_maintenance_contract_adoption", "maintenance_adoption::maintenance_import_cli_consumer"),
            ContractTransport::NoTransport,
        ),
        OperationContract::adopted(
            "cli.maintenance-vacuum.output",
            "kanban vacuum --json stdout",
            ContractSurface::Cli,
            "vacuum",
            ContractDirection::Serialize,
            ContractStrictness::DenyUnknownFields,
            "urn:kanban-tool:schema:cli:maintenance-vacuum-output:v1",
            "schemas/fixtures/cli/maintenance-vacuum-output.v1.valid.json",
            cli_test("cli_maintenance_contract_adoption", "maintenance_adoption::maintenance_vacuum_cli_producer"),
            cli_test("cli_maintenance_contract_adoption", "maintenance_adoption::maintenance_vacuum_cli_consumer"),
            ContractTransport::NoTransport,
        ),
        OperationContract::adopted(
            "cli.maintenance-status-v1.output",
            "kanban maintenance status --json stdout",
            ContractSurface::Cli,
            "maintenance status",
            ContractDirection::Serialize,
            ContractStrictness::DenyUnknownFields,
            "urn:kanban-tool:schema:cli:maintenance-status-output:v1",
            "schemas/fixtures/cli/maintenance-status-output.v1.valid.json",
            cli_test("cli_maintenance_contract_adoption", "maintenance_adoption::maintenance_status_cli_producer"),
            cli_test("cli_maintenance_contract_adoption", "maintenance_adoption::maintenance_status_cli_consumer"),
            ContractTransport::NoTransport,
        ),
        OperationContract::adopted(
            "cli.maintenance-run-v1.output",
            "kanban maintenance run --json stdout",
            ContractSurface::Cli,
            "maintenance run",
            ContractDirection::Serialize,
            ContractStrictness::DenyUnknownFields,
            "urn:kanban-tool:schema:cli:maintenance-run-output:v1",
            "schemas/fixtures/cli/maintenance-run-output.v1.valid.json",
            cli_test("cli_maintenance_contract_adoption", "maintenance_adoption::maintenance_run_cli_producer"),
            cli_test("cli_maintenance_contract_adoption", "maintenance_adoption::maintenance_run_cli_consumer"),
            ContractTransport::NoTransport,
        ),
        OperationContract::adopted(
            "cli.maintenance-rebuild-v1.output",
            "kanban maintenance rebuild --json stdout",
            ContractSurface::Cli,
            "maintenance rebuild",
            ContractDirection::Serialize,
            ContractStrictness::DenyUnknownFields,
            "urn:kanban-tool:schema:cli:maintenance-rebuild-output.v1",
            "schemas/fixtures/cli/maintenance-rebuild-output.v1.valid.json",
            cli_test("cli_maintenance_contract_adoption", "maintenance_adoption::maintenance_rebuild_cli_producer"),
            cli_test("cli_maintenance_contract_adoption", "maintenance_adoption::maintenance_rebuild_cli_consumer"),
            ContractTransport::NoTransport,
        ),
        OperationContract::adopted(
            "cli.maintenance-cleanup.output",
            "kanban maintenance cleanup --json stdout",
            ContractSurface::Cli,
            "maintenance cleanup",
            ContractDirection::Serialize,
            ContractStrictness::DenyUnknownFields,
            "urn:kanban-tool:schema:cli:maintenance-cleanup-output.v1",
            "schemas/fixtures/cli/maintenance-cleanup-output.v1.valid.json",
            cli_test("cli_maintenance_contract_adoption", "maintenance_adoption::maintenance_cleanup_cli_producer"),
            cli_test("cli_maintenance_contract_adoption", "maintenance_adoption::maintenance_cleanup_cli_consumer"),
            ContractTransport::NoTransport,
        ),
        OperationContract::adopted(
            "cli.import-v30.output",
            "kanban import-v30 --json stdout",
            ContractSurface::Cli,
            "import-v30",
            ContractDirection::Serialize,
            ContractStrictness::DenyUnknownFields,
            "urn:kanban-tool:schema:cli:import-v30-output:v1",
            "schemas/fixtures/cli/import-v30-output.v1.valid.json",
            cli_test("cli_maintenance_contract_adoption", "maintenance_adoption::legacy_import_v30_cli_producer"),
            cli_test("cli_maintenance_contract_adoption", "maintenance_adoption::legacy_import_v30_cli_consumer"),
            ContractTransport::NoTransport,
        ),
    ];
    assert(r@ =~= maintenance_rows());
    r
}

/// The attachment API path, request and response rows, adopted by the file-backed round trip.
#[verifier::opaque]
pub open spec fn attachment_api_rows() -> Seq<OperationContract> {
    seq![
        OperationContract::adopted(
            "api.list-attachments.path",
            "GET /api/v1/tasks/:task_id/attachments path",
            ContractSurface::Api,
            "GET /api/v1/tasks/:task_id/attachments",
            ContractDirection::Deserialize,
            ContractStrictness::DenyUnknownFields,
            "urn:kanban-tool:schema:api:list-attachments-path:v1",
            "schemas/fixtures/api/list-attachments-path.v1.valid.json",
            server_route_test("http::operations::attachments::tests::attachment_round_trip_is_metadata_typed_and_file_backed"),
            server_route_test("http::operations::attachments::tests::attachment_round_trip_is_metadata_typed_and_file_backed"),
            ContractTransport::Http { operation_key: Some("GET /api/v1/tasks/:task_id/attachments"), location: HttpTransportLocation::Path, parameters: &[WireParameter { name: "task_id", cardinality: Some(WireParameterCardinality::RequiredOne) }] },
        ),
        OperationContract::adopted(
            "api.list-attachments.response",
            "GET /api/v1/tasks/:task_id/attachments success",
            ContractSurface::Api,
            "GET /api/v1/tasks/:task_id/attachments",
            ContractDirection::Serialize,
            ContractStrictness::DenyUnknownFields,
            "urn:kanban-tool:schema:api:list-attachments-response:v1",
            "schemas/fixtures/api/list-attachments-response.v1.valid.json",
            server_route_test("http::operations::attachments::tests::attachment_round_trip_is_metadata_typed_and_file_backed"),
            server_route_test("http::operations::attachments::tests::attachment_round_trip_is_metadata_typed_and_file_backed"),
            ContractTransport::Http { operation_key: Some("GET /api/v1/tasks/:task_id/attachments"), location: HttpTransportLocation::Success, parameters: &[] },
        ),
        OperationContract::adopted(
            "api.create-attachment.path",
            "POST /api/v1/tasks/:task_id/attachments path",
            ContractSurface::Api,
            "POST /api/v1/tasks/:task_id/attachments",
            ContractDirection::Deserialize,
            ContractStrictness::DenyUnknownFields,
            "urn:kanban-tool:schema:api:create-attachment-path:v1",
            "schemas/fixtures/api/create-attachment-path.v1.valid.json",
            server_route_test("http::operations::attachments::tests::attachment_round_trip_is_metadata_typed_and_file_backed"),
            server_route_test("http::operations::attachments::tests::attachment_round_trip_is_metadata_typed_and_file_backed"),
            ContractTransport::Http { operation_key: Some("POST /api/v1/tasks/:task_id/attachments"), location: HttpTransportLocation::Path, parameters: &[WireParameter { name: "task_id", cardinality: Some(WireParameterCardinality::RequiredOne) }] },
        ),
        OperationContract::adopted(
            "api.create-attachment.request",
            "POST /api/v1/tasks/:task_id/attachments body",
            ContractSurface::Api,
            "POST /api/v1/tasks/:task_id/attachments",
            ContractDirection::Deserialize,
            ContractStrictness::DenyUnknownFields,
            "urn:kanban-tool:schema:api:create-attachment-request:v1",
            "schemas/fixtures/api/create-attachment-request.v1.valid.json",
            server_route_test("http::operations::attachments::tests::attachment_round_trip_is_metadata_typed_and_file_backed"),
            server_route_test("http::operations::attachments::tests::attachment_round_trip_is_metadata_typed_and_file_backed"),
            ContractTransport::Http { operation_key: Some("POST /api/v1/tasks/:task_id/attachments"), location: HttpTransportLocation::Body, parameters: &[] },
        ),
        OperationContract::adopted(
            "api.create-attachment.response",
            "POST /api/v1/tasks/:task_id/attachments success",
            ContractSurface::Api,
            "POST /api/v1/tasks/:task_id/attachments",
            ContractDirection::Serialize,
            ContractStrictness::DenyUnknownFields,
            "urn:kanban-tool:schema:api:create-attachment-response:v1",
            "schemas/fixtures/api/create-attachment-response.v1.valid.json",
            server_route_test("http::operations::attachments::tests::attachment_round_trip_is_metadata_typed_and_file_backed"),
            server_route_test("http::operations::attachments::tests::attachment_round_trip_is_metadata_typed_and_file_backed"),
            ContractTransport::Http { operation_key: Some("POST /api/v1/tasks/:task_id/attachments"), location: HttpTransportLocation::Success, parameters: &[] },
        ),
        OperationContract::adopted(
            "api.download-attachment.path",
            "GET /api/v1/tasks/:task_id/attachments/:attachment_id path",
            ContractSurface::Api,
            "GET /api/v1/tasks/:task_id/attachments/:attachment_id",
            ContractDirection::Deserialize,
            ContractStrictness::DenyUnknownFields,
            "urn:kanban-tool:schema:api:download-attachment-path:v1",
            "schemas/fixtures/api/download-attachment-path.v1.valid.json",
            server_route_test("http::operations::attachments::tests::attachment_round_trip_is_metadata_typed_and_file_backed"),
            server_route_test("http::operations::attachments::tests::attachment_round_trip_is_metadata_typed_and_file_backed"),
            ContractTransport::Http { operation_key: Some("GET /api/v1/tasks/:task_id/attachments/:attachment_id"), location: HttpTransportLocation::Path, parameters: &[WireParameter { name: "task_id", cardinality: Some(WireParameterCardinality::RequiredOne) }, WireParameter { name: "attachment_id", cardinality: Some(WireParameterCardinality::RequiredOne) }] },
        ),
        OperationContract::adopted(
            "api.download-attachment.response",
            "GET /api/v1/tasks/:task_id/attachments/:attachment_id success",
            ContractSurface::Api,
            "GET /api/v1/tasks/:task_id/attachments/:attachment_id",
            ContractDirection::Serialize,
            ContractStrictness::DenyUnknownFields,
            "urn:kanban-tool:schema:api:download-attachment-response:v1",
            "schemas/fixtures/api/download-attachment-response.v1.valid.json",
            server_route_test("http::operations::attachments::tests::attachment_round_trip_is_metadata_typed_and_file_backed"),
            server_route_test("http::operations::attachments::tests::attachment_round_trip_is_metadata_typed_and_file_backed"),
            ContractTransport::Http { operation_key: Some("GET /api/v1/tasks/:task_id/attachments/:attachment_id"), location: HttpTransportLocation::Success, parameters: &[] },
        ),
        OperationContract::adopted(
            "api.delete-attachment.path",
            "DELETE /api/v1/tasks/:task_id/attachments/:attachment_id path",
            ContractSurface::Api,
            "DELETE /api/v1/tasks/:task_id/attachments/:attachment_id",
            ContractDirection::Deserialize,
            ContractStrictness::DenyUnknownFields,
            "urn:kanban-tool:schema:api:delete-attachment-path:v1",
            "schemas/fixtures/api/delete-attachment-path.v1.valid.json",
            server_route_test("http::operations::attachments::tests::attachment_round_trip_is_metadata_typed_and_file_backed"),
            server_route_test("http::operations::attachments::tests::attachment_round_trip_is_metadata_typed_and_file_backed"),
            ContractTransport::Http { operation_key: Some("DELETE /api/v1/tasks/:task_id/attachments/:attachment_id"), location: HttpTransportLocation::Path, parameters: &[WireParameter { name: "task_id", cardinality: Some(WireParameterCardinality::RequiredOne) }, WireParameter { name: "attachment_id", cardinality: Some(WireParameterCardinality::RequiredOne) }] },
        ),
        OperationContract::adopted(
            "api.delete-attachment.response",
            "DELETE /api/v1/tasks/:task_id/attachments/:attachment_id success",
            ContractSurface::Api,
            "DELETE /api/v1/tasks/:task_id/attachments/:attachment_id",
            ContractDirection::Serialize,
            ContractStrictness::DenyUnknownFields,
            "urn:kanban-tool:schema:api:delete-attachment-response:v1",
            "schemas/fixtures/api/delete-attachment-response.v1.valid.json",
            server_route_test("http::operations::attachments::tests::attachment_round_trip_is_metadata_typed_and_file_backed"),
            server_route_test("http::operations::attachments::tests::attachment_round_trip_is_metadata_typed_and_file_backed"),
            ContractTransport::Http { operation_key: Some("DELETE /api/v1/tasks/:task_id/attachments/:attachment_id"), location: HttpTransportLocation::Success, parameters: &[] },
        ),
    ]
}

/// The attachment API path, request and response rows.
pub fn attachment_api_contracts() -> (r: Vec<OperationContract>)
    ensures
        r@ == attachment_api_rows(),
{
    reveal(attachment_api_rows);
    let r = vec![
        OperationContract::adopted(
            "api.list-attachments.path",
            "GET /api/v1/tasks/:task_id/attachments path",
            ContractSurface::Api,
            "GET /api/v1/tasks/:task_id/attachments",
            ContractDirection::Deserialize,
            ContractStrictness::DenyUnknownFields,
            "urn:kanban-tool:schema:api:list-attachments-path:v1",
            "schemas/fixtures/api/list-attachments-path.v1.valid.json",
            server_route_test("http::operations::attachments::tests::attachment_round_trip_is_metadata_typed_and_file_backed"),
            server_route_test("http::operations::attachments::tests::attachment_round_trip_is_metadata_typed_and_file_backed"),
            ContractTransport::Http { operation_key: Some("GET /api/v1/tasks/:task_id/attachments"), location: HttpTransportLocation::Path, parameters: &[WireParameter { name: "task_id", cardinality: Some(WireParameterCardinality::RequiredOne) }] },
        ),
        OperationContract::adopted(
            "api.list-attachments.response",
            "GET /api/v1/tasks/:task_id/attachments success",
            ContractSurface::Api,
            "GET /api/v1/tasks/:task_id/attachments",
            ContractDirection::Serialize,
            ContractStrictness::DenyUnknownFields,
            "urn:kanban-tool:schema:api:list-attachments-response:v1",
            "schemas/fixtures/api/list-attachments-response.v1.valid.json",
            server_route_test("http::operations::attachments::tests::attachment_round_trip_is_metadata_typed_and_file_backed"),
            server_route_test("http::operations::attachments::tests::attachment_round_trip_is_metadata_typed_and_file_backed"),
            ContractTransport::Http { operation_key: Some("GET /api/v1/tasks/:task_id/attachments"), location: HttpTransportLocation::Success, parameters: &[] },
        ),
        OperationContract::adopted(
            "api.create-attachment.path",
            "POST /api/v1/tasks/:task_id/attachments path",
            ContractSurface::Api,
            "POST /api/v1/tasks/:task_id/attachments",
            ContractDirection::Deserialize,
            ContractStrictness::DenyUnknownFields,
            "urn:kanban-tool:schema:api:create-attachment-path:v1",
            "schemas/fixtures/api/create-attachment-path.v1.valid.json",
            server_route_test("http::operations::attachments::tests::attachment_round_trip_is_metadata_typed_and_file_backed"),
            server_route_test("http::operations::attachments::tests::attachment_round_trip_is_metadata_typed_and_file_backed"),
            ContractTransport::Http { operation_key: Some("POST /api/v1/tasks/:task_id/attachments"), location: HttpTransportLocation::Path, parameters: &[WireParameter { name: "task_id", cardinality: Some(WireParameterCardinality::RequiredOne) }] },
        ),
        OperationContract::adopted(
            "api.create-attachment.request",
            "POST /api/v1/tasks/:task_id/attachments body",
            ContractSurface::Api,
            "POST /api/v1/tasks/:task_id/attachments",
            ContractDirection::Deserialize,
            ContractStrictness::DenyUnknownFields,
            "urn:kanban-tool:schema:api:create-attachment-request:v1",
            "schemas/fixtures/api/create-attachment-request.v1.valid.json",
            server_route_test("http::operations::attachments::tests::attachment_round_trip_is_metadata_typed_and_file_backed"),
            server_route_test("http::operations::attachments::tests::attachment_round_trip_is_metadata_typed_and_file_backed"),
            ContractTransport::Http { operation_key: Some("POST /api/v1/tasks/:task_id/attachments"), location: HttpTransportLocation::Body, parameters: &[] },
        ),
        OperationContract::adopted(
            "api.create-attachment.response",
            "POST /api/v1/tasks/:task_id/attachments success",
            ContractSurface::Api,
            "POST /api/v1/tasks/:task_id/attachments",
            ContractDirection::Serialize,
            ContractStrictness::DenyUnknownFields,
            "urn:kanban-tool:schema:api:create-attachment-response:v1",
            "schemas/fixtures/api/create-attachment-response.v1.valid.json",
            server_route_test("http::operations::attachments::tests::attachment_round_trip_is_metadata_typed_and_file_backed"),
            server_route_test("http::operations::attachments::tests::attachment_round_trip_is_metadata_typed_and_file_backed"),
            ContractTransport::Http { operation_key: Some("POST /api/v1/tasks/:task_id/attachments"), location: HttpTransportLocation::Success, parameters: &[] },
        ),
        OperationContract::adopted(
            "api.download-attachment.path",
            "GET /api/v1/tasks/:task_id/attachments/:attachment_id path",
            ContractSurface::Api,
            "GET /api/v1/tasks/:task_id/attachments/:attachment_id",
            ContractDirection::Deserialize,
            ContractStrictness::DenyUnknownFields,
            "urn:kanban-tool:schema:api:download-attachment-path:v1",
            "schemas/fixtures/api/download-attachment-path.v1.valid.json",
            server_route_test("http::operations::attachments::tests::attachment_round_trip_is_metadata_typed_and_file_backed"),
            server_route_test("http::operations::attachments::tests::attachment_round_trip_is_metadata_typed_and_file_backed"),
            ContractTransport::Http { operation_key: Some("GET /api/v1/tasks/:task_id/attachments/:attachment_id"), location: HttpTransportLocation::Path, parameters: &[WireParameter { name: "task_id", cardinality: Some(WireParameterCardinality::RequiredOne) }, WireParameter { name: "attachment_id", cardinality: Some(WireParameterCardinality::RequiredOne) }] },
        ),
        OperationContract::adopted(
            "api.download-attachment.response",
            "GET /api/v1/tasks/:task_id/attachments/:attachment_id success",
            ContractSurface::Api,
            "GET /api/v1/tasks/:task_id/attachments/:attachment_id",
            ContractDirection::Serialize,
            ContractStrictness::DenyUnknownFields,
            "urn:kanban-tool:schema:api:download-attachment-response:v1",
            "schemas/fixtures/api/download-attachment-response.v1.valid.json",
            server_route_test("http::operations::attachments::tests::attachment_round_trip_is_metadata_typed_and_file_backed"),
            server_route_test("http::operations::attachments::tests::attachment_round_trip_is_metadata_typed_and_file_backed"),
            ContractTransport::Http { operation_key: Some("GET /api/v1/tasks/:task_id/attachments/:attachment_id"), location: HttpTransportLocation::Success, parameters: &[] },
        ),
        OperationContract::adopted(
            "api.delete-attachment.path",
            "DELETE /api/v1/tasks/:task_id/attachments/:attachment_id path",
            ContractSurface::Api,
            "DELETE /api/v1/tasks/:task_id/attachments/:attachment_id",
            ContractDirection::Deserialize,
            ContractStrictness::DenyUnknownFields,
            "urn:kanban-tool:schema:api:delete-attachment-path:v1",
            "schemas/fixtures/api/delete-attachment-path.v1.valid.json",
            server_route_test("http::operations::attachments::tests::attachment_round_trip_is_metadata_typed_and_file_backed"),
            server_route_test("http::operations::attachments::tests::attachment_round_trip_is_metadata_typed_and_file_backed"),
            ContractTransport::Http { operation_key: Some("DELETE /api/v1/tasks/:task_id/attachments/:attachment_id"), location: HttpTransportLocation::Path, parameters: &[WireParameter { name: "task_id", cardinality: Some(WireParameterCardinality::RequiredOne) }, WireParameter { name: "attachment_id", cardinality: Some(WireParameterCardinality::RequiredOne) }] },
        ),
        OperationContract::adopted(
            "api.delete-attachment.response",
            "DELETE /api/v1/tasks/:task_id/attachments/:attachment_id success",
            ContractSurface::Api,
            "DELETE /api/v1/tasks/:task_id/attachments/:attachment_id",
            ContractDirection::Serialize,
            ContractStrictness::DenyUnknownFields,
            "urn:kanban-tool:schema:api:delete-attachment-response:v1",
            "schemas/fixtures/api/delete-attachment-response.v1.valid.json",
            server_route_test("http::operations::attachments::tests::attachment_round_trip_is_metadata_typed_and_file_backed"),
            server_route_test("http::operations::attachments::tests::attachment_round_trip_is_metadata_typed_and_file_backed"),
            ContractTransport::Http { operation_key: Some("DELETE /api/v1/tasks/:task_id/attachments/:attachment_id"), location: HttpTransportLocation::Success, parameters: &[] },
        ),
    ];
    assert(r@ =~= attachment_api_rows());
    r
}

/// The attachment CLI output rows, adopted by the file-backed round trip.
#[verifier::opaque]
pub open spec fn attachment_cli_rows() -> Seq<OperationContract> {
    seq![
        OperationContract::adopted(
            "cli.attachment-add.output",
            "attachment add",
            ContractSurface::Cli,
            "attachment add",
            ContractDirection::Serialize,
            ContractStrictness::DenyUnknownFields,
            "urn:kanban-tool:schema:cli:attachment-add-output:v1",
            "schemas/fixtures/cli/attachment-add-output.v1.valid.json",
            server_route_test("http::operations::attachments::tests::attachment_round_trip_is_metadata_typed_and_file_backed"),
            server_route_test("http::operations::attachments::tests::attachment_round_trip_is_metadata_typed_and_file_backed"),
            ContractTransport::NoTransport,
        ),
        OperationContract::adopted(
            "cli.attachment-list.output",
            "attachment list",
            ContractSurface::Cli,
            "attachment list",
            ContractDirection::Serialize,
            ContractStrictness::DenyUnknownFields,
            "urn:kanban-tool:schema:cli:attachment-list-output:v1",
            "schemas/fixtures/cli/attachment-list-output.v1.valid.json",
            server_route_test("http::operations::attachments::tests::attachment_round_trip_is_metadata_typed_and_file_backed"),
            server_route_test("http::operations::attachments::tests::attachment_round_trip_is_metadata_typed_and_file_backed"),
            ContractTransport::NoTransport,
        ),
        OperationContract::adopted(
            "cli.attachment-remove.output",
            "attachment remove",
            ContractSurface::Cli,
            "attachment remove",
            ContractDirection::Serialize,
            ContractStrictness::DenyUnknownFields,
            "urn:kanban-tool:schema:cli:attachment-remove-output:v1",
            "schemas/fixtures/cli/attachment-remove-output.v1.valid.json",
            server_route_test("http::operations::attachments::tests::attachment_round_trip_is_metadata_typed_and_file_backed"),
            server_route_test("http::operations::attachments::tests::attachment_round_trip_is_metadata_typed_and_file_backed"),
            ContractTransport::NoTransport,
        ),
    ]
}

/// The attachment CLI output rows.
pub fn attachment_cli_contracts() -> (r: Vec<OperationContract>)
    ensures
        r@ == attachment_cli_rows(),
{
    reveal(attachment_cli_rows);
    let r = vec![
        OperationContract::adopted(
            "cli.attachment-add.output",
            "attachment add",
            ContractSurface::Cli,
            "attachment add",
            ContractDirection::Serialize,
            ContractStrictness::DenyUnknownFields,
            "urn:kanban-tool:schema:cli:attachment-add-output:v1",
            "schemas/fixtures/cli/attachment-add-output.v1.valid.json",
            server_route_test("http::operations::attachments::tests::attachment_round_trip_is_metadata_typed_and_file_backed"),
            server_route_test("http::operations::attachments::tests::attachment_round_trip_is_metadata_typed_and_file_backed"),
            ContractTransport::NoTransport,
        ),
        OperationContract::adopted(
            "cli.attachment-list.output",
            "attachment list",
            ContractSurface::Cli,
            "attachment list",
            ContractDirection::Serialize,
            ContractStrictness::DenyUnknownFields,
            "urn:kanban-tool:schema:cli:attachment-list-output:v1",
            "schemas/fixtures/cli/attachment-list-output.v1.valid.json",
            server_route_test("http::operations::attachments::tests::attachment_round_trip_is_metadata_typed_and_file_backed"),
            server_route_test("http::operations::attachments::tests::attachment_round_trip_is_metadata_typed_and_file_backed"),
            ContractTransport::NoTransport,
        ),
        OperationContract::adopted(
            "cli.attachment-remove.output",
            "attachment remove",
            ContractSurface::Cli,
            "attachment remove",
            ContractDirection::Serialize,
            ContractStrictness::DenyUnknownFields,
            "urn:kanban-tool:schema:cli:attachment-remove-output:v1",
            "schemas/fixtures/cli/attachment-remove-output.v1.valid.json",
            server_route_test("http::operations::attachments::tests::attachment_round_trip_is_metadata_typed_and_file_backed"),
            server_route_test("http::operations::attachments::tests::attachment_round_trip_is_metadata_typed_and_file_backed"),
            ContractTransport::NoTransport,
        ),
    ];
    assert(r@ =~= attachment_cli_rows());
    r
}

} // verus!
