use kanban_protocol::admin_catalog;
use kanban_protocol::assembly::operation_inventory;
use kanban_protocol::board_catalog;
use kanban_protocol::cli_labels_catalog;
use kanban_protocol::cli_queue_catalog;
use kanban_protocol::cli_shell_catalog;
use kanban_protocol::contract_catalog::{McpExposure, McpOperationInvariant, McpToolBinding};
use kanban_protocol::endpoint::endpoint_catalog;
use kanban_protocol::operation_catalog::surface_operation_catalog;
use kanban_protocol::inventory::{ContractSurface, ContractTransport, HttpTransportLocation, MigrationState};

const DOMAIN_INVARIANTS: &[McpOperationInvariant] = &[
    McpOperationInvariant::CanonicalHostOnly,
    McpOperationInvariant::SharedApplicationService,
    McpOperationInvariant::NoHostAdminSurface,
];

#[test]
fn admin_source_keeps_endpoint_and_child_order() {
    assert_eq!(
        admin_catalog::endpoint_catalog()
            .iter()
            .map(|endpoint| endpoint.operation_id)
            .collect::<Vec<_>>(),
        vec![
            "api.health",
            "api.get-stats",
            "api.doctor",
            "api.checkpoint",
            "api.maintenance-backup",
            "api.maintenance-export",
            "api.maintenance-import",
            "api.maintenance-vacuum",
            "api.maintenance-status",
            "api.maintenance-run",
            "api.maintenance-rebuild",
            "api.maintenance-cleanup",
            "api.maintenance-import-v30",
        ]
    );
    assert_eq!(admin_catalog::operation_contracts().len(), 34);
    assert_eq!(admin_catalog::inventory_contracts().len(), 17);
}

#[test]
fn host_admin_policy_has_no_mcp_binding() {
    let stats_binding: &[McpToolBinding] = &[McpToolBinding {
        tool_name: "stats",
        http_operations: &["api.get-stats"],
    }];
    for operation in admin_catalog::operation_declarations() {
        let policy = operation.mcp_policy.expect("admin policy");
        if operation.operation_id == "api.get-stats" {
            assert_eq!(policy.exposure, McpExposure::Domain);
            assert_eq!(policy.tool_bindings, stats_binding);
        } else {
            assert_eq!(policy.exposure, McpExposure::HostAdmin);
            assert!(policy.tool_bindings.is_empty());
        }
    }
}

#[test]
fn health_response_keeps_human_operation_separate_from_transport_key() {
    let contract = admin_catalog::operation_contracts()
        .into_iter()
        .find(|contract| contract.id == "api.health.response")
        .expect("health response contract");
    assert_eq!(contract.operation, "localhost health report");
    assert_eq!(
        contract.transport,
        ContractTransport::Http {
            operation_key: Some("GET /health"),
            location: HttpTransportLocation::Success,
            parameters: &[],
        }
    );
}

#[test]
fn board_source_projects_unique_family_rows() {
    let endpoints = board_catalog::endpoint_catalog();
    assert_eq!(
        endpoints
            .iter()
            .map(|endpoint| endpoint.operation_id)
            .collect::<Vec<_>>(),
        vec![
            "api.list-boards",
            "api.create-board",
            "api.get-board",
            "api.archive-board",
            "api.list-board-columns",
        ]
    );
    let contracts = board_catalog::operation_contracts();
    let mut ids = contracts
        .iter()
        .map(|contract| contract.id)
        .collect::<Vec<_>>();
    let count = ids.len();
    ids.sort_unstable();
    ids.dedup();
    assert_eq!(ids.len(), count);
    assert_eq!(contracts.len(), 21);
    assert!(
        contracts
            .iter()
            .all(|contract| { contract.schema_id.is_some() })
    );
}

#[test]
fn board_parent_policy_keeps_explicit_mcp_bindings() {
    let mut tools = Vec::new();
    for operation in board_catalog::operation_declarations().iter().take(5) {
        let policy = operation.mcp_policy.expect("board API MCP policy");
        assert_eq!(policy.exposure, McpExposure::Domain);
        assert_eq!(policy.invariants, DOMAIN_INVARIANTS);
        assert_eq!(policy.tool_bindings.len(), 1);
        assert_eq!(
            policy.tool_bindings[0].http_operations,
            &[operation.operation_id]
        );
        tools.push(policy.tool_bindings[0].tool_name);
    }
    tools.sort_unstable();
    tools.dedup();
    assert_eq!(tools.len(), 5);
    assert_eq!(DOMAIN_INVARIANTS.len(), 3);
}

fn assert_in_order(ids: &[&str], expected: &[&str]) {
    let mut previous = None;
    for id in expected {
        let index = ids
            .iter()
            .position(|candidate| candidate == id)
            .unwrap_or_else(|| panic!("missing historical board row: {id}"));
        if let Some(previous) = previous {
            assert!(
                previous < index,
                "historical board row order changed around {id}"
            );
        }
        previous = Some(index);
    }
}

#[test]
fn board_family_preserves_historical_inventory_order() {
    let inventory = operation_inventory().expect("operation inventory");
    let ids = inventory
        .iter()
        .map(|contract| contract.id)
        .collect::<Vec<_>>();
    assert_in_order(
        &ids,
        &[
            "cli.board-list.output",
            "cli.board-create.output",
            "cli.board-show.output",
            "cli.board-use.output",
            "cli.board-current.output",
            "cli.board-archive.output",
            "cli.board-columns.output",
            "cli.task-list.output",
        ],
    );
    assert_in_order(
        &ids,
        &[
            "api.list-board-columns.path",
            "api.list-board-columns.response",
            "api.doctor.response",
            "api.error.response",
            "api.list-boards.query",
            "api.create-board.request",
            "api.get-board.path",
            "api.archive-board.path",
            "api.list-boards.response",
            "api.create-board.response",
            "api.get-board.response",
            "api.archive-board.response",
            "api.archive-task.request",
            "api.archive-board.request",
            "api.add-dependency.request",
        ],
    );
}

#[test]
fn cli_labels_source_preserves_contiguous_surface_order() {
    let operations = cli_labels_catalog::operation_declarations();
    assert_eq!(operations.len(), 45);
    assert_eq!(
        operations.first().map(|operation| operation.key),
        Some("label add")
    );
    assert_eq!(
        operations.last().map(|operation| operation.key),
        Some("signal supersede")
    );
    assert_eq!(operations[36].operation_id, "cli.serve");
    assert_eq!(operations[36].migration, MigrationState::Excluded);
    assert_eq!(
        operations[36].exclusion,
        Some("daemon lifecycle 不产生有限 JSON document；运行诊断固定写 stderr")
    );
}

#[test]
fn queue_source_projects_unique_adopted_cli_outputs() {
    assert_eq!(cli_queue_catalog::operation_declarations().len(), 37);
    let contracts = cli_queue_catalog::operation_contracts();
    assert_eq!(contracts.len(), 37);

    let mut ids = contracts
        .iter()
        .map(|contract| contract.id)
        .collect::<Vec<_>>();
    let count = ids.len();
    ids.sort_unstable();
    ids.dedup();
    assert_eq!(ids.len(), count);
    assert!(contracts.iter().all(|contract| {
        contract.surface == ContractSurface::Cli
            && contract.migration == MigrationState::Adopted
            && contract.schema_id.is_some()
            && contract.fixture.is_some()
            && contract.adoption.is_some()
    }));
}

#[test]
fn queue_source_keeps_surface_keys_and_contract_ids_aligned() {
    for declaration in cli_queue_catalog::operation_declarations() {
        let surface = declaration.surface_operation();
        assert_eq!(surface.surface, ContractSurface::Cli);
        assert_eq!(surface.key, declaration.key);
        assert_eq!(surface.migration, MigrationState::Adopted);
        assert_eq!(surface.contracts, vec![declaration.contracts[0].id]);
    }
}

#[test]
fn cli_shell_source_keeps_contiguous_surface_slice_without_board_rows() {
    let keys = cli_shell_catalog::surface_catalog()
        .into_iter()
        .map(|operation| operation.key)
        .collect::<Vec<_>>();
    assert_eq!(keys.len(), 41);
    assert_eq!(keys[0], "__complete");
    assert_eq!(keys.last().map(String::as_str), Some("maintenance status"));
    for key in [
        "board archive",
        "board columns",
        "board create",
        "board list",
        "board show",
    ] {
        assert!(!keys.iter().any(|candidate| candidate == key));
    }
    assert_eq!(cli_shell_catalog::operation_contracts().len(), 36);
}

#[test]
fn cli_labels_source_has_unique_contracts_and_projects_legacy_rows_once() {
    let contracts = cli_labels_catalog::operation_contracts();
    assert_eq!(contracts.len(), 44);
    let mut ids = contracts
        .iter()
        .map(|contract| contract.id)
        .collect::<Vec<_>>();
    let count = ids.len();
    ids.sort_unstable();
    ids.dedup();
    assert_eq!(ids.len(), count);

    let inventory = operation_inventory().expect("operation inventory");
    for source in contracts {
        let matches = inventory
            .iter()
            .filter(|contract| contract.id == source.id)
            .collect::<Vec<_>>();
        assert_eq!(
            matches.len(),
            1,
            "CLI contract must be projected once: {}",
            source.id
        );
        assert_eq!(matches[0], &source, "CLI contract changed: {}", source.id);
    }
}

#[test]
fn queue_hybrid_projection_replaces_each_legacy_row_once() {
    let inventory = operation_inventory().expect("operation inventory");
    for source in cli_queue_catalog::operation_contracts() {
        let matches = inventory
            .iter()
            .filter(|contract| contract.id == source.id)
            .collect::<Vec<_>>();
        assert_eq!(
            matches.len(),
            1,
            "Queue contract must be projected once: {}",
            source.id
        );
        assert_eq!(matches[0], &source, "Queue contract changed: {}", source.id);
    }
}

#[test]
fn cli_shell_source_preserves_legacy_contract_projection() {
    let inventory = operation_inventory().expect("operation inventory");
    for source in cli_shell_catalog::operation_contracts() {
        let matches = inventory
            .iter()
            .filter(|contract| contract.id == source.id)
            .collect::<Vec<_>>();
        assert_eq!(
            matches.len(),
            1,
            "CLI contract must be projected once: {}",
            source.id
        );
        assert_eq!(matches[0], &source, "CLI contract changed: {}", source.id);
    }

    let legacy = surface_operation_catalog();
    for source in cli_shell_catalog::surface_catalog() {
        let matching = legacy
            .iter()
            .filter(|operation| operation.key == source.key)
            .collect::<Vec<_>>();
        assert_eq!(
            matching.len(),
            1,
            "CLI surface must be projected once: {}",
            source.key
        );
        assert_eq!(matching[0], &source, "CLI surface changed: {}", source.key);
    }
}

#[test]
fn board_family_hybrid_projections_are_unique_and_compatible() {
    let source_contracts = board_catalog::operation_contracts();
    let inventory = operation_inventory().expect("operation inventory");
    for source in &source_contracts {
        let matches = inventory
            .iter()
            .filter(|contract| contract.id == source.id)
            .collect::<Vec<_>>();
        assert_eq!(
            matches.len(),
            1,
            "board contract must be projected once: {}",
            source.id
        );
        assert_eq!(matches[0], source, "hybrid inventory changed {}", source.id);
    }

    let endpoints = endpoint_catalog();
    for source in board_catalog::endpoint_catalog() {
        let matches = endpoints
            .iter()
            .filter(|endpoint| endpoint.operation_id == source.operation_id)
            .collect::<Vec<_>>();
        assert_eq!(matches.len(), 1, "board endpoint must be projected once");
        assert_eq!(*matches[0], source);
    }

    let surfaces = surface_operation_catalog();
    for source in board_catalog::surface_catalog() {
        let matches = surfaces
            .iter()
            .filter(|surface| surface.key == source.key)
            .collect::<Vec<_>>();
        assert_eq!(
            matches.len(),
            1,
            "board surface must be projected once: {}",
            source.key
        );
        assert_eq!(matches[0], &source, "hybrid surface changed {}", source.key);
    }
}
