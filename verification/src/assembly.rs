//! Assembly of the operation contract inventory: the historical rows with the declared
//! catalog rows in their place, the generated-DTO and protocol adoptions, the appended
//! attachment and maintenance rows, and the canonical adoption witnesses.

use vstd::prelude::*;

use crate::admin_catalog::{admin_operations, inventory_contracts, maintenance_inventory};
use crate::board_catalog::board_operations;
use crate::cli_labels_catalog::cli_labels_operations;
use crate::cli_queue_catalog::cli_queue_operations;
use crate::cli_shell_catalog::cli_shell_operations;
use crate::contract_catalog::{
    catalog_contracts, catalog_owns_contract, find_contract, has_contract_id, projected_contracts,
    OperationDeclaration,
};
use crate::dependency_catalog::dependency_operations;
use crate::history_catalog::history_operations;
use crate::inventory::{
    AdoptionEvidence, AdoptionLocator, AdoptionWitness, ContractDirection, ContractStrictness,
    ContractSurface, ContractTransport, HttpTransportLocation, MigrationState, OperationContract,
};
use crate::legacy::{
    attachment_api_contracts, attachment_api_rows, attachment_cli_contracts, attachment_cli_rows,
    legacy_inventory, legacy_rows, maintenance_operation_contracts, maintenance_rows,
};
use crate::seqs::{
    first_index, flatten, lemma_first_index, lemma_first_index_is, lemma_first_index_none,
    lemma_flatten_contains, lemma_flatten_push,
};
use crate::text::str_eq;
use crate::witness::{converge_adoption_witnesses, converged, witnesses_defined, witnesses_ready};

verus! {

/// Whether some row has the given id.
pub open spec fn has_row(rows: Seq<OperationContract>, id: Seq<char>) -> bool {
    exists|i: int| 0 <= i < rows.len() && (#[trigger] rows[i]).id@ == id
}

/// The first row with the given id; meaningful where `has_row` holds.
pub open spec fn row_with_id(rows: Seq<OperationContract>, id: Seq<char>) -> OperationContract {
    rows[first_index(rows, has_contract_id(id)).unwrap()]
}

/// A row that exists is found.
pub proof fn lemma_has_row_found(rows: Seq<OperationContract>, id: Seq<char>)
    requires
        has_row(rows, id),
    ensures
        first_index(rows, has_contract_id(id)) is Some,
        row_with_id(rows, id).id@ == id,
{
    lemma_first_index(rows, has_contract_id(id));
    let i = choose|i: int| 0 <= i < rows.len() && (#[trigger] rows[i]).id@ == id;
    if first_index(rows, has_contract_id(id)) is None {
        assert((has_contract_id(id))(rows[i]));
    }
}

/// The rows with the given ids, each the first of its id.
pub open spec fn rows_with_ids(rows: Seq<OperationContract>, ids: Seq<&'static str>) -> Seq<OperationContract> {
    ids.map_values(|id: &'static str| row_with_id(rows, id@))
}

/// Every one of the ids has a row.
pub open spec fn rows_present(rows: Seq<OperationContract>, ids: Seq<&'static str>) -> bool {
    forall|k: int| 0 <= k < ids.len() ==> has_row(rows, (#[trigger] ids[k])@)
}

/// A row whose id the source also has is replaced by the source's first row of that id.
pub open spec fn replaced(contract: OperationContract, source: Seq<OperationContract>) -> OperationContract {
    match first_index(source, has_contract_id(contract.id@)) {
        Some(i) => source[i],
        None => contract,
    }
}

/// The board row that the dependency request row used to follow.
pub open spec fn dependency_anchor() -> &'static str {
    "api.archive-board.request"
}

/// The board column rows that precede the doctor response row.
pub open spec fn doctor_anchors() -> Seq<&'static str> {
    seq!["api.list-board-columns.path", "api.list-board-columns.response"]
}

/// The board CLI rows that precede the board use row.
pub open spec fn board_use_anchors() -> Seq<&'static str> {
    seq!["cli.board-list.output", "cli.board-create.output", "cli.board-show.output"]
}

/// The board CLI rows that precede the task list row.
pub open spec fn task_list_anchors() -> Seq<&'static str> {
    seq!["cli.board-archive.output", "cli.board-columns.output"]
}

/// The board CRUD rows that follow the shared error row.
pub open spec fn error_anchors() -> Seq<&'static str> {
    seq![
        "api.list-boards.query",
        "api.create-board.request",
        "api.get-board.path",
        "api.archive-board.path",
        "api.list-boards.response",
        "api.create-board.response",
        "api.get-board.response",
        "api.archive-board.response",
    ]
}

fn doctor_anchor_ids() -> (r: Vec<&'static str>)
    ensures
        r@ == doctor_anchors(),
{
    let r = vec!["api.list-board-columns.path", "api.list-board-columns.response"];
    assert(r@ =~= doctor_anchors());
    r
}

fn board_use_anchor_ids() -> (r: Vec<&'static str>)
    ensures
        r@ == board_use_anchors(),
{
    let r = vec!["cli.board-list.output", "cli.board-create.output", "cli.board-show.output"];
    assert(r@ =~= board_use_anchors());
    r
}

fn task_list_anchor_ids() -> (r: Vec<&'static str>)
    ensures
        r@ == task_list_anchors(),
{
    let r = vec!["cli.board-archive.output", "cli.board-columns.output"];
    assert(r@ =~= task_list_anchors());
    r
}

fn error_anchor_ids() -> (r: Vec<&'static str>)
    ensures
        r@ == error_anchors(),
{
    let r = vec![
        "api.list-boards.query",
        "api.create-board.request",
        "api.get-board.path",
        "api.archive-board.path",
        "api.list-boards.response",
        "api.create-board.response",
        "api.get-board.response",
        "api.archive-board.response",
    ];
    assert(r@ =~= error_anchors());
    r
}

/// The rows that one historical row contributes: a declared row of a migrated family takes
/// its place, an admin row takes its place, and the board rows keep their historical
/// positions around the dependency, doctor, board use, task list and error rows.
pub open spec fn hybrid_rows(
    contract: OperationContract,
    admin: Seq<OperationContract>,
    board: Seq<OperationContract>,
    migrated: Seq<OperationContract>,
) -> Seq<OperationContract> {
    let id = contract.id@;
    let lead = if id == "api.add-dependency.request"@ {
        seq![row_with_id(board, dependency_anchor()@)]
    } else {
        Seq::empty()
    };
    lead + match first_index(migrated, has_contract_id(id)) {
        Some(i) => seq![migrated[i]],
        None => (if id == "api.doctor.response"@ {
            rows_with_ids(board, doctor_anchors())
        } else {
            Seq::empty()
        }) + match first_index(admin, has_contract_id(id)) {
            Some(j) => seq![admin[j]],
            None => if id == "cli.board-use.output"@ {
                rows_with_ids(board, board_use_anchors()).push(contract)
            } else if id == "cli.task-list.output"@ {
                rows_with_ids(board, task_list_anchors()).push(contract)
            } else if id == "api.error.response"@ {
                seq![contract] + rows_with_ids(board, error_anchors())
            } else {
                seq![contract]
            },
        },
    }
}

/// The board rows that a historical row needs are there.
pub open spec fn hybrid_defined(
    contract: OperationContract,
    admin: Seq<OperationContract>,
    board: Seq<OperationContract>,
    migrated: Seq<OperationContract>,
) -> bool {
    let id = contract.id@;
    &&& id == "api.add-dependency.request"@ ==> has_row(board, dependency_anchor()@)
    &&& first_index(migrated, has_contract_id(id)) is None ==> {
        &&& id == "api.doctor.response"@ ==> rows_present(board, doctor_anchors())
        &&& first_index(admin, has_contract_id(id)) is None ==> {
            &&& id == "cli.board-use.output"@ ==> rows_present(board, board_use_anchors())
            &&& id == "cli.task-list.output"@ ==> rows_present(board, task_list_anchors())
            &&& id == "api.error.response"@ ==> rows_present(board, error_anchors())
        }
    }
}

/// The historical rows with the declared rows in their place, in historical order.
pub open spec fn hybrid_inventory(
    legacy: Seq<OperationContract>,
    admin: Seq<OperationContract>,
    board: Seq<OperationContract>,
    migrated: Seq<OperationContract>,
) -> Seq<OperationContract> {
    flatten(legacy.map_values(|c: OperationContract| hybrid_rows(c, admin, board, migrated)))
}

/// Appends the board row with the given id; the board must have one.
fn append_board_contract(inventory: &mut Vec<OperationContract>, board: &Vec<OperationContract>, id: &str)
    requires
        has_row(board@, id@),
    ensures
        final(inventory)@ == old(inventory)@.push(row_with_id(board@, id@)),
{
    proof {
        lemma_has_row_found(board@, id@);
    }
    match find_contract(board, id) {
        Some(row) => inventory.push(row),
        None => {},
    }
}

/// Appends the board rows with the given ids, in order; the board must have each.
fn append_board_contracts(inventory: &mut Vec<OperationContract>, board: &Vec<OperationContract>, ids: &Vec<&'static str>)
    requires
        rows_present(board@, ids@),
    ensures
        final(inventory)@ == old(inventory)@ + rows_with_ids(board@, ids@),
{
    let ghost start = inventory@;
    let n = ids.len();
    for k in 0..n
        invariant
            n == ids@.len(),
            rows_present(board@, ids@),
            inventory@ == start + rows_with_ids(board@, ids@.take(k as int)),
    {
        assert(has_row(board@, ids@[k as int]@));
        append_board_contract(inventory, board, ids[k]);
        assert(ids@.take(k + 1) =~= ids@.take(k as int).push(ids@[k as int]));
        assert(rows_with_ids(board@, ids@.take(k + 1)) =~= rows_with_ids(board@, ids@.take(k as int)).push(
            row_with_id(board@, ids@[k as int]@),
        ));
    }
    assert(ids@.take(n as int) =~= ids@);
}

/// Appends the rows that one historical row contributes.
fn append_hybrid_rows(
    inventory: &mut Vec<OperationContract>,
    contract: OperationContract,
    admin: &Vec<OperationContract>,
    board: &Vec<OperationContract>,
    migrated: &Vec<OperationContract>,
)
    requires
        hybrid_defined(contract, admin@, board@, migrated@),
    ensures
        final(inventory)@ == old(inventory)@ + hybrid_rows(contract, admin@, board@, migrated@),
{
    let ghost start = inventory@;
    let id = contract.id;
    let ghost lead = if id@ == "api.add-dependency.request"@ {
        seq![row_with_id(board@, dependency_anchor()@)]
    } else {
        Seq::<OperationContract>::empty()
    };
    if str_eq(id, "api.add-dependency.request") {
        append_board_contract(inventory, board, "api.archive-board.request");
    }
    assert(inventory@ =~= start + lead);
    match find_contract(migrated, id) {
        Some(row) => {
            inventory.push(row);
            assert(inventory@ =~= start + hybrid_rows(contract, admin@, board@, migrated@));
            return;
        },
        None => {},
    }
    let ghost doctor = if id@ == "api.doctor.response"@ {
        rows_with_ids(board@, doctor_anchors())
    } else {
        Seq::<OperationContract>::empty()
    };
    if str_eq(id, "api.doctor.response") {
        append_board_contracts(inventory, board, &doctor_anchor_ids());
    }
    assert(inventory@ =~= start + lead + doctor);
    let ghost before = inventory@;
    match find_contract(admin, id) {
        Some(row) => {
            inventory.push(row);
        },
        None => {
            if str_eq(id, "cli.board-use.output") {
                append_board_contracts(inventory, board, &board_use_anchor_ids());
                inventory.push(contract);
            } else if str_eq(id, "cli.task-list.output") {
                append_board_contracts(inventory, board, &task_list_anchor_ids());
                inventory.push(contract);
            } else if str_eq(id, "api.error.response") {
                inventory.push(contract);
                append_board_contracts(inventory, board, &error_anchor_ids());
            } else {
                inventory.push(contract);
            }
        },
    }
    assert(inventory@ =~= start + hybrid_rows(contract, admin@, board@, migrated@));
}

/// The historical rows with the declared rows of the admin, board and migrated families in
/// their place; the board must have every row that a historical row needs.
pub fn hybrid_static_inventory(
    legacy: &Vec<OperationContract>,
    admin: &Vec<OperationContract>,
    board: &Vec<OperationContract>,
    migrated: &Vec<OperationContract>,
) -> (r: Vec<OperationContract>)
    requires
        forall|i: int| 0 <= i < legacy@.len() ==> hybrid_defined(#[trigger] legacy@[i], admin@, board@, migrated@),
    ensures
        r@ == hybrid_inventory(legacy@, admin@, board@, migrated@),
{
    let ghost f = |c: OperationContract| hybrid_rows(c, admin@, board@, migrated@);
    let mut inventory: Vec<OperationContract> = Vec::new();
    let n = legacy.len();
    for i in 0..n
        invariant
            n == legacy@.len(),
            forall|j: int| 0 <= j < legacy@.len() ==> hybrid_defined(#[trigger] legacy@[j], admin@, board@, migrated@),
            f == (|c: OperationContract| hybrid_rows(c, admin@, board@, migrated@)),
            inventory@ == flatten(legacy@.take(i as int).map_values(f)),
    {
        let contract = legacy[i];
        append_hybrid_rows(&mut inventory, contract, admin, board, migrated);
        proof {
            assert(legacy@.take(i + 1).map_values(f) =~= legacy@.take(i as int).map_values(f).push(f(contract)));
            lemma_flatten_push(legacy@.take(i as int).map_values(f), f(contract));
        }
    }
    assert(legacy@.take(n as int) =~= legacy@);
    inventory
}

/// The generated API request rows adopted by the generated-DTO suite: id and consumer test.
pub open spec fn phase5_request_table() -> Seq<(&'static str, &'static str)> {
    seq![
        ("api.list-label-semantics.path", "suite::api_generated_adoption::list_label_semantics_request_fixture_reaches_handler"),
        ("api.get-label-semantics.path", "suite::api_generated_adoption::get_label_semantics_request_fixture_reaches_handler"),
        ("api.upsert-label-semantics.path", "suite::api_generated_adoption::upsert_label_semantics_request_fixtures_reach_handler"),
        ("api.upsert-label-semantics.request", "suite::api_generated_adoption::upsert_label_semantics_request_fixtures_reach_handler"),
        ("api.delete-label-semantics.path", "suite::api_generated_adoption::delete_label_semantics_request_fixtures_reach_handler"),
        ("api.delete-label-semantics.query", "suite::api_generated_adoption::delete_label_semantics_request_fixtures_reach_handler"),
        ("api.list-label-atoms.path", "suite::api_generated_adoption::list_label_atoms_request_fixture_reaches_handler"),
        ("api.label-atom.path", "suite::api_generated_adoption::explain_label_atom_request_fixture_reaches_handler"),
        ("api.label-atom-index-status.path", "suite::api_generated_adoption::label_atom_index_status_request_fixture_reaches_handler"),
        ("api.rebuild-label-atom-index.path", "suite::api_generated_adoption::rebuild_label_atom_index_request_fixture_reaches_handler"),
        ("api.query-label-atom-index.path", "suite::api_generated_adoption::query_label_atom_index_request_fixtures_reach_handler"),
        ("api.query-label-atom-index.query", "suite::api_generated_adoption::query_label_atom_index_request_fixtures_reach_handler"),
        ("api.list-signals.path", "suite::api_generated_adoption::list_signals_request_fixtures_reach_handler"),
        ("api.list-signals.query", "suite::api_generated_adoption::list_signals_request_fixtures_reach_handler"),
        ("api.review-signals.path", "suite::api_generated_adoption::review_signals_request_fixtures_reach_handler"),
        ("api.review-signals.query", "suite::api_generated_adoption::review_signals_request_fixtures_reach_handler"),
        ("api.get-signal.path", "suite::api_generated_adoption::get_signal_request_fixture_reaches_handler"),
        ("api.record-signal.path", "suite::api_generated_adoption::record_signal_request_fixtures_reach_handler"),
        ("api.record-signal.request", "suite::api_generated_adoption::record_signal_request_fixtures_reach_handler"),
        ("api.confirm-signals.path", "suite::api_generated_adoption::confirm_signals_request_fixtures_reach_handler"),
        ("api.confirm-signals.request", "suite::api_generated_adoption::confirm_signals_request_fixtures_reach_handler"),
        ("api.reject-signals.path", "suite::api_generated_adoption::reject_signals_request_fixtures_reach_handler"),
        ("api.reject-signals.request", "suite::api_generated_adoption::reject_signals_request_fixtures_reach_handler"),
        ("api.resolve-signals.path", "suite::api_generated_adoption::resolve_signals_request_fixtures_reach_handler"),
        ("api.resolve-signals.request", "suite::api_generated_adoption::resolve_signals_request_fixtures_reach_handler"),
        ("api.supersede-signals.path", "suite::api_generated_adoption::supersede_signals_request_fixtures_reach_handler"),
        ("api.supersede-signals.request", "suite::api_generated_adoption::supersede_signals_request_fixtures_reach_handler"),
        ("api.suggest-task-labels.path", "suite::api_generated_adoption::suggest_task_labels_request_fixtures_reach_handler"),
        ("api.label-suggestion.query", "suite::api_generated_adoption::suggest_task_labels_request_fixtures_reach_handler"),
        ("api.list-task-label-proposals.path", "suite::api_generated_adoption::list_task_label_proposals_request_fixture_reaches_handler"),
        ("api.propose-task-label.path", "suite::api_generated_adoption::propose_task_label_request_fixtures_reach_handler"),
        ("api.propose-task-label.query", "suite::api_generated_adoption::propose_task_label_request_fixtures_reach_handler"),
        ("api.propose-task-label.request", "suite::api_generated_adoption::propose_task_label_request_fixtures_reach_handler"),
        ("api.record-label-ontology-observation.path", "suite::api_generated_adoption::record_label_ontology_observation_request_fixtures_reach_handler"),
        ("api.record-label-ontology-observation.body", "suite::api_generated_adoption::record_label_ontology_observation_request_fixtures_reach_handler"),
        ("api.list-label-ontology-signals.path", "suite::api_generated_adoption::list_label_ontology_signals_request_fixtures_reach_handler"),
        ("api.label-ontology-signal.query", "suite::api_generated_adoption::list_label_ontology_signals_request_fixtures_reach_handler"),
        ("api.review-label-ontology.path", "suite::api_generated_adoption::review_label_ontology_request_fixtures_reach_handler"),
        ("api.label-ontology-review.query", "suite::api_generated_adoption::review_label_ontology_request_fixtures_reach_handler"),
        ("api.create-label-ontology-action.path", "suite::api_generated_adoption::create_label_ontology_action_request_fixtures_reach_handler"),
        ("api.create-label-ontology-action.request", "suite::api_generated_adoption::create_label_ontology_action_request_fixtures_reach_handler"),
        ("api.apply-label-ontology-atom.path", "suite::api_generated_adoption::apply_label_ontology_atom_request_fixtures_reach_handler"),
        ("api.apply-label-ontology-atom.request", "suite::api_generated_adoption::apply_label_ontology_atom_request_fixtures_reach_handler"),
        ("api.revert-label-ontology-mutation.path", "suite::api_generated_adoption::revert_label_ontology_mutation_request_fixtures_reach_handler"),
        ("api.revert-label-ontology-mutation.request", "suite::api_generated_adoption::revert_label_ontology_mutation_request_fixtures_reach_handler"),
        ("api.validate-label-ontology-action.path", "suite::api_generated_adoption::validate_label_ontology_action_request_fixtures_reach_handler"),
        ("api.validate-label-ontology-action.request", "suite::api_generated_adoption::validate_label_ontology_action_request_fixtures_reach_handler"),
        ("api.get-label-ontology-signal.path", "suite::api_generated_adoption::get_label_ontology_signal_request_fixture_reaches_handler"),
        ("api.get-label-proposal.path", "suite::api_generated_adoption::get_label_proposal_request_fixture_reaches_handler"),
        ("api.accept-label-proposal.path", "suite::api_generated_adoption::accept_label_proposal_request_fixtures_reach_handler"),
        ("api.accept-label-proposal.body", "suite::api_generated_adoption::accept_label_proposal_request_fixtures_reach_handler"),
        ("api.reject-label-proposal.path", "suite::api_generated_adoption::reject_label_proposal_request_fixtures_reach_handler"),
        ("api.reject-label-proposal.body", "suite::api_generated_adoption::reject_label_proposal_request_fixtures_reach_handler"),
    ]
}

fn phase5_request_table_rows() -> (r: Vec<(&'static str, &'static str)>)
    ensures
        r@ == phase5_request_table(),
{
    let r = vec![
        ("api.list-label-semantics.path", "suite::api_generated_adoption::list_label_semantics_request_fixture_reaches_handler"),
        ("api.get-label-semantics.path", "suite::api_generated_adoption::get_label_semantics_request_fixture_reaches_handler"),
        ("api.upsert-label-semantics.path", "suite::api_generated_adoption::upsert_label_semantics_request_fixtures_reach_handler"),
        ("api.upsert-label-semantics.request", "suite::api_generated_adoption::upsert_label_semantics_request_fixtures_reach_handler"),
        ("api.delete-label-semantics.path", "suite::api_generated_adoption::delete_label_semantics_request_fixtures_reach_handler"),
        ("api.delete-label-semantics.query", "suite::api_generated_adoption::delete_label_semantics_request_fixtures_reach_handler"),
        ("api.list-label-atoms.path", "suite::api_generated_adoption::list_label_atoms_request_fixture_reaches_handler"),
        ("api.label-atom.path", "suite::api_generated_adoption::explain_label_atom_request_fixture_reaches_handler"),
        ("api.label-atom-index-status.path", "suite::api_generated_adoption::label_atom_index_status_request_fixture_reaches_handler"),
        ("api.rebuild-label-atom-index.path", "suite::api_generated_adoption::rebuild_label_atom_index_request_fixture_reaches_handler"),
        ("api.query-label-atom-index.path", "suite::api_generated_adoption::query_label_atom_index_request_fixtures_reach_handler"),
        ("api.query-label-atom-index.query", "suite::api_generated_adoption::query_label_atom_index_request_fixtures_reach_handler"),
        ("api.list-signals.path", "suite::api_generated_adoption::list_signals_request_fixtures_reach_handler"),
        ("api.list-signals.query", "suite::api_generated_adoption::list_signals_request_fixtures_reach_handler"),
        ("api.review-signals.path", "suite::api_generated_adoption::review_signals_request_fixtures_reach_handler"),
        ("api.review-signals.query", "suite::api_generated_adoption::review_signals_request_fixtures_reach_handler"),
        ("api.get-signal.path", "suite::api_generated_adoption::get_signal_request_fixture_reaches_handler"),
        ("api.record-signal.path", "suite::api_generated_adoption::record_signal_request_fixtures_reach_handler"),
        ("api.record-signal.request", "suite::api_generated_adoption::record_signal_request_fixtures_reach_handler"),
        ("api.confirm-signals.path", "suite::api_generated_adoption::confirm_signals_request_fixtures_reach_handler"),
        ("api.confirm-signals.request", "suite::api_generated_adoption::confirm_signals_request_fixtures_reach_handler"),
        ("api.reject-signals.path", "suite::api_generated_adoption::reject_signals_request_fixtures_reach_handler"),
        ("api.reject-signals.request", "suite::api_generated_adoption::reject_signals_request_fixtures_reach_handler"),
        ("api.resolve-signals.path", "suite::api_generated_adoption::resolve_signals_request_fixtures_reach_handler"),
        ("api.resolve-signals.request", "suite::api_generated_adoption::resolve_signals_request_fixtures_reach_handler"),
        ("api.supersede-signals.path", "suite::api_generated_adoption::supersede_signals_request_fixtures_reach_handler"),
        ("api.supersede-signals.request", "suite::api_generated_adoption::supersede_signals_request_fixtures_reach_handler"),
        ("api.suggest-task-labels.path", "suite::api_generated_adoption::suggest_task_labels_request_fixtures_reach_handler"),
        ("api.label-suggestion.query", "suite::api_generated_adoption::suggest_task_labels_request_fixtures_reach_handler"),
        ("api.list-task-label-proposals.path", "suite::api_generated_adoption::list_task_label_proposals_request_fixture_reaches_handler"),
        ("api.propose-task-label.path", "suite::api_generated_adoption::propose_task_label_request_fixtures_reach_handler"),
        ("api.propose-task-label.query", "suite::api_generated_adoption::propose_task_label_request_fixtures_reach_handler"),
        ("api.propose-task-label.request", "suite::api_generated_adoption::propose_task_label_request_fixtures_reach_handler"),
        ("api.record-label-ontology-observation.path", "suite::api_generated_adoption::record_label_ontology_observation_request_fixtures_reach_handler"),
        ("api.record-label-ontology-observation.body", "suite::api_generated_adoption::record_label_ontology_observation_request_fixtures_reach_handler"),
        ("api.list-label-ontology-signals.path", "suite::api_generated_adoption::list_label_ontology_signals_request_fixtures_reach_handler"),
        ("api.label-ontology-signal.query", "suite::api_generated_adoption::list_label_ontology_signals_request_fixtures_reach_handler"),
        ("api.review-label-ontology.path", "suite::api_generated_adoption::review_label_ontology_request_fixtures_reach_handler"),
        ("api.label-ontology-review.query", "suite::api_generated_adoption::review_label_ontology_request_fixtures_reach_handler"),
        ("api.create-label-ontology-action.path", "suite::api_generated_adoption::create_label_ontology_action_request_fixtures_reach_handler"),
        ("api.create-label-ontology-action.request", "suite::api_generated_adoption::create_label_ontology_action_request_fixtures_reach_handler"),
        ("api.apply-label-ontology-atom.path", "suite::api_generated_adoption::apply_label_ontology_atom_request_fixtures_reach_handler"),
        ("api.apply-label-ontology-atom.request", "suite::api_generated_adoption::apply_label_ontology_atom_request_fixtures_reach_handler"),
        ("api.revert-label-ontology-mutation.path", "suite::api_generated_adoption::revert_label_ontology_mutation_request_fixtures_reach_handler"),
        ("api.revert-label-ontology-mutation.request", "suite::api_generated_adoption::revert_label_ontology_mutation_request_fixtures_reach_handler"),
        ("api.validate-label-ontology-action.path", "suite::api_generated_adoption::validate_label_ontology_action_request_fixtures_reach_handler"),
        ("api.validate-label-ontology-action.request", "suite::api_generated_adoption::validate_label_ontology_action_request_fixtures_reach_handler"),
        ("api.get-label-ontology-signal.path", "suite::api_generated_adoption::get_label_ontology_signal_request_fixture_reaches_handler"),
        ("api.get-label-proposal.path", "suite::api_generated_adoption::get_label_proposal_request_fixture_reaches_handler"),
        ("api.accept-label-proposal.path", "suite::api_generated_adoption::accept_label_proposal_request_fixtures_reach_handler"),
        ("api.accept-label-proposal.body", "suite::api_generated_adoption::accept_label_proposal_request_fixtures_reach_handler"),
        ("api.reject-label-proposal.path", "suite::api_generated_adoption::reject_label_proposal_request_fixtures_reach_handler"),
        ("api.reject-label-proposal.body", "suite::api_generated_adoption::reject_label_proposal_request_fixtures_reach_handler"),
    ];
    assert(r@ =~= phase5_request_table());
    r
}

/// The generated API response rows adopted by the generated-DTO suite: id and producer test.
pub open spec fn phase5_response_table() -> Seq<(&'static str, &'static str)> {
    seq![
        ("api.list-label-semantics.response", "suite::api_generated_adoption::generated_empty_collection_responses_are_produced_by_real_router"),
        ("api.get-label-semantics.response", "suite::api_generated_adoption::generated_label_responses_are_produced_by_real_router"),
        ("api.upsert-label-semantics.response", "suite::api_generated_adoption::generated_label_responses_are_produced_by_real_router"),
        ("api.list-label-atoms.response", "suite::api_generated_adoption::generated_empty_collection_responses_are_produced_by_real_router"),
        ("api.explain-label-atom.response", "suite::api_generated_adoption::generated_label_responses_are_produced_by_real_router"),
        ("api.label-atom-index-status.response", "suite::api_generated_adoption::generated_atom_index_responses_are_produced_by_real_router"),
        ("api.rebuild-label-atom-index.response", "suite::api_generated_adoption::generated_atom_index_responses_are_produced_by_real_router"),
        ("api.query-label-atom-index.response", "suite::api_generated_adoption::generated_atom_index_responses_are_produced_by_real_router"),
        ("api.list-signals.response", "suite::api_generated_adoption::generated_empty_collection_responses_are_produced_by_real_router"),
        ("api.review-signals.response", "suite::api_generated_adoption::generated_empty_collection_responses_are_produced_by_real_router"),
        ("api.get-signal.response", "suite::api_generated_adoption::generated_generic_signal_response_is_produced_by_real_router"),
        ("api.record-signal.response", "suite::api_generated_adoption::generated_signal_record_response_is_produced_by_real_router"),
        ("api.confirm-signals.response", "suite::api_generated_adoption::generated_signal_action_responses_are_produced_by_real_router"),
        ("api.reject-signals.response", "suite::api_generated_adoption::generated_signal_action_responses_are_produced_by_real_router"),
        ("api.resolve-signals.response", "suite::api_generated_adoption::generated_signal_action_responses_are_produced_by_real_router"),
        ("api.supersede-signals.response", "suite::api_generated_adoption::generated_signal_action_responses_are_produced_by_real_router"),
        ("api.suggest-task-labels.response", "suite::api_generated_adoption::generated_task_label_responses_are_produced_by_real_router"),
        ("api.list-task-label-proposals.response", "suite::api_generated_adoption::generated_empty_collection_responses_are_produced_by_real_router"),
        ("api.propose-task-label.response", "suite::api_generated_adoption::generated_task_label_responses_are_produced_by_real_router"),
        ("api.record-label-ontology-observation.response", "suite::api_generated_adoption::generated_ontology_observation_responses_are_produced_by_real_router"),
        ("api.review-label-ontology.response", "suite::api_generated_adoption::generated_empty_collection_responses_are_produced_by_real_router"),
        ("api.create-label-ontology-action.response", "suite::api_generated_adoption::generated_ontology_action_responses_are_produced_by_real_router"),
        ("api.apply-label-ontology-atom.response", "suite::api_generated_adoption::generated_ontology_action_responses_are_produced_by_real_router"),
        ("api.revert-label-ontology-mutation.response", "suite::api_generated_adoption::generated_ontology_action_responses_are_produced_by_real_router"),
        ("api.validate-label-ontology-action.response", "suite::api_generated_adoption::generated_ontology_action_responses_are_produced_by_real_router"),
        ("api.get-label-ontology-signal.response", "suite::api_generated_adoption::generated_ontology_observation_responses_are_produced_by_real_router"),
        ("api.get-label-proposal.response", "suite::api_generated_adoption::generated_proposal_responses_are_produced_by_real_router"),
        ("api.accept-label-proposal.response", "suite::api_generated_adoption::generated_proposal_responses_are_produced_by_real_router"),
        ("api.reject-label-proposal.response", "suite::api_generated_adoption::generated_proposal_responses_are_produced_by_real_router"),
    ]
}

fn phase5_response_table_rows() -> (r: Vec<(&'static str, &'static str)>)
    ensures
        r@ == phase5_response_table(),
{
    let r = vec![
        ("api.list-label-semantics.response", "suite::api_generated_adoption::generated_empty_collection_responses_are_produced_by_real_router"),
        ("api.get-label-semantics.response", "suite::api_generated_adoption::generated_label_responses_are_produced_by_real_router"),
        ("api.upsert-label-semantics.response", "suite::api_generated_adoption::generated_label_responses_are_produced_by_real_router"),
        ("api.list-label-atoms.response", "suite::api_generated_adoption::generated_empty_collection_responses_are_produced_by_real_router"),
        ("api.explain-label-atom.response", "suite::api_generated_adoption::generated_label_responses_are_produced_by_real_router"),
        ("api.label-atom-index-status.response", "suite::api_generated_adoption::generated_atom_index_responses_are_produced_by_real_router"),
        ("api.rebuild-label-atom-index.response", "suite::api_generated_adoption::generated_atom_index_responses_are_produced_by_real_router"),
        ("api.query-label-atom-index.response", "suite::api_generated_adoption::generated_atom_index_responses_are_produced_by_real_router"),
        ("api.list-signals.response", "suite::api_generated_adoption::generated_empty_collection_responses_are_produced_by_real_router"),
        ("api.review-signals.response", "suite::api_generated_adoption::generated_empty_collection_responses_are_produced_by_real_router"),
        ("api.get-signal.response", "suite::api_generated_adoption::generated_generic_signal_response_is_produced_by_real_router"),
        ("api.record-signal.response", "suite::api_generated_adoption::generated_signal_record_response_is_produced_by_real_router"),
        ("api.confirm-signals.response", "suite::api_generated_adoption::generated_signal_action_responses_are_produced_by_real_router"),
        ("api.reject-signals.response", "suite::api_generated_adoption::generated_signal_action_responses_are_produced_by_real_router"),
        ("api.resolve-signals.response", "suite::api_generated_adoption::generated_signal_action_responses_are_produced_by_real_router"),
        ("api.supersede-signals.response", "suite::api_generated_adoption::generated_signal_action_responses_are_produced_by_real_router"),
        ("api.suggest-task-labels.response", "suite::api_generated_adoption::generated_task_label_responses_are_produced_by_real_router"),
        ("api.list-task-label-proposals.response", "suite::api_generated_adoption::generated_empty_collection_responses_are_produced_by_real_router"),
        ("api.propose-task-label.response", "suite::api_generated_adoption::generated_task_label_responses_are_produced_by_real_router"),
        ("api.record-label-ontology-observation.response", "suite::api_generated_adoption::generated_ontology_observation_responses_are_produced_by_real_router"),
        ("api.review-label-ontology.response", "suite::api_generated_adoption::generated_empty_collection_responses_are_produced_by_real_router"),
        ("api.create-label-ontology-action.response", "suite::api_generated_adoption::generated_ontology_action_responses_are_produced_by_real_router"),
        ("api.apply-label-ontology-atom.response", "suite::api_generated_adoption::generated_ontology_action_responses_are_produced_by_real_router"),
        ("api.revert-label-ontology-mutation.response", "suite::api_generated_adoption::generated_ontology_action_responses_are_produced_by_real_router"),
        ("api.validate-label-ontology-action.response", "suite::api_generated_adoption::generated_ontology_action_responses_are_produced_by_real_router"),
        ("api.get-label-ontology-signal.response", "suite::api_generated_adoption::generated_ontology_observation_responses_are_produced_by_real_router"),
        ("api.get-label-proposal.response", "suite::api_generated_adoption::generated_proposal_responses_are_produced_by_real_router"),
        ("api.accept-label-proposal.response", "suite::api_generated_adoption::generated_proposal_responses_are_produced_by_real_router"),
        ("api.reject-label-proposal.response", "suite::api_generated_adoption::generated_proposal_responses_are_produced_by_real_router"),
    ];
    assert(r@ =~= phase5_response_table());
    r
}

/// A table entry with the given id.
pub open spec fn names_adoption_row(id: Seq<char>) -> spec_fn((&'static str, &'static str)) -> bool {
    |e: (&'static str, &'static str)| e.0@ == id
}

/// The producer test of the generated request rows.
pub open spec fn generated_request_producer() -> &'static str {
    "suite::api_generated_adoption::api_generated_request_dtos_serialize_to_committed_fixtures"
}

/// The consumer test of the generated response rows.
pub open spec fn generated_response_consumer() -> &'static str {
    "suite::api_generated_adoption::api_generated_response_fixtures_are_consumed_by_contract_roots"
}

/// The producer and consumer tests of a generated API row: request rows are produced by
/// the DTO serialisation test, response rows consumed by the contract roots.
pub open spec fn generated_adoption_tests(id: Seq<char>) -> Option<(&'static str, &'static str)> {
    match first_index(phase5_request_table(), names_adoption_row(id)) {
        Some(i) => Some((generated_request_producer(), phase5_request_table()[i].1)),
        None => match first_index(phase5_response_table(), names_adoption_row(id)) {
            Some(j) => Some((phase5_response_table()[j].1, generated_response_consumer())),
            None => None,
        },
    }
}

/// Index of the first entry of `table` with the given id.
fn adoption_row_index(table: &Vec<(&'static str, &'static str)>, id: &str) -> (r: Option<usize>)
    ensures
        match r {
            Some(i) => (i < table@.len() && first_index(table@, names_adoption_row(id@)) == Some(i as int)),
            None => (first_index(table@, names_adoption_row(id@)) is None),
        },
{
    let n = table.len();
    for i in 0..n
        invariant
            n == table@.len(),
            forall|j: int| 0 <= j < i ==> !(names_adoption_row(id@))(#[trigger] table@[j]),
    {
        if str_eq(table[i].0, id) {
            proof {
                lemma_first_index_is(table@, names_adoption_row(id@), i as int);
            }
            return Some(i);
        }
    }
    proof {
        lemma_first_index_none(table@, names_adoption_row(id@));
    }
    None
}

/// The producer and consumer tests of a generated API row, if it is one.
pub fn phase5_api_adoption_tests(id: &str) -> (r: Option<(&'static str, &'static str)>)
    ensures
        r == generated_adoption_tests(id@),
{
    let requests = phase5_request_table_rows();
    match adoption_row_index(&requests, id) {
        Some(i) => {
            return Some(("suite::api_generated_adoption::api_generated_request_dtos_serialize_to_committed_fixtures", requests[i].1));
        },
        None => {},
    }
    let responses = phase5_response_table_rows();
    match adoption_row_index(&responses, id) {
        Some(j) => Some((responses[j].1, "suite::api_generated_adoption::api_generated_response_fixtures_are_consumed_by_contract_roots")),
        None => None,
    }
}

/// A witness of a contract by a test of the given server package and target.
pub open spec fn witness_of(contract: OperationContract, package: &'static str, test_target: &'static str, exact_test: &'static str) -> AdoptionWitness {
    AdoptionWitness {
        operation: contract.operation,
        contract_id: contract.id,
        surface: contract.surface,
        direction: contract.direction,
        package,
        test_target,
        exact_test,
    }
}

/// A generated API row adopted by its generated-DTO tests; other rows are unchanged.
pub open spec fn generated_adopted(contract: OperationContract) -> OperationContract {
    match generated_adoption_tests(contract.id@) {
        Some(tests) => OperationContract {
            adoption: Some(
                AdoptionEvidence {
                    producer_fixture: contract.fixture.unwrap(),
                    producer: witness_of(contract, "kanban-server", "lib", tests.0),
                    consumer: witness_of(contract, "kanban-server", "lib", tests.1),
                },
            ),
            migration: MigrationState::Adopted,
            ..contract
        },
        None => contract,
    }
}

/// Every generated API row of the inventory has a fixture.
pub open spec fn generated_rows_have_fixtures(inventory: Seq<OperationContract>) -> bool {
    forall|i: int| 0 <= i < inventory.len() && generated_adoption_tests((#[trigger] inventory[i]).id@) is Some ==> inventory[i].fixture is Some
}

/// Whether every generated API row of the inventory has a fixture.
pub fn generated_fixtures_present(inventory: &Vec<OperationContract>) -> (r: bool)
    ensures
        r == generated_rows_have_fixtures(inventory@),
{
    let n = inventory.len();
    for i in 0..n
        invariant
            n == inventory@.len(),
            generated_rows_have_fixtures(inventory@.take(i as int)),
    {
        let c = inventory[i];
        if phase5_api_adoption_tests(c.id).is_some() && c.fixture.is_none() {
            assert(inventory@[i as int] == c);
            return false;
        }
        assert(inventory@.take(i + 1) =~= inventory@.take(i as int).push(c));
    }
    assert(inventory@.take(n as int) =~= inventory@);
    true
}

/// Adopts every generated API row with its generated-DTO tests; each such row must have a
/// fixture.
pub fn adopt_phase5_api_contracts(inventory: &mut Vec<OperationContract>)
    requires
        generated_rows_have_fixtures(old(inventory)@),
    ensures
        final(inventory)@ == old(inventory)@.map_values(|c: OperationContract| generated_adopted(c)),
{
    let ghost start = inventory@;
    let n = inventory.len();
    for i in 0..n
        invariant
            n == inventory@.len(),
            start.len() == n,
            generated_rows_have_fixtures(start),
            forall|j: int| 0 <= j < i ==> inventory@[j] == generated_adopted(#[trigger] start[j]),
            forall|j: int| i <= j < n ==> inventory@[j] == #[trigger] start[j],
    {
        let contract = inventory[i];
        assert(start[i as int] == contract);
        match phase5_api_adoption_tests(contract.id) {
            Some((producer_test, consumer_test)) => {
                let fixture = match contract.fixture {
                    Some(f) => f,
                    None => "",
                };
                let adoption = AdoptionEvidence {
                    producer_fixture: fixture,
                    producer: AdoptionWitness {
                        operation: contract.operation,
                        contract_id: contract.id,
                        surface: contract.surface,
                        direction: contract.direction,
                        package: "kanban-server",
                        test_target: "lib",
                        exact_test: producer_test,
                    },
                    consumer: AdoptionWitness {
                        operation: contract.operation,
                        contract_id: contract.id,
                        surface: contract.surface,
                        direction: contract.direction,
                        package: "kanban-server",
                        test_target: "lib",
                        exact_test: consumer_test,
                    },
                };
                inventory.set(i, OperationContract { adoption: Some(adoption), migration: MigrationState::Adopted, ..contract });
            },
            None => {},
        }
    }
    assert(inventory@ =~= start.map_values(|c: OperationContract| generated_adopted(c)));
}

/// The schema id, fixture, package, target and tests that adopt a configuration protocol
/// row.
pub open spec fn protocol_adoption(id: Seq<char>) -> Option<(&'static str, &'static str, &'static str, &'static str, &'static str, &'static str)> {
    if id == "config.project.input"@ {
        Some(
            (
                "urn:kanban-tool:schema:config:project-input:v1",
                "schemas/fixtures/config/project-input.v1.valid.json",
                "kanban-cli",
                "cli_config_contract_adoption",
                "config_adoption::project_config_input_fixture_is_produced_by_runtime_config_dto",
                "config_adoption::project_config_input_fixture_is_consumed_by_real_toml_decoder",
            ),
        )
    } else if id == "config.selected-worker-profile.input"@ {
        Some(
            (
                "urn:kanban-tool:schema:config:selected-worker-profile-input:v1",
                "schemas/fixtures/config/selected-worker-profile-input.v1.valid.json",
                "kanban-cli",
                "cli_config_contract_adoption",
                "config_adoption::selected_worker_profile_input_fixture_is_produced_by_runtime_config_dto",
                "config_adoption::selected_worker_profile_input_fixture_is_consumed_by_real_toml_decoder",
            ),
        )
    } else {
        None
    }
}

/// The adoption of a configuration protocol row, if it is one.
pub fn protocol_adoption_spec(id: &str) -> (r: Option<(&'static str, &'static str, &'static str, &'static str, &'static str, &'static str)>)
    ensures
        r == protocol_adoption(id@),
{
    if str_eq(id, "config.project.input") {
        Some(
            (
                "urn:kanban-tool:schema:config:project-input:v1",
                "schemas/fixtures/config/project-input.v1.valid.json",
                "kanban-cli",
                "cli_config_contract_adoption",
                "config_adoption::project_config_input_fixture_is_produced_by_runtime_config_dto",
                "config_adoption::project_config_input_fixture_is_consumed_by_real_toml_decoder",
            ),
        )
    } else if str_eq(id, "config.selected-worker-profile.input") {
        Some(
            (
                "urn:kanban-tool:schema:config:selected-worker-profile-input:v1",
                "schemas/fixtures/config/selected-worker-profile-input.v1.valid.json",
                "kanban-cli",
                "cli_config_contract_adoption",
                "config_adoption::selected_worker_profile_input_fixture_is_produced_by_runtime_config_dto",
                "config_adoption::selected_worker_profile_input_fixture_is_consumed_by_real_toml_decoder",
            ),
        )
    } else {
        None
    }
}

/// A configuration protocol row with its schema, fixture and adoption; other rows are
/// unchanged.
pub open spec fn protocol_adopted(contract: OperationContract) -> OperationContract {
    match protocol_adoption(contract.id@) {
        Some(a) => OperationContract {
            schema_id: Some(a.0),
            fixture: Some(a.1),
            adoption: Some(
                AdoptionEvidence {
                    producer_fixture: a.1,
                    producer: witness_of(contract, a.2, a.3, a.4),
                    consumer: witness_of(contract, a.2, a.3, a.5),
                },
            ),
            migration: MigrationState::Adopted,
            ..contract
        },
        None => contract,
    }
}

/// Adopts the configuration protocol rows.
pub fn adopt_protocol_contracts(inventory: &mut Vec<OperationContract>)
    ensures
        final(inventory)@ == old(inventory)@.map_values(|c: OperationContract| protocol_adopted(c)),
{
    let ghost start = inventory@;
    let n = inventory.len();
    for i in 0..n
        invariant
            n == inventory@.len(),
            start.len() == n,
            forall|j: int| 0 <= j < i ==> inventory@[j] == protocol_adopted(#[trigger] start[j]),
            forall|j: int| i <= j < n ==> inventory@[j] == #[trigger] start[j],
    {
        let contract = inventory[i];
        assert(start[i as int] == contract);
        match protocol_adoption_spec(contract.id) {
            Some((schema_id, fixture, package, test_target, producer_test, consumer_test)) => {
                let adoption = AdoptionEvidence {
                    producer_fixture: fixture,
                    producer: AdoptionWitness {
                        operation: contract.operation,
                        contract_id: contract.id,
                        surface: contract.surface,
                        direction: contract.direction,
                        package,
                        test_target,
                        exact_test: producer_test,
                    },
                    consumer: AdoptionWitness {
                        operation: contract.operation,
                        contract_id: contract.id,
                        surface: contract.surface,
                        direction: contract.direction,
                        package,
                        test_target,
                        exact_test: consumer_test,
                    },
                };
                inventory.set(
                    i,
                    OperationContract {
                        schema_id: Some(schema_id),
                        fixture: Some(fixture),
                        adoption: Some(adoption),
                        migration: MigrationState::Adopted,
                        ..contract
                    },
                );
            },
            None => {},
        }
    }
    assert(inventory@ =~= start.map_values(|c: OperationContract| protocol_adopted(c)));
}

/// Replaces every row whose id the source declares by the source's row.
pub fn converge_catalog_contracts(inventory: &mut Vec<OperationContract>, source: &Vec<OperationContract>)
    ensures
        final(inventory)@ == old(inventory)@.map_values(|c: OperationContract| replaced(c, source@)),
{
    let ghost start = inventory@;
    let n = inventory.len();
    for i in 0..n
        invariant
            n == inventory@.len(),
            start.len() == n,
            forall|j: int| 0 <= j < i ==> inventory@[j] == replaced(#[trigger] start[j], source@),
            forall|j: int| i <= j < n ==> inventory@[j] == #[trigger] start[j],
    {
        let contract = inventory[i];
        assert(start[i as int] == contract);
        match find_contract(source, contract.id) {
            Some(row) => inventory.set(i, row),
            None => {},
        }
    }
    assert(inventory@ =~= start.map_values(|c: OperationContract| replaced(c, source@)));
}

/// The rows with every row that the source declares in its place, followed by the source's
/// rows whose ids the rows lack, in source order.
pub open spec fn merged(rows: Seq<OperationContract>, source: Seq<OperationContract>) -> Seq<OperationContract> {
    rows.map_values(|r: OperationContract| replaced(r, source)) + source.filter(
        |d: OperationContract| !has_row(rows, d.id@),
    )
}

/// The source's rows whose ids the rows lack, in source order.
fn missing_rows(rows: &Vec<OperationContract>, source: &Vec<OperationContract>) -> (r: Vec<OperationContract>)
    ensures
        r@ == source@.filter(|d: OperationContract| !has_row(rows@, d.id@)),
{
    let ghost pred = |d: OperationContract| !has_row(rows@, d.id@);
    let mut out: Vec<OperationContract> = Vec::new();
    let n = source.len();
    for i in 0..n
        invariant
            n == source@.len(),
            pred == (|d: OperationContract| !has_row(rows@, d.id@)),
            out@ == source@.take(i as int).filter(pred),
    {
        assert(source@.take(i + 1).drop_last() =~= source@.take(i as int));
        reveal_with_fuel(Seq::<OperationContract>::filter, 1);
        let d = source[i];
        let found = find_contract(rows, d.id);
        proof {
            lemma_first_index(rows@, has_contract_id(d.id@));
            if has_row(rows@, d.id@) {
                lemma_has_row_found(rows@, d.id@);
            }
            if let Some(k) = first_index(rows@, has_contract_id(d.id@)) {
                assert(rows@[k].id@ == d.id@);
            }
        }
        if found.is_none() {
            out.push(d);
        }
    }
    assert(source@.take(n as int) =~= source@);
    out
}

/// Puts every declared row in the place of the row with its id, and appends the declared
/// rows that have no such row.
pub fn merge_declared_contracts(inventory: &mut Vec<OperationContract>, source: &Vec<OperationContract>)
    ensures
        final(inventory)@ == merged(old(inventory)@, source@),
{
    let missing = missing_rows(inventory, source);
    converge_catalog_contracts(inventory, source);
    append_rows(inventory, &missing);
}

/// A declared row that is the first of its id in the source is in the merged rows.
pub proof fn lemma_merged_contains(rows: Seq<OperationContract>, source: Seq<OperationContract>, k: int)
    requires
        first_index(source, has_contract_id(source[k].id@)) == Some(k),
    ensures
        merged(rows, source).contains(source[k]),
{
    lemma_first_index(source, has_contract_id(source[k].id@));
    let f = |r: OperationContract| replaced(r, source);
    let pred = |d: OperationContract| !has_row(rows, d.id@);
    if has_row(rows, source[k].id@) {
        let i = choose|i: int| 0 <= i < rows.len() && (#[trigger] rows[i]).id@ == source[k].id@;
        assert(has_contract_id(rows[i].id@) == has_contract_id(source[k].id@));
        assert(rows.map_values(f)[i] == source[k]);
        assert(merged(rows, source)[i] == source[k]);
    } else {
        source.filter_lemma(pred);
        let fs = source.filter(pred);
        assert(pred(source[k]));
        assert(fs.contains(source[k]));
        let j = choose|j: int| 0 <= j < fs.len() && fs[j] == source[k];
        assert(merged(rows, source)[rows.len() + j] == source[k]);
    }
}

/// The rows of a surface, in order.
pub open spec fn rows_of_surface(rows: Seq<OperationContract>, surface: ContractSurface) -> Seq<OperationContract> {
    rows.filter(|c: OperationContract| c.surface == surface)
}

/// A row carried in the request headers.
pub open spec fn is_header_row(c: OperationContract) -> bool {
    c.transport matches ContractTransport::Http { location: HttpTransportLocation::Headers, .. }
}

/// The rows carried in the request headers, in order.
pub open spec fn header_rows(rows: Seq<OperationContract>) -> Seq<OperationContract> {
    rows.filter(|c: OperationContract| is_header_row(c))
}

/// The rows carried in the request headers, in order.
pub fn header_rows_of(rows: &Vec<OperationContract>) -> (r: Vec<OperationContract>)
    ensures
        r@ == header_rows(rows@),
{
    let ghost pred = |c: OperationContract| is_header_row(c);
    let mut out: Vec<OperationContract> = Vec::new();
    let n = rows.len();
    for i in 0..n
        invariant
            n == rows@.len(),
            pred == (|c: OperationContract| is_header_row(c)),
            out@ == rows@.take(i as int).filter(pred),
    {
        assert(rows@.take(i + 1).drop_last() =~= rows@.take(i as int));
        reveal_with_fuel(Seq::<OperationContract>::filter, 1);
        let at_headers = match rows[i].transport {
            ContractTransport::Http { location: HttpTransportLocation::Headers, .. } => true,
            _ => false,
        };
        if at_headers {
            out.push(rows[i]);
        }
    }
    assert(rows@.take(n as int) =~= rows@);
    out
}

/// Appends the rows of the given surface, in order.
fn append_surface_rows(inventory: &mut Vec<OperationContract>, rows: &Vec<OperationContract>, surface: ContractSurface)
    ensures
        final(inventory)@ == old(inventory)@ + rows_of_surface(rows@, surface),
{
    let ghost start = inventory@;
    let ghost pred = |c: OperationContract| c.surface == surface;
    let n = rows.len();
    for i in 0..n
        invariant
            n == rows@.len(),
            pred == (|c: OperationContract| c.surface == surface),
            inventory@ == start + rows@.take(i as int).filter(pred),
    {
        assert(rows@.take(i + 1).drop_last() =~= rows@.take(i as int));
        reveal_with_fuel(Seq::<OperationContract>::filter, 1);
        if rows[i].surface == surface {
            inventory.push(rows[i]);
        }
    }
    assert(rows@.take(n as int) =~= rows@);
}

/// Appends rows, in order.
fn append_rows(inventory: &mut Vec<OperationContract>, rows: &Vec<OperationContract>)
    ensures
        final(inventory)@ == old(inventory)@ + rows@,
{
    let ghost start = inventory@;
    let n = rows.len();
    for i in 0..n
        invariant
            n == rows@.len(),
            inventory@ == start + rows@.take(i as int),
    {
        inventory.push(rows[i]);
        assert(rows@.take(i + 1) =~= rows@.take(i as int).push(rows@[i as int]));
    }
    assert(rows@.take(n as int) =~= rows@);
}

/// One side (input or output) of a portable JSONL contract.
#[derive(Debug, Clone, Copy, PartialEq, Eq)]
pub struct PortableContractSide {
    pub contract_id: &'static str,
    pub schema_id: &'static str,
    pub fixture: &'static str,
    pub test_target: &'static str,
    pub producer_test: &'static str,
    pub consumer_test: &'static str,
}

/// A portable JSONL operation with its input and output contracts.
#[derive(Debug, Clone, Copy, PartialEq, Eq)]
pub struct PortableContractDescriptor {
    pub operation_key: &'static str,
    pub input: PortableContractSide,
    pub output: PortableContractSide,
}

/// The adopted JSONL row of one side of a portable operation, witnessed by server tests.
pub open spec fn portable_row(operation: &'static str, side: PortableContractSide, direction: ContractDirection) -> OperationContract {
    OperationContract::adopted(
        side.contract_id,
        operation,
        ContractSurface::Jsonl,
        operation,
        direction,
        ContractStrictness::DenyUnknownFields,
        side.schema_id,
        side.fixture,
        AdoptionLocator { package: "kanban-server", test_target: side.test_target, exact_test: side.producer_test },
        AdoptionLocator { package: "kanban-server", test_target: side.test_target, exact_test: side.consumer_test },
        ContractTransport::NoTransport,
    )
}

/// The adopted JSONL row of one side of a portable operation.
pub fn portable_operation_contract(
    operation: &'static str,
    side: &PortableContractSide,
    direction: ContractDirection,
) -> (r: OperationContract)
    ensures
        r == portable_row(operation, *side, direction),
{
    OperationContract::adopted(
        side.contract_id,
        operation,
        ContractSurface::Jsonl,
        operation,
        direction,
        ContractStrictness::DenyUnknownFields,
        side.schema_id,
        side.fixture,
        AdoptionLocator { package: "kanban-server", test_target: side.test_target, exact_test: side.producer_test },
        AdoptionLocator { package: "kanban-server", test_target: side.test_target, exact_test: side.consumer_test },
        ContractTransport::NoTransport,
    )
}

/// The input row, consumed, then the output row, produced, of each portable operation.
pub open spec fn portable_rows(catalog: Seq<PortableContractDescriptor>) -> Seq<OperationContract> {
    flatten(
        catalog.map_values(
            |d: PortableContractDescriptor|
                seq![
                    portable_row(d.operation_key, d.input, ContractDirection::Deserialize),
                    portable_row(d.operation_key, d.output, ContractDirection::Serialize),
                ],
        ),
    )
}

/// The input and output rows of each portable operation, in catalog order.
pub fn portable_operation_contracts(catalog: &Vec<PortableContractDescriptor>) -> (r: Vec<OperationContract>)
    ensures
        r@ == portable_rows(catalog@),
{
    let ghost f = |d: PortableContractDescriptor|
        seq![
            portable_row(d.operation_key, d.input, ContractDirection::Deserialize),
            portable_row(d.operation_key, d.output, ContractDirection::Serialize),
        ];
    let mut rows: Vec<OperationContract> = Vec::new();
    let n = catalog.len();
    for i in 0..n
        invariant
            n == catalog@.len(),
            f == (|d: PortableContractDescriptor|
                seq![
                    portable_row(d.operation_key, d.input, ContractDirection::Deserialize),
                    portable_row(d.operation_key, d.output, ContractDirection::Serialize),
                ]),
            rows@ == flatten(catalog@.take(i as int).map_values(f)),
    {
        let d = catalog[i];
        rows.push(portable_operation_contract(d.operation_key, &d.input, ContractDirection::Deserialize));
        rows.push(portable_operation_contract(d.operation_key, &d.output, ContractDirection::Serialize));
        proof {
            assert(catalog@.take(i + 1).map_values(f) =~= catalog@.take(i as int).map_values(f).push(f(d)));
            lemma_flatten_push(catalog@.take(i as int).map_values(f), f(d));
            assert(rows@ =~= flatten(catalog@.take(i as int).map_values(f)) + f(d));
        }
    }
    assert(catalog@.take(n as int) =~= catalog@);
    rows
}

/// The declared rows that the inventory is assembled from, family by family.
pub struct InventoryCatalogs {
    pub admin: Vec<OperationContract>,
    pub board: Vec<OperationContract>,
    pub dependency: Vec<OperationContract>,
    pub step: Vec<OperationContract>,
    pub task: Vec<OperationContract>,
    pub labels: Vec<OperationContract>,
    pub knowledge: Vec<OperationContract>,
    pub history: Vec<OperationContract>,
    pub portable: Vec<OperationContract>,
    pub headers: Vec<OperationContract>,
    pub admin_inventory: Vec<OperationContract>,
    pub declared: Vec<OperationContract>,
}

/// The declared rows of each family, as sequences.
pub struct InventoryCatalogsView {
    pub admin: Seq<OperationContract>,
    pub board: Seq<OperationContract>,
    pub dependency: Seq<OperationContract>,
    pub step: Seq<OperationContract>,
    pub task: Seq<OperationContract>,
    pub labels: Seq<OperationContract>,
    pub knowledge: Seq<OperationContract>,
    pub history: Seq<OperationContract>,
    pub portable: Seq<OperationContract>,
    pub headers: Seq<OperationContract>,
    pub admin_inventory: Seq<OperationContract>,
    pub declared: Seq<OperationContract>,
}

impl View for InventoryCatalogs {
    type V = InventoryCatalogsView;

    open spec fn view(&self) -> InventoryCatalogsView {
        InventoryCatalogsView {
            admin: self.admin@,
            board: self.board@,
            dependency: self.dependency@,
            step: self.step@,
            task: self.task@,
            labels: self.labels@,
            knowledge: self.knowledge@,
            history: self.history@,
            portable: self.portable@,
            headers: self.headers@,
            admin_inventory: self.admin_inventory@,
            declared: self.declared@,
        }
    }
}

/// The rows of the families whose declarations replace historical rows by id, in the order
/// in which they take precedence: dependency, step, task, label and knowledge.
pub open spec fn migrated_of(c: InventoryCatalogsView) -> Seq<OperationContract> {
    c.dependency + c.step + c.task + c.labels + c.knowledge
}

/// The historical rows with the declared rows in their place.
pub open spec fn hybrid_of(c: InventoryCatalogsView) -> Seq<OperationContract> {
    hybrid_inventory(legacy_rows(), c.admin, c.board, migrated_of(c))
}

/// The board has every row that the historical rows need.
pub open spec fn catalogs_ready(c: InventoryCatalogsView) -> bool {
    forall|i: int| 0 <= i < legacy_rows().len() ==> hybrid_defined(#[trigger] legacy_rows()[i], c.admin, c.board, migrated_of(c))
}

/// The inventory before its witnesses converge: the adopted hybrid rows, the portable,
/// header and attachment API rows, with the history, label and knowledge declarations in
/// their place, then the attachment CLI rows, the admin maintenance rows and the historical
/// maintenance CLI rows; last, the rows of the families carried as declared take the place
/// of the rows with their ids, and those without such a row follow.
pub open spec fn adopted_of(c: InventoryCatalogsView) -> Seq<OperationContract> {
    let adopted = hybrid_of(c).map_values(|r: OperationContract| generated_adopted(r)).map_values(
        |r: OperationContract| protocol_adopted(r),
    );
    merged(
        (adopted + c.portable + c.headers + attachment_api_rows()).map_values(|r: OperationContract| replaced(r, c.history)).map_values(
            |r: OperationContract| replaced(r, c.labels),
        ).map_values(|r: OperationContract| replaced(r, c.knowledge)) + attachment_cli_rows() + c.admin_inventory
            + rows_of_surface(maintenance_rows(), ContractSurface::Cli),
        c.declared,
    )
}

/// The operation contract inventory assembled from the declared rows, where its assembly is
/// defined: every generated API row has a fixture, and every adopted header row a known
/// header fixture.
pub open spec fn inventory_of(c: InventoryCatalogsView) -> Option<Seq<OperationContract>> {
    if !generated_rows_have_fixtures(hybrid_of(c)) {
        None
    } else if !witnesses_defined(adopted_of(c)) {
        None
    } else {
        Some(adopted_of(c).map_values(|r: OperationContract| converged(r)))
    }
}

/// Assembles the operation contract inventory from the declared rows of each family; `None`
/// where a generated API row has no fixture or an adopted header row names no known header
/// profile.
pub fn assemble_inventory(catalogs: &InventoryCatalogs) -> (r: Option<Vec<OperationContract>>)
    requires
        catalogs_ready(catalogs@),
    ensures
        match r {
            Some(v) => inventory_of(catalogs@) == Some(v@),
            None => inventory_of(catalogs@) is None,
        },
{
    let legacy = legacy_inventory();
    let mut migrated: Vec<OperationContract> = Vec::new();
    append_rows(&mut migrated, &catalogs.dependency);
    append_rows(&mut migrated, &catalogs.step);
    append_rows(&mut migrated, &catalogs.task);
    append_rows(&mut migrated, &catalogs.labels);
    append_rows(&mut migrated, &catalogs.knowledge);
    assert(migrated@ =~= migrated_of(catalogs@));
    let mut inventory = hybrid_static_inventory(&legacy, &catalogs.admin, &catalogs.board, &migrated);
    if !generated_fixtures_present(&inventory) {
        return None;
    }
    adopt_phase5_api_contracts(&mut inventory);
    adopt_protocol_contracts(&mut inventory);
    append_rows(&mut inventory, &catalogs.portable);
    append_rows(&mut inventory, &catalogs.headers);
    let attachments = attachment_api_contracts();
    append_rows(&mut inventory, &attachments);
    converge_catalog_contracts(&mut inventory, &catalogs.history);
    converge_catalog_contracts(&mut inventory, &catalogs.labels);
    converge_catalog_contracts(&mut inventory, &catalogs.knowledge);
    let attachment_outputs = attachment_cli_contracts();
    append_rows(&mut inventory, &attachment_outputs);
    append_rows(&mut inventory, &catalogs.admin_inventory);
    let legacy_maintenance = maintenance_operation_contracts();
    append_surface_rows(&mut inventory, &legacy_maintenance, ContractSurface::Cli);
    merge_declared_contracts(&mut inventory, &catalogs.declared);
    assert(inventory@ =~= adopted_of(catalogs@));
    if !witnesses_ready(&inventory) {
        return None;
    }
    converge_adoption_witnesses(&mut inventory);
    Some(inventory)
}

/// The rows of the families that the inventory carries as declared: the board operations
/// and the CLI shell, queue and label commands.
pub open spec fn declared_family_rows() -> Seq<OperationContract> {
    catalog_contracts(board_operations()) + catalog_contracts(cli_shell_operations()) + catalog_contracts(
        cli_queue_operations(),
    ) + catalog_contracts(cli_labels_operations())
}

/// Every row of the families carried as declared, the first of its id, is in the inventory
/// before its witnesses converge.
pub proof fn lemma_declared_rows_carried(c: InventoryCatalogsView, k: int)
    requires
        first_index(c.declared, has_contract_id(c.declared[k].id@)) == Some(k),
    ensures
        adopted_of(c).contains(c.declared[k]),
{
    let adopted = hybrid_of(c).map_values(|r: OperationContract| generated_adopted(r)).map_values(
        |r: OperationContract| protocol_adopted(r),
    );
    lemma_merged_contains(
        (adopted + c.portable + c.headers + attachment_api_rows()).map_values(|r: OperationContract| replaced(r, c.history)).map_values(
            |r: OperationContract| replaced(r, c.labels),
        ).map_values(|r: OperationContract| replaced(r, c.knowledge)) + attachment_cli_rows() + c.admin_inventory
            + rows_of_surface(maintenance_rows(), ContractSurface::Cli),
        c.declared,
        k,
    );
}

/// The declared rows available to this library: the admin, board, dependency and history
/// catalogs, the admin maintenance rows, the header rows of the board operations in the
/// header family's place, and the board, CLI shell, CLI queue and CLI label families carried
/// as declared. The step, task, label, knowledge and portable families, and the header rows
/// of the other API operations, are declared outside this library and contribute no row here.
pub open spec fn available_catalogs() -> InventoryCatalogsView {
    InventoryCatalogsView {
        admin: catalog_contracts(admin_operations()),
        board: catalog_contracts(board_operations()),
        dependency: catalog_contracts(dependency_operations()),
        step: Seq::empty(),
        task: Seq::empty(),
        labels: Seq::empty(),
        knowledge: Seq::empty(),
        history: catalog_contracts(history_operations()),
        portable: Seq::empty(),
        headers: header_rows(catalog_contracts(board_operations())),
        admin_inventory: maintenance_inventory(),
        declared: declared_family_rows(),
    }
}

/// The operation contract inventory of the available catalogs, where its assembly is
/// defined.
pub open spec fn inventory_rows() -> Option<Seq<OperationContract>> {
    inventory_of(available_catalogs())
}

/// Replacing rows by a source's declarations is idempotent: a replaced row is the source's
/// first row of its id, which replaces to itself.
pub proof fn lemma_replaced_idempotent(contract: OperationContract, source: Seq<OperationContract>)
    ensures
        replaced(replaced(contract, source), source) == replaced(contract, source),
{
    lemma_first_index(source, has_contract_id(contract.id@));
    if let Some(i) = first_index(source, has_contract_id(contract.id@)) {
        assert(source[i].id@ == contract.id@);
        assert(has_contract_id(source[i].id@) == has_contract_id(contract.id@));
    }
}

/// A historical row whose id a migrated family declares is replaced by the declared row,
/// unless it is the dependency request row, which the archive request row precedes.
pub proof fn lemma_declared_row_takes_place(
    contract: OperationContract,
    admin: Seq<OperationContract>,
    board: Seq<OperationContract>,
    migrated: Seq<OperationContract>,
    i: int,
)
    requires
        first_index(migrated, has_contract_id(contract.id@)) == Some(i),
        contract.id@ != "api.add-dependency.request"@,
    ensures
        hybrid_rows(contract, admin, board, migrated) == seq![migrated[i]],
{
    assert(hybrid_rows(contract, admin, board, migrated) =~= seq![migrated[i]]);
}

/// A catalog owns a contract id exactly when one of its inventory rows has that id.
pub proof fn lemma_owns_contract_iff_row(ops: Seq<OperationDeclaration>, id: Seq<char>)
    ensures
        catalog_owns_contract(ops, id) <==> has_row(catalog_contracts(ops), id),
    decreases ops.len(),
{
    if ops.len() > 0 {
        let f = |op: OperationDeclaration| projected_contracts(op);
        let rest = ops.drop_last();
        let op = ops.last();
        lemma_owns_contract_iff_row(rest, id);
        assert(ops.map_values(f) =~= rest.map_values(f).push(f(op)));
        lemma_flatten_push(rest.map_values(f), f(op));
        let before = catalog_contracts(rest);
        assert(catalog_contracts(ops) == before + projected_contracts(op));
        if catalog_owns_contract(ops, id) {
            let (i, j) = choose|i: int, j: int|
                0 <= i < ops.len() && 0 <= j < ops[i].contracts@.len() && (#[trigger] ops[i].contracts@[j]).id@ == id;
            if i < rest.len() {
                assert(rest[i] == ops[i]);
                assert(catalog_owns_contract(rest, id));
                let k = choose|k: int| 0 <= k < before.len() && (#[trigger] before[k]).id@ == id;
                assert(catalog_contracts(ops)[k] == before[k]);
            } else {
                assert(projected_contracts(op)[j].id == op.contracts@[j].id);
                assert(catalog_contracts(ops)[before.len() + j] == projected_contracts(op)[j]);
            }
        }
        if has_row(catalog_contracts(ops), id) {
            let k = choose|k: int| 0 <= k < catalog_contracts(ops).len() && (#[trigger] catalog_contracts(ops)[k]).id@ == id;
            if k < before.len() {
                assert(before[k] == catalog_contracts(ops)[k]);
                let (i, j) = choose|i: int, j: int|
                    0 <= i < rest.len() && 0 <= j < rest[i].contracts@.len() && (#[trigger] rest[i].contracts@[j]).id@ == id;
                assert(ops[i] == rest[i]);
            } else {
                let j = k - before.len();
                assert(projected_contracts(op)[j] == catalog_contracts(ops)[k]);
                assert(op.contracts@[j].id@ == id);
                assert(ops[ops.len() - 1] == op);
            }
        }
    }
}

/// A declared row that takes the place of a historical row is in the hybrid rows.
pub proof fn lemma_declared_row_projected(
    legacy: Seq<OperationContract>,
    admin: Seq<OperationContract>,
    board: Seq<OperationContract>,
    migrated: Seq<OperationContract>,
    j: int,
    i: int,
)
    requires
        0 <= j < legacy.len(),
        first_index(migrated, has_contract_id(legacy[j].id@)) == Some(i),
    ensures
        hybrid_inventory(legacy, admin, board, migrated).contains(migrated[i]),
{
    let f = |c: OperationContract| hybrid_rows(c, admin, board, migrated);
    let blocks = legacy.map_values(f);
    let rows = hybrid_rows(legacy[j], admin, board, migrated);
    assert(blocks[j] == rows);
    let k: int = if legacy[j].id@ == "api.add-dependency.request"@ { 1 } else { 0 };
    assert(rows[k] == migrated[i]);
    lemma_flatten_contains(blocks, j, k);
}

/// A historical row that no admin or migrated family declares, and around which no board
/// row is positioned, is kept as it is.
pub proof fn lemma_undeclared_row_is_kept(
    contract: OperationContract,
    admin: Seq<OperationContract>,
    board: Seq<OperationContract>,
    migrated: Seq<OperationContract>,
)
    requires
        first_index(migrated, has_contract_id(contract.id@)) is None,
        first_index(admin, has_contract_id(contract.id@)) is None,
        contract.id@ != "api.add-dependency.request"@,
        contract.id@ != "api.doctor.response"@,
        contract.id@ != "cli.board-use.output"@,
        contract.id@ != "cli.task-list.output"@,
        contract.id@ != "api.error.response"@,
    ensures
        hybrid_rows(contract, admin, board, migrated) == seq![contract],
{
    assert(hybrid_rows(contract, admin, board, migrated) =~= seq![contract]);
}

/// Adopting the generated API rows twice adopts them once: the tests depend on the id and
/// the evidence on the fixture, which adoption keeps.
pub proof fn lemma_generated_adoption_idempotent(contract: OperationContract)
    ensures
        generated_adopted(generated_adopted(contract)) == generated_adopted(contract),
{
}

/// Adopting the configuration protocol rows twice adopts them once.
pub proof fn lemma_protocol_adoption_idempotent(contract: OperationContract)
    ensures
        protocol_adopted(protocol_adopted(contract)) == protocol_adopted(contract),
{
}

/// The board catalog has the CRUD rows that follow the shared error row.
#[verifier::rlimit(60)]
pub proof fn lemma_board_crud_rows()
    ensures
        rows_present(catalog_contracts(board_operations()), error_anchors()),
{
    reveal(board_operations);
    reveal_with_fuel(flatten, 11);
    let rows = catalog_contracts(board_operations());
    assert(rows[0].id == "api.list-boards.query");
    assert(rows[2].id == "api.list-boards.response");
    assert(rows[4].id == "api.create-board.request");
    assert(rows[5].id == "api.create-board.response");
    assert(rows[6].id == "api.get-board.path");
    assert(rows[8].id == "api.get-board.response");
    assert(rows[9].id == "api.archive-board.path");
    assert(rows[12].id == "api.archive-board.response");
}

/// The board catalog has the archive request and column rows.
#[verifier::rlimit(60)]
pub proof fn lemma_board_column_rows()
    ensures
        has_row(catalog_contracts(board_operations()), dependency_anchor()@),
        rows_present(catalog_contracts(board_operations()), doctor_anchors()),
{
    reveal(board_operations);
    reveal_with_fuel(flatten, 11);
    let rows = catalog_contracts(board_operations());
    assert(rows[11].id == "api.archive-board.request");
    assert(rows[13].id == "api.list-board-columns.path");
    assert(rows[15].id == "api.list-board-columns.response");
}

/// The board catalog has the board CLI rows.
#[verifier::rlimit(60)]
pub proof fn lemma_board_cli_rows()
    ensures
        rows_present(catalog_contracts(board_operations()), board_use_anchors()),
        rows_present(catalog_contracts(board_operations()), task_list_anchors()),
{
    reveal(board_operations);
    reveal_with_fuel(flatten, 11);
    let rows = catalog_contracts(board_operations());
    assert(rows[16].id == "cli.board-list.output");
    assert(rows[17].id == "cli.board-create.output");
    assert(rows[18].id == "cli.board-show.output");
    assert(rows[19].id == "cli.board-archive.output");
    assert(rows[20].id == "cli.board-columns.output");
}

/// The board catalog has every row that the historical inventory positions around.
pub proof fn lemma_board_anchors()
    ensures
        has_row(catalog_contracts(board_operations()), dependency_anchor()@),
        rows_present(catalog_contracts(board_operations()), doctor_anchors()),
        rows_present(catalog_contracts(board_operations()), board_use_anchors()),
        rows_present(catalog_contracts(board_operations()), task_list_anchors()),
        rows_present(catalog_contracts(board_operations()), error_anchors()),
{
    lemma_board_crud_rows();
    lemma_board_column_rows();
    lemma_board_cli_rows();
}

/// The operation contract inventory of the available catalogs: the historical rows with
/// the declared rows in their place, adopted, extended, with every row of the board and CLI
/// families once, and with canonical witnesses; `None`
/// where its assembly is undefined (a generated API row without a fixture, or an adopted
/// header row whose fixture names no known header profile). The header rows of the board
/// operations stand in the header family's place, after the portable rows. The step, task,
/// label, knowledge and portable families, and the header rows of the other API operations,
/// are declared outside this library (see `available_catalogs`), so their rows are not here.
pub fn operation_inventory() -> (r: Option<Vec<OperationContract>>)
    ensures
        match r {
            Some(v) => inventory_rows() == Some(v@),
            None => inventory_rows() is None,
        },
{
    let mut declared: Vec<OperationContract> = Vec::new();
    append_rows(&mut declared, &crate::board_catalog::operation_contracts());
    append_rows(&mut declared, &crate::cli_shell_catalog::operation_contracts());
    append_rows(&mut declared, &crate::cli_queue_catalog::operation_contracts());
    append_rows(&mut declared, &crate::cli_labels_catalog::operation_contracts());
    assert(declared@ =~= declared_family_rows());
    let board = crate::board_catalog::operation_contracts();
    let headers = header_rows_of(&board);
    let catalogs = InventoryCatalogs {
        admin: crate::admin_catalog::operation_contracts(),
        board,
        dependency: crate::dependency_catalog::operation_contracts(),
        step: Vec::new(),
        task: Vec::new(),
        labels: Vec::new(),
        knowledge: Vec::new(),
        history: crate::history_catalog::operation_contracts(),
        portable: Vec::new(),
        headers,
        admin_inventory: inventory_contracts(),
        declared,
    };
    assert(catalogs@ =~= available_catalogs());
    proof {
        lemma_board_anchors();
        assert(migrated_of(catalogs@) =~= catalog_contracts(dependency_operations()));
    }
    assemble_inventory(&catalogs)
}

} // verus!
