//! The union of the declaration catalogs, and the catalog-wide surface rows.

use vstd::prelude::*;

use crate::admin_catalog::{admin_operations, lemma_admin_endpoint_ids};
use crate::board_catalog::{board_operations, lemma_board_endpoint_ids};
use crate::cli_labels_catalog::{cli_labels_operations, lemma_cli_labels_endpoint_ids};
use crate::cli_queue_catalog::{cli_queue_operations, lemma_cli_queue_endpoint_ids};
use crate::cli_shell_catalog::{cli_shell_operations, lemma_cli_shell_endpoint_ids};
use crate::contract_catalog::{
    endpoint_ids, endpoints_ready, lemma_endpoint_ids_concat, project_surfaces, projected_surface, OperationDeclaration, SurfaceOperation,
};
use crate::dependency_catalog::{dependency_operations, lemma_dependency_endpoint_ids};
use crate::history_catalog::{history_operations, lemma_history_endpoint_ids};

verus! {

/// Every declared operation: boards, dependencies, history, admin, then the CLI shell,
/// queue and labels commands.
pub open spec fn declared_operations() -> Seq<OperationDeclaration> {
    board_operations() + dependency_operations() + history_operations() + admin_operations()
        + cli_shell_operations() + cli_queue_operations() + cli_labels_operations()
}

/// Every API or SSE operation of every catalog names a method and a path.
pub proof fn lemma_declared_operations_ready()
    ensures
        endpoints_ready(declared_operations()),
{
    crate::board_catalog::lemma_board_operations_ready();
    crate::dependency_catalog::lemma_dependency_operations_ready();
    crate::history_catalog::lemma_history_operations_ready();
    crate::admin_catalog::lemma_admin_operations_ready();
    crate::cli_shell_catalog::lemma_cli_shell_operations_ready();
    crate::cli_queue_catalog::lemma_cli_queue_operations_ready();
    crate::cli_labels_catalog::lemma_cli_labels_operations_ready();
    let ops = declared_operations();
    assert forall|i: int| 0 <= i < ops.len() && crate::inventory::is_http_surface(#[trigger] ops[i].surface) implies crate::contract_catalog::endpoint_ready(ops[i]) by {
        let b = board_operations().len() as int;
        let d = b + dependency_operations().len();
        let h = d + history_operations().len();
        let a = h + admin_operations().len();
        let s = a + cli_shell_operations().len();
        let q = s + cli_queue_operations().len();
        if i < b {
            assert(ops[i] == board_operations()[i]);
        } else if i < d {
            assert(ops[i] == dependency_operations()[i - b]);
        } else if i < h {
            assert(ops[i] == history_operations()[i - d]);
        } else if i < a {
            assert(ops[i] == admin_operations()[i - h]);
        } else if i < s {
            assert(ops[i] == cli_shell_operations()[i - a]);
        } else if i < q {
            assert(ops[i] == cli_queue_operations()[i - s]);
        } else {
            assert(ops[i] == cli_labels_operations()[i - q]);
        }
    }
}

fn append(out: &mut Vec<OperationDeclaration>, more: Vec<OperationDeclaration>)
    ensures
        final(out)@ == old(out)@ + more@,
{
    let ghost start = out@;
    let n = more.len();
    for i in 0..n
        invariant
            n == more@.len(),
            out@ == start + more@.take(i as int),
    {
        out.push(more[i]);
        assert(more@.take(i + 1) =~= more@.take(i as int).push(more@[i as int]));
    }
    assert(more@.take(n as int) =~= more@);
}

/// Every declared operation, catalog by catalog.
pub fn operation_catalog() -> (r: Vec<OperationDeclaration>)
    ensures
        r@ == declared_operations(),
{
    let mut out = crate::board_catalog::operation_declarations();
    append(&mut out, crate::dependency_catalog::operation_declarations());
    append(&mut out, crate::history_catalog::operation_declarations());
    append(&mut out, crate::admin_catalog::operation_declarations());
    append(&mut out, crate::cli_shell_catalog::operation_declarations());
    append(&mut out, crate::cli_queue_catalog::operation_declarations());
    append(&mut out, crate::cli_labels_catalog::operation_declarations());
    out
}

/// The surface rows of every declared operation.
pub fn surface_operation_catalog() -> (r: Vec<SurfaceOperation>)
    ensures
        r@.len() == declared_operations().len(),
        forall|i: int| 0 <= i < declared_operations().len() ==> (#[trigger] r@[i])@ == projected_surface(declared_operations()[i]),
{
    let ops = operation_catalog();
    project_surfaces(&ops)
}


/// The operation ids of the declared API and SSE operations, in declaration order.
pub open spec fn http_operation_ids() -> Seq<Seq<char>> {
    seq![
        "api.list-boards"@,
        "api.create-board"@,
        "api.get-board"@,
        "api.archive-board"@,
        "api.list-board-columns"@,
        "api.list-dependencies"@,
        "api.add-dependency"@,
        "api.remove-dependency"@,
        "api.list-runs"@,
        "api.get-run"@,
        "api.get-run-log"@,
        "api.list-comments"@,
        "api.create-comment"@,
        "api.list-attachments"@,
        "api.create-attachment"@,
        "api.download-attachment"@,
        "api.delete-attachment"@,
        "api.list-events"@,
        "sse.stream-events"@,
        "api.health"@,
        "api.get-stats"@,
        "api.doctor"@,
        "api.checkpoint"@,
        "api.maintenance-backup"@,
        "api.maintenance-export"@,
        "api.maintenance-import"@,
        "api.maintenance-vacuum"@,
        "api.maintenance-status"@,
        "api.maintenance-run"@,
        "api.maintenance-rebuild"@,
        "api.maintenance-cleanup"@,
        "api.maintenance-import-v30"@,
    ]
}

/// The endpoint ids that the declared operations project are the declared API and SSE
/// operation ids, family after family.
pub proof fn lemma_declared_endpoint_ids()
    ensures
        endpoint_ids(declared_operations()) == http_operation_ids(),
{
    let b = board_operations();
    let d = dependency_operations();
    let h = history_operations();
    let a = admin_operations();
    let s = cli_shell_operations();
    let q = cli_queue_operations();
    let l = cli_labels_operations();
    lemma_board_endpoint_ids();
    lemma_dependency_endpoint_ids();
    lemma_history_endpoint_ids();
    lemma_admin_endpoint_ids();
    lemma_cli_shell_endpoint_ids();
    lemma_cli_queue_endpoint_ids();
    lemma_cli_labels_endpoint_ids();
    lemma_endpoint_ids_concat(b, d);
    lemma_endpoint_ids_concat(b + d, h);
    lemma_endpoint_ids_concat(b + d + h, a);
    lemma_endpoint_ids_concat(b + d + h + a, s);
    lemma_endpoint_ids_concat(b + d + h + a + s, q);
    lemma_endpoint_ids_concat(b + d + h + a + s + q, l);
    assert(endpoint_ids(declared_operations()) =~= http_operation_ids());
}

/// `api.create-board` differs from every declared API or SSE operation id before it.
proof fn lemma_api_create_board_id_is_new()
    ensures
        forall|j: int| 0 <= j < 1 ==> #[trigger] http_operation_ids()[j] != http_operation_ids()[1],
{
    reveal_strlit("api.create-board");
    reveal_strlit("api.list-boards");
    assert("api.create-board"@.len() == 16);
    assert("api.list-boards"@.len() == 15);
    let ids = http_operation_ids();
    assert forall|j: int| 0 <= j < 1 implies #[trigger] ids[j] != ids[1] by {
        if j == 0 {}
    }
}

/// `api.get-board` differs from every declared API or SSE operation id before it.
proof fn lemma_api_get_board_id_is_new()
    ensures
        forall|j: int| 0 <= j < 2 ==> #[trigger] http_operation_ids()[j] != http_operation_ids()[2],
{
    reveal_strlit("api.get-board");
    reveal_strlit("api.list-boards");
    reveal_strlit("api.create-board");
    assert("api.get-board"@.len() == 13);
    assert("api.list-boards"@.len() == 15);
    assert("api.create-board"@.len() == 16);
    let ids = http_operation_ids();
    assert forall|j: int| 0 <= j < 2 implies #[trigger] ids[j] != ids[2] by {
        if j == 0 {} else if j == 1 {}
    }
}

/// `api.archive-board` differs from every declared API or SSE operation id before it.
proof fn lemma_api_archive_board_id_is_new()
    ensures
        forall|j: int| 0 <= j < 3 ==> #[trigger] http_operation_ids()[j] != http_operation_ids()[3],
{
    reveal_strlit("api.archive-board");
    reveal_strlit("api.list-boards");
    reveal_strlit("api.create-board");
    reveal_strlit("api.get-board");
    assert("api.archive-board"@.len() == 17);
    assert("api.list-boards"@.len() == 15);
    assert("api.create-board"@.len() == 16);
    assert("api.get-board"@.len() == 13);
    let ids = http_operation_ids();
    assert forall|j: int| 0 <= j < 3 implies #[trigger] ids[j] != ids[3] by {
        if j == 0 {} else if j == 1 {} else if j == 2 {}
    }
}

/// `api.list-board-columns` differs from every declared API or SSE operation id before it.
proof fn lemma_api_list_board_columns_id_is_new()
    ensures
        forall|j: int| 0 <= j < 4 ==> #[trigger] http_operation_ids()[j] != http_operation_ids()[4],
{
    reveal_strlit("api.list-board-columns");
    reveal_strlit("api.list-boards");
    reveal_strlit("api.create-board");
    reveal_strlit("api.get-board");
    reveal_strlit("api.archive-board");
    assert("api.list-board-columns"@.len() == 22);
    assert("api.list-boards"@.len() == 15);
    assert("api.create-board"@.len() == 16);
    assert("api.get-board"@.len() == 13);
    assert("api.archive-board"@.len() == 17);
    let ids = http_operation_ids();
    assert forall|j: int| 0 <= j < 4 implies #[trigger] ids[j] != ids[4] by {
        if j == 0 {} else if j == 1 {} else if j == 2 {} else if j == 3 {}
    }
}

/// `api.list-dependencies` differs from every declared API or SSE operation id before it.
proof fn lemma_api_list_dependencies_id_is_new()
    ensures
        forall|j: int| 0 <= j < 5 ==> #[trigger] http_operation_ids()[j] != http_operation_ids()[5],
{
    reveal_strlit("api.list-dependencies");
    reveal_strlit("api.list-boards");
    reveal_strlit("api.create-board");
    reveal_strlit("api.get-board");
    reveal_strlit("api.archive-board");
    reveal_strlit("api.list-board-columns");
    assert("api.list-dependencies"@.len() == 21);
    assert("api.list-boards"@.len() == 15);
    assert("api.create-board"@.len() == 16);
    assert("api.get-board"@.len() == 13);
    assert("api.archive-board"@.len() == 17);
    assert("api.list-board-columns"@.len() == 22);
    let ids = http_operation_ids();
    assert forall|j: int| 0 <= j < 5 implies #[trigger] ids[j] != ids[5] by {
        if j == 0 {} else if j == 1 {} else if j == 2 {} else if j == 3 {} else if j == 4 {}
    }
}

/// `api.add-dependency` differs from every declared API or SSE operation id before it.
proof fn lemma_api_add_dependency_id_is_new()
    ensures
        forall|j: int| 0 <= j < 6 ==> #[trigger] http_operation_ids()[j] != http_operation_ids()[6],
{
    reveal_strlit("api.add-dependency");
    reveal_strlit("api.list-boards");
    reveal_strlit("api.create-board");
    reveal_strlit("api.get-board");
    reveal_strlit("api.archive-board");
    reveal_strlit("api.list-board-columns");
    reveal_strlit("api.list-dependencies");
    assert("api.add-dependency"@.len() == 18);
    assert("api.list-boards"@.len() == 15);
    assert("api.create-board"@.len() == 16);
    assert("api.get-board"@.len() == 13);
    assert("api.archive-board"@.len() == 17);
    assert("api.list-board-columns"@.len() == 22);
    assert("api.list-dependencies"@.len() == 21);
    let ids = http_operation_ids();
    assert forall|j: int| 0 <= j < 6 implies #[trigger] ids[j] != ids[6] by {
        if j == 0 {} else if j == 1 {} else if j == 2 {} else if j == 3 {} else if j == 4 {} else if j == 5 {}
    }
}

/// `api.remove-dependency` differs from every declared API or SSE operation id before it.
proof fn lemma_api_remove_dependency_id_is_new()
    ensures
        forall|j: int| 0 <= j < 7 ==> #[trigger] http_operation_ids()[j] != http_operation_ids()[7],
{
    reveal_strlit("api.remove-dependency");
    reveal_strlit("api.list-boards");
    reveal_strlit("api.create-board");
    reveal_strlit("api.get-board");
    reveal_strlit("api.archive-board");
    reveal_strlit("api.list-board-columns");
    reveal_strlit("api.list-dependencies");
    reveal_strlit("api.add-dependency");
    assert("api.remove-dependency"@.len() == 21);
    assert("api.list-boards"@.len() == 15);
    assert("api.create-board"@.len() == 16);
    assert("api.get-board"@.len() == 13);
    assert("api.archive-board"@.len() == 17);
    assert("api.list-board-columns"@.len() == 22);
    assert("api.list-dependencies"@.len() == 21);
    assert("api.add-dependency"@.len() == 18);
    assert("api.remove-dependency"@[4] == 'r');
    assert("api.list-dependencies"@[4] == 'l');
    let ids = http_operation_ids();
    assert forall|j: int| 0 <= j < 7 implies #[trigger] ids[j] != ids[7] by {
        if j == 0 {} else if j == 1 {} else if j == 2 {} else if j == 3 {} else if j == 4 {} else if j == 5 {} else if j == 6 {}
    }
}

/// `api.list-runs` differs from every declared API or SSE operation id before it.
proof fn lemma_api_list_runs_id_is_new()
    ensures
        forall|j: int| 0 <= j < 8 ==> #[trigger] http_operation_ids()[j] != http_operation_ids()[8],
{
    reveal_strlit("api.list-runs");
    reveal_strlit("api.list-boards");
    reveal_strlit("api.create-board");
    reveal_strlit("api.get-board");
    reveal_strlit("api.archive-board");
    reveal_strlit("api.list-board-columns");
    reveal_strlit("api.list-dependencies");
    reveal_strlit("api.add-dependency");
    reveal_strlit("api.remove-dependency");
    assert("api.list-runs"@.len() == 13);
    assert("api.list-boards"@.len() == 15);
    assert("api.create-board"@.len() == 16);
    assert("api.get-board"@.len() == 13);
    assert("api.archive-board"@.len() == 17);
    assert("api.list-board-columns"@.len() == 22);
    assert("api.list-dependencies"@.len() == 21);
    assert("api.add-dependency"@.len() == 18);
    assert("api.remove-dependency"@.len() == 21);
    assert("api.list-runs"@[4] == 'l');
    assert("api.get-board"@[4] == 'g');
    let ids = http_operation_ids();
    assert forall|j: int| 0 <= j < 8 implies #[trigger] ids[j] != ids[8] by {
        if j == 0 {} else if j == 1 {} else if j == 2 {} else if j == 3 {} else if j == 4 {} else if j == 5 {} else if j == 6 {} else if j == 7 {}
    }
}

/// `api.get-run` differs from every declared API or SSE operation id before it.
proof fn lemma_api_get_run_id_is_new()
    ensures
        forall|j: int| 0 <= j < 9 ==> #[trigger] http_operation_ids()[j] != http_operation_ids()[9],
{
    reveal_strlit("api.get-run");
    reveal_strlit("api.list-boards");
    reveal_strlit("api.create-board");
    reveal_strlit("api.get-board");
    reveal_strlit("api.archive-board");
    reveal_strlit("api.list-board-columns");
    reveal_strlit("api.list-dependencies");
    reveal_strlit("api.add-dependency");
    reveal_strlit("api.remove-dependency");
    reveal_strlit("api.list-runs");
    assert("api.get-run"@.len() == 11);
    assert("api.list-boards"@.len() == 15);
    assert("api.create-board"@.len() == 16);
    assert("api.get-board"@.len() == 13);
    assert("api.archive-board"@.len() == 17);
    assert("api.list-board-columns"@.len() == 22);
    assert("api.list-dependencies"@.len() == 21);
    assert("api.add-dependency"@.len() == 18);
    assert("api.remove-dependency"@.len() == 21);
    assert("api.list-runs"@.len() == 13);
    let ids = http_operation_ids();
    assert forall|j: int| 0 <= j < 9 implies #[trigger] ids[j] != ids[9] by {
        if j == 0 {} else if j == 1 {} else if j == 2 {} else if j == 3 {} else if j == 4 {} else if j == 5 {} else if j == 6 {} else if j == 7 {} else if j == 8 {}
    }
}

/// `api.get-run-log` differs from every declared API or SSE operation id before it.
proof fn lemma_api_get_run_log_id_is_new()
    ensures
        forall|j: int| 0 <= j < 10 ==> #[trigger] http_operation_ids()[j] != http_operation_ids()[10],
{
    reveal_strlit("api.get-run-log");
    reveal_strlit("api.list-boards");
    reveal_strlit("api.create-board");
    reveal_strlit("api.get-board");
    reveal_strlit("api.archive-board");
    reveal_strlit("api.list-board-columns");
    reveal_strlit("api.list-dependencies");
    reveal_strlit("api.add-dependency");
    reveal_strlit("api.remove-dependency");
    reveal_strlit("api.list-runs");
    reveal_strlit("api.get-run");
    assert("api.get-run-log"@.len() == 15);
    assert("api.list-boards"@.len() == 15);
    assert("api.create-board"@.len() == 16);
    assert("api.get-board"@.len() == 13);
    assert("api.archive-board"@.len() == 17);
    assert("api.list-board-columns"@.len() == 22);
    assert("api.list-dependencies"@.len() == 21);
    assert("api.add-dependency"@.len() == 18);
    assert("api.remove-dependency"@.len() == 21);
    assert("api.list-runs"@.len() == 13);
    assert("api.get-run"@.len() == 11);
    assert("api.get-run-log"@[4] == 'g');
    assert("api.list-boards"@[4] == 'l');
    let ids = http_operation_ids();
    assert forall|j: int| 0 <= j < 10 implies #[trigger] ids[j] != ids[10] by {
        if j == 0 {} else if j == 1 {} else if j == 2 {} else if j == 3 {} else if j == 4 {} else if j == 5 {} else if j == 6 {} else if j == 7 {} else if j == 8 {} else if j == 9 {}
    }
}

/// `api.list-comments` differs from every declared API or SSE operation id before it.
proof fn lemma_api_list_comments_id_is_new()
    ensures
        forall|j: int| 0 <= j < 11 ==> #[trigger] http_operation_ids()[j] != http_operation_ids()[11],
{
    reveal_strlit("api.list-comments");
    reveal_strlit("api.list-boards");
    reveal_strlit("api.create-board");
    reveal_strlit("api.get-board");
    reveal_strlit("api.archive-board");
    reveal_strlit("api.list-board-columns");
    reveal_strlit("api.list-dependencies");
    reveal_strlit("api.add-dependency");
    reveal_strlit("api.remove-dependency");
    reveal_strlit("api.list-runs");
    reveal_strlit("api.get-run");
    reveal_strlit("api.get-run-log");
    assert("api.list-comments"@.len() == 17);
    assert("api.list-boards"@.len() == 15);
    assert("api.create-board"@.len() == 16);
    assert("api.get-board"@.len() == 13);
    assert("api.archive-board"@.len() == 17);
    assert("api.list-board-columns"@.len() == 22);
    assert("api.list-dependencies"@.len() == 21);
    assert("api.add-dependency"@.len() == 18);
    assert("api.remove-dependency"@.len() == 21);
    assert("api.list-runs"@.len() == 13);
    assert("api.get-run"@.len() == 11);
    assert("api.get-run-log"@.len() == 15);
    assert("api.list-comments"@[4] == 'l');
    assert("api.archive-board"@[4] == 'a');
    let ids = http_operation_ids();
    assert forall|j: int| 0 <= j < 11 implies #[trigger] ids[j] != ids[11] by {
        if j == 0 {} else if j == 1 {} else if j == 2 {} else if j == 3 {} else if j == 4 {} else if j == 5 {} else if j == 6 {} else if j == 7 {} else if j == 8 {} else if j == 9 {} else if j == 10 {}
    }
}

/// `api.create-comment` differs from every declared API or SSE operation id before it.
proof fn lemma_api_create_comment_id_is_new()
    ensures
        forall|j: int| 0 <= j < 12 ==> #[trigger] http_operation_ids()[j] != http_operation_ids()[12],
{
    reveal_strlit("api.create-comment");
    reveal_strlit("api.list-boards");
    reveal_strlit("api.create-board");
    reveal_strlit("api.get-board");
    reveal_strlit("api.archive-board");
    reveal_strlit("api.list-board-columns");
    reveal_strlit("api.list-dependencies");
    reveal_strlit("api.add-dependency");
    reveal_strlit("api.remove-dependency");
    reveal_strlit("api.list-runs");
    reveal_strlit("api.get-run");
    reveal_strlit("api.get-run-log");
    reveal_strlit("api.list-comments");
    assert("api.create-comment"@.len() == 18);
    assert("api.list-boards"@.len() == 15);
    assert("api.create-board"@.len() == 16);
    assert("api.get-board"@.len() == 13);
    assert("api.archive-board"@.len() == 17);
    assert("api.list-board-columns"@.len() == 22);
    assert("api.list-dependencies"@.len() == 21);
    assert("api.add-dependency"@.len() == 18);
    assert("api.remove-dependency"@.len() == 21);
    assert("api.list-runs"@.len() == 13);
    assert("api.get-run"@.len() == 11);
    assert("api.get-run-log"@.len() == 15);
    assert("api.list-comments"@.len() == 17);
    assert("api.create-comment"@[4] == 'c');
    assert("api.add-dependency"@[4] == 'a');
    let ids = http_operation_ids();
    assert forall|j: int| 0 <= j < 12 implies #[trigger] ids[j] != ids[12] by {
        if j == 0 {} else if j == 1 {} else if j == 2 {} else if j == 3 {} else if j == 4 {} else if j == 5 {} else if j == 6 {} else if j == 7 {} else if j == 8 {} else if j == 9 {} else if j == 10 {} else if j == 11 {}
    }
}

/// `api.list-attachments` differs from every declared API or SSE operation id before it.
proof fn lemma_api_list_attachments_id_is_new()
    ensures
        forall|j: int| 0 <= j < 13 ==> #[trigger] http_operation_ids()[j] != http_operation_ids()[13],
{
    reveal_strlit("api.list-attachments");
    reveal_strlit("api.list-boards");
    reveal_strlit("api.create-board");
    reveal_strlit("api.get-board");
    reveal_strlit("api.archive-board");
    reveal_strlit("api.list-board-columns");
    reveal_strlit("api.list-dependencies");
    reveal_strlit("api.add-dependency");
    reveal_strlit("api.remove-dependency");
    reveal_strlit("api.list-runs");
    reveal_strlit("api.get-run");
    reveal_strlit("api.get-run-log");
    reveal_strlit("api.list-comments");
    reveal_strlit("api.create-comment");
    assert("api.list-attachments"@.len() == 20);
    assert("api.list-boards"@.len() == 15);
    assert("api.create-board"@.len() == 16);
    assert("api.get-board"@.len() == 13);
    assert("api.archive-board"@.len() == 17);
    assert("api.list-board-columns"@.len() == 22);
    assert("api.list-dependencies"@.len() == 21);
    assert("api.add-dependency"@.len() == 18);
    assert("api.remove-dependency"@.len() == 21);
    assert("api.list-runs"@.len() == 13);
    assert("api.get-run"@.len() == 11);
    assert("api.get-run-log"@.len() == 15);
    assert("api.list-comments"@.len() == 17);
    assert("api.create-comment"@.len() == 18);
    let ids = http_operation_ids();
    assert forall|j: int| 0 <= j < 13 implies #[trigger] ids[j] != ids[13] by {
        if j == 0 {} else if j == 1 {} else if j == 2 {} else if j == 3 {} else if j == 4 {} else if j == 5 {} else if j == 6 {} else if j == 7 {} else if j == 8 {} else if j == 9 {} else if j == 10 {} else if j == 11 {} else if j == 12 {}
    }
}

/// `api.create-attachment` differs from every declared API or SSE operation id before it.
proof fn lemma_api_create_attachment_id_is_new()
    ensures
        forall|j: int| 0 <= j < 14 ==> #[trigger] http_operation_ids()[j] != http_operation_ids()[14],
{
    reveal_strlit("api.create-attachment");
    reveal_strlit("api.list-boards");
    reveal_strlit("api.create-board");
    reveal_strlit("api.get-board");
    reveal_strlit("api.archive-board");
    reveal_strlit("api.list-board-columns");
    reveal_strlit("api.list-dependencies");
    reveal_strlit("api.add-dependency");
    reveal_strlit("api.remove-dependency");
    reveal_strlit("api.list-runs");
    reveal_strlit("api.get-run");
    reveal_strlit("api.get-run-log");
    reveal_strlit("api.list-comments");
    reveal_strlit("api.create-comment");
    reveal_strlit("api.list-attachments");
    assert("api.create-attachment"@.len() == 21);
    assert("api.list-boards"@.len() == 15);
    assert("api.create-board"@.len() == 16);
    assert("api.get-board"@.len() == 13);
    assert("api.archive-board"@.len() == 17);
    assert("api.list-board-columns"@.len() == 22);
    assert("api.list-dependencies"@.len() == 21);
    assert("api.add-dependency"@.len() == 18);
    assert("api.remove-dependency"@.len() == 21);
    assert("api.list-runs"@.len() == 13);
    assert("api.get-run"@.len() == 11);
    assert("api.get-run-log"@.len() == 15);
    assert("api.list-comments"@.len() == 17);
    assert("api.create-comment"@.len() == 18);
    assert("api.list-attachments"@.len() == 20);
    assert("api.create-attachment"@[4] == 'c');
    assert("api.list-dependencies"@[4] == 'l');
    assert("api.create-attachment"@[4] == 'c');
    assert("api.remove-dependency"@[4] == 'r');
    let ids = http_operation_ids();
    assert forall|j: int| 0 <= j < 14 implies #[trigger] ids[j] != ids[14] by {
        if j == 0 {} else if j == 1 {} else if j == 2 {} else if j == 3 {} else if j == 4 {} else if j == 5 {} else if j == 6 {} else if j == 7 {} else if j == 8 {} else if j == 9 {} else if j == 10 {} else if j == 11 {} else if j == 12 {} else if j == 13 {}
    }
}

/// `api.download-attachment` differs from every declared API or SSE operation id before it.
proof fn lemma_api_download_attachment_id_is_new()
    ensures
        forall|j: int| 0 <= j < 15 ==> #[trigger] http_operation_ids()[j] != http_operation_ids()[15],
{
    reveal_strlit("api.download-attachment");
    reveal_strlit("api.list-boards");
    reveal_strlit("api.create-board");
    reveal_strlit("api.get-board");
    reveal_strlit("api.archive-board");
    reveal_strlit("api.list-board-columns");
    reveal_strlit("api.list-dependencies");
    reveal_strlit("api.add-dependency");
    reveal_strlit("api.remove-dependency");
    reveal_strlit("api.list-runs");
    reveal_strlit("api.get-run");
    reveal_strlit("api.get-run-log");
    reveal_strlit("api.list-comments");
    reveal_strlit("api.create-comment");
    reveal_strlit("api.list-attachments");
    reveal_strlit("api.create-attachment");
    assert("api.download-attachment"@.len() == 23);
    assert("api.list-boards"@.len() == 15);
    assert("api.create-board"@.len() == 16);
    assert("api.get-board"@.len() == 13);
    assert("api.archive-board"@.len() == 17);
    assert("api.list-board-columns"@.len() == 22);
    assert("api.list-dependencies"@.len() == 21);
    assert("api.add-dependency"@.len() == 18);
    assert("api.remove-dependency"@.len() == 21);
    assert("api.list-runs"@.len() == 13);
    assert("api.get-run"@.len() == 11);
    assert("api.get-run-log"@.len() == 15);
    assert("api.list-comments"@.len() == 17);
    assert("api.create-comment"@.len() == 18);
    assert("api.list-attachments"@.len() == 20);
    assert("api.create-attachment"@.len() == 21);
    let ids = http_operation_ids();
    assert forall|j: int| 0 <= j < 15 implies #[trigger] ids[j] != ids[15] by {
        if j == 0 {} else if j == 1 {} else if j == 2 {} else if j == 3 {} else if j == 4 {} else if j == 5 {} else if j == 6 {} else if j == 7 {} else if j == 8 {} else if j == 9 {} else if j == 10 {} else if j == 11 {} else if j == 12 {} else if j == 13 {} else if j == 14 {}
    }
}

/// `api.delete-attachment` differs from every declared API or SSE operation id before it.
proof fn lemma_api_delete_attachment_id_is_new()
    ensures
        forall|j: int| 0 <= j < 16 ==> #[trigger] http_operation_ids()[j] != http_operation_ids()[16],
{
    reveal_strlit("api.delete-attachment");
    reveal_strlit("api.list-boards");
    reveal_strlit("api.create-board");
    reveal_strlit("api.get-board");
    reveal_strlit("api.archive-board");
    reveal_strlit("api.list-board-columns");
    reveal_strlit("api.list-dependencies");
    reveal_strlit("api.add-dependency");
    reveal_strlit("api.remove-dependency");
    reveal_strlit("api.list-runs");
    reveal_strlit("api.get-run");
    reveal_strlit("api.get-run-log");
    reveal_strlit("api.list-comments");
    reveal_strlit("api.create-comment");
    reveal_strlit("api.list-attachments");
    reveal_strlit("api.create-attachment");
    reveal_strlit("api.download-attachment");
    assert("api.delete-attachment"@.len() == 21);
    assert("api.list-boards"@.len() == 15);
    assert("api.create-board"@.len() == 16);
    assert("api.get-board"@.len() == 13);
    assert("api.archive-board"@.len() == 17);
    assert("api.list-board-columns"@.len() == 22);
    assert("api.list-dependencies"@.len() == 21);
    assert("api.add-dependency"@.len() == 18);
    assert("api.remove-dependency"@.len() == 21);
    assert("api.list-runs"@.len() == 13);
    assert("api.get-run"@.len() == 11);
    assert("api.get-run-log"@.len() == 15);
    assert("api.list-comments"@.len() == 17);
    assert("api.create-comment"@.len() == 18);
    assert("api.list-attachments"@.len() == 20);
    assert("api.create-attachment"@.len() == 21);
    assert("api.download-attachment"@.len() == 23);
    assert("api.delete-attachment"@[4] == 'd');
    assert("api.list-dependencies"@[4] == 'l');
    assert("api.delete-attachment"@[4] == 'd');
    assert("api.remove-dependency"@[4] == 'r');
    assert("api.delete-attachment"@[4] == 'd');
    assert("api.create-attachment"@[4] == 'c');
    let ids = http_operation_ids();
    assert forall|j: int| 0 <= j < 16 implies #[trigger] ids[j] != ids[16] by {
        if j == 0 {} else if j == 1 {} else if j == 2 {} else if j == 3 {} else if j == 4 {} else if j == 5 {} else if j == 6 {} else if j == 7 {} else if j == 8 {} else if j == 9 {} else if j == 10 {} else if j == 11 {} else if j == 12 {} else if j == 13 {} else if j == 14 {} else if j == 15 {}
    }
}

/// `api.list-events` differs from every declared API or SSE operation id before it.
proof fn lemma_api_list_events_id_is_new()
    ensures
        forall|j: int| 0 <= j < 17 ==> #[trigger] http_operation_ids()[j] != http_operation_ids()[17],
{
    reveal_strlit("api.list-events");
    reveal_strlit("api.list-boards");
    reveal_strlit("api.create-board");
    reveal_strlit("api.get-board");
    reveal_strlit("api.archive-board");
    reveal_strlit("api.list-board-columns");
    reveal_strlit("api.list-dependencies");
    reveal_strlit("api.add-dependency");
    reveal_strlit("api.remove-dependency");
    reveal_strlit("api.list-runs");
    reveal_strlit("api.get-run");
    reveal_strlit("api.get-run-log");
    reveal_strlit("api.list-comments");
    reveal_strlit("api.create-comment");
    reveal_strlit("api.list-attachments");
    reveal_strlit("api.create-attachment");
    reveal_strlit("api.download-attachment");
    reveal_strlit("api.delete-attachment");
    assert("api.list-events"@.len() == 15);
    assert("api.list-boards"@.len() == 15);
    assert("api.create-board"@.len() == 16);
    assert("api.get-board"@.len() == 13);
    assert("api.archive-board"@.len() == 17);
    assert("api.list-board-columns"@.len() == 22);
    assert("api.list-dependencies"@.len() == 21);
    assert("api.add-dependency"@.len() == 18);
    assert("api.remove-dependency"@.len() == 21);
    assert("api.list-runs"@.len() == 13);
    assert("api.get-run"@.len() == 11);
    assert("api.get-run-log"@.len() == 15);
    assert("api.list-comments"@.len() == 17);
    assert("api.create-comment"@.len() == 18);
    assert("api.list-attachments"@.len() == 20);
    assert("api.create-attachment"@.len() == 21);
    assert("api.download-attachment"@.len() == 23);
    assert("api.delete-attachment"@.len() == 21);
    assert("api.list-events"@[9] == 'e');
    assert("api.list-boards"@[9] == 'b');
    assert("api.list-events"@[4] == 'l');
    assert("api.get-run-log"@[4] == 'g');
    let ids = http_operation_ids();
    assert forall|j: int| 0 <= j < 17 implies #[trigger] ids[j] != ids[17] by {
        if j == 0 {} else if j == 1 {} else if j == 2 {} else if j == 3 {} else if j == 4 {} else if j == 5 {} else if j == 6 {} else if j == 7 {} else if j == 8 {} else if j == 9 {} else if j == 10 {} else if j == 11 {} else if j == 12 {} else if j == 13 {} else if j == 14 {} else if j == 15 {} else if j == 16 {}
    }
}

/// `sse.stream-events` differs from every declared API or SSE operation id before it.
proof fn lemma_sse_stream_events_id_is_new()
    ensures
        forall|j: int| 0 <= j < 18 ==> #[trigger] http_operation_ids()[j] != http_operation_ids()[18],
{
    reveal_strlit("sse.stream-events");
    reveal_strlit("api.list-boards");
    reveal_strlit("api.create-board");
    reveal_strlit("api.get-board");
    reveal_strlit("api.archive-board");
    reveal_strlit("api.list-board-columns");
    reveal_strlit("api.list-dependencies");
    reveal_strlit("api.add-dependency");
    reveal_strlit("api.remove-dependency");
    reveal_strlit("api.list-runs");
    reveal_strlit("api.get-run");
    reveal_strlit("api.get-run-log");
    reveal_strlit("api.list-comments");
    reveal_strlit("api.create-comment");
    reveal_strlit("api.list-attachments");
    reveal_strlit("api.create-attachment");
    reveal_strlit("api.download-attachment");
    reveal_strlit("api.delete-attachment");
    reveal_strlit("api.list-events");
    assert("sse.stream-events"@.len() == 17);
    assert("api.list-boards"@.len() == 15);
    assert("api.create-board"@.len() == 16);
    assert("api.get-board"@.len() == 13);
    assert("api.archive-board"@.len() == 17);
    assert("api.list-board-columns"@.len() == 22);
    assert("api.list-dependencies"@.len() == 21);
    assert("api.add-dependency"@.len() == 18);
    assert("api.remove-dependency"@.len() == 21);
    assert("api.list-runs"@.len() == 13);
    assert("api.get-run"@.len() == 11);
    assert("api.get-run-log"@.len() == 15);
    assert("api.list-comments"@.len() == 17);
    assert("api.create-comment"@.len() == 18);
    assert("api.list-attachments"@.len() == 20);
    assert("api.create-attachment"@.len() == 21);
    assert("api.download-attachment"@.len() == 23);
    assert("api.delete-attachment"@.len() == 21);
    assert("api.list-events"@.len() == 15);
    assert("sse.stream-events"@[0] == 's');
    assert("api.archive-board"@[0] == 'a');
    assert("sse.stream-events"@[0] == 's');
    assert("api.list-comments"@[0] == 'a');
    let ids = http_operation_ids();
    assert forall|j: int| 0 <= j < 18 implies #[trigger] ids[j] != ids[18] by {
        if j == 0 {} else if j == 1 {} else if j == 2 {} else if j == 3 {} else if j == 4 {} else if j == 5 {} else if j == 6 {} else if j == 7 {} else if j == 8 {} else if j == 9 {} else if j == 10 {} else if j == 11 {} else if j == 12 {} else if j == 13 {} else if j == 14 {} else if j == 15 {} else if j == 16 {} else if j == 17 {}
    }
}

/// `api.health` differs from every declared API or SSE operation id before it.
proof fn lemma_api_health_id_is_new()
    ensures
        forall|j: int| 0 <= j < 19 ==> #[trigger] http_operation_ids()[j] != http_operation_ids()[19],
{
    reveal_strlit("api.health");
    reveal_strlit("api.list-boards");
    reveal_strlit("api.create-board");
    reveal_strlit("api.get-board");
    reveal_strlit("api.archive-board");
    reveal_strlit("api.list-board-columns");
    reveal_strlit("api.list-dependencies");
    reveal_strlit("api.add-dependency");
    reveal_strlit("api.remove-dependency");
    reveal_strlit("api.list-runs");
    reveal_strlit("api.get-run");
    reveal_strlit("api.get-run-log");
    reveal_strlit("api.list-comments");
    reveal_strlit("api.create-comment");
    reveal_strlit("api.list-attachments");
    reveal_strlit("api.create-attachment");
    reveal_strlit("api.download-attachment");
    reveal_strlit("api.delete-attachment");
    reveal_strlit("api.list-events");
    reveal_strlit("sse.stream-events");
    assert("api.health"@.len() == 10);
    assert("api.list-boards"@.len() == 15);
    assert("api.create-board"@.len() == 16);
    assert("api.get-board"@.len() == 13);
    assert("api.archive-board"@.len() == 17);
    assert("api.list-board-columns"@.len() == 22);
    assert("api.list-dependencies"@.len() == 21);
    assert("api.add-dependency"@.len() == 18);
    assert("api.remove-dependency"@.len() == 21);
    assert("api.list-runs"@.len() == 13);
    assert("api.get-run"@.len() == 11);
    assert("api.get-run-log"@.len() == 15);
    assert("api.list-comments"@.len() == 17);
    assert("api.create-comment"@.len() == 18);
    assert("api.list-attachments"@.len() == 20);
    assert("api.create-attachment"@.len() == 21);
    assert("api.download-attachment"@.len() == 23);
    assert("api.delete-attachment"@.len() == 21);
    assert("api.list-events"@.len() == 15);
    assert("sse.stream-events"@.len() == 17);
    let ids = http_operation_ids();
    assert forall|j: int| 0 <= j < 19 implies #[trigger] ids[j] != ids[19] by {
        if j == 0 {} else if j == 1 {} else if j == 2 {} else if j == 3 {} else if j == 4 {} else if j == 5 {} else if j == 6 {} else if j == 7 {} else if j == 8 {} else if j == 9 {} else if j == 10 {} else if j == 11 {} else if j == 12 {} else if j == 13 {} else if j == 14 {} else if j == 15 {} else if j == 16 {} else if j == 17 {} else if j == 18 {}
    }
}

/// `api.get-stats` differs from every declared API or SSE operation id before it.
proof fn lemma_api_get_stats_id_is_new()
    ensures
        forall|j: int| 0 <= j < 20 ==> #[trigger] http_operation_ids()[j] != http_operation_ids()[20],
{
    reveal_strlit("api.get-stats");
    reveal_strlit("api.list-boards");
    reveal_strlit("api.create-board");
    reveal_strlit("api.get-board");
    reveal_strlit("api.archive-board");
    reveal_strlit("api.list-board-columns");
    reveal_strlit("api.list-dependencies");
    reveal_strlit("api.add-dependency");
    reveal_strlit("api.remove-dependency");
    reveal_strlit("api.list-runs");
    reveal_strlit("api.get-run");
    reveal_strlit("api.get-run-log");
    reveal_strlit("api.list-comments");
    reveal_strlit("api.create-comment");
    reveal_strlit("api.list-attachments");
    reveal_strlit("api.create-attachment");
    reveal_strlit("api.download-attachment");
    reveal_strlit("api.delete-attachment");
    reveal_strlit("api.list-events");
    reveal_strlit("sse.stream-events");
    reveal_strlit("api.health");
    assert("api.get-stats"@.len() == 13);
    assert("api.list-boards"@.len() == 15);
    assert("api.create-board"@.len() == 16);
    assert("api.get-board"@.len() == 13);
    assert("api.archive-board"@.len() == 17);
    assert("api.list-board-columns"@.len() == 22);
    assert("api.list-dependencies"@.len() == 21);
    assert("api.add-dependency"@.len() == 18);
    assert("api.remove-dependency"@.len() == 21);
    assert("api.list-runs"@.len() == 13);
    assert("api.get-run"@.len() == 11);
    assert("api.get-run-log"@.len() == 15);
    assert("api.list-comments"@.len() == 17);
    assert("api.create-comment"@.len() == 18);
    assert("api.list-attachments"@.len() == 20);
    assert("api.create-attachment"@.len() == 21);
    assert("api.download-attachment"@.len() == 23);
    assert("api.delete-attachment"@.len() == 21);
    assert("api.list-events"@.len() == 15);
    assert("sse.stream-events"@.len() == 17);
    assert("api.health"@.len() == 10);
    assert("api.get-stats"@[8] == 's');
    assert("api.get-board"@[8] == 'b');
    assert("api.get-stats"@[4] == 'g');
    assert("api.list-runs"@[4] == 'l');
    let ids = http_operation_ids();
    assert forall|j: int| 0 <= j < 20 implies #[trigger] ids[j] != ids[20] by {
        if j == 0 {} else if j == 1 {} else if j == 2 {} else if j == 3 {} else if j == 4 {} else if j == 5 {} else if j == 6 {} else if j == 7 {} else if j == 8 {} else if j == 9 {} else if j == 10 {} else if j == 11 {} else if j == 12 {} else if j == 13 {} else if j == 14 {} else if j == 15 {} else if j == 16 {} else if j == 17 {} else if j == 18 {} else if j == 19 {}
    }
}

/// `api.doctor` differs from every declared API or SSE operation id before it.
proof fn lemma_api_doctor_id_is_new()
    ensures
        forall|j: int| 0 <= j < 21 ==> #[trigger] http_operation_ids()[j] != http_operation_ids()[21],
{
    reveal_strlit("api.doctor");
    reveal_strlit("api.list-boards");
    reveal_strlit("api.create-board");
    reveal_strlit("api.get-board");
    reveal_strlit("api.archive-board");
    reveal_strlit("api.list-board-columns");
    reveal_strlit("api.list-dependencies");
    reveal_strlit("api.add-dependency");
    reveal_strlit("api.remove-dependency");
    reveal_strlit("api.list-runs");
    reveal_strlit("api.get-run");
    reveal_strlit("api.get-run-log");
    reveal_strlit("api.list-comments");
    reveal_strlit("api.create-comment");
    reveal_strlit("api.list-attachments");
    reveal_strlit("api.create-attachment");
    reveal_strlit("api.download-attachment");
    reveal_strlit("api.delete-attachment");
    reveal_strlit("api.list-events");
    reveal_strlit("sse.stream-events");
    reveal_strlit("api.health");
    reveal_strlit("api.get-stats");
    assert("api.doctor"@.len() == 10);
    assert("api.list-boards"@.len() == 15);
    assert("api.create-board"@.len() == 16);
    assert("api.get-board"@.len() == 13);
    assert("api.archive-board"@.len() == 17);
    assert("api.list-board-columns"@.len() == 22);
    assert("api.list-dependencies"@.len() == 21);
    assert("api.add-dependency"@.len() == 18);
    assert("api.remove-dependency"@.len() == 21);
    assert("api.list-runs"@.len() == 13);
    assert("api.get-run"@.len() == 11);
    assert("api.get-run-log"@.len() == 15);
    assert("api.list-comments"@.len() == 17);
    assert("api.create-comment"@.len() == 18);
    assert("api.list-attachments"@.len() == 20);
    assert("api.create-attachment"@.len() == 21);
    assert("api.download-attachment"@.len() == 23);
    assert("api.delete-attachment"@.len() == 21);
    assert("api.list-events"@.len() == 15);
    assert("sse.stream-events"@.len() == 17);
    assert("api.health"@.len() == 10);
    assert("api.get-stats"@.len() == 13);
    assert("api.doctor"@[4] == 'd');
    assert("api.health"@[4] == 'h');
    let ids = http_operation_ids();
    assert forall|j: int| 0 <= j < 21 implies #[trigger] ids[j] != ids[21] by {
        if j == 0 {} else if j == 1 {} else if j == 2 {} else if j == 3 {} else if j == 4 {} else if j == 5 {} else if j == 6 {} else if j == 7 {} else if j == 8 {} else if j == 9 {} else if j == 10 {} else if j == 11 {} else if j == 12 {} else if j == 13 {} else if j == 14 {} else if j == 15 {} else if j == 16 {} else if j == 17 {} else if j == 18 {} else if j == 19 {} else if j == 20 {}
    }
}

/// `api.checkpoint` differs from every declared API or SSE operation id before it.
proof fn lemma_api_checkpoint_id_is_new()
    ensures
        forall|j: int| 0 <= j < 22 ==> #[trigger] http_operation_ids()[j] != http_operation_ids()[22],
{
    reveal_strlit("api.checkpoint");
    reveal_strlit("api.list-boards");
    reveal_strlit("api.create-board");
    reveal_strlit("api.get-board");
    reveal_strlit("api.archive-board");
    reveal_strlit("api.list-board-columns");
    reveal_strlit("api.list-dependencies");
    reveal_strlit("api.add-dependency");
    reveal_strlit("api.remove-dependency");
    reveal_strlit("api.list-runs");
    reveal_strlit("api.get-run");
    reveal_strlit("api.get-run-log");
    reveal_strlit("api.list-comments");
    reveal_strlit("api.create-comment");
    reveal_strlit("api.list-attachments");
    reveal_strlit("api.create-attachment");
    reveal_strlit("api.download-attachment");
    reveal_strlit("api.delete-attachment");
    reveal_strlit("api.list-events");
    reveal_strlit("sse.stream-events");
    reveal_strlit("api.health");
    reveal_strlit("api.get-stats");
    reveal_strlit("api.doctor");
    assert("api.checkpoint"@.len() == 14);
    assert("api.list-boards"@.len() == 15);
    assert("api.create-board"@.len() == 16);
    assert("api.get-board"@.len() == 13);
    assert("api.archive-board"@.len() == 17);
    assert("api.list-board-columns"@.len() == 22);
    assert("api.list-dependencies"@.len() == 21);
    assert("api.add-dependency"@.len() == 18);
    assert("api.remove-dependency"@.len() == 21);
    assert("api.list-runs"@.len() == 13);
    assert("api.get-run"@.len() == 11);
    assert("api.get-run-log"@.len() == 15);
    assert("api.list-comments"@.len() == 17);
    assert("api.create-comment"@.len() == 18);
    assert("api.list-attachments"@.len() == 20);
    assert("api.create-attachment"@.len() == 21);
    assert("api.download-attachment"@.len() == 23);
    assert("api.delete-attachment"@.len() == 21);
    assert("api.list-events"@.len() == 15);
    assert("sse.stream-events"@.len() == 17);
    assert("api.health"@.len() == 10);
    assert("api.get-stats"@.len() == 13);
    assert("api.doctor"@.len() == 10);
    let ids = http_operation_ids();
    assert forall|j: int| 0 <= j < 22 implies #[trigger] ids[j] != ids[22] by {
        if j == 0 {} else if j == 1 {} else if j == 2 {} else if j == 3 {} else if j == 4 {} else if j == 5 {} else if j == 6 {} else if j == 7 {} else if j == 8 {} else if j == 9 {} else if j == 10 {} else if j == 11 {} else if j == 12 {} else if j == 13 {} else if j == 14 {} else if j == 15 {} else if j == 16 {} else if j == 17 {} else if j == 18 {} else if j == 19 {} else if j == 20 {} else if j == 21 {}
    }
}

/// `api.maintenance-backup` differs from every declared API or SSE operation id before it.
proof fn lemma_api_maintenance_backup_id_is_new()
    ensures
        forall|j: int| 0 <= j < 23 ==> #[trigger] http_operation_ids()[j] != http_operation_ids()[23],
{
    reveal_strlit("api.maintenance-backup");
    reveal_strlit("api.list-boards");
    reveal_strlit("api.create-board");
    reveal_strlit("api.get-board");
    reveal_strlit("api.archive-board");
    reveal_strlit("api.list-board-columns");
    reveal_strlit("api.list-dependencies");
    reveal_strlit("api.add-dependency");
    reveal_strlit("api.remove-dependency");
    reveal_strlit("api.list-runs");
    reveal_strlit("api.get-run");
    reveal_strlit("api.get-run-log");
    reveal_strlit("api.list-comments");
    reveal_strlit("api.create-comment");
    reveal_strlit("api.list-attachments");
    reveal_strlit("api.create-attachment");
    reveal_strlit("api.download-attachment");
    reveal_strlit("api.delete-attachment");
    reveal_strlit("api.list-events");
    reveal_strlit("sse.stream-events");
    reveal_strlit("api.health");
    reveal_strlit("api.get-stats");
    reveal_strlit("api.doctor");
    reveal_strlit("api.checkpoint");
    assert("api.maintenance-backup"@.len() == 22);
    assert("api.list-boards"@.len() == 15);
    assert("api.create-board"@.len() == 16);
    assert("api.get-board"@.len() == 13);
    assert("api.archive-board"@.len() == 17);
    assert("api.list-board-columns"@.len() == 22);
    assert("api.list-dependencies"@.len() == 21);
    assert("api.add-dependency"@.len() == 18);
    assert("api.remove-dependency"@.len() == 21);
    assert("api.list-runs"@.len() == 13);
    assert("api.get-run"@.len() == 11);
    assert("api.get-run-log"@.len() == 15);
    assert("api.list-comments"@.len() == 17);
    assert("api.create-comment"@.len() == 18);
    assert("api.list-attachments"@.len() == 20);
    assert("api.create-attachment"@.len() == 21);
    assert("api.download-attachment"@.len() == 23);
    assert("api.delete-attachment"@.len() == 21);
    assert("api.list-events"@.len() == 15);
    assert("sse.stream-events"@.len() == 17);
    assert("api.health"@.len() == 10);
    assert("api.get-stats"@.len() == 13);
    assert("api.doctor"@.len() == 10);
    assert("api.checkpoint"@.len() == 14);
    assert("api.maintenance-backup"@[4] == 'm');
    assert("api.list-board-columns"@[4] == 'l');
    let ids = http_operation_ids();
    assert forall|j: int| 0 <= j < 23 implies #[trigger] ids[j] != ids[23] by {
        if j == 0 {} else if j == 1 {} else if j == 2 {} else if j == 3 {} else if j == 4 {} else if j == 5 {} else if j == 6 {} else if j == 7 {} else if j == 8 {} else if j == 9 {} else if j == 10 {} else if j == 11 {} else if j == 12 {} else if j == 13 {} else if j == 14 {} else if j == 15 {} else if j == 16 {} else if j == 17 {} else if j == 18 {} else if j == 19 {} else if j == 20 {} else if j == 21 {} else if j == 22 {}
    }
}

/// `api.maintenance-export` differs from every declared API or SSE operation id before it.
proof fn lemma_api_maintenance_export_id_is_new()
    ensures
        forall|j: int| 0 <= j < 24 ==> #[trigger] http_operation_ids()[j] != http_operation_ids()[24],
{
    reveal_strlit("api.maintenance-export");
    reveal_strlit("api.list-boards");
    reveal_strlit("api.create-board");
    reveal_strlit("api.get-board");
    reveal_strlit("api.archive-board");
    reveal_strlit("api.list-board-columns");
    reveal_strlit("api.list-dependencies");
    reveal_strlit("api.add-dependency");
    reveal_strlit("api.remove-dependency");
    reveal_strlit("api.list-runs");
    reveal_strlit("api.get-run");
    reveal_strlit("api.get-run-log");
    reveal_strlit("api.list-comments");
    reveal_strlit("api.create-comment");
    reveal_strlit("api.list-attachments");
    reveal_strlit("api.create-attachment");
    reveal_strlit("api.download-attachment");
    reveal_strlit("api.delete-attachment");
    reveal_strlit("api.list-events");
    reveal_strlit("sse.stream-events");
    reveal_strlit("api.health");
    reveal_strlit("api.get-stats");
    reveal_strlit("api.doctor");
    reveal_strlit("api.checkpoint");
    reveal_strlit("api.maintenance-backup");
    assert("api.maintenance-export"@.len() == 22);
    assert("api.list-boards"@.len() == 15);
    assert("api.create-board"@.len() == 16);
    assert("api.get-board"@.len() == 13);
    assert("api.archive-board"@.len() == 17);
    assert("api.list-board-columns"@.len() == 22);
    assert("api.list-dependencies"@.len() == 21);
    assert("api.add-dependency"@.len() == 18);
    assert("api.remove-dependency"@.len() == 21);
    assert("api.list-runs"@.len() == 13);
    assert("api.get-run"@.len() == 11);
    assert("api.get-run-log"@.len() == 15);
    assert("api.list-comments"@.len() == 17);
    assert("api.create-comment"@.len() == 18);
    assert("api.list-attachments"@.len() == 20);
    assert("api.create-attachment"@.len() == 21);
    assert("api.download-attachment"@.len() == 23);
    assert("api.delete-attachment"@.len() == 21);
    assert("api.list-events"@.len() == 15);
    assert("sse.stream-events"@.len() == 17);
    assert("api.health"@.len() == 10);
    assert("api.get-stats"@.len() == 13);
    assert("api.doctor"@.len() == 10);
    assert("api.checkpoint"@.len() == 14);
    assert("api.maintenance-backup"@.len() == 22);
    assert("api.maintenance-export"@[4] == 'm');
    assert("api.list-board-columns"@[4] == 'l');
    assert("api.maintenance-export"@[16] == 'e');
    assert("api.maintenance-backup"@[16] == 'b');
    let ids = http_operation_ids();
    assert forall|j: int| 0 <= j < 24 implies #[trigger] ids[j] != ids[24] by {
        if j == 0 {} else if j == 1 {} else if j == 2 {} else if j == 3 {} else if j == 4 {} else if j == 5 {} else if j == 6 {} else if j == 7 {} else if j == 8 {} else if j == 9 {} else if j == 10 {} else if j == 11 {} else if j == 12 {} else if j == 13 {} else if j == 14 {} else if j == 15 {} else if j == 16 {} else if j == 17 {} else if j == 18 {} else if j == 19 {} else if j == 20 {} else if j == 21 {} else if j == 22 {} else if j == 23 {}
    }
}

/// `api.maintenance-import` differs from every declared API or SSE operation id before it.
proof fn lemma_api_maintenance_import_id_is_new()
    ensures
        forall|j: int| 0 <= j < 25 ==> #[trigger] http_operation_ids()[j] != http_operation_ids()[25],
{
    reveal_strlit("api.maintenance-import");
    reveal_strlit("api.list-boards");
    reveal_strlit("api.create-board");
    reveal_strlit("api.get-board");
    reveal_strlit("api.archive-board");
    reveal_strlit("api.list-board-columns");
    reveal_strlit("api.list-dependencies");
    reveal_strlit("api.add-dependency");
    reveal_strlit("api.remove-dependency");
    reveal_strlit("api.list-runs");
    reveal_strlit("api.get-run");
    reveal_strlit("api.get-run-log");
    reveal_strlit("api.list-comments");
    reveal_strlit("api.create-comment");
    reveal_strlit("api.list-attachments");
    reveal_strlit("api.create-attachment");
    reveal_strlit("api.download-attachment");
    reveal_strlit("api.delete-attachment");
    reveal_strlit("api.list-events");
    reveal_strlit("sse.stream-events");
    reveal_strlit("api.health");
    reveal_strlit("api.get-stats");
    reveal_strlit("api.doctor");
    reveal_strlit("api.checkpoint");
    reveal_strlit("api.maintenance-backup");
    reveal_strlit("api.maintenance-export");
    assert("api.maintenance-import"@.len() == 22);
    assert("api.list-boards"@.len() == 15);
    assert("api.create-board"@.len() == 16);
    assert("api.get-board"@.len() == 13);
    assert("api.archive-board"@.len() == 17);
    assert("api.list-board-columns"@.len() == 22);
    assert("api.list-dependencies"@.len() == 21);
    assert("api.add-dependency"@.len() == 18);
    assert("api.remove-dependency"@.len() == 21);
    assert("api.list-runs"@.len() == 13);
    assert("api.get-run"@.len() == 11);
    assert("api.get-run-log"@.len() == 15);
    assert("api.list-comments"@.len() == 17);
    assert("api.create-comment"@.len() == 18);
    assert("api.list-attachments"@.len() == 20);
    assert("api.create-attachment"@.len() == 21);
    assert("api.download-attachment"@.len() == 23);
    assert("api.delete-attachment"@.len() == 21);
    assert("api.list-events"@.len() == 15);
    assert("sse.stream-events"@.len() == 17);
    assert("api.health"@.len() == 10);
    assert("api.get-stats"@.len() == 13);
    assert("api.doctor"@.len() == 10);
    assert("api.checkpoint"@.len() == 14);
    assert("api.maintenance-backup"@.len() == 22);
    assert("api.maintenance-export"@.len() == 22);
    assert("api.maintenance-import"@[4] == 'm');
    assert("api.list-board-columns"@[4] == 'l');
    assert("api.maintenance-import"@[16] == 'i');
    assert("api.maintenance-backup"@[16] == 'b');
    assert("api.maintenance-import"@[16] == 'i');
    assert("api.maintenance-export"@[16] == 'e');
    let ids = http_operation_ids();
    assert forall|j: int| 0 <= j < 25 implies #[trigger] ids[j] != ids[25] by {
        if j == 0 {} else if j == 1 {} else if j == 2 {} else if j == 3 {} else if j == 4 {} else if j == 5 {} else if j == 6 {} else if j == 7 {} else if j == 8 {} else if j == 9 {} else if j == 10 {} else if j == 11 {} else if j == 12 {} else if j == 13 {} else if j == 14 {} else if j == 15 {} else if j == 16 {} else if j == 17 {} else if j == 18 {} else if j == 19 {} else if j == 20 {} else if j == 21 {} else if j == 22 {} else if j == 23 {} else if j == 24 {}
    }
}

/// `api.maintenance-vacuum` differs from every declared API or SSE operation id before it.
proof fn lemma_api_maintenance_vacuum_id_is_new()
    ensures
        forall|j: int| 0 <= j < 26 ==> #[trigger] http_operation_ids()[j] != http_operation_ids()[26],
{
    reveal_strlit("api.maintenance-vacuum");
    reveal_strlit("api.list-boards");
    reveal_strlit("api.create-board");
    reveal_strlit("api.get-board");
    reveal_strlit("api.archive-board");
    reveal_strlit("api.list-board-columns");
    reveal_strlit("api.list-dependencies");
    reveal_strlit("api.add-dependency");
    reveal_strlit("api.remove-dependency");
    reveal_strlit("api.list-runs");
    reveal_strlit("api.get-run");
    reveal_strlit("api.get-run-log");
    reveal_strlit("api.list-comments");
    reveal_strlit("api.create-comment");
    reveal_strlit("api.list-attachments");
    reveal_strlit("api.create-attachment");
    reveal_strlit("api.download-attachment");
    reveal_strlit("api.delete-attachment");
    reveal_strlit("api.list-events");
    reveal_strlit("sse.stream-events");
    reveal_strlit("api.health");
    reveal_strlit("api.get-stats");
    reveal_strlit("api.doctor");
    reveal_strlit("api.checkpoint");
    reveal_strlit("api.maintenance-backup");
    reveal_strlit("api.maintenance-export");
    reveal_strlit("api.maintenance-import");
    assert("api.maintenance-vacuum"@.len() == 22);
    assert("api.list-boards"@.len() == 15);
    assert("api.create-board"@.len() == 16);
    assert("api.get-board"@.len() == 13);
    assert("api.archive-board"@.len() == 17);
    assert("api.list-board-columns"@.len() == 22);
    assert("api.list-dependencies"@.len() == 21);
    assert("api.add-dependency"@.len() == 18);
    assert("api.remove-dependency"@.len() == 21);
    assert("api.list-runs"@.len() == 13);
    assert("api.get-run"@.len() == 11);
    assert("api.get-run-log"@.len() == 15);
    assert("api.list-comments"@.len() == 17);
    assert("api.create-comment"@.len() == 18);
    assert("api.list-attachments"@.len() == 20);
    assert("api.create-attachment"@.len() == 21);
    assert("api.download-attachment"@.len() == 23);
    assert("api.delete-attachment"@.len() == 21);
    assert("api.list-events"@.len() == 15);
    assert("sse.stream-events"@.len() == 17);
    assert("api.health"@.len() == 10);
    assert("api.get-stats"@.len() == 13);
    assert("api.doctor"@.len() == 10);
    assert("api.checkpoint"@.len() == 14);
    assert("api.maintenance-backup"@.len() == 22);
    assert("api.maintenance-export"@.len() == 22);
    assert("api.maintenance-import"@.len() == 22);
    assert("api.maintenance-vacuum"@[4] == 'm');
    assert("api.list-board-columns"@[4] == 'l');
    assert("api.maintenance-vacuum"@[16] == 'v');
    assert("api.maintenance-backup"@[16] == 'b');
    assert("api.maintenance-vacuum"@[16] == 'v');
    assert("api.maintenance-export"@[16] == 'e');
    assert("api.maintenance-vacuum"@[16] == 'v');
    assert("api.maintenance-import"@[16] == 'i');
    let ids = http_operation_ids();
    assert forall|j: int| 0 <= j < 26 implies #[trigger] ids[j] != ids[26] by {
        if j == 0 {} else if j == 1 {} else if j == 2 {} else if j == 3 {} else if j == 4 {} else if j == 5 {} else if j == 6 {} else if j == 7 {} else if j == 8 {} else if j == 9 {} else if j == 10 {} else if j == 11 {} else if j == 12 {} else if j == 13 {} else if j == 14 {} else if j == 15 {} else if j == 16 {} else if j == 17 {} else if j == 18 {} else if j == 19 {} else if j == 20 {} else if j == 21 {} else if j == 22 {} else if j == 23 {} else if j == 24 {} else if j == 25 {}
    }
}

/// `api.maintenance-status` differs from every declared API or SSE operation id before it.
proof fn lemma_api_maintenance_status_id_is_new()
    ensures
        forall|j: int| 0 <= j < 27 ==> #[trigger] http_operation_ids()[j] != http_operation_ids()[27],
{
    reveal_strlit("api.maintenance-status");
    reveal_strlit("api.list-boards");
    reveal_strlit("api.create-board");
    reveal_strlit("api.get-board");
    reveal_strlit("api.archive-board");
    reveal_strlit("api.list-board-columns");
    reveal_strlit("api.list-dependencies");
    reveal_strlit("api.add-dependency");
    reveal_strlit("api.remove-dependency");
    reveal_strlit("api.list-runs");
    reveal_strlit("api.get-run");
    reveal_strlit("api.get-run-log");
    reveal_strlit("api.list-comments");
    reveal_strlit("api.create-comment");
    reveal_strlit("api.list-attachments");
    reveal_strlit("api.create-attachment");
    reveal_strlit("api.download-attachment");
    reveal_strlit("api.delete-attachment");
    reveal_strlit("api.list-events");
    reveal_strlit("sse.stream-events");
    reveal_strlit("api.health");
    reveal_strlit("api.get-stats");
    reveal_strlit("api.doctor");
    reveal_strlit("api.checkpoint");
    reveal_strlit("api.maintenance-backup");
    reveal_strlit("api.maintenance-export");
    reveal_strlit("api.maintenance-import");
    reveal_strlit("api.maintenance-vacuum");
    assert("api.maintenance-status"@.len() == 22);
    assert("api.list-boards"@.len() == 15);
    assert("api.create-board"@.len() == 16);
    assert("api.get-board"@.len() == 13);
    assert("api.archive-board"@.len() == 17);
    assert("api.list-board-columns"@.len() == 22);
    assert("api.list-dependencies"@.len() == 21);
    assert("api.add-dependency"@.len() == 18);
    assert("api.remove-dependency"@.len() == 21);
    assert("api.list-runs"@.len() == 13);
    assert("api.get-run"@.len() == 11);
    assert("api.get-run-log"@.len() == 15);
    assert("api.list-comments"@.len() == 17);
    assert("api.create-comment"@.len() == 18);
    assert("api.list-attachments"@.len() == 20);
    assert("api.create-attachment"@.len() == 21);
    assert("api.download-attachment"@.len() == 23);
    assert("api.delete-attachment"@.len() == 21);
    assert("api.list-events"@.len() == 15);
    assert("sse.stream-events"@.len() == 17);
    assert("api.health"@.len() == 10);
    assert("api.get-stats"@.len() == 13);
    assert("api.doctor"@.len() == 10);
    assert("api.checkpoint"@.len() == 14);
    assert("api.maintenance-backup"@.len() == 22);
    assert("api.maintenance-export"@.len() == 22);
    assert("api.maintenance-import"@.len() == 22);
    assert("api.maintenance-vacuum"@.len() == 22);
    assert("api.maintenance-status"@[4] == 'm');
    assert("api.list-board-columns"@[4] == 'l');
    assert("api.maintenance-status"@[16] == 's');
    assert("api.maintenance-backup"@[16] == 'b');
    assert("api.maintenance-status"@[16] == 's');
    assert("api.maintenance-export"@[16] == 'e');
    assert("api.maintenance-status"@[16] == 's');
    assert("api.maintenance-import"@[16] == 'i');
    assert("api.maintenance-status"@[16] == 's');
    assert("api.maintenance-vacuum"@[16] == 'v');
    let ids = http_operation_ids();
    assert forall|j: int| 0 <= j < 27 implies #[trigger] ids[j] != ids[27] by {
        if j == 0 {} else if j == 1 {} else if j == 2 {} else if j == 3 {} else if j == 4 {} else if j == 5 {} else if j == 6 {} else if j == 7 {} else if j == 8 {} else if j == 9 {} else if j == 10 {} else if j == 11 {} else if j == 12 {} else if j == 13 {} else if j == 14 {} else if j == 15 {} else if j == 16 {} else if j == 17 {} else if j == 18 {} else if j == 19 {} else if j == 20 {} else if j == 21 {} else if j == 22 {} else if j == 23 {} else if j == 24 {} else if j == 25 {} else if j == 26 {}
    }
}

/// `api.maintenance-run` differs from every declared API or SSE operation id before it.
proof fn lemma_api_maintenance_run_id_is_new()
    ensures
        forall|j: int| 0 <= j < 28 ==> #[trigger] http_operation_ids()[j] != http_operation_ids()[28],
{
    reveal_strlit("api.maintenance-run");
    reveal_strlit("api.list-boards");
    reveal_strlit("api.create-board");
    reveal_strlit("api.get-board");
    reveal_strlit("api.archive-board");
    reveal_strlit("api.list-board-columns");
    reveal_strlit("api.list-dependencies");
    reveal_strlit("api.add-dependency");
    reveal_strlit("api.remove-dependency");
    reveal_strlit("api.list-runs");
    reveal_strlit("api.get-run");
    reveal_strlit("api.get-run-log");
    reveal_strlit("api.list-comments");
    reveal_strlit("api.create-comment");
    reveal_strlit("api.list-attachments");
    reveal_strlit("api.create-attachment");
    reveal_strlit("api.download-attachment");
    reveal_strlit("api.delete-attachment");
    reveal_strlit("api.list-events");
    reveal_strlit("sse.stream-events");
    reveal_strlit("api.health");
    reveal_strlit("api.get-stats");
    reveal_strlit("api.doctor");
    reveal_strlit("api.checkpoint");
    reveal_strlit("api.maintenance-backup");
    reveal_strlit("api.maintenance-export");
    reveal_strlit("api.maintenance-import");
    reveal_strlit("api.maintenance-vacuum");
    reveal_strlit("api.maintenance-status");
    assert("api.maintenance-run"@.len() == 19);
    assert("api.list-boards"@.len() == 15);
    assert("api.create-board"@.len() == 16);
    assert("api.get-board"@.len() == 13);
    assert("api.archive-board"@.len() == 17);
    assert("api.list-board-columns"@.len() == 22);
    assert("api.list-dependencies"@.len() == 21);
    assert("api.add-dependency"@.len() == 18);
    assert("api.remove-dependency"@.len() == 21);
    assert("api.list-runs"@.len() == 13);
    assert("api.get-run"@.len() == 11);
    assert("api.get-run-log"@.len() == 15);
    assert("api.list-comments"@.len() == 17);
    assert("api.create-comment"@.len() == 18);
    assert("api.list-attachments"@.len() == 20);
    assert("api.create-attachment"@.len() == 21);
    assert("api.download-attachment"@.len() == 23);
    assert("api.delete-attachment"@.len() == 21);
    assert("api.list-events"@.len() == 15);
    assert("sse.stream-events"@.len() == 17);
    assert("api.health"@.len() == 10);
    assert("api.get-stats"@.len() == 13);
    assert("api.doctor"@.len() == 10);
    assert("api.checkpoint"@.len() == 14);
    assert("api.maintenance-backup"@.len() == 22);
    assert("api.maintenance-export"@.len() == 22);
    assert("api.maintenance-import"@.len() == 22);
    assert("api.maintenance-vacuum"@.len() == 22);
    assert("api.maintenance-status"@.len() == 22);
    let ids = http_operation_ids();
    assert forall|j: int| 0 <= j < 28 implies #[trigger] ids[j] != ids[28] by {
        if j == 0 {} else if j == 1 {} else if j == 2 {} else if j == 3 {} else if j == 4 {} else if j == 5 {} else if j == 6 {} else if j == 7 {} else if j == 8 {} else if j == 9 {} else if j == 10 {} else if j == 11 {} else if j == 12 {} else if j == 13 {} else if j == 14 {} else if j == 15 {} else if j == 16 {} else if j == 17 {} else if j == 18 {} else if j == 19 {} else if j == 20 {} else if j == 21 {} else if j == 22 {} else if j == 23 {} else if j == 24 {} else if j == 25 {} else if j == 26 {} else if j == 27 {}
    }
}

/// `api.maintenance-rebuild` differs from every declared API or SSE operation id before it.
proof fn lemma_api_maintenance_rebuild_id_is_new()
    ensures
        forall|j: int| 0 <= j < 29 ==> #[trigger] http_operation_ids()[j] != http_operation_ids()[29],
{
    reveal_strlit("api.maintenance-rebuild");
    reveal_strlit("api.list-boards");
    reveal_strlit("api.create-board");
    reveal_strlit("api.get-board");
    reveal_strlit("api.archive-board");
    reveal_strlit("api.list-board-columns");
    reveal_strlit("api.list-dependencies");
    reveal_strlit("api.add-dependency");
    reveal_strlit("api.remove-dependency");
    reveal_strlit("api.list-runs");
    reveal_strlit("api.get-run");
    reveal_strlit("api.get-run-log");
    reveal_strlit("api.list-comments");
    reveal_strlit("api.create-comment");
    reveal_strlit("api.list-attachments");
    reveal_strlit("api.create-attachment");
    reveal_strlit("api.download-attachment");
    reveal_strlit("api.delete-attachment");
    reveal_strlit("api.list-events");
    reveal_strlit("sse.stream-events");
    reveal_strlit("api.health");
    reveal_strlit("api.get-stats");
    reveal_strlit("api.doctor");
    reveal_strlit("api.checkpoint");
    reveal_strlit("api.maintenance-backup");
    reveal_strlit("api.maintenance-export");
    reveal_strlit("api.maintenance-import");
    reveal_strlit("api.maintenance-vacuum");
    reveal_strlit("api.maintenance-status");
    reveal_strlit("api.maintenance-run");
    assert("api.maintenance-rebuild"@.len() == 23);
    assert("api.list-boards"@.len() == 15);
    assert("api.create-board"@.len() == 16);
    assert("api.get-board"@.len() == 13);
    assert("api.archive-board"@.len() == 17);
    assert("api.list-board-columns"@.len() == 22);
    assert("api.list-dependencies"@.len() == 21);
    assert("api.add-dependency"@.len() == 18);
    assert("api.remove-dependency"@.len() == 21);
    assert("api.list-runs"@.len() == 13);
    assert("api.get-run"@.len() == 11);
    assert("api.get-run-log"@.len() == 15);
    assert("api.list-comments"@.len() == 17);
    assert("api.create-comment"@.len() == 18);
    assert("api.list-attachments"@.len() == 20);
    assert("api.create-attachment"@.len() == 21);
    assert("api.download-attachment"@.len() == 23);
    assert("api.delete-attachment"@.len() == 21);
    assert("api.list-events"@.len() == 15);
    assert("sse.stream-events"@.len() == 17);
    assert("api.health"@.len() == 10);
    assert("api.get-stats"@.len() == 13);
    assert("api.doctor"@.len() == 10);
    assert("api.checkpoint"@.len() == 14);
    assert("api.maintenance-backup"@.len() == 22);
    assert("api.maintenance-export"@.len() == 22);
    assert("api.maintenance-import"@.len() == 22);
    assert("api.maintenance-vacuum"@.len() == 22);
    assert("api.maintenance-status"@.len() == 22);
    assert("api.maintenance-run"@.len() == 19);
    assert("api.maintenance-rebuild"@[4] == 'm');
    assert("api.download-attachment"@[4] == 'd');
    let ids = http_operation_ids();
    assert forall|j: int| 0 <= j < 29 implies #[trigger] ids[j] != ids[29] by {
        if j == 0 {} else if j == 1 {} else if j == 2 {} else if j == 3 {} else if j == 4 {} else if j == 5 {} else if j == 6 {} else if j == 7 {} else if j == 8 {} else if j == 9 {} else if j == 10 {} else if j == 11 {} else if j == 12 {} else if j == 13 {} else if j == 14 {} else if j == 15 {} else if j == 16 {} else if j == 17 {} else if j == 18 {} else if j == 19 {} else if j == 20 {} else if j == 21 {} else if j == 22 {} else if j == 23 {} else if j == 24 {} else if j == 25 {} else if j == 26 {} else if j == 27 {} else if j == 28 {}
    }
}

/// `api.maintenance-cleanup` differs from every declared API or SSE operation id before it.
proof fn lemma_api_maintenance_cleanup_id_is_new()
    ensures
        forall|j: int| 0 <= j < 30 ==> #[trigger] http_operation_ids()[j] != http_operation_ids()[30],
{
    reveal_strlit("api.maintenance-cleanup");
    reveal_strlit("api.list-boards");
    reveal_strlit("api.create-board");
    reveal_strlit("api.get-board");
    reveal_strlit("api.archive-board");
    reveal_strlit("api.list-board-columns");
    reveal_strlit("api.list-dependencies");
    reveal_strlit("api.add-dependency");
    reveal_strlit("api.remove-dependency");
    reveal_strlit("api.list-runs");
    reveal_strlit("api.get-run");
    reveal_strlit("api.get-run-log");
    reveal_strlit("api.list-comments");
    reveal_strlit("api.create-comment");
    reveal_strlit("api.list-attachments");
    reveal_strlit("api.create-attachment");
    reveal_strlit("api.download-attachment");
    reveal_strlit("api.delete-attachment");
    reveal_strlit("api.list-events");
    reveal_strlit("sse.stream-events");
    reveal_strlit("api.health");
    reveal_strlit("api.get-stats");
    reveal_strlit("api.doctor");
    reveal_strlit("api.checkpoint");
    reveal_strlit("api.maintenance-backup");
    reveal_strlit("api.maintenance-export");
    reveal_strlit("api.maintenance-import");
    reveal_strlit("api.maintenance-vacuum");
    reveal_strlit("api.maintenance-status");
    reveal_strlit("api.maintenance-run");
    reveal_strlit("api.maintenance-rebuild");
    assert("api.maintenance-cleanup"@.len() == 23);
    assert("api.list-boards"@.len() == 15);
    assert("api.create-board"@.len() == 16);
    assert("api.get-board"@.len() == 13);
    assert("api.archive-board"@.len() == 17);
    assert("api.list-board-columns"@.len() == 22);
    assert("api.list-dependencies"@.len() == 21);
    assert("api.add-dependency"@.len() == 18);
    assert("api.remove-dependency"@.len() == 21);
    assert("api.list-runs"@.len() == 13);
    assert("api.get-run"@.len() == 11);
    assert("api.get-run-log"@.len() == 15);
    assert("api.list-comments"@.len() == 17);
    assert("api.create-comment"@.len() == 18);
    assert("api.list-attachments"@.len() == 20);
    assert("api.create-attachment"@.len() == 21);
    assert("api.download-attachment"@.len() == 23);
    assert("api.delete-attachment"@.len() == 21);
    assert("api.list-events"@.len() == 15);
    assert("sse.stream-events"@.len() == 17);
    assert("api.health"@.len() == 10);
    assert("api.get-stats"@.len() == 13);
    assert("api.doctor"@.len() == 10);
    assert("api.checkpoint"@.len() == 14);
    assert("api.maintenance-backup"@.len() == 22);
    assert("api.maintenance-export"@.len() == 22);
    assert("api.maintenance-import"@.len() == 22);
    assert("api.maintenance-vacuum"@.len() == 22);
    assert("api.maintenance-status"@.len() == 22);
    assert("api.maintenance-run"@.len() == 19);
    assert("api.maintenance-rebuild"@.len() == 23);
    assert("api.maintenance-cleanup"@[4] == 'm');
    assert("api.download-attachment"@[4] == 'd');
    assert("api.maintenance-cleanup"@[16] == 'c');
    assert("api.maintenance-rebuild"@[16] == 'r');
    let ids = http_operation_ids();
    assert forall|j: int| 0 <= j < 30 implies #[trigger] ids[j] != ids[30] by {
        if j == 0 {} else if j == 1 {} else if j == 2 {} else if j == 3 {} else if j == 4 {} else if j == 5 {} else if j == 6 {} else if j == 7 {} else if j == 8 {} else if j == 9 {} else if j == 10 {} else if j == 11 {} else if j == 12 {} else if j == 13 {} else if j == 14 {} else if j == 15 {} else if j == 16 {} else if j == 17 {} else if j == 18 {} else if j == 19 {} else if j == 20 {} else if j == 21 {} else if j == 22 {} else if j == 23 {} else if j == 24 {} else if j == 25 {} else if j == 26 {} else if j == 27 {} else if j == 28 {} else if j == 29 {}
    }
}

/// `api.maintenance-import-v30` differs from every declared API or SSE operation id before it.
proof fn lemma_api_maintenance_import_v30_id_is_new()
    ensures
        forall|j: int| 0 <= j < 31 ==> #[trigger] http_operation_ids()[j] != http_operation_ids()[31],
{
    reveal_strlit("api.maintenance-import-v30");
    reveal_strlit("api.list-boards");
    reveal_strlit("api.create-board");
    reveal_strlit("api.get-board");
    reveal_strlit("api.archive-board");
    reveal_strlit("api.list-board-columns");
    reveal_strlit("api.list-dependencies");
    reveal_strlit("api.add-dependency");
    reveal_strlit("api.remove-dependency");
    reveal_strlit("api.list-runs");
    reveal_strlit("api.get-run");
    reveal_strlit("api.get-run-log");
    reveal_strlit("api.list-comments");
    reveal_strlit("api.create-comment");
    reveal_strlit("api.list-attachments");
    reveal_strlit("api.create-attachment");
    reveal_strlit("api.download-attachment");
    reveal_strlit("api.delete-attachment");
    reveal_strlit("api.list-events");
    reveal_strlit("sse.stream-events");
    reveal_strlit("api.health");
    reveal_strlit("api.get-stats");
    reveal_strlit("api.doctor");
    reveal_strlit("api.checkpoint");
    reveal_strlit("api.maintenance-backup");
    reveal_strlit("api.maintenance-export");
    reveal_strlit("api.maintenance-import");
    reveal_strlit("api.maintenance-vacuum");
    reveal_strlit("api.maintenance-status");
    reveal_strlit("api.maintenance-run");
    reveal_strlit("api.maintenance-rebuild");
    reveal_strlit("api.maintenance-cleanup");
    assert("api.maintenance-import-v30"@.len() == 26);
    assert("api.list-boards"@.len() == 15);
    assert("api.create-board"@.len() == 16);
    assert("api.get-board"@.len() == 13);
    assert("api.archive-board"@.len() == 17);
    assert("api.list-board-columns"@.len() == 22);
    assert("api.list-dependencies"@.len() == 21);
    assert("api.add-dependency"@.len() == 18);
    assert("api.remove-dependency"@.len() == 21);
    assert("api.list-runs"@.len() == 13);
    assert("api.get-run"@.len() == 11);
    assert("api.get-run-log"@.len() == 15);
    assert("api.list-comments"@.len() == 17);
    assert("api.create-comment"@.len() == 18);
    assert("api.list-attachments"@.len() == 20);
    assert("api.create-attachment"@.len() == 21);
    assert("api.download-attachment"@.len() == 23);
    assert("api.delete-attachment"@.len() == 21);
    assert("api.list-events"@.len() == 15);
    assert("sse.stream-events"@.len() == 17);
    assert("api.health"@.len() == 10);
    assert("api.get-stats"@.len() == 13);
    assert("api.doctor"@.len() == 10);
    assert("api.checkpoint"@.len() == 14);
    assert("api.maintenance-backup"@.len() == 22);
    assert("api.maintenance-export"@.len() == 22);
    assert("api.maintenance-import"@.len() == 22);
    assert("api.maintenance-vacuum"@.len() == 22);
    assert("api.maintenance-status"@.len() == 22);
    assert("api.maintenance-run"@.len() == 19);
    assert("api.maintenance-rebuild"@.len() == 23);
    assert("api.maintenance-cleanup"@.len() == 23);
    let ids = http_operation_ids();
    assert forall|j: int| 0 <= j < 31 implies #[trigger] ids[j] != ids[31] by {
        if j == 0 {} else if j == 1 {} else if j == 2 {} else if j == 3 {} else if j == 4 {} else if j == 5 {} else if j == 6 {} else if j == 7 {} else if j == 8 {} else if j == 9 {} else if j == 10 {} else if j == 11 {} else if j == 12 {} else if j == 13 {} else if j == 14 {} else if j == 15 {} else if j == 16 {} else if j == 17 {} else if j == 18 {} else if j == 19 {} else if j == 20 {} else if j == 21 {} else if j == 22 {} else if j == 23 {} else if j == 24 {} else if j == 25 {} else if j == 26 {} else if j == 27 {} else if j == 28 {} else if j == 29 {} else if j == 30 {}
    }
}

/// Each declared API or SSE operation id differs from those before it.
proof fn lemma_http_operation_id_is_new(k: int)
    requires
        0 <= k < http_operation_ids().len(),
    ensures
        forall|j: int| 0 <= j < k ==> #[trigger] http_operation_ids()[j] != http_operation_ids()[k],
{
    if k == 1 {
        lemma_api_create_board_id_is_new();
    } else if k == 2 {
        lemma_api_get_board_id_is_new();
    } else if k == 3 {
        lemma_api_archive_board_id_is_new();
    } else if k == 4 {
        lemma_api_list_board_columns_id_is_new();
    } else if k == 5 {
        lemma_api_list_dependencies_id_is_new();
    } else if k == 6 {
        lemma_api_add_dependency_id_is_new();
    } else if k == 7 {
        lemma_api_remove_dependency_id_is_new();
    } else if k == 8 {
        lemma_api_list_runs_id_is_new();
    } else if k == 9 {
        lemma_api_get_run_id_is_new();
    } else if k == 10 {
        lemma_api_get_run_log_id_is_new();
    } else if k == 11 {
        lemma_api_list_comments_id_is_new();
    } else if k == 12 {
        lemma_api_create_comment_id_is_new();
    } else if k == 13 {
        lemma_api_list_attachments_id_is_new();
    } else if k == 14 {
        lemma_api_create_attachment_id_is_new();
    } else if k == 15 {
        lemma_api_download_attachment_id_is_new();
    } else if k == 16 {
        lemma_api_delete_attachment_id_is_new();
    } else if k == 17 {
        lemma_api_list_events_id_is_new();
    } else if k == 18 {
        lemma_sse_stream_events_id_is_new();
    } else if k == 19 {
        lemma_api_health_id_is_new();
    } else if k == 20 {
        lemma_api_get_stats_id_is_new();
    } else if k == 21 {
        lemma_api_doctor_id_is_new();
    } else if k == 22 {
        lemma_api_checkpoint_id_is_new();
    } else if k == 23 {
        lemma_api_maintenance_backup_id_is_new();
    } else if k == 24 {
        lemma_api_maintenance_export_id_is_new();
    } else if k == 25 {
        lemma_api_maintenance_import_id_is_new();
    } else if k == 26 {
        lemma_api_maintenance_vacuum_id_is_new();
    } else if k == 27 {
        lemma_api_maintenance_status_id_is_new();
    } else if k == 28 {
        lemma_api_maintenance_run_id_is_new();
    } else if k == 29 {
        lemma_api_maintenance_rebuild_id_is_new();
    } else if k == 30 {
        lemma_api_maintenance_cleanup_id_is_new();
    } else if k == 31 {
        lemma_api_maintenance_import_v30_id_is_new();
    }
}

/// No two declared API or SSE operations share an operation id.
pub proof fn lemma_http_operation_ids_distinct()
    ensures
        http_operation_ids().no_duplicates(),
{
    let ids = http_operation_ids();
    assert forall|i: int, j: int| 0 <= i < ids.len() && 0 <= j < ids.len() && i != j implies ids[i] != ids[j] by {
        if i < j {
            lemma_http_operation_id_is_new(j);
        } else {
            lemma_http_operation_id_is_new(i);
        }
    }
}

} // verus!
