//! Operation, contract and endpoint catalog of the kanban wire protocol: the projections
//! that turn declarations into inventory rows, endpoints, surface rows and schema roots; the
//! validators that keep the catalog topology consistent; the assembly of the operation
//! contract inventory with its canonical adoption witnesses; and the event payload and
//! query parameter rules.

pub mod seqs;
pub mod text;
pub mod inventory;
pub mod endpoint;
pub mod headers;
pub mod contract_catalog;
pub mod admin_catalog;
pub mod board_catalog;
pub mod dependency_catalog;
pub mod history_catalog;
pub mod cli_shell_catalog;
pub mod cli_queue_catalog;
pub mod cli_labels_catalog;
pub mod operation_catalog;
pub mod witness;
pub mod legacy;
pub mod assembly;
pub mod event_payload;
pub mod derived;
pub mod cli_helpers;
pub mod jsonl_core;
