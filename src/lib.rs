//! Ownership lock for custody cells.
//!
//! A custody cell names itself by carrying the hash of its own type script as
//! the arguments of its lock script. This lock accepts a transaction only when
//! every cell that claims that identity, on either side of the transaction, is
//! governed by exactly this lock script.
//!
//! `checker` holds the rule over an explicit context and transaction. `host`
//! scans what the host answers, one read at a time; where each answer sends
//! the scan is decided by step functions with exact contracts. `laws` states
//! what holds of the rule, and proves that the step functions, fed a
//! transaction's answers, give exactly the rule's outcome.
mod cell;
mod checker;
mod error;
mod host;
mod laws;

pub use cell::{
    bytes_equal, cell_keeps_rule, claims_custody, list_keeps_rule, CellHashes, ScriptContext,
    Source,
};
pub use checker::{
    cell_claims_custody, check_lock_hash, side, spec_verify, verify_transaction, Transaction,
};
pub use error::{is_environment_error, spec_error_code, Error};
pub use host::{
    after_lock_hash, after_type_hash, classify_type_hash, entry, environment_error, map_sys_error,
    read_rank, read_rank_bound, settle_lock_hash, spec_after_lock_hash, spec_after_type_hash,
    spec_end_of_list, spec_environment_error, spec_map_sys_error, spec_next_cell, spec_status,
    status_code, verify, verify_single_cell, Read, Step,
};
pub use laws::{
    lemma_claiming_cell_decides, lemma_list_symmetry, lemma_scan_matches_rule,
    lemma_sides_interchangeable, lemma_vacuous_pass, lock_hash_answer, spec_scan, spec_scan_from,
    type_hash_answer,
};
