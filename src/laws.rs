use vstd::prelude::*;
use crate::cell::{cell_keeps_rule, claims_custody, list_keeps_rule, CellHashes, Source};
use crate::checker::{side, spec_verify};
use ckb_std::error::SysError;
use crate::error::Error;
use crate::host::{
    read_rank, read_rank_bound, spec_after_lock_hash, spec_after_type_hash, spec_end_of_list,
    Read, Step,
};

verus! {

/// When no cell on either side claims the custody identity, the check
/// succeeds, whatever the cells' lock hashes are.
pub proof fn lemma_vacuous_pass(
    script_hash: Seq<u8>,
    args: Seq<u8>,
    inputs: Seq<CellHashes>,
    outputs: Seq<CellHashes>,
)
    requires
        forall|i: int| 0 <= i < inputs.len() ==> !#[trigger] claims_custody(args, inputs[i].type_hash),
        forall|i: int| 0 <= i < outputs.len() ==> !#[trigger] claims_custody(args, outputs[i].type_hash),
    ensures
        spec_verify(script_hash, args, inputs, outputs) == Ok::<(), Error>(()),
{
    assert forall|i: int| 0 <= i < inputs.len() implies #[trigger] cell_keeps_rule(script_hash, args, inputs[i]) by {
        assert(!claims_custody(args, inputs[i].type_hash));
    }
    assert forall|i: int| 0 <= i < outputs.len() implies #[trigger] cell_keeps_rule(script_hash, args, outputs[i]) by {
        assert(!claims_custody(args, outputs[i].type_hash));
    }
}

/// A cell on either side that claims the custody identity decides the check:
/// the check succeeds only if the cell's lock hash is the running script's
/// hash, and fails with the ownership violation if it is not.
pub proof fn lemma_claiming_cell_decides(
    script_hash: Seq<u8>,
    args: Seq<u8>,
    inputs: Seq<CellHashes>,
    outputs: Seq<CellHashes>,
    source: Source,
    index: int,
)
    requires
        0 <= index < side(inputs, outputs, source).len(),
        claims_custody(args, side(inputs, outputs, source)[index].type_hash),
    ensures
        spec_verify(script_hash, args, inputs, outputs) is Ok ==> side(inputs, outputs, source)[index].lock_hash@ == script_hash,
        side(inputs, outputs, source)[index].lock_hash@ != script_hash ==> spec_verify(script_hash, args, inputs, outputs) == Err::<(), Error>(Error::InvalidToCKBCell),
{
    let cells = side(inputs, outputs, source);
    if spec_verify(script_hash, args, inputs, outputs) is Ok {
        assert(list_keeps_rule(script_hash, args, cells));
        assert(cell_keeps_rule(script_hash, args, cells[index]));
    }
}

/// A cell that breaks the ownership rule is found with the same outcome
/// whether it stands among the consumed cells or among the produced cells, at
/// any position: the ownership violation.
pub proof fn lemma_list_symmetry(
    script_hash: Seq<u8>,
    args: Seq<u8>,
    inputs: Seq<CellHashes>,
    outputs: Seq<CellHashes>,
    cell: CellHashes,
    at_input: int,
    at_output: int,
)
    requires
        0 <= at_input <= inputs.len(),
        0 <= at_output <= outputs.len(),
        claims_custody(args, cell.type_hash),
        cell.lock_hash@ != script_hash,
    ensures
        spec_verify(script_hash, args, inputs.insert(at_input, cell), outputs)
            == spec_verify(script_hash, args, inputs, outputs.insert(at_output, cell)),
        spec_verify(script_hash, args, inputs.insert(at_input, cell), outputs)
            == Err::<(), Error>(Error::InvalidToCKBCell),
{
    inputs.insert_ensures(at_input, cell);
    outputs.insert_ensures(at_output, cell);
    assert(!cell_keeps_rule(script_hash, args, inputs.insert(at_input, cell)[at_input]));
    assert(!cell_keeps_rule(script_hash, args, outputs.insert(at_output, cell)[at_output]));
}

/// Which side is checked first changes nothing in the outcome.
pub proof fn lemma_sides_interchangeable(
    script_hash: Seq<u8>,
    args: Seq<u8>,
    inputs: Seq<CellHashes>,
    outputs: Seq<CellHashes>,
)
    ensures
        spec_verify(script_hash, args, inputs, outputs) == spec_verify(script_hash, args, outputs, inputs),
{
}

/// The answer to a type-hash read over a list held in full, in the host's
/// terms: the cell's type hash, or "no such cell" past the end.
pub open spec fn type_hash_answer(cells: Seq<CellHashes>, index: usize) -> Result<Option<[u8; 32]>, SysError> {
    if index < cells.len() {
        Ok(cells[index as int].type_hash)
    } else {
        Err(SysError::IndexOutOfBound)
    }
}

/// The answer to a lock-hash read over a list held in full, in the host's
/// terms.
pub open spec fn lock_hash_answer(cells: Seq<CellHashes>, index: usize) -> Result<[u8; 32], SysError> {
    if index < cells.len() {
        Ok(cells[index as int].lock_hash)
    } else {
        Err(SysError::IndexOutOfBound)
    }
}

/// The outcome of the scan from `read` on, when every read is answered from
/// the given lists and each answer is decided as the host scan decides it.
pub open spec fn spec_scan(
    script_hash: Seq<u8>,
    args: Seq<u8>,
    inputs: Seq<CellHashes>,
    outputs: Seq<CellHashes>,
    read: Read,
) -> Result<(), Error>
    decreases read_rank_bound() - read_rank(read),
{
    let step = match read {
        Read::TypeHash(i, s) => spec_after_type_hash(i, s, args, type_hash_answer(side(inputs, outputs, s), i)),
        Read::LockHash(i, s) => spec_after_lock_hash(i, s, script_hash, lock_hash_answer(side(inputs, outputs, s), i)),
    };
    match step {
        Step::Done(outcome) => outcome,
        Step::Next(next) => spec_scan(script_hash, args, inputs, outputs, next),
    }
}

/// The outcome of the scan from a step on.
pub open spec fn spec_scan_from(
    script_hash: Seq<u8>,
    args: Seq<u8>,
    inputs: Seq<CellHashes>,
    outputs: Seq<CellHashes>,
    step: Step,
) -> Result<(), Error> {
    match step {
        Step::Done(outcome) => outcome,
        Step::Next(next) => spec_scan(script_hash, args, inputs, outputs, next),
    }
}

proof fn lemma_scan_list(
    script_hash: Seq<u8>,
    args: Seq<u8>,
    inputs: Seq<CellHashes>,
    outputs: Seq<CellHashes>,
    source: Source,
    index: usize,
)
    requires
        side(inputs, outputs, source).len() <= usize::MAX,
        index <= side(inputs, outputs, source).len(),
    ensures
        spec_scan(script_hash, args, inputs, outputs, Read::TypeHash(index, source)) == (if list_keeps_rule(
            script_hash,
            args,
            side(inputs, outputs, source).subrange(index as int, side(inputs, outputs, source).len() as int),
        ) {
            spec_scan_from(script_hash, args, inputs, outputs, spec_end_of_list(source))
        } else {
            Err::<(), Error>(Error::InvalidToCKBCell)
        }),
    decreases side(inputs, outputs, source).len() - index,
{
    let cells = side(inputs, outputs, source);
    let rest = cells.subrange(index as int, cells.len() as int);
    if index < cells.len() {
        let next = (index + 1) as usize;
        let later = cells.subrange(next as int, cells.len() as int);
        lemma_scan_list(script_hash, args, inputs, outputs, source, next);
        assert(rest[0] == cells[index as int]);
        assert forall|j: int| 0 <= j < later.len() implies later[j] == rest[j + 1] by {}
        if cell_keeps_rule(script_hash, args, cells[index as int]) {
            assert(list_keeps_rule(script_hash, args, rest) == list_keeps_rule(script_hash, args, later)) by {
                if list_keeps_rule(script_hash, args, rest) {
                    assert forall|j: int| 0 <= j < later.len() implies #[trigger] cell_keeps_rule(script_hash, args, later[j]) by {
                        assert(cell_keeps_rule(script_hash, args, rest[j + 1]));
                    }
                }
                if list_keeps_rule(script_hash, args, later) {
                    assert forall|j: int| 0 <= j < rest.len() implies #[trigger] cell_keeps_rule(script_hash, args, rest[j]) by {
                        if j > 0 {
                            assert(rest[j] == later[j - 1]);
                            assert(cell_keeps_rule(script_hash, args, later[j - 1]));
                        }
                    }
                }
            }
        } else {
            assert(!cell_keeps_rule(script_hash, args, rest[0]));
        }
        if claims_custody(args, cells[index as int].type_hash) {
            assert(spec_scan(script_hash, args, inputs, outputs, Read::TypeHash(index, source))
                == spec_scan(script_hash, args, inputs, outputs, Read::LockHash(index, source)));
        }
    } else {
        assert(rest.len() == 0);
    }
}

/// Scanning a transaction whose every read is answered from its two lists,
/// deciding each answer as the host scan does, ends with exactly the outcome
/// of the ownership rule: success when every claiming cell on either side has
/// this script's lock hash, the ownership violation otherwise. So the host scan
/// succeeds or rejects as the rule says whenever the host answers from the
/// transaction.
pub proof fn lemma_scan_matches_rule(
    script_hash: Seq<u8>,
    args: Seq<u8>,
    inputs: Seq<CellHashes>,
    outputs: Seq<CellHashes>,
)
    requires
        inputs.len() <= usize::MAX,
        outputs.len() <= usize::MAX,
    ensures
        spec_scan(script_hash, args, inputs, outputs, Read::TypeHash(0, Source::Input))
            == spec_verify(script_hash, args, inputs, outputs),
{
    lemma_scan_list(script_hash, args, inputs, outputs, Source::Input, 0);
    lemma_scan_list(script_hash, args, inputs, outputs, Source::Output, 0);
    assert(inputs.subrange(0, inputs.len() as int) =~= inputs);
    assert(outputs.subrange(0, outputs.len() as int) =~= outputs);
}

} // verus!
