use vstd::prelude::*;
use crate::cell::{
    bytes_equal, cell_keeps_rule, claims_custody, list_keeps_rule, CellHashes, ScriptContext,
    Source,
};
use crate::error::Error;

verus! {

/// A transaction as the lock sees it: the consumed cells and the produced
/// cells, each list in the transaction's order.
#[derive(Debug, Clone)]
pub struct Transaction {
    pub inputs: Vec<CellHashes>,
    pub outputs: Vec<CellHashes>,
}

/// The outcome of checking both cell lists: success when every cell keeps the
/// ownership rule, the ownership violation otherwise.
pub open spec fn spec_verify(
    script_hash: Seq<u8>,
    args: Seq<u8>,
    inputs: Seq<CellHashes>,
    outputs: Seq<CellHashes>,
) -> Result<(), Error> {
    if list_keeps_rule(script_hash, args, inputs) && list_keeps_rule(script_hash, args, outputs) {
        Ok(())
    } else {
        Err(Error::InvalidToCKBCell)
    }
}

/// The cell list of one side of a transaction.
pub open spec fn side(inputs: Seq<CellHashes>, outputs: Seq<CellHashes>, source: Source) -> Seq<
    CellHashes,
> {
    match source {
        Source::Input => inputs,
        Source::Output => outputs,
    }
}

impl Transaction {
    /// The cell list of one side of the transaction.
    pub open spec fn spec_cells(&self, source: Source) -> Seq<CellHashes> {
        side(self.inputs@, self.outputs@, source)
    }

    fn cells(&self, source: Source) -> (r: &Vec<CellHashes>)
        ensures
            r@ == self.spec_cells(source),
    {
        match source {
            Source::Input => &self.inputs,
            Source::Output => &self.outputs,
        }
    }

    /// The type hash of the cell at `index` of one list; the out-of-bound
    /// error past the end of the list.
    pub fn cell_type_hash(&self, index: usize, source: Source) -> (r: Result<Option<[u8; 32]>, Error>)
        ensures
            r == (if index < self.spec_cells(source).len() {
                Ok(self.spec_cells(source)[index as int].type_hash)
            } else {
                Err::<Option<[u8; 32]>, Error>(Error::IndexOutOfBound)
            }),
    {
        let cells = self.cells(source);
        if index < cells.len() {
            Ok(cells[index].type_hash)
        } else {
            Err(Error::IndexOutOfBound)
        }
    }

    /// The lock hash of the cell at `index` of one list; the out-of-bound
    /// error past the end of the list.
    pub fn cell_lock_hash(&self, index: usize, source: Source) -> (r: Result<[u8; 32], Error>)
        ensures
            r == (if index < self.spec_cells(source).len() {
                Ok(self.spec_cells(source)[index as int].lock_hash)
            } else {
                Err::<[u8; 32], Error>(Error::IndexOutOfBound)
            }),
    {
        let cells = self.cells(source);
        if index < cells.len() {
            Ok(cells[index].lock_hash)
        } else {
            Err(Error::IndexOutOfBound)
        }
    }
}

/// Whether a cell with this type hash claims the custody identity.
pub fn cell_claims_custody(args: &[u8], type_hash: &Option<[u8; 32]>) -> (r: bool)
    ensures
        r == claims_custody(args@, *type_hash),
{
    match type_hash {
        Some(h) => bytes_equal(h, args),
        None => false,
    }
}

/// The ownership rule for a cell that claims the custody identity: its lock
/// hash must be the running script's hash.
pub fn check_lock_hash(script_hash: &[u8; 32], lock_hash: &[u8; 32]) -> (r: Result<(), Error>)
    ensures
        r == (if lock_hash@ == script_hash@ {
            Ok(())
        } else {
            Err::<(), Error>(Error::InvalidToCKBCell)
        }),
{
    if bytes_equal(lock_hash, script_hash) {
        Ok(())
    } else {
        Err(Error::InvalidToCKBCell)
    }
}

/// Scans one list from index 0 until the out-of-bound terminator, stopping at
/// the first cell that breaks the ownership rule.
fn scan_source(ctx: &ScriptContext, tx: &Transaction, source: Source) -> (r: Result<(), Error>)
    ensures
        r == (if list_keeps_rule(ctx.script_hash@, ctx.args@, tx.spec_cells(source)) {
            Ok(())
        } else {
            Err::<(), Error>(Error::InvalidToCKBCell)
        }),
{
    let ghost cells = tx.spec_cells(source);
    let len = tx.cells(source).len();
    let mut index: usize = 0;
    loop
        invariant
            cells == tx.spec_cells(source),
            cells.len() == len,
            index <= cells.len(),
            forall|j: int| 0 <= j < index ==> #[trigger] cell_keeps_rule(ctx.script_hash@, ctx.args@, cells[j]),
        decreases cells.len() - index,
    {
        let type_hash = match tx.cell_type_hash(index, source) {
            Ok(t) => t,
            Err(Error::IndexOutOfBound) => {
                return Ok(());
            },
            Err(e) => {
                return Err(e);
            },
        };
        if cell_claims_custody(ctx.args.as_slice(), &type_hash) {
            let lock_hash = match tx.cell_lock_hash(index, source) {
                Ok(l) => l,
                Err(e) => {
                    return Err(e);
                },
            };
            if let Err(e) = check_lock_hash(&ctx.script_hash, &lock_hash) {
                assert(!cell_keeps_rule(ctx.script_hash@, ctx.args@, cells[index as int]));
                return Err(e);
            }
        }
        index = index + 1;
    }
}

/// Checks the ownership rule over a whole transaction: the consumed cells
/// first, then the produced cells.
pub fn verify_transaction(ctx: &ScriptContext, tx: &Transaction) -> (r: Result<(), Error>)
    ensures
        r == spec_verify(ctx.script_hash@, ctx.args@, tx.inputs@, tx.outputs@),
{
    let consumed = scan_source(ctx, tx, Source::Input);
    if consumed.is_err() {
        return consumed;
    }
    scan_source(ctx, tx, Source::Output)
}

} // verus!
