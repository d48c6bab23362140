use vstd::prelude::*;

verus! {

/// Which side of the transaction a cell list belongs to.
#[derive(Debug, Clone, Copy, PartialEq, Eq, Structural)]
pub enum Source {
    /// The cells that the transaction consumes.
    Input,
    /// The cells that the transaction produces.
    Output,
}

/// What the lock reads of one cell: the hash of its lock script, and the hash
/// of its type script when it has one.
#[derive(Debug, Clone, Copy)]
pub struct CellHashes {
    pub lock_hash: [u8; 32],
    pub type_hash: Option<[u8; 32]>,
}

/// The identity of the running lock script: the hash of the whole script and
/// its argument bytes.
#[derive(Debug, Clone)]
pub struct ScriptContext {
    pub script_hash: [u8; 32],
    pub args: Vec<u8>,
}

/// A cell claims the custody identity when its type hash is present and equal,
/// byte for byte, to the lock's arguments.
pub open spec fn claims_custody(args: Seq<u8>, type_hash: Option<[u8; 32]>) -> bool {
    match type_hash {
        Some(h) => h@ == args,
        None => false,
    }
}

/// A cell keeps the ownership rule when it does not claim the custody
/// identity, or when its lock hash is the running script's hash.
pub open spec fn cell_keeps_rule(script_hash: Seq<u8>, args: Seq<u8>, c: CellHashes) -> bool {
    claims_custody(args, c.type_hash) ==> c.lock_hash@ == script_hash
}

/// Every cell of a list keeps the ownership rule.
pub open spec fn list_keeps_rule(script_hash: Seq<u8>, args: Seq<u8>, cells: Seq<CellHashes>) -> bool {
    forall|i: int| 0 <= i < cells.len() ==> #[trigger] cell_keeps_rule(script_hash, args, cells[i])
}

/// Byte-for-byte equality of two byte strings.
pub fn bytes_equal(a: &[u8], b: &[u8]) -> (r: bool)
    ensures
        r == (a@ == b@),
{
    if a.len() != b.len() {
        return false;
    }
    let mut i: usize = 0;
    while i < a.len()
        invariant
            a@.len() == b@.len(),
            i <= a@.len(),
            forall|j: int| 0 <= j < i ==> a@[j] == b@[j],
        decreases a@.len() - i,
    {
        if a[i] != b[i] {
            return false;
        }
        i = i + 1;
    }
    assert(a@ =~= b@);
    true
}

} // verus!
