use vstd::prelude::*;
use ckb_std::error::SysError;
use crate::cell::{claims_custody, Source};
use crate::checker::{cell_claims_custody, check_lock_hash};
use crate::error::{is_environment_error, spec_error_code, Error};

verus! {

#[verifier::external_type_specification]
pub struct ExSysError(ckb_std::error::SysError);

/// Relies on ckb_std::high_level::load_script_hash: the hash of the running
/// script, as the host reports it.
#[verifier::external_body]
fn load_script_hash() -> (r: Result<[u8; 32], SysError>) {
    ckb_std::high_level::load_script_hash()
}

/// Relies on ckb_std::high_level::load_script: the running script, of which
/// the argument bytes are kept.
#[verifier::external_body]
fn load_script_args() -> (r: Result<Vec<u8>, SysError>) {
    match ckb_std::high_level::load_script() {
        Ok(script) => Ok(script.args().raw_data().to_vec()),
        Err(e) => Err(e),
    }
}

/// Relies on ckb_std::high_level::load_cell_type_hash: the type hash of a cell,
/// `None` for a cell without a type script.
#[verifier::external_body]
fn load_cell_type_hash(index: usize, source: Source) -> (r: Result<Option<[u8; 32]>, SysError>) {
    let source = match source {
        Source::Input => ckb_std::ckb_constants::Source::Input,
        Source::Output => ckb_std::ckb_constants::Source::Output,
    };
    ckb_std::high_level::load_cell_type_hash(index, source)
}

/// Relies on ckb_std::high_level::load_cell_lock_hash: the lock hash of a cell.
#[verifier::external_body]
fn load_cell_lock_hash(index: usize, source: Source) -> (r: Result<[u8; 32], SysError>) {
    let source = match source {
        Source::Input => ckb_std::ckb_constants::Source::Input,
        Source::Output => ckb_std::ckb_constants::Source::Output,
    };
    ckb_std::high_level::load_cell_lock_hash(index, source)
}

/// The library's error for each failure that the host reports.
pub open spec fn spec_map_sys_error(e: SysError) -> Error {
    match e {
        SysError::IndexOutOfBound => Error::IndexOutOfBound,
        SysError::ItemMissing => Error::ItemMissing,
        SysError::LengthNotEnough(_) => Error::LengthNotEnough,
        SysError::Encoding => Error::Encoding,
        _ => Error::Syscall,
    }
}

/// Maps a failure that the host reports to the library's error.
pub fn map_sys_error(e: SysError) -> (r: Error)
    ensures
        r == spec_map_sys_error(e),
{
    match e {
        SysError::IndexOutOfBound => Error::IndexOutOfBound,
        SysError::ItemMissing => Error::ItemMissing,
        SysError::LengthNotEnough(_) => Error::LengthNotEnough,
        SysError::Encoding => Error::Encoding,
        _ => Error::Syscall,
    }
}

/// What one cell's type hash, as the host returned it, decides: whether the
/// cell claims the custody identity, or the error that the host reported.
pub fn classify_type_hash(args: &[u8], loaded: Result<Option<[u8; 32]>, SysError>) -> (r: Result<
    bool,
    Error,
>)
    ensures
        r == (match loaded {
            Ok(t) => Ok(claims_custody(args@, t)),
            Err(e) => Err::<bool, Error>(spec_map_sys_error(e)),
        }),
{
    match loaded {
        Ok(t) => Ok(cell_claims_custody(args, &t)),
        Err(e) => Err(map_sys_error(e)),
    }
}

/// The library's error for a failure that the host reports where a cell is
/// known to exist: always an environment error, so that an answer of "no such
/// cell" there makes the check fail rather than end a list.
pub open spec fn spec_environment_error(e: SysError) -> Error {
    match e {
        SysError::IndexOutOfBound => Error::Syscall,
        _ => spec_map_sys_error(e),
    }
}

/// Maps a failure that the host reports where a cell is known to exist.
pub fn environment_error(e: SysError) -> (r: Error)
    ensures
        r == spec_environment_error(e),
        is_environment_error(r),
{
    match e {
        SysError::IndexOutOfBound => Error::Syscall,
        _ => map_sys_error(e),
    }
}

/// What the lock hash of a claiming cell, as the host returned it, decides:
/// success when it is the running script's hash, the ownership violation when
/// it differs, or an environment error for a failure that the host reported.
pub fn settle_lock_hash(script_hash: &[u8; 32], loaded: Result<[u8; 32], SysError>) -> (r: Result<
    (),
    Error,
>)
    ensures
        r == (match loaded {
            Ok(l) => if l@ == script_hash@ {
                Ok(())
            } else {
                Err::<(), Error>(Error::InvalidToCKBCell)
            },
            Err(e) => Err::<(), Error>(spec_environment_error(e)),
        }),
{
    match loaded {
        Ok(l) => check_lock_hash(script_hash, &l),
        Err(e) => Err(environment_error(e)),
    }
}

/// The next read that the scan makes: the type hash or the lock hash of the
/// cell at an index of one list.
#[derive(Debug, Clone, Copy, PartialEq, Eq)]
pub enum Read {
    TypeHash(usize, Source),
    LockHash(usize, Source),
}

/// Where the scan goes after an answer: on to another read, or done with an
/// outcome.
#[derive(Debug, Clone, Copy, PartialEq, Eq)]
pub enum Step {
    Next(Read),
    Done(Result<(), Error>),
}

/// Where the scan goes once a list has no more cells: the produced list after
/// the consumed list, and success after the produced list.
pub open spec fn spec_end_of_list(source: Source) -> Step {
    match source {
        Source::Input => Step::Next(Read::TypeHash(0, Source::Output)),
        Source::Output => Step::Done(Ok(())),
    }
}

/// Where the scan goes once the cell at `index` keeps the rule: the next cell
/// of the same list. No cell can be addressed past the largest index, so the
/// list ends there.
pub open spec fn spec_next_cell(index: usize, source: Source) -> Step {
    if index == usize::MAX {
        spec_end_of_list(source)
    } else {
        Step::Next(Read::TypeHash((index + 1) as usize, source))
    }
}

/// The decision on the host's answer to a type-hash read.
pub open spec fn spec_after_type_hash(
    index: usize,
    source: Source,
    args: Seq<u8>,
    loaded: Result<Option<[u8; 32]>, SysError>,
) -> Step {
    match loaded {
        Err(SysError::IndexOutOfBound) => spec_end_of_list(source),
        Err(e) => Step::Done(Err(spec_map_sys_error(e))),
        Ok(t) => if claims_custody(args, t) {
            Step::Next(Read::LockHash(index, source))
        } else {
            spec_next_cell(index, source)
        },
    }
}

/// The decision on the host's answer to a lock-hash read, which is made only
/// for a claiming cell.
pub open spec fn spec_after_lock_hash(
    index: usize,
    source: Source,
    script_hash: Seq<u8>,
    loaded: Result<[u8; 32], SysError>,
) -> Step {
    match loaded {
        Ok(l) => if l@ == script_hash {
            spec_next_cell(index, source)
        } else {
            Step::Done(Err(Error::InvalidToCKBCell))
        },
        Err(e) => Step::Done(Err(spec_environment_error(e))),
    }
}

fn end_of_list(source: Source) -> (r: Step)
    ensures
        r == spec_end_of_list(source),
{
    match source {
        Source::Input => Step::Next(Read::TypeHash(0, Source::Output)),
        Source::Output => Step::Done(Ok(())),
    }
}

fn next_cell(index: usize, source: Source) -> (r: Step)
    ensures
        r == spec_next_cell(index, source),
{
    if index == usize::MAX {
        end_of_list(source)
    } else {
        Step::Next(Read::TypeHash(index + 1, source))
    }
}

/// Decides where the scan goes after the host answered a type-hash read: the
/// next list or success at the end of a list, the lock-hash read for a
/// claiming cell, the next cell otherwise, or the error that the host reported.
pub fn after_type_hash(
    index: usize,
    source: Source,
    args: &[u8],
    loaded: Result<Option<[u8; 32]>, SysError>,
) -> (r: Step)
    ensures
        r == spec_after_type_hash(index, source, args@, loaded),
{
    match classify_type_hash(args, loaded) {
        Ok(true) => Step::Next(Read::LockHash(index, source)),
        Ok(false) => next_cell(index, source),
        Err(Error::IndexOutOfBound) => end_of_list(source),
        Err(e) => Step::Done(Err(e)),
    }
}

/// Decides where the scan goes after the host answered the lock-hash read of a
/// claiming cell: the next cell when the lock is this script, the ownership
/// violation when it is another, or an environment error.
pub fn after_lock_hash(
    index: usize,
    source: Source,
    script_hash: &[u8; 32],
    loaded: Result<[u8; 32], SysError>,
) -> (r: Step)
    ensures
        r == spec_after_lock_hash(index, source, script_hash@, loaded),
{
    match settle_lock_hash(script_hash, loaded) {
        Ok(()) => next_cell(index, source),
        Err(e) => Step::Done(Err(e)),
    }
}

/// Checks the cell at `index` of one list against the ownership rule, reading
/// from the host its type hash and, for a claiming cell only, its lock hash.
/// The scan then goes on to the next cell or the next list, or it is done with
/// an outcome other than the terminator.
pub fn verify_single_cell(index: usize, source: Source, script_hash: &[u8; 32], args: &[u8]) -> (r:
    Step)
    ensures
        r == spec_end_of_list(source) || r == spec_next_cell(index, source) || (r matches Step::Done(
            Err(e),
        ) && e != Error::IndexOutOfBound),
{
    let step = after_type_hash(index, source, args, load_cell_type_hash(index, source));
    match step {
        Step::Next(Read::LockHash(i, s)) => after_lock_hash(i, s, script_hash, load_cell_lock_hash(i, s)),
        _ => step,
    }
}

/// Orders the reads of a scan: the consumed list before the produced list, by
/// index within a list, and a cell's type hash before its lock hash.
pub open spec fn read_rank(read: Read) -> int {
    let (index, source, phase) = match read {
        Read::TypeHash(i, s) => (i, s, 0int),
        Read::LockHash(i, s) => (i, s, 1int),
    };
    let position = match source {
        Source::Input => index as int,
        Source::Output => usize::MAX + 1 + index,
    };
    2 * position + phase
}

/// An upper bound on the rank of every read.
pub open spec fn read_rank_bound() -> int {
    4 * (usize::MAX + 1)
}

/// Reads the running script's identity from the host and checks the ownership
/// rule over the consumed cells, then the produced cells, going wherever the
/// decision on each answer sends it. The out-of-bound terminator never escapes:
/// the outcome is success, the ownership violation, or an environment error.
pub fn verify() -> (r: Result<(), Error>)
    ensures
        r is Ok || r == Err::<(), Error>(Error::InvalidToCKBCell) || (r matches Err(e)
            && is_environment_error(e)),
{
    let script_hash = match load_script_hash() {
        Ok(h) => h,
        Err(e) => {
            return Err(environment_error(e));
        },
    };
    let args = match load_script_args() {
        Ok(a) => a,
        Err(e) => {
            return Err(environment_error(e));
        },
    };
    let mut index: usize = 0;
    let mut source = Source::Input;
    loop
        decreases read_rank_bound() - read_rank(Read::TypeHash(index, source)),
    {
        match verify_single_cell(index, source, &script_hash, args.as_slice()) {
            Step::Next(Read::TypeHash(i, s)) => {
                index = i;
                source = s;
            },
            Step::Next(Read::LockHash(_, _)) => {
                // A cell's own lock-hash read is made inside its check.
                proof {
                    assert(false);
                }
                return Err(Error::Syscall);
            },
            Step::Done(outcome) => {
                return outcome;
            },
        }
    }
}

/// The status code that the host sees for an outcome: zero for success, the
/// error's non-zero code otherwise.
pub open spec fn spec_status(outcome: Result<(), Error>) -> i8 {
    match outcome {
        Ok(()) => 0i8,
        Err(e) => spec_error_code(e),
    }
}

/// The status code that the host sees for an outcome.
pub fn status_code(outcome: &Result<(), Error>) -> (r: i8)
    ensures
        r == spec_status(*outcome),
        r == 0 <==> outcome is Ok,
{
    match outcome {
        Ok(()) => 0,
        Err(e) => e.code(),
    }
}

/// Runs the check once against the host and returns its status code: zero, the
/// ownership violation's code, or an environment error's code.
pub fn entry() -> (r: i8)
    ensures
        r == spec_status(Ok(())) || r == spec_error_code(Error::InvalidToCKBCell) || (exists|e: Error|
            is_environment_error(e) && r == #[trigger] spec_error_code(e)),
{
    let outcome = verify();
    status_code(&outcome)
}

} // verus!
