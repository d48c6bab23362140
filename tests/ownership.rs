use ckb_std::error::SysError;
use tockb_lock::{
    after_lock_hash, after_type_hash, bytes_equal, cell_claims_custody, check_lock_hash, classify_type_hash, entry,
    environment_error, map_sys_error, settle_lock_hash, status_code, verify, verify_transaction,
    CellHashes, Error, Read, ScriptContext, Source, Step, Transaction,
};

const OWN_HASH: [u8; 32] = [0x11; 32];
const OTHER_HASH: [u8; 32] = [0x22; 32];
const CUSTODY_TYPE: [u8; 32] = [0x33; 32];
const OTHER_TYPE: [u8; 32] = [0x44; 32];

fn context() -> ScriptContext {
    ScriptContext { script_hash: OWN_HASH, args: CUSTODY_TYPE.to_vec() }
}

fn cell(lock_hash: [u8; 32], type_hash: Option<[u8; 32]>) -> CellHashes {
    CellHashes { lock_hash, type_hash }
}

fn status(inputs: Vec<CellHashes>, outputs: Vec<CellHashes>) -> i8 {
    let tx = Transaction { inputs, outputs };
    status_code(&verify_transaction(&context(), &tx))
}

#[test]
fn custody_cells_owned_by_this_lock_pass() {
    let tx = Transaction {
        inputs: vec![cell(OWN_HASH, Some(CUSTODY_TYPE))],
        outputs: vec![cell(OWN_HASH, Some(CUSTODY_TYPE))],
    };
    assert_eq!(verify_transaction(&context(), &tx), Ok(()));
    assert_eq!(status_code(&verify_transaction(&context(), &tx)), 0);
}

#[test]
fn produced_custody_cell_with_foreign_lock_is_rejected() {
    let tx = Transaction {
        inputs: vec![cell(OWN_HASH, Some(CUSTODY_TYPE))],
        outputs: vec![cell(OTHER_HASH, Some(CUSTODY_TYPE))],
    };
    assert_eq!(verify_transaction(&context(), &tx), Err(Error::InvalidToCKBCell));
    assert_eq!(status_code(&verify_transaction(&context(), &tx)), 6);
}

#[test]
fn no_claiming_cells_pass_whatever_their_locks() {
    let inputs = vec![
        cell(OTHER_HASH, Some(OTHER_TYPE)),
        cell(OWN_HASH, Some(OTHER_TYPE)),
        cell(OTHER_HASH, None),
    ];
    let outputs = vec![cell(OTHER_HASH, Some(OTHER_TYPE)), cell([0u8; 32], Some([0u8; 32]))];
    assert_eq!(status(inputs, outputs), 0);
}

#[test]
fn cell_without_type_script_never_claims() {
    // A cell with no type script and a foreign lock, beside a well-owned custody
    // cell and an unrelated cell.
    let inputs = vec![cell(OTHER_HASH, None), cell(OWN_HASH, Some(CUSTODY_TYPE))];
    let outputs = vec![cell(OTHER_HASH, Some(OTHER_TYPE)), cell(OTHER_HASH, None)];
    assert_eq!(status(inputs, outputs), 0);
    assert!(!cell_claims_custody(&CUSTODY_TYPE, &None));
}

#[test]
fn cell_without_type_script_does_not_hide_a_violation() {
    let inputs = vec![cell(OTHER_HASH, None)];
    let outputs = vec![cell(OTHER_HASH, Some(CUSTODY_TYPE))];
    assert_eq!(status(inputs, outputs), 6);
}

#[test]
fn empty_transaction_passes() {
    assert_eq!(status(vec![], vec![]), 0);
}

#[test]
fn violation_is_found_on_either_side() {
    let bad = cell(OTHER_HASH, Some(CUSTODY_TYPE));
    let fine = cell(OTHER_HASH, Some(OTHER_TYPE));
    let consumed = status(vec![fine, bad], vec![fine]);
    let produced = status(vec![fine], vec![fine, bad]);
    assert_eq!(consumed, 6);
    assert_eq!(consumed, produced);
}

#[test]
fn violation_anywhere_in_a_list_is_found() {
    let good = cell(OWN_HASH, Some(CUSTODY_TYPE));
    let bad = cell(OTHER_HASH, Some(CUSTODY_TYPE));
    assert_eq!(status(vec![good, good, bad], vec![]), 6);
    assert_eq!(status(vec![bad, good], vec![good]), 6);
    assert_eq!(status(vec![good], vec![good, good, good, bad]), 6);
}

#[test]
fn repeated_checks_agree() {
    let tx = Transaction {
        inputs: vec![cell(OWN_HASH, Some(CUSTODY_TYPE)), cell(OTHER_HASH, None)],
        outputs: vec![cell(OTHER_HASH, Some(CUSTODY_TYPE))],
    };
    let first = verify_transaction(&context(), &tx);
    let second = verify_transaction(&context(), &tx);
    assert_eq!(first, second);
    assert_eq!(first, Err(Error::InvalidToCKBCell));
}

#[test]
fn arguments_of_another_length_never_match() {
    let ctx = ScriptContext { script_hash: OWN_HASH, args: CUSTODY_TYPE[..31].to_vec() };
    let tx = Transaction { inputs: vec![cell(OTHER_HASH, Some(CUSTODY_TYPE))], outputs: vec![] };
    assert_eq!(verify_transaction(&ctx, &tx), Ok(()));
    let empty = ScriptContext { script_hash: OWN_HASH, args: vec![] };
    assert_eq!(verify_transaction(&empty, &tx), Ok(()));
}

#[test]
fn one_differing_byte_breaks_a_match() {
    let mut near = CUSTODY_TYPE;
    near[31] = 0x34;
    assert!(!cell_claims_custody(&CUSTODY_TYPE, &Some(near)));
    assert!(cell_claims_custody(&CUSTODY_TYPE, &Some(CUSTODY_TYPE)));
    let mut near_lock = OWN_HASH;
    near_lock[0] = 0x10;
    assert_eq!(check_lock_hash(&OWN_HASH, &near_lock), Err(Error::InvalidToCKBCell));
    assert_eq!(check_lock_hash(&OWN_HASH, &OWN_HASH), Ok(()));
}

#[test]
fn bytes_compare_by_content_and_length() {
    assert!(bytes_equal(&[1, 2, 3], &[1, 2, 3]));
    assert!(!bytes_equal(&[1, 2, 3], &[1, 2, 4]));
    assert!(!bytes_equal(&[1, 2], &[1, 2, 3]));
    assert!(bytes_equal(&[], &[]));
}

#[test]
fn readers_end_with_the_terminator() {
    let tx = Transaction {
        inputs: vec![cell(OWN_HASH, Some(CUSTODY_TYPE))],
        outputs: vec![],
    };
    assert_eq!(tx.cell_type_hash(0, Source::Input), Ok(Some(CUSTODY_TYPE)));
    assert_eq!(tx.cell_lock_hash(0, Source::Input), Ok(OWN_HASH));
    assert_eq!(tx.cell_type_hash(1, Source::Input), Err(Error::IndexOutOfBound));
    assert_eq!(tx.cell_type_hash(0, Source::Output), Err(Error::IndexOutOfBound));
    assert_eq!(tx.cell_lock_hash(0, Source::Output), Err(Error::IndexOutOfBound));
}

#[test]
fn error_codes_are_distinct_and_non_zero() {
    let all = [
        Error::IndexOutOfBound,
        Error::ItemMissing,
        Error::LengthNotEnough,
        Error::Encoding,
        Error::Syscall,
        Error::InvalidToCKBCell,
    ];
    let codes: Vec<i8> = all.iter().map(|e| e.code()).collect();
    assert_eq!(codes, vec![1, 2, 3, 4, 5, 6]);
    assert_eq!(status_code(&Ok(())), 0);
    assert_eq!(status_code(&Err(Error::Encoding)), 4);
}

#[test]
fn host_failures_map_to_library_errors() {
    assert_eq!(map_sys_error(SysError::IndexOutOfBound), Error::IndexOutOfBound);
    assert_eq!(map_sys_error(SysError::ItemMissing), Error::ItemMissing);
    assert_eq!(map_sys_error(SysError::LengthNotEnough(64)), Error::LengthNotEnough);
    assert_eq!(map_sys_error(SysError::Encoding), Error::Encoding);
    assert_eq!(map_sys_error(SysError::Unknown(9)), Error::Syscall);
    assert_eq!(map_sys_error(SysError::WaitFailure), Error::Syscall);
}

#[test]
fn loaded_type_hash_decides_the_claim() {
    assert_eq!(classify_type_hash(&CUSTODY_TYPE, Ok(Some(CUSTODY_TYPE))), Ok(true));
    assert_eq!(classify_type_hash(&CUSTODY_TYPE, Ok(Some(OTHER_TYPE))), Ok(false));
    assert_eq!(classify_type_hash(&CUSTODY_TYPE, Ok(None)), Ok(false));
    assert_eq!(
        classify_type_hash(&CUSTODY_TYPE, Err(SysError::IndexOutOfBound)),
        Err(Error::IndexOutOfBound)
    );
    assert_eq!(classify_type_hash(&CUSTODY_TYPE, Err(SysError::Encoding)), Err(Error::Encoding));
}

#[test]
fn loaded_lock_hash_settles_a_claiming_cell() {
    assert_eq!(settle_lock_hash(&OWN_HASH, Ok(OWN_HASH)), Ok(()));
    assert_eq!(settle_lock_hash(&OWN_HASH, Ok(OTHER_HASH)), Err(Error::InvalidToCKBCell));
    assert_eq!(
        settle_lock_hash(&OWN_HASH, Err(SysError::LengthNotEnough(40))),
        Err(Error::LengthNotEnough)
    );
    // A claiming cell whose lock hash cannot be found makes the check fail.
    assert_eq!(settle_lock_hash(&OWN_HASH, Err(SysError::IndexOutOfBound)), Err(Error::Syscall));
}

#[test]
fn failures_where_a_cell_exists_are_environment_errors() {
    assert_eq!(environment_error(SysError::IndexOutOfBound), Error::Syscall);
    assert_eq!(environment_error(SysError::ItemMissing), Error::ItemMissing);
    assert_eq!(environment_error(SysError::Encoding), Error::Encoding);
    assert_eq!(environment_error(SysError::Unknown(3)), Error::Syscall);
}

#[test]
fn entry_without_a_host_reports_an_environment_error() {
    // Off the CKB virtual machine every syscall fails with an unknown error.
    assert_eq!(entry(), 5);
    assert_eq!(verify(), Err(Error::Syscall));
}

#[test]
fn type_hash_answers_steer_the_scan() {
    let args = CUSTODY_TYPE;
    assert_eq!(
        after_type_hash(3, Source::Input, &args, Ok(Some(CUSTODY_TYPE))),
        Step::Next(Read::LockHash(3, Source::Input))
    );
    assert_eq!(
        after_type_hash(3, Source::Input, &args, Ok(Some(OTHER_TYPE))),
        Step::Next(Read::TypeHash(4, Source::Input))
    );
    assert_eq!(
        after_type_hash(0, Source::Output, &args, Ok(None)),
        Step::Next(Read::TypeHash(1, Source::Output))
    );
    assert_eq!(
        after_type_hash(2, Source::Input, &args, Err(SysError::IndexOutOfBound)),
        Step::Next(Read::TypeHash(0, Source::Output))
    );
    assert_eq!(
        after_type_hash(2, Source::Output, &args, Err(SysError::IndexOutOfBound)),
        Step::Done(Ok(()))
    );
    assert_eq!(
        after_type_hash(1, Source::Output, &args, Err(SysError::Encoding)),
        Step::Done(Err(Error::Encoding))
    );
    assert_eq!(
        after_type_hash(usize::MAX, Source::Input, &args, Ok(None)),
        Step::Next(Read::TypeHash(0, Source::Output))
    );
}

#[test]
fn lock_hash_answers_steer_the_scan() {
    assert_eq!(
        after_lock_hash(5, Source::Output, &OWN_HASH, Ok(OWN_HASH)),
        Step::Next(Read::TypeHash(6, Source::Output))
    );
    assert_eq!(
        after_lock_hash(5, Source::Output, &OWN_HASH, Ok(OTHER_HASH)),
        Step::Done(Err(Error::InvalidToCKBCell))
    );
    assert_eq!(
        after_lock_hash(0, Source::Input, &OWN_HASH, Err(SysError::IndexOutOfBound)),
        Step::Done(Err(Error::Syscall))
    );
    assert_eq!(
        after_lock_hash(usize::MAX, Source::Output, &OWN_HASH, Ok(OWN_HASH)),
        Step::Done(Ok(()))
    );
}

/// Runs the step functions over a transaction's own answers, as the host scan
/// does over the host's.
fn scan(ctx: &ScriptContext, tx: &Transaction) -> Result<(), Error> {
    let answer = |r: Result<Option<[u8; 32]>, Error>| r.map_err(|_| SysError::IndexOutOfBound);
    let mut read = Read::TypeHash(0, Source::Input);
    loop {
        let step = match read {
            Read::TypeHash(i, s) => after_type_hash(i, s, &ctx.args, answer(tx.cell_type_hash(i, s))),
            Read::LockHash(i, s) => after_lock_hash(
                i,
                s,
                &ctx.script_hash,
                tx.cell_lock_hash(i, s).map_err(|_| SysError::IndexOutOfBound),
            ),
        };
        match step {
            Step::Next(next) => read = next,
            Step::Done(outcome) => return outcome,
        }
    }
}

#[test]
fn stepping_over_a_transaction_follows_the_rule() {
    let good = cell(OWN_HASH, Some(CUSTODY_TYPE));
    let bad = cell(OTHER_HASH, Some(CUSTODY_TYPE));
    let plain = cell(OTHER_HASH, None);
    let cases = vec![
        (vec![good], vec![good]),
        (vec![good], vec![bad]),
        (vec![plain, plain], vec![cell(OTHER_HASH, Some(OTHER_TYPE))]),
        (vec![plain, good], vec![plain]),
        (vec![], vec![]),
    ];
    for (inputs, outputs) in cases {
        let tx = Transaction { inputs, outputs };
        assert_eq!(scan(&context(), &tx), verify_transaction(&context(), &tx));
    }
}
