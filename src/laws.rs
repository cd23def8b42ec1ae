use vstd::prelude::*;
use crate::encoding::lemma_eight_bytes_fit;
use crate::account::{Account, BankError, Transfer};
use crate::processor::{
    amount_of, expected_custody, AMOUNT_START, instruction_outcome, recorded_balance, ACCOUNTS_NEEDED,
    AMOUNT_END, CUSTODY_INDEX, DEPOSIT, RECORD_LEN, USER_INDEX, WITHDRAW,
};

verus! {

/// The native balance that an account with address `key` holds once the
/// ledger has carried out `t`, where it held `before`.
pub open spec fn balance_after(t: Transfer, key: Seq<u8>, before: int) -> int {
    if t.from@ == t.to@ {
        before
    } else if key == t.from@ {
        before - t.amount
    } else if key == t.to@ {
        before + t.amount
    } else {
        before
    }
}

/// The native balance of the account `key` once the outcome of an instruction
/// has been settled: a refused instruction, or one with nothing to do, moves nothing.
pub open spec fn settled_balance(
    outcome: Result<Option<Transfer>, BankError>,
    key: Seq<u8>,
    before: int,
) -> int {
    match outcome {
        Ok(Some(t)) => balance_after(t, key, before),
        _ => before,
    }
}

/// An accepted deposit takes exactly its amount from the user, adds exactly
/// that amount to the custody account, and leaves every other account's
/// balance unchanged.
pub proof fn deposit_moves_amount(
    program: Seq<u8>,
    accounts: Seq<Account>,
    data: Seq<u8>,
    key: Seq<u8>,
    before: int,
)
    requires
        data.len() > 0,
        data[0] == DEPOSIT,
        instruction_outcome(program, accounts, data) is Ok,
        accounts.len() >= ACCOUNTS_NEEDED,
        accounts[USER_INDEX as int].key@ != accounts[CUSTODY_INDEX as int].key@,
    ensures
        ({
            let outcome = instruction_outcome(program, accounts, data);
            let user = accounts[USER_INDEX as int].key@;
            let custody = accounts[CUSTODY_INDEX as int].key@;
            let a = amount_of(data.drop_first());
            &&& key == user ==> settled_balance(outcome, key, before) == before - a
            &&& key == custody ==> settled_balance(outcome, key, before) == before + a
            &&& key != user && key != custody ==> settled_balance(outcome, key, before) == before
        }),
{
    lemma_eight_bytes_fit(data.drop_first().subrange(AMOUNT_START as int, AMOUNT_END as int));
}

/// A well-formed withdraw succeeds exactly when the custody account is owned
/// by the program, is the user's custody address, holds a balance record and
/// records at least the amount; it then moves exactly the amount from custody
/// to the user. Otherwise it fails with the error of the first failing check
/// and no balance changes.
pub proof fn withdraw_succeeds_iff_checks_pass(
    program: Seq<u8>,
    accounts: Seq<Account>,
    data: Seq<u8>,
    key: Seq<u8>,
    before: int,
)
    requires
        data.len() >= 1 + AMOUNT_END,
        data[0] == WITHDRAW,
        accounts.len() >= ACCOUNTS_NEEDED,
        accounts[CUSTODY_INDEX as int].is_writable,
    ensures
        ({
            let outcome = instruction_outcome(program, accounts, data);
            let user = accounts[USER_INDEX as int];
            let custody = accounts[CUSTODY_INDEX as int];
            let a = amount_of(data.drop_first());
            let owned = custody.owner@ == program;
            let associated = expected_custody(program, accounts) == Some(custody.key@);
            let recorded = custody.data@.len() >= RECORD_LEN;
            let covered = recorded && recorded_balance(custody.data@) >= a;
            &&& (owned && associated && covered) ==> outcome == Ok::<Option<Transfer>, BankError>(
                Some(Transfer { from: custody.key, to: user.key, amount: a as u64 }),
            )
            &&& !owned ==> outcome == Err::<Option<Transfer>, BankError>(
                BankError::IncorrectProgramId,
            )
            &&& owned && !associated ==> outcome == Err::<Option<Transfer>, BankError>(
                BankError::InvalidAccountData,
            )
            &&& owned && associated && !recorded ==> outcome == Err::<Option<Transfer>, BankError>(
                BankError::InvalidAccountData,
            )
            &&& owned && associated && recorded && !covered ==> outcome == Err::<
                Option<Transfer>,
                BankError,
            >(BankError::InsufficientFunds)
            &&& !(owned && associated && covered) ==> settled_balance(outcome, key, before)
                == before
        }),
{
}

/// An instruction whose opcode is neither deposit nor withdraw is accepted and
/// changes no balance.
pub proof fn unknown_opcode_changes_nothing(
    program: Seq<u8>,
    accounts: Seq<Account>,
    data: Seq<u8>,
    key: Seq<u8>,
    before: int,
)
    requires
        data.len() > 0,
        data[0] != DEPOSIT,
        data[0] != WITHDRAW,
    ensures
        instruction_outcome(program, accounts, data) == Ok::<Option<Transfer>, BankError>(None),
        settled_balance(instruction_outcome(program, accounts, data), key, before) == before,
{
}

/// A withdraw of exactly the recorded balance succeeds; one of the recorded
/// balance plus one fails for insufficient funds.
pub proof fn withdraw_balance_boundary(program: Seq<u8>, accounts: Seq<Account>, data: Seq<u8>)
    requires
        data.len() >= 1 + AMOUNT_END,
        data[0] == WITHDRAW,
        accounts.len() >= ACCOUNTS_NEEDED,
        accounts[CUSTODY_INDEX as int].is_writable,
        accounts[CUSTODY_INDEX as int].owner@ == program,
        expected_custody(program, accounts) == Some(accounts[CUSTODY_INDEX as int].key@),
        accounts[CUSTODY_INDEX as int].data@.len() >= RECORD_LEN,
    ensures
        amount_of(data.drop_first()) == recorded_balance(accounts[CUSTODY_INDEX as int].data@)
            ==> instruction_outcome(program, accounts, data) is Ok,
        amount_of(data.drop_first()) == recorded_balance(accounts[CUSTODY_INDEX as int].data@) + 1
            ==> instruction_outcome(program, accounts, data) == Err::<Option<Transfer>, BankError>(
            BankError::InsufficientFunds,
        ),
{
}

/// A withdraw from a program-owned custody account whose data is shorter than
/// the balance record fails with invalid account data, whatever the amount.
pub proof fn short_record_refused(program: Seq<u8>, accounts: Seq<Account>, data: Seq<u8>)
    requires
        data.len() >= 1 + AMOUNT_END,
        data[0] == WITHDRAW,
        accounts.len() >= ACCOUNTS_NEEDED,
        accounts[CUSTODY_INDEX as int].is_writable,
        accounts[CUSTODY_INDEX as int].owner@ == program,
        accounts[CUSTODY_INDEX as int].data@.len() < RECORD_LEN,
    ensures
        instruction_outcome(program, accounts, data) == Err::<Option<Transfer>, BankError>(
            BankError::InvalidAccountData,
        ),
{
}

} // verus!
