use vstd::prelude::*;
use crate::account::{keys_equal, Account, BankError, Transfer};
use crate::address::{custody_address, custody_address_of};
use crate::encoding::{le_value, read_u64_le};

verus! {

/// Opcode of a deposit instruction.
pub const DEPOSIT: u8 = 0;

/// Opcode of a withdraw instruction.
pub const WITHDRAW: u8 = 1;

/// Position of the user account in the account list.
pub const USER_INDEX: usize = 0;

/// Position of the custody account in the account list.
pub const CUSTODY_INDEX: usize = 1;

/// Number of accounts an instruction needs: user, custody and the transfer service.
pub const ACCOUNTS_NEEDED: usize = 3;

/// First byte of the amount within an instruction body; the byte before it is skipped.
pub const AMOUNT_START: usize = 1;

/// End of the amount within an instruction body.
pub const AMOUNT_END: usize = 9;

/// Length of the balance record at the front of a custody account's data.
pub const RECORD_LEN: usize = 8;

/// The amount that an instruction body carries.
pub open spec fn amount_of(body: Seq<u8>) -> nat {
    le_value(body.subrange(AMOUNT_START as int, AMOUNT_END as int))
}

/// The balance recorded at the front of a custody account's data.
pub open spec fn recorded_balance(data: Seq<u8>) -> nat {
    le_value(data.subrange(0, RECORD_LEN as int))
}

/// The view of an optional address.
pub open spec fn key_view(k: Option<[u8; 32]>) -> Option<Seq<u8>> {
    match k {
        Some(a) => Some(a@),
        None => None,
    }
}

/// Outcome of a deposit: a transfer of the amount from the user to the custody account.
pub open spec fn deposit_outcome(accounts: Seq<Account>, body: Seq<u8>) -> Result<
    Transfer,
    BankError,
> {
    if accounts.len() < ACCOUNTS_NEEDED {
        Err(BankError::NotEnoughAccountKeys)
    } else if body.len() < AMOUNT_END {
        Err(BankError::InvalidInstructionData)
    } else if !accounts[CUSTODY_INDEX as int].is_writable {
        Err(BankError::AccountNotWritable)
    } else {
        Ok(
            Transfer {
                from: accounts[USER_INDEX as int].key,
                to: accounts[CUSTODY_INDEX as int].key,
                amount: amount_of(body) as u64,
            },
        )
    }
}

/// Outcome of a withdraw, given the address that the user's custody account
/// must have (`None` where the user has none): the checks in order, then a
/// transfer of the amount from the custody account back to the user.
pub open spec fn withdraw_outcome(
    program: Seq<u8>,
    accounts: Seq<Account>,
    body: Seq<u8>,
    expected: Option<Seq<u8>>,
) -> Result<Transfer, BankError> {
    if accounts.len() < ACCOUNTS_NEEDED {
        Err(BankError::NotEnoughAccountKeys)
    } else if body.len() < AMOUNT_END {
        Err(BankError::InvalidInstructionData)
    } else {
        let user = accounts[USER_INDEX as int];
        let custody = accounts[CUSTODY_INDEX as int];
        if !custody.is_writable {
            Err(BankError::AccountNotWritable)
        } else if custody.owner@ != program {
            Err(BankError::IncorrectProgramId)
        } else if expected != Some(custody.key@) {
            Err(BankError::InvalidAccountData)
        } else if custody.data@.len() < RECORD_LEN {
            Err(BankError::InvalidAccountData)
        } else if recorded_balance(custody.data@) < amount_of(body) {
            Err(BankError::InsufficientFunds)
        } else {
            Ok(Transfer { from: custody.key, to: user.key, amount: amount_of(body) as u64 })
        }
    }
}

/// The custody address that the first account's user must present.
pub open spec fn expected_custody(program: Seq<u8>, accounts: Seq<Account>) -> Option<Seq<u8>> {
    if accounts.len() > USER_INDEX {
        custody_address_of(accounts[USER_INDEX as int].key@, program)
    } else {
        None
    }
}

/// A handler's outcome as the dispatcher reports it.
pub open spec fn lift(r: Result<Transfer, BankError>) -> Result<Option<Transfer>, BankError> {
    match r {
        Ok(t) => Ok(Some(t)),
        Err(e) => Err(e),
    }
}

/// Outcome of a whole instruction: the opcode selects the handler, and an
/// unknown opcode is accepted with nothing to do.
pub open spec fn instruction_outcome(
    program: Seq<u8>,
    accounts: Seq<Account>,
    data: Seq<u8>,
) -> Result<Option<Transfer>, BankError> {
    if data.len() == 0 {
        Err(BankError::InvalidInstructionData)
    } else if data[0] == DEPOSIT {
        lift(deposit_outcome(accounts, data.drop_first()))
    } else if data[0] == WITHDRAW {
        lift(withdraw_outcome(program, accounts, data.drop_first(), expected_custody(program, accounts)))
    } else {
        Ok(None)
    }
}

/// Decides a deposit: the transfer from the user to the custody account that
/// the ledger must carry out.
pub fn process_deposit(_program_id: &[u8; 32], accounts: &[Account], instruction_data: &[u8]) -> (r:
    Result<Transfer, BankError>)
    ensures
        r == deposit_outcome(accounts@, instruction_data@),
{
    if accounts.len() < ACCOUNTS_NEEDED {
        return Err(BankError::NotEnoughAccountKeys);
    }
    if instruction_data.len() < AMOUNT_END {
        return Err(BankError::InvalidInstructionData);
    }
    let user = &accounts[USER_INDEX];
    let custody = &accounts[CUSTODY_INDEX];
    let amount = read_u64_le(instruction_data, AMOUNT_START);
    if !custody.is_writable {
        return Err(BankError::AccountNotWritable);
    }
    Ok(Transfer { from: user.key, to: custody.key, amount })
}

/// Decides a withdraw, given the address that the user's custody account must
/// have (`None` where the user has none).
pub fn decide_withdraw(
    program_id: &[u8; 32],
    accounts: &[Account],
    instruction_data: &[u8],
    expected: Option<[u8; 32]>,
) -> (r: Result<Transfer, BankError>)
    ensures
        r == withdraw_outcome(program_id@, accounts@, instruction_data@, key_view(expected)),
{
    if accounts.len() < ACCOUNTS_NEEDED {
        return Err(BankError::NotEnoughAccountKeys);
    }
    if instruction_data.len() < AMOUNT_END {
        return Err(BankError::InvalidInstructionData);
    }
    let user = &accounts[USER_INDEX];
    let custody = &accounts[CUSTODY_INDEX];
    let amount = read_u64_le(instruction_data, AMOUNT_START);
    if !custody.is_writable {
        return Err(BankError::AccountNotWritable);
    }
    if !keys_equal(&custody.owner, program_id) {
        return Err(BankError::IncorrectProgramId);
    }
    let associated = match expected {
        Some(k) => keys_equal(&k, &custody.key),
        None => false,
    };
    if !associated {
        return Err(BankError::InvalidAccountData);
    }
    if custody.data.len() < RECORD_LEN {
        return Err(BankError::InvalidAccountData);
    }
    let balance = read_u64_le(custody.data.as_slice(), 0);
    if balance < amount {
        return Err(BankError::InsufficientFunds);
    }
    Ok(Transfer { from: custody.key, to: user.key, amount })
}

/// Decides a withdraw: derives the user's custody address and checks the
/// request against it.
pub fn process_withdraw(program_id: &[u8; 32], accounts: &[Account], instruction_data: &[u8]) -> (r:
    Result<Transfer, BankError>)
    ensures
        r == withdraw_outcome(
            program_id@,
            accounts@,
            instruction_data@,
            expected_custody(program_id@, accounts@),
        ),
{
    let expected = if accounts.len() > USER_INDEX {
        custody_address(&accounts[USER_INDEX].key, program_id)
    } else {
        None
    };
    decide_withdraw(program_id, accounts, instruction_data, expected)
}

/// Decides a whole instruction: `Ok(Some(t))` where the ledger must carry out
/// the transfer `t`, `Ok(None)` for an unknown opcode.
pub fn process_instruction(program_id: &[u8; 32], accounts: &[Account], instruction_data: &[u8]) -> (r:
    Result<Option<Transfer>, BankError>)
    ensures
        r == instruction_outcome(program_id@, accounts@, instruction_data@),
{
    if instruction_data.len() == 0 {
        return Err(BankError::InvalidInstructionData);
    }
    let opcode = instruction_data[0];
    let body = vstd::slice::slice_subrange(instruction_data, 1, instruction_data.len());
    assert(body@ =~= instruction_data@.drop_first());
    let outcome = if opcode == DEPOSIT {
        process_deposit(program_id, accounts, body)
    } else if opcode == WITHDRAW {
        process_withdraw(program_id, accounts, body)
    } else {
        return Ok(None);
    };
    match outcome {
        Ok(t) => Ok(Some(t)),
        Err(e) => Err(e),
    }
}

} // verus!
