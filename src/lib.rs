//! A custodial ledger program: users deposit native value into a custody
//! account and withdraw it again, with ownership, association and balance
//! checks decided by verified code.
mod account;
mod address;
mod encoding;
mod laws;
mod processor;

pub use account::{keys_equal, Account, BankError, Transfer};
pub use address::{custody_address, custody_address_of, program_address, CUSTODY_SEED};
pub use encoding::{byte_capacity, le_value, lemma_eight_bytes_fit, lemma_le_value_bound, read_u64_le};
pub use processor::{
    amount_of, decide_withdraw, deposit_outcome, expected_custody, instruction_outcome, key_view, lift,
    process_deposit, process_instruction, process_withdraw, recorded_balance, withdraw_outcome,
    ACCOUNTS_NEEDED, AMOUNT_END, AMOUNT_START, CUSTODY_INDEX, DEPOSIT, RECORD_LEN, USER_INDEX,
    WITHDRAW,
};
pub use laws::{
    balance_after, deposit_moves_amount, settled_balance, short_record_refused,
    unknown_opcode_changes_nothing, withdraw_balance_boundary, withdraw_succeeds_iff_checks_pass,
};
