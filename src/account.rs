use vstd::prelude::*;

verus! {

/// What the ledger exposes of one account for the duration of a call.
#[derive(Clone, Debug, PartialEq, Eq)]
pub struct Account {
    /// The account's address.
    pub key: [u8; 32],
    /// The program that owns the account's data.
    pub owner: [u8; 32],
    /// Whether the call may modify the account.
    pub is_writable: bool,
    /// The native value that the ledger holds in the account.
    pub lamports: u64,
    /// The account's data; a custody account records its balance in the first eight bytes.
    pub data: Vec<u8>,
}

/// A native transfer of `amount` from the account `from` to the account `to`,
/// which the caller hands to the ledger's transfer service.
#[derive(Clone, Copy, Debug, PartialEq, Eq)]
pub struct Transfer {
    pub from: [u8; 32],
    pub to: [u8; 32],
    pub amount: u64,
}

/// Why an instruction was refused.
#[derive(Clone, Copy, Debug, PartialEq, Eq, Structural)]
pub enum BankError {
    /// Fewer than three accounts were supplied.
    NotEnoughAccountKeys,
    /// The instruction is too short to hold an opcode or an amount.
    InvalidInstructionData,
    /// The custody account is not writable.
    AccountNotWritable,
    /// The custody account is not owned by this program.
    IncorrectProgramId,
    /// The custody account is not associated with the user, or its data is too short.
    InvalidAccountData,
    /// The recorded balance is below the requested amount.
    InsufficientFunds,
}

/// Compares two addresses byte by byte.
pub fn keys_equal(a: &[u8; 32], b: &[u8; 32]) -> (r: bool)
    ensures
        r == (a@ == b@),
{
    let mut i: usize = 0;
    while i < 32
        invariant
            i <= 32,
            a@.len() == 32,
            b@.len() == 32,
            forall|k: int| 0 <= k < i ==> a@[k] == b@[k],
        decreases 32 - i,
    {
        if a[i] != b[i] {
            return false;
        }
        i = i + 1;
    }
    assert(a@ =~= b@);
    true
}

} // verus!
