use vstd::prelude::*;
use spl_token::solana_program::program_error::ProgramError;
use spl_token::solana_program::program_pack::Pack;
use crate::error::LockError;
use crate::state::{same_but_lamports, AccountState};

verus! {

/// The outcome of moving `amount` lamports from `from` to `to`.
pub open spec fn transfer_result(from: AccountState, to: AccountState, amount: u64) -> Result<
    (),
    LockError,
> {
    if from.lamports < amount {
        Err(LockError::InsufficientFunds)
    } else if to.lamports + amount > u64::MAX {
        Err(LockError::ArithmeticOverflow)
    } else {
        Ok(())
    }
}

/// Moves `amount` lamports from `from` to `to`, or moves nothing and fails
/// when `from` holds too little or `to` would overflow.
pub fn transfer_lamports(from: &mut AccountState, to: &mut AccountState, amount: u64) -> (r:
    Result<(), LockError>)
    ensures
        r == transfer_result(*old(from), *old(to), amount),
        r is Err ==> *final(from) == *old(from) && *final(to) == *old(to),
        r is Ok ==> {
            &&& same_but_lamports(*old(from), *final(from))
            &&& same_but_lamports(*old(to), *final(to))
            &&& final(from).lamports == old(from).lamports - amount
            &&& final(to).lamports == old(to).lamports + amount
        },
{
    if from.lamports < amount {
        return Err(LockError::InsufficientFunds);
    }
    if to.lamports > u64::MAX - amount {
        return Err(LockError::ArithmeticOverflow);
    }
    from.lamports = from.lamports - amount;
    to.lamports = to.lamports + amount;
    Ok(())
}

/// Size in bytes of a token mint account's data.
pub const MINT_LEN: usize = 82;

/// The token program's error type.
#[verifier::external_type_specification]
#[verifier::external_body]
pub struct ExProgramError(ProgramError);

/// Whether the four bytes at `at` are the tag of an absent (0) or present
/// (1) optional key.
pub open spec fn option_tag_ok(s: Seq<u8>, at: int) -> bool {
    &&& s[at] <= 1
    &&& s[at + 1] == 0
    &&& s[at + 2] == 0
    &&& s[at + 3] == 0
}

/// Whether mint data (at least `MINT_LEN` bytes) is accepted by the token
/// program: both optional authorities carry a valid tag and the
/// initialization flag is 0 or 1.
pub open spec fn mint_bytes_ok(s: Seq<u8>) -> bool {
    &&& option_tag_ok(s, 0)
    &&& s[45] <= 1
    &&& option_tag_ok(s, 46)
}

/// The decimals byte of mint data.
pub open spec fn mint_decimals_byte(s: Seq<u8>) -> u8 {
    s[44]
}

/// Relies on spl_token's `Mint::unpack_from_slice` (the `Pack` impl of
/// `Mint`): it reads the first `MINT_LEN` bytes, fails with
/// `InvalidAccountData` on a bad optional-key tag or initialization flag,
/// and otherwise yields a mint whose `decimals` is byte 44.
#[verifier::external_body]
#[allow(deprecated)]
fn unpack_mint_decimals(data: &[u8]) -> (r: Result<u8, ProgramError>)
    requires
        data@.len() >= MINT_LEN,
    ensures
        r is Ok <==> mint_bytes_ok(data@),
        r matches Ok(d) ==> d == mint_decimals_byte(data@),
{
    spl_token::state::Mint::unpack_from_slice(data).map(|m| m.decimals)
}

/// The number of decimals of a token mint, read from the mint account's
/// data; malformed or short data fails with `InvalidAccountData`.
pub fn mint_decimals(mint_data: &[u8]) -> (r: Result<u8, LockError>)
    ensures
        r == (if mint_data@.len() >= MINT_LEN && mint_bytes_ok(mint_data@) {
            Ok(mint_decimals_byte(mint_data@))
        } else {
            Err(LockError::InvalidAccountData)
        }),
{
    if mint_data.len() < MINT_LEN {
        return Err(LockError::InvalidAccountData);
    }
    match unpack_mint_decimals(mint_data) {
        Ok(d) => Ok(d),
        Err(_) => Err(LockError::InvalidAccountData),
    }
}

} // verus!
