use vstd::prelude::*;
use crate::error::LockError;
use crate::instruction::{instruction_of, LockInstruction};
use crate::state::{
    identity_eq, is_record_bytes, record_bytes, same_but_lamports,
    same_identity_fields, stored_amount, stored_is_locked, stored_lock_time, stored_owner,
    AccountState, Identity, LockRecord,
};
use crate::utils::transfer_lamports;

verus! {

/// Seconds a deposit must stay locked before it can be released.
pub const MIN_HOLD_SECONDS: i64 = 60;

/// Which identity a new custody record names as the one to pay back.
#[derive(Debug, Clone, Copy, PartialEq, Eq, Structural)]
pub enum OwnerPolicy {
    /// The depositor that funded the record.
    Depositor,
    /// The custody account itself; a release then moves nothing.
    Custody,
}

/// The identity a lock records as owner under `policy`.
pub open spec fn owner_for(depositor: AccountState, custody: AccountState, policy: OwnerPolicy) -> Identity {
    match policy {
        OwnerPolicy::Depositor => depositor.key,
        OwnerPolicy::Custody => custody.key,
    }
}

/// The record a successful lock writes.
pub open spec fn locked_record(
    depositor: AccountState,
    custody: AccountState,
    amount: u64,
    now: i64,
    policy: OwnerPolicy,
) -> LockRecord {
    LockRecord {
        is_initialized: true,
        amount,
        owner_identity: owner_for(depositor, custody, policy),
        lock_time: now,
    }
}

/// The first check a lock fails, in the order the checks are made, or
/// `None` when the lock goes through.
pub open spec fn lock_failure(
    depositor: AccountState,
    custody: AccountState,
    amount: u64,
    program_id: Identity,
) -> Option<LockError> {
    if custody.owner != program_id {
        Some(LockError::IncorrectOwner)
    } else if !depositor.is_signer {
        Some(LockError::MissingAuthorization)
    } else if depositor.lamports < amount {
        Some(LockError::InsufficientFunds)
    } else if !is_record_bytes(custody.data@) {
        Some(LockError::InvalidAccountData)
    } else if stored_is_locked(custody.data@) {
        Some(LockError::AlreadyInitialized)
    } else if depositor.key == custody.key {
        Some(LockError::DuplicateAccount)
    } else if custody.lamports + amount > u64::MAX {
        Some(LockError::ArithmeticOverflow)
    } else {
        None
    }
}

/// The first payout check a release fails, or `None`. The recipient must be
/// an account other than the custody account. A record that names the
/// custody account itself as owner pays nothing. Otherwise `recipient`
/// must be the account of the owner the record names, the custody account
/// must hold the amount, and crediting the recipient must not overflow.
pub open spec fn payout_failure(custody: AccountState, recipient: AccountState) -> Option<LockError> {
    let s = custody.data@;
    if recipient.key == custody.key {
        Some(LockError::DuplicateAccount)
    } else if stored_owner(s) == custody.key@ {
        None
    } else if stored_owner(s) != recipient.key@ {
        Some(LockError::InvalidArgument)
    } else if custody.lamports < stored_amount(s) {
        Some(LockError::InsufficientFunds)
    } else if recipient.lamports + stored_amount(s) > u64::MAX {
        Some(LockError::ArithmeticOverflow)
    } else {
        None
    }
}

/// Whether the hold period has elapsed at `now` for a lock taken at `lock_time`.
pub open spec fn hold_elapsed(lock_time: i64, now: i64) -> bool {
    now - lock_time >= MIN_HOLD_SECONDS
}

/// The first check a release fails, in the order the checks are made, or
/// `None` when the release goes through. `signed` tells whether the caller
/// authorized the release; `recipient` is the account offered for the payout.
pub open spec fn unlock_failure(
    signed: bool,
    custody: AccountState,
    recipient: AccountState,
    program_id: Identity,
    now: i64,
) -> Option<LockError> {
    let s = custody.data@;
    if custody.owner != program_id {
        Some(LockError::IncorrectOwner)
    } else if !signed {
        Some(LockError::MissingAuthorization)
    } else if !is_record_bytes(s) {
        Some(LockError::InvalidAccountData)
    } else if !stored_is_locked(s) {
        Some(LockError::UninitializedAccount)
    } else if !hold_elapsed(stored_lock_time(s), now) {
        Some(LockError::EarlyUnlock)
    } else {
        payout_failure(custody, recipient)
    }
}

/// The result that goes with a failure, if any.
pub open spec fn result_of(f: Option<LockError>) -> Result<(), LockError> {
    match f {
        Some(e) => Err(e),
        None => Ok(()),
    }
}

/// One lock call, from the accounts before (`d0`, `c0`) to the accounts
/// after (`d1`, `c1`) and its result `r`.
pub open spec fn lock_step(
    d0: AccountState,
    c0: AccountState,
    d1: AccountState,
    c1: AccountState,
    amount: u64,
    program_id: Identity,
    now: i64,
    policy: OwnerPolicy,
    r: Result<(), LockError>,
) -> bool {
    &&& r == result_of(lock_failure(d0, c0, amount, program_id))
    &&& r is Err ==> d1 == d0 && c1 == c0
    &&& r is Ok ==> {
        &&& same_but_lamports(d0, d1)
        &&& same_identity_fields(c0, c1)
        &&& d1.lamports == d0.lamports - amount
        &&& c1.lamports == c0.lamports + amount
        &&& c1.data@ == record_bytes(locked_record(d0, c0, amount, now, policy))
    }
}

/// One release call, from the custody and recipient accounts before
/// (`c0`, `p0`) to the same accounts after (`c1`, `p1`) and its result `r`.
pub open spec fn unlock_step(
    signed: bool,
    c0: AccountState,
    p0: AccountState,
    c1: AccountState,
    p1: AccountState,
    program_id: Identity,
    now: i64,
    r: Result<(), LockError>,
) -> bool {
    &&& r == result_of(unlock_failure(signed, c0, p0, program_id, now))
    &&& r is Err ==> c1 == c0 && p1 == p0
    &&& r is Ok ==> {
        let amount = stored_amount(c0.data@);
        let pays = stored_owner(c0.data@) != c0.key@;
        &&& same_but_lamports(p0, p1)
        &&& same_identity_fields(c0, c1)
        &&& c1.data@ == c0.data@.update(0, 0u8)
        &&& p1.lamports == if pays { p0.lamports + amount } else { p0.lamports as int }
        &&& c1.lamports == if pays { c0.lamports - amount } else { c0.lamports as int }
    }
}

/// The index of the account a release pays: the third account when one
/// is given, else the caller's.
pub open spec fn recipient_index(len: int) -> int {
    if len >= 3 {
        2
    } else {
        0
    }
}

/// One call of the program on the account list `before`, giving the
/// account list `after` and the result `r`. The accounts are the caller,
/// then the custody account; a release pays the account at
/// `recipient_index`. The program only decodes, counts the accounts and
/// hands them to the handler.
pub open spec fn process_step(
    before: Seq<AccountState>,
    after: Seq<AccountState>,
    data: Seq<u8>,
    program_id: Identity,
    now: i64,
    r: Result<(), LockError>,
) -> bool {
    match instruction_of(data) {
        None => r == Err::<(), LockError>(LockError::InvalidInstruction) && after == before,
        Some(instruction) => if before.len() < 2 {
            r == Err::<(), LockError>(LockError::NotEnoughAccountKeys) && after == before
        } else {
            match instruction {
                LockInstruction::Lock { amount } => {
                    &&& after.len() == before.len()
                    &&& forall|i: int| 2 <= i < before.len() ==> #[trigger] after[i] == before[i]
                    &&& lock_step(
                        before[0],
                        before[1],
                        after[0],
                        after[1],
                        amount,
                        program_id,
                        now,
                        OwnerPolicy::Depositor,
                        r,
                    )
                },
                LockInstruction::Release => {
                    let p = recipient_index(before.len() as int);
                    &&& after.len() == before.len()
                    &&& forall|i: int|
                        0 <= i < before.len() && i != 1 && i != p ==> #[trigger] after[i]
                            == before[i]
                    &&& unlock_step(
                        before[0].is_signer,
                        before[1],
                        before[p],
                        after[1],
                        after[p],
                        program_id,
                        now,
                        r,
                    )
                },
            }
        },
    }
}

/// The program's entry: decodes the instruction and runs its handler.
pub struct Processor;

impl Processor {
    /// Decodes `instruction_data` and applies the operation at clock reading
    /// `now` to the caller (first account) and the custody account (second).
    /// New records name the depositor as owner. A release pays the owner's
    /// account, given third, or the caller's when no third is given. No other
    /// account is touched.
    pub fn process(
        program_id: &Identity,
        accounts: &mut Vec<AccountState>,
        instruction_data: &[u8],
        now: i64,
    ) -> (r: Result<(), LockError>)
        ensures
            process_step(old(accounts)@, final(accounts)@, instruction_data@, *program_id, now, r),
    {
        let instruction = match LockInstruction::unpack(instruction_data) {
            Ok(i) => i,
            Err(e) => return Err(e),
        };
        if accounts.len() < 2 {
            return Err(LockError::NotEnoughAccountKeys);
        }
        let ghost before = accounts@;
        match instruction {
            LockInstruction::Lock { amount } => {
                let mut custody = accounts.remove(1);
                let mut first = accounts.remove(0);
                let r = Self::process_lock(
                    &mut first,
                    &mut custody,
                    amount,
                    program_id,
                    now,
                    OwnerPolicy::Depositor,
                );
                accounts.insert(0, first);
                accounts.insert(1, custody);
                assert forall|i: int| 2 <= i < before.len() implies #[trigger] accounts@[i]
                    == before[i] by {}
                r
            },
            LockInstruction::Release => {
                let signed = accounts[0].is_signer;
                if accounts.len() < 3 {
                    let mut custody = accounts.remove(1);
                    let mut first = accounts.remove(0);
                    let r = Self::process_unlock(signed, &mut custody, &mut first, program_id, now);
                    accounts.insert(0, first);
                    accounts.insert(1, custody);
                    r
                } else {
                    let mut recipient = accounts.remove(2);
                    let mut custody = accounts.remove(1);
                    let r = Self::process_unlock(
                        signed,
                        &mut custody,
                        &mut recipient,
                        program_id,
                        now,
                    );
                    accounts.insert(1, custody);
                    accounts.insert(2, recipient);
                    assert forall|i: int|
                        0 <= i < before.len() && i != 1 && i != 2 implies #[trigger] accounts@[i]
                        == before[i] by {}
                    r
                }
            },
        }
    }

    /// Locks `amount` lamports of `depositor` into the custody record held
    /// by `custody`, taken at clock reading `now`.
    pub fn process_lock(
        depositor: &mut AccountState,
        custody: &mut AccountState,
        amount: u64,
        program_id: &Identity,
        now: i64,
        policy: OwnerPolicy,
    ) -> (r: Result<(), LockError>)
        ensures
            lock_step(
                *old(depositor),
                *old(custody),
                *final(depositor),
                *final(custody),
                amount,
                *program_id,
                now,
                policy,
                r,
            ),
    {
        if !identity_eq(&custody.owner, program_id) {
            return Err(LockError::IncorrectOwner);
        }
        if !depositor.is_signer {
            return Err(LockError::MissingAuthorization);
        }
        if depositor.lamports < amount {
            return Err(LockError::InsufficientFunds);
        }
        let record = match LockRecord::unpack_unchecked(custody.data.as_slice()) {
            Ok(rec) => rec,
            Err(e) => return Err(e),
        };
        if record.is_initialized {
            return Err(LockError::AlreadyInitialized);
        }
        if identity_eq(&depositor.key, &custody.key) {
            return Err(LockError::DuplicateAccount);
        }
        if custody.lamports > u64::MAX - amount {
            return Err(LockError::ArithmeticOverflow);
        }
        let owner_identity = match policy {
            OwnerPolicy::Depositor => depositor.key,
            OwnerPolicy::Custody => custody.key,
        };
        let locked = LockRecord { is_initialized: true, amount, owner_identity, lock_time: now };
        let moved = transfer_lamports(depositor, custody, amount);
        if moved.is_err() {
            return moved;
        }
        custody.data = locked.pack();
        Ok(())
    }

    /// Releases the custody record held by `custody` at clock reading `now`
    /// for a caller whose authorization is `signed`, paying the locked amount
    /// to `recipient`, which must be the account of the owner the record
    /// names (nothing moves when the record names the custody account).
    pub fn process_unlock(
        signed: bool,
        custody: &mut AccountState,
        recipient: &mut AccountState,
        program_id: &Identity,
        now: i64,
    ) -> (r: Result<(), LockError>)
        ensures
            unlock_step(
                signed,
                *old(custody),
                *old(recipient),
                *final(custody),
                *final(recipient),
                *program_id,
                now,
                r,
            ),
    {
        if !identity_eq(&custody.owner, program_id) {
            return Err(LockError::IncorrectOwner);
        }
        if !signed {
            return Err(LockError::MissingAuthorization);
        }
        let record = match LockRecord::unpack_unchecked(custody.data.as_slice()) {
            Ok(rec) => rec,
            Err(e) => return Err(e),
        };
        if !record.is_initialized {
            return Err(LockError::UninitializedAccount);
        }
        if (now as i128) - (record.lock_time as i128) < MIN_HOLD_SECONDS as i128 {
            return Err(LockError::EarlyUnlock);
        }
        if identity_eq(&recipient.key, &custody.key) {
            return Err(LockError::DuplicateAccount);
        }
        if !identity_eq(&record.owner_identity, &custody.key) {
            if !identity_eq(&record.owner_identity, &recipient.key) {
                return Err(LockError::InvalidArgument);
            }
            let moved = transfer_lamports(custody, recipient, record.amount);
            if moved.is_err() {
                return moved;
            }
        }
        custody.data.set(0, 0u8);
        Ok(())
    }
}

} // verus!
