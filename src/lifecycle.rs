//! Laws of the lock / release life cycle, stated over the step relations
//! that the handlers' contracts establish.
use vstd::prelude::*;
use crate::error::LockError;
use crate::instruction::{instruction_bytes, lemma_instruction_round_trip, LockInstruction};
use crate::processor::{
    lock_failure, lock_step, locked_record, owner_for, process_step, recipient_index,
    unlock_failure, unlock_step, OwnerPolicy, MIN_HOLD_SECONDS,
};
use crate::state::{
    is_record_bytes, lemma_record_round_trip, record_bytes, stored_amount, stored_is_locked,
    stored_lock_time, stored_owner, AccountState, Identity,
};

verus! {

/// What a successful lock leaves in the custody account's data.
proof fn lemma_locked_data(
    d0: AccountState,
    c0: AccountState,
    d1: AccountState,
    c1: AccountState,
    amount: u64,
    program_id: Identity,
    now: i64,
    policy: OwnerPolicy,
)
    requires
        lock_step(d0, c0, d1, c1, amount, program_id, now, policy, Ok(())),
    ensures
        c1.owner == program_id,
        is_record_bytes(c1.data@),
        stored_is_locked(c1.data@),
        stored_amount(c1.data@) == amount,
        stored_lock_time(c1.data@) == now,
        stored_owner(c1.data@) == owner_for(d0, c0, policy)@,
{
    lemma_record_round_trip(locked_record(d0, c0, amount, now, policy));
}

/// A lock onto a record that an earlier lock filled always fails and
/// changes nothing; once the account and signer checks pass, it fails
/// because the record is already locked.
pub proof fn lemma_no_double_lock(
    d0: AccountState,
    c0: AccountState,
    d1: AccountState,
    c1: AccountState,
    amount: u64,
    now: i64,
    policy: OwnerPolicy,
    d2: AccountState,
    d3: AccountState,
    c3: AccountState,
    amount2: u64,
    now2: i64,
    policy2: OwnerPolicy,
    program_id: Identity,
    r: Result<(), LockError>,
)
    requires
        lock_step(d0, c0, d1, c1, amount, program_id, now, policy, Ok(())),
        lock_step(d2, c1, d3, c3, amount2, program_id, now2, policy2, r),
    ensures
        r is Err,
        d3 == d2,
        c3 == c1,
        stored_amount(c3.data@) == amount,
        stored_lock_time(c3.data@) == now,
        d2.is_signer && d2.lamports >= amount2 ==> r == Err::<(), LockError>(
            LockError::AlreadyInitialized,
        ),
{
    lemma_locked_data(d0, c0, d1, c1, amount, program_id, now, policy);
}

/// A signed release before the hold period has elapsed since the lock
/// fails with `EarlyUnlock`, moves nothing and leaves the record locked.
pub proof fn lemma_no_early_release(
    d0: AccountState,
    c0: AccountState,
    d1: AccountState,
    c1: AccountState,
    amount: u64,
    lock_time: i64,
    policy: OwnerPolicy,
    p2: AccountState,
    c3: AccountState,
    p3: AccountState,
    now: i64,
    program_id: Identity,
    r: Result<(), LockError>,
)
    requires
        lock_step(d0, c0, d1, c1, amount, program_id, lock_time, policy, Ok(())),
        unlock_step(true, c1, p2, c3, p3, program_id, now, r),
        now < lock_time + MIN_HOLD_SECONDS,
    ensures
        r == Err::<(), LockError>(LockError::EarlyUnlock),
        p3 == p2,
        c3 == c1,
        stored_is_locked(c3.data@),
        stored_amount(c3.data@) == amount,
{
    lemma_locked_data(d0, c0, d1, c1, amount, program_id, lock_time, policy);
}

/// A signed release once the hold period has elapsed, whoever signed it,
/// pays exactly the locked amount out of the custody account into the
/// account of the owner the record names, and leaves the record unlocked
/// with its other fields as they were.
pub proof fn lemma_release_pays_owner(
    d0: AccountState,
    c0: AccountState,
    d1: AccountState,
    c1: AccountState,
    amount: u64,
    lock_time: i64,
    policy: OwnerPolicy,
    p2: AccountState,
    c3: AccountState,
    p3: AccountState,
    now: i64,
    program_id: Identity,
    r: Result<(), LockError>,
)
    requires
        lock_step(d0, c0, d1, c1, amount, program_id, lock_time, policy, Ok(())),
        unlock_step(true, c1, p2, c3, p3, program_id, now, r),
        p2.key == owner_for(d0, c0, policy),
        p2.key != c1.key,
        p2.lamports + amount <= u64::MAX,
        now >= lock_time + MIN_HOLD_SECONDS,
    ensures
        r == Ok::<(), LockError>(()),
        p3.lamports == p2.lamports + amount,
        c3.lamports == c1.lamports - amount,
        c3.data@ == c1.data@.update(0, 0u8),
        is_record_bytes(c3.data@),
        !stored_is_locked(c3.data@),
{
    lemma_locked_data(d0, c0, d1, c1, amount, program_id, lock_time, policy);
    assert(p2.key@ != c1.key@) by {
        broadcast use vstd::array::group_array_axioms;
        if p2.key@ == c1.key@ {
            assert(p2.key =~= c1.key);
        }
    }
}

/// A lock that the depositor did not sign, or a release that its caller did
/// not authorize, fails with `MissingAuthorization` and changes no account.
pub proof fn lemma_authorization_gate(
    d0: AccountState,
    c0: AccountState,
    d1: AccountState,
    c1: AccountState,
    amount: u64,
    policy: OwnerPolicy,
    lock_r: Result<(), LockError>,
    p0: AccountState,
    e1: AccountState,
    p1: AccountState,
    unlock_r: Result<(), LockError>,
    program_id: Identity,
    now: i64,
)
    requires
        c0.owner == program_id,
        !d0.is_signer,
        lock_step(d0, c0, d1, c1, amount, program_id, now, policy, lock_r),
        unlock_step(false, c0, p0, e1, p1, program_id, now, unlock_r),
    ensures
        lock_r == Err::<(), LockError>(LockError::MissingAuthorization),
        d1 == d0 && c1 == c0,
        unlock_r == Err::<(), LockError>(LockError::MissingAuthorization),
        e1 == c0 && p1 == p0,
{
}

/// A signed lock of more than the depositor holds fails with
/// `InsufficientFunds` and changes no account.
pub proof fn lemma_insufficient_funds(
    d0: AccountState,
    c0: AccountState,
    d1: AccountState,
    c1: AccountState,
    amount: u64,
    program_id: Identity,
    now: i64,
    policy: OwnerPolicy,
    r: Result<(), LockError>,
)
    requires
        c0.owner == program_id,
        d0.is_signer,
        amount > d0.lamports,
        lock_step(d0, c0, d1, c1, amount, program_id, now, policy, r),
    ensures
        r == Err::<(), LockError>(LockError::InsufficientFunds),
        d1 == d0,
        c1 == c0,
{
}

/// Locking through the program with two accounts (the depositor, then the
/// custody account), waiting out the hold period and releasing with the
/// same two accounts succeeds, gives both accounts back their balances and
/// leaves the record unlocked; every later lock or release on them then
/// fails or succeeds exactly as it would have before the lock.
pub proof fn lemma_lock_release_round_trip(
    s0: Seq<AccountState>,
    s1: Seq<AccountState>,
    s2: Seq<AccountState>,
    amount: u64,
    lock_time: i64,
    now: i64,
    program_id: Identity,
    r: Result<(), LockError>,
)
    requires
        s0.len() == 2,
        process_step(
            s0,
            s1,
            instruction_bytes(LockInstruction::Lock { amount }),
            program_id,
            lock_time,
            Ok(()),
        ),
        process_step(s1, s2, instruction_bytes(LockInstruction::Release), program_id, now, r),
        now >= lock_time + MIN_HOLD_SECONDS,
    ensures
        r == Ok::<(), LockError>(()),
        s2.len() == 2,
        s2[0].lamports == s0[0].lamports,
        s2[1].lamports == s0[1].lamports,
        s2[0].key == s0[0].key && s2[0].owner == s0[0].owner,
        s2[0].is_signer == s0[0].is_signer && s2[0].data@ == s0[0].data@,
        s2[1].key == s0[1].key && s2[1].owner == s0[1].owner,
        s2[1].is_signer == s0[1].is_signer,
        is_record_bytes(s2[1].data@),
        !stored_is_locked(s2[1].data@),
        forall|a: u64, id: Identity|
            #[trigger] lock_failure(s2[0], s2[1], a, id) == lock_failure(s0[0], s0[1], a, id),
        forall|signed: bool, id: Identity, t: i64|
            #[trigger] unlock_failure(signed, s2[1], s2[0], id, t) == unlock_failure(
                signed,
                s0[1],
                s0[0],
                id,
                t,
            ),
{
    lemma_instruction_round_trip(LockInstruction::Lock { amount });
    lemma_instruction_round_trip(LockInstruction::Release);
    let (d0, c0, d1, c1) = (s0[0], s0[1], s1[0], s1[1]);
    lemma_locked_data(d0, c0, d1, c1, amount, program_id, lock_time, OwnerPolicy::Depositor);
    assert(d1.key@ != c1.key@) by {
        broadcast use vstd::array::group_array_axioms;
        if d1.key@ == c1.key@ {
            assert(d1.key =~= c1.key);
        }
    }
    let rec = locked_record(d0, c0, amount, lock_time, OwnerPolicy::Depositor);
    assert(s2[1].data@ == record_bytes(rec).update(0, 0u8));
    assert(is_record_bytes(c0.data@));
}

/// A failed lock leaves the accounts as they were, so repeating it with the
/// same arguments fails again with the same error and again changes nothing.
pub proof fn lemma_failed_lock_repeats(
    d0: AccountState,
    c0: AccountState,
    d1: AccountState,
    c1: AccountState,
    r1: Result<(), LockError>,
    d2: AccountState,
    c2: AccountState,
    r2: Result<(), LockError>,
    amount: u64,
    program_id: Identity,
    now: i64,
    policy: OwnerPolicy,
)
    requires
        lock_step(d0, c0, d1, c1, amount, program_id, now, policy, r1),
        r1 is Err,
        lock_step(d1, c1, d2, c2, amount, program_id, now, policy, r2),
    ensures
        r2 == r1,
        d2 == d0,
        c2 == c0,
{
}

/// A failed release leaves the accounts as they were, so repeating it with
/// the same arguments fails again with the same error and again changes
/// nothing.
pub proof fn lemma_failed_release_repeats(
    signed: bool,
    c0: AccountState,
    p0: AccountState,
    c1: AccountState,
    p1: AccountState,
    r1: Result<(), LockError>,
    c2: AccountState,
    p2: AccountState,
    r2: Result<(), LockError>,
    program_id: Identity,
    now: i64,
)
    requires
        unlock_step(signed, c0, p0, c1, p1, program_id, now, r1),
        r1 is Err,
        unlock_step(signed, c1, p1, c2, p2, program_id, now, r2),
    ensures
        r2 == r1,
        c2 == c0,
        p2 == p0,
{
}

/// A failed call of the program changes no account, and any call with the
/// same instruction, clock reading and accounts gives the same result.
proof fn lemma_failed_call_is_stable(
    s: Seq<AccountState>,
    a1: Seq<AccountState>,
    a2: Seq<AccountState>,
    data: Seq<u8>,
    program_id: Identity,
    now: i64,
    r1: Result<(), LockError>,
    r2: Result<(), LockError>,
)
    requires
        process_step(s, a1, data, program_id, now, r1),
        process_step(s, a2, data, program_id, now, r2),
        r1 is Err,
    ensures
        r2 == r1,
        a1 == s,
{
    if let Some(instruction) = crate::instruction::instruction_of(data) {
        if s.len() >= 2 {
            let p = recipient_index(s.len() as int);
            match instruction {
                LockInstruction::Lock { amount } => {
                    assert(a1 =~= s) by {
                        assert forall|i: int| 0 <= i < s.len() implies a1[i] == s[i] by {
                            if i >= 2 {
                                assert(a1[i] == s[i]);
                            }
                        }
                    }
                },
                LockInstruction::Release => {
                    assert(a1 =~= s) by {
                        assert forall|i: int| 0 <= i < s.len() implies a1[i] == s[i] by {
                            if i != 1 && i != p {
                                assert(a1[i] == s[i]);
                            }
                        }
                    }
                },
            }
        }
    }
}

/// Repeating a failed call of the program any number of times, with the
/// same instruction and clock reading, fails each time with the same error
/// and leaves every account as it was before the first call. `states[i]`
/// is the account list before call `i`, `results[i]` its result.
pub proof fn lemma_failed_call_repeats(
    states: Seq<Seq<AccountState>>,
    results: Seq<Result<(), LockError>>,
    data: Seq<u8>,
    program_id: Identity,
    now: i64,
)
    requires
        results.len() >= 1,
        states.len() == results.len() + 1,
        results[0] is Err,
        forall|i: int|
            0 <= i < results.len() ==> process_step(
                #[trigger] states[i],
                states[i + 1],
                data,
                program_id,
                now,
                results[i],
            ),
    ensures
        forall|i: int| 0 <= i < results.len() ==> #[trigger] results[i] == results[0],
        forall|i: int| 0 <= i < states.len() ==> #[trigger] states[i] == states[0],
{
    assert forall|k: int| 0 <= k < states.len() implies #[trigger] states[k] == states[0] by {
        lemma_failed_prefix(states, results, data, program_id, now, k);
    }
    assert forall|k: int| 0 <= k < results.len() implies #[trigger] results[k] == results[0] by {
        lemma_failed_prefix(states, results, data, program_id, now, k);
    }
}

proof fn lemma_failed_prefix(
    states: Seq<Seq<AccountState>>,
    results: Seq<Result<(), LockError>>,
    data: Seq<u8>,
    program_id: Identity,
    now: i64,
    k: int,
)
    requires
        results.len() >= 1,
        states.len() == results.len() + 1,
        results[0] is Err,
        forall|i: int|
            0 <= i < results.len() ==> process_step(
                #[trigger] states[i],
                states[i + 1],
                data,
                program_id,
                now,
                results[i],
            ),
        0 <= k < states.len(),
    ensures
        states[k] == states[0],
        k < results.len() ==> results[k] == results[0],
    decreases k,
{
    if k > 0 {
        lemma_failed_prefix(states, results, data, program_id, now, k - 1);
        assert(process_step(states[k - 1], states[k], data, program_id, now, results[k - 1]));
        lemma_failed_call_is_stable(
            states[0],
            states[k],
            states[1],
            data,
            program_id,
            now,
            results[k - 1],
            results[0],
        );
    }
    if k < results.len() {
        assert(process_step(states[k], states[k + 1], data, program_id, now, results[k]));
        assert(process_step(states[0], states[1], data, program_id, now, results[0]));
        lemma_failed_call_is_stable(
            states[0],
            states[1],
            states[k + 1],
            data,
            program_id,
            now,
            results[0],
            results[k],
        );
    }
}

} // verus!
