use vstd::prelude::*;
use vstd::bytes::{
    lemma_auto_spec_u64_to_from_le_bytes, spec_u64_from_le_bytes, spec_u64_to_le_bytes,
    u64_from_le_bytes, u64_to_le_bytes,
};
use vstd::slice::slice_subrange;
use crate::error::LockError;

verus! {

/// The 32-byte identity of an account or a program.
pub type Identity = [u8; 32];

/// Size in bytes of a stored custody record.
pub const RECORD_LEN: usize = 49;

/// One depositor's custody record, as the program reads and writes it.
#[derive(Debug, Clone, Copy)]
pub struct LockRecord {
    /// True between a successful lock and its matching release.
    pub is_initialized: bool,
    /// Lamports held, set at lock time.
    pub amount: u64,
    /// The identity that a release pays back.
    pub owner_identity: Identity,
    /// Clock reading (seconds) at which the lock was taken.
    pub lock_time: i64,
}

/// The two's-complement bit pattern of a signed 64-bit integer.
pub open spec fn i64_to_bits(t: i64) -> u64 {
    if t >= 0 {
        t as u64
    } else {
        (t + 0x1_0000_0000_0000_0000int) as u64
    }
}

/// The signed 64-bit integer with the given two's-complement bit pattern.
pub open spec fn bits_to_i64(u: u64) -> i64 {
    if u < 0x8000_0000_0000_0000u64 {
        u as i64
    } else {
        (u - 0x1_0000_0000_0000_0000int) as i64
    }
}

/// The stored layout of a record: a flag byte, the amount (little-endian),
/// the owner identity and the lock time (little-endian).
pub open spec fn record_bytes(r: LockRecord) -> Seq<u8> {
    seq![if r.is_initialized { 1u8 } else { 0u8 }]
        + spec_u64_to_le_bytes(r.amount)
        + r.owner_identity@
        + spec_u64_to_le_bytes(i64_to_bits(r.lock_time))
}

/// Whether `s` has the length of a record and a flag byte of 0 or 1.
pub open spec fn is_record_bytes(s: Seq<u8>) -> bool {
    s.len() == RECORD_LEN && s[0] <= 1
}

/// Whether stored bytes hold an active lock.
pub open spec fn stored_is_locked(s: Seq<u8>) -> bool {
    s[0] == 1
}

/// The amount field of stored bytes.
pub open spec fn stored_amount(s: Seq<u8>) -> u64 {
    spec_u64_from_le_bytes(s.subrange(1, 9))
}

/// The owner identity field of stored bytes.
pub open spec fn stored_owner(s: Seq<u8>) -> Seq<u8> {
    s.subrange(9, 41)
}

/// The lock time field of stored bytes.
pub open spec fn stored_lock_time(s: Seq<u8>) -> i64 {
    bits_to_i64(spec_u64_from_le_bytes(s.subrange(41, 49)))
}

/// Whether the stored bytes `s` read back as the record `r`.
pub open spec fn decodes_to(s: Seq<u8>, r: LockRecord) -> bool {
    &&& is_record_bytes(s)
    &&& r.is_initialized == stored_is_locked(s)
    &&& r.amount == stored_amount(s)
    &&& r.owner_identity@ == stored_owner(s)
    &&& r.lock_time == stored_lock_time(s)
}

/// An account as the host hands it to the program for one call.
#[derive(Debug, Clone)]
pub struct AccountState {
    /// The account's own identity.
    pub key: Identity,
    /// The program that owns the account.
    pub owner: Identity,
    /// Whether the account authorized (signed) this call.
    pub is_signer: bool,
    /// The account's balance.
    pub lamports: u64,
    /// The account's stored data.
    pub data: Vec<u8>,
}

/// `b` is `a` with only its balance changed.
pub open spec fn same_but_lamports(a: AccountState, b: AccountState) -> bool {
    &&& b.key == a.key
    &&& b.owner == a.owner
    &&& b.is_signer == a.is_signer
    &&& b.data@ == a.data@
}

/// `b` is `a` with only its balance and stored data changed.
pub open spec fn same_identity_fields(a: AccountState, b: AccountState) -> bool {
    &&& b.key == a.key
    &&& b.owner == a.owner
    &&& b.is_signer == a.is_signer
}

/// Compares two identities byte by byte.
pub fn identity_eq(a: &Identity, b: &Identity) -> (r: bool)
    ensures
        r == (*a == *b),
        r == (a@ == b@),
{
    broadcast use vstd::array::group_array_axioms;
    let mut i: usize = 0;
    while i < 32
        invariant
            i <= 32,
            forall|j: int| 0 <= j < i ==> a@[j] == b@[j],
        decreases 32 - i,
    {
        if a[i] != b[i] {
            assert(a@[i as int] != b@[i as int]);
            assert(!(*a =~= *b));
            return false;
        }
        i = i + 1;
    }
    assert(a@ =~= b@);
    assert(*a =~= *b);
    true
}

fn i64_bits(t: i64) -> (u: u64)
    ensures
        u == i64_to_bits(t),
{
    if t >= 0 {
        t as u64
    } else {
        ((t + i64::MAX) + 1) as u64 + 0x8000_0000_0000_0000u64
    }
}

fn bits_i64(u: u64) -> (t: i64)
    ensures
        t == bits_to_i64(u),
{
    if u < 0x8000_0000_0000_0000u64 {
        u as i64
    } else {
        ((u - 0x8000_0000_0000_0000u64) as i64 - i64::MAX) - 1
    }
}

fn push_all(v: &mut Vec<u8>, s: &[u8])
    ensures
        final(v)@ == old(v)@ + s@,
{
    let mut i: usize = 0;
    while i < s.len()
        invariant
            i <= s@.len(),
            v@ == old(v)@ + s@.subrange(0, i as int),
        decreases s@.len() - i,
    {
        v.push(s[i]);
        i = i + 1;
        assert(s@.subrange(0, i as int) == s@.subrange(0, i - 1) + seq![s@[i - 1]]);
    }
    assert(s@.subrange(0, s@.len() as int) == s@);
}

impl LockRecord {
    /// Reads a record from stored bytes. An all-zero slot reads as a record
    /// that holds no lock.
    pub fn unpack_unchecked(data: &[u8]) -> (r: Result<LockRecord, LockError>)
        ensures
            r is Ok <==> is_record_bytes(data@),
            r matches Ok(rec) ==> decodes_to(data@, rec),
            r matches Err(e) ==> e == LockError::InvalidAccountData,
    {
        if data.len() != RECORD_LEN || data[0] > 1 {
            return Err(LockError::InvalidAccountData);
        }
        let amount = u64_from_le_bytes(slice_subrange(data, 1, 9));
        let mut owner_identity: Identity = [0u8; 32];
        let mut i: usize = 0;
        while i < 32
            invariant
                data@.len() == RECORD_LEN,
                i <= 32,
                forall|j: int| 0 <= j < i ==> owner_identity@[j] == data@[9 + j],
            decreases 32 - i,
        {
            owner_identity[i] = data[9 + i];
            i = i + 1;
        }
        assert(owner_identity@ =~= data@.subrange(9, 41));
        let bits = u64_from_le_bytes(slice_subrange(data, 41, 49));
        let lock_time = bits_i64(bits);
        Ok(LockRecord { is_initialized: data[0] == 1, amount, owner_identity, lock_time })
    }

    /// Writes the record in its stored layout.
    pub fn pack(&self) -> (v: Vec<u8>)
        ensures
            v@ == record_bytes(*self),
    {
        let mut v: Vec<u8> = Vec::new();
        v.push(if self.is_initialized { 1u8 } else { 0u8 });
        let amount_bytes = u64_to_le_bytes(self.amount);
        push_all(&mut v, amount_bytes.as_slice());
        push_all(&mut v, self.owner_identity.as_slice());
        let time_bytes = u64_to_le_bytes(i64_bits(self.lock_time));
        push_all(&mut v, time_bytes.as_slice());
        v
    }
}

/// Writing a record and reading it back gives the same record.
pub proof fn lemma_record_round_trip(r: LockRecord)
    ensures
        is_record_bytes(record_bytes(r)),
        decodes_to(record_bytes(r), r),
{
    lemma_auto_spec_u64_to_from_le_bytes();
    let s = record_bytes(r);
    let a = spec_u64_to_le_bytes(r.amount);
    let t = spec_u64_to_le_bytes(i64_to_bits(r.lock_time));
    assert(s.subrange(1, 9) =~= a);
    assert(s.subrange(9, 41) =~= r.owner_identity@);
    assert(s.subrange(41, 49) =~= t);
}

} // verus!
