use vstd::prelude::*;
use vstd::bytes::{
    lemma_auto_spec_u64_to_from_le_bytes, spec_u64_from_le_bytes, spec_u64_to_le_bytes,
    u64_from_le_bytes, u64_to_le_bytes,
};
use crate::address::Address;
use crate::state::{Vault, VestingAccount};

verus! {

/// A flag as it is stored: one byte, 1 for set and 0 for clear.
pub open spec fn flag_byte(flag: bool) -> u8 {
    if flag {
        1
    } else {
        0
    }
}

/// A signed 64-bit number as the unsigned number with the same bits.
pub open spec fn twos_complement(x: i64) -> u64 {
    if x >= 0 {
        x as u64
    } else {
        (x + 0x1_0000_0000_0000_0000) as u64
    }
}

/// A signed 64-bit number as it is stored: eight bytes, least significant
/// first.
pub open spec fn signed_bytes(x: i64) -> Seq<u8> {
    spec_u64_to_le_bytes(twos_complement(x))
}

/// The stored form of a vesting record: beneficiary, asset, start, cliff,
/// duration, granted and claimed amounts, the three flags and the bump,
/// one after the other without padding.
pub open spec fn vesting_account_bytes(v: VestingAccount) -> Seq<u8> {
    v.beneficiary@ + v.mint@ + signed_bytes(v.start_time) + signed_bytes(v.cliff_period) + signed_bytes(
        v.duration,
    ) + spec_u64_to_le_bytes(v.total_amount) + spec_u64_to_le_bytes(v.claimed_amount)
        + seq![flag_byte(v.paused), flag_byte(v.initialized), flag_byte(v.revoked), v.bump]
}

/// The stored form of a vault: bump, administrator, then the two flags.
pub open spec fn vault_bytes(v: Vault) -> Seq<u8> {
    seq![v.bump] + v.admin@ + seq![flag_byte(v.paused), flag_byte(v.initialized)]
}

fn to_unsigned(x: i64) -> (u: u64)
    ensures
        u == twos_complement(x),
{
    if x >= 0 {
        x as u64
    } else {
        u64::MAX - ((-(x + 1)) as u64)
    }
}

fn to_signed(u: u64) -> (x: i64)
    ensures
        twos_complement(x) == u,
{
    if u <= 0x7fff_ffff_ffff_ffff {
        u as i64
    } else {
        -((u64::MAX - u) as i64) - 1
    }
}

fn flag_to_byte(flag: bool) -> (b: u8)
    ensures
        b == flag_byte(flag),
{
    if flag {
        1
    } else {
        0
    }
}

fn push_all(out: &mut Vec<u8>, part: &Vec<u8>)
    ensures
        final(out)@ == old(out)@ + part@,
{
    let ghost before = out@;
    let mut i: usize = 0;
    while i < part.len()
        invariant
            i <= part.len(),
            out@ == before + part@.subrange(0, i as int),
        decreases part.len() - i,
    {
        out.push(part[i]);
        assert(out@ =~= before + part@.subrange(0, i + 1));
        i += 1;
    }
    assert(part@.subrange(0, part@.len() as int) =~= part@);
}

fn read_address(bytes: &Vec<u8>, at: usize) -> (a: Address)
    requires
        at + 32 <= bytes.len(),
    ensures
        a@ == bytes@.subrange(at as int, at + 32),
{
    let a = Address {
        bytes: [
            bytes[at], bytes[at + 1], bytes[at + 2], bytes[at + 3],
            bytes[at + 4], bytes[at + 5], bytes[at + 6], bytes[at + 7],
            bytes[at + 8], bytes[at + 9], bytes[at + 10], bytes[at + 11],
            bytes[at + 12], bytes[at + 13], bytes[at + 14], bytes[at + 15],
            bytes[at + 16], bytes[at + 17], bytes[at + 18], bytes[at + 19],
            bytes[at + 20], bytes[at + 21], bytes[at + 22], bytes[at + 23],
            bytes[at + 24], bytes[at + 25], bytes[at + 26], bytes[at + 27],
            bytes[at + 28], bytes[at + 29], bytes[at + 30], bytes[at + 31],
        ],
    };
    assert(a@ =~= bytes@.subrange(at as int, at + 32));
    a
}

fn read_u64(bytes: &Vec<u8>, at: usize) -> (x: u64)
    requires
        at + 8 <= bytes.len(),
    ensures
        spec_u64_to_le_bytes(x) == bytes@.subrange(at as int, at + 8),
{
    let part = vstd::slice::slice_subrange(bytes.as_slice(), at, at + 8);
    proof {
        lemma_auto_spec_u64_to_from_le_bytes();
    }
    u64_from_le_bytes(part)
}

/// The stored form of every vesting record has the same length, and its
/// flag bytes are 0 or 1.
pub proof fn lemma_vesting_account_bytes_shape(v: VestingAccount)
    ensures
        vesting_account_bytes(v).len() == VestingAccount::LEN,
        vesting_account_bytes(v)[104] == flag_byte(v.paused),
        vesting_account_bytes(v)[105] == flag_byte(v.initialized),
        vesting_account_bytes(v)[106] == flag_byte(v.revoked),
{
    lemma_auto_spec_u64_to_from_le_bytes();
}

/// Writes a vesting record in its stored form.
pub fn encode_vesting_account(v: &VestingAccount) -> (out: Vec<u8>)
    ensures
        out@ == vesting_account_bytes(*v),
        out@.len() == VestingAccount::LEN,
{
    let mut out: Vec<u8> = v.beneficiary.to_vec();
    push_all(&mut out, &v.mint.to_vec());
    push_all(&mut out, &u64_to_le_bytes(to_unsigned(v.start_time)));
    push_all(&mut out, &u64_to_le_bytes(to_unsigned(v.cliff_period)));
    push_all(&mut out, &u64_to_le_bytes(to_unsigned(v.duration)));
    push_all(&mut out, &u64_to_le_bytes(v.total_amount));
    push_all(&mut out, &u64_to_le_bytes(v.claimed_amount));
    let ghost body = out@;
    out.push(flag_to_byte(v.paused));
    out.push(flag_to_byte(v.initialized));
    out.push(flag_to_byte(v.revoked));
    out.push(v.bump);
    proof {
        assert(out@ =~= body + seq![
            flag_byte(v.paused),
            flag_byte(v.initialized),
            flag_byte(v.revoked),
            v.bump,
        ]);
        lemma_vesting_account_bytes_shape(*v);
    }
    out
}

/// Reads a vesting record from its stored form. It succeeds exactly on
/// the byte strings that are the stored form of some record, and gives
/// that record.
pub fn decode_vesting_account(bytes: &Vec<u8>) -> (r: Option<VestingAccount>)
    ensures
        match r {
            Some(v) => bytes@ == vesting_account_bytes(v),
            None => forall|v: VestingAccount| bytes@ != #[trigger] vesting_account_bytes(v),
        },
{
    if bytes.len() != VestingAccount::LEN || bytes[104] > 1 || bytes[105] > 1 || bytes[106] > 1 {
        proof {
            assert forall|v: VestingAccount| bytes@ != #[trigger] vesting_account_bytes(v) by {
                lemma_vesting_account_bytes_shape(v);
            }
        }
        return None;
    }
    let v = VestingAccount {
        beneficiary: read_address(bytes, 0),
        mint: read_address(bytes, 32),
        start_time: to_signed(read_u64(bytes, 64)),
        cliff_period: to_signed(read_u64(bytes, 72)),
        duration: to_signed(read_u64(bytes, 80)),
        total_amount: read_u64(bytes, 88),
        claimed_amount: read_u64(bytes, 96),
        paused: bytes[104] == 1,
        initialized: bytes[105] == 1,
        revoked: bytes[106] == 1,
        bump: bytes[107],
    };
    proof {
        lemma_auto_spec_u64_to_from_le_bytes();
        assert(bytes@ =~= vesting_account_bytes(v));
    }
    Some(v)
}

/// The stored form of every vault has the same length, and its flag bytes
/// are 0 or 1.
pub proof fn lemma_vault_bytes_shape(v: Vault)
    ensures
        vault_bytes(v).len() == Vault::LEN,
        vault_bytes(v)[33] == flag_byte(v.paused),
        vault_bytes(v)[34] == flag_byte(v.initialized),
{
}

/// Writes a vault in its stored form.
pub fn encode_vault(v: &Vault) -> (out: Vec<u8>)
    ensures
        out@ == vault_bytes(*v),
        out@.len() == Vault::LEN,
{
    let mut out: Vec<u8> = Vec::new();
    out.push(v.bump);
    push_all(&mut out, &v.admin.to_vec());
    out.push(flag_to_byte(v.paused));
    out.push(flag_to_byte(v.initialized));
    assert(out@ =~= vault_bytes(*v));
    out
}

/// Reads a vault from its stored form. It succeeds exactly on the byte
/// strings that are the stored form of some vault, and gives that vault.
pub fn decode_vault(bytes: &Vec<u8>) -> (r: Option<Vault>)
    ensures
        match r {
            Some(v) => bytes@ == vault_bytes(v),
            None => forall|v: Vault| bytes@ != #[trigger] vault_bytes(v),
        },
{
    if bytes.len() != Vault::LEN || bytes[33] > 1 || bytes[34] > 1 {
        proof {
            assert forall|v: Vault| bytes@ != #[trigger] vault_bytes(v) by {
                lemma_vault_bytes_shape(v);
            }
        }
        return None;
    }
    let v = Vault {
        bump: bytes[0],
        admin: read_address(bytes, 1),
        paused: bytes[33] == 1,
        initialized: bytes[34] == 1,
    };
    assert(bytes@ =~= vault_bytes(v));
    Some(v)
}

/// Two records with the same stored form are the same record, identity
/// bytes and all.
pub proof fn lemma_stored_form_is_faithful(a: VestingAccount, b: VestingAccount)
    requires
        vesting_account_bytes(a) == vesting_account_bytes(b),
    ensures
        a.beneficiary@ == b.beneficiary@,
        a.mint@ == b.mint@,
        a.start_time == b.start_time,
        a.cliff_period == b.cliff_period,
        a.duration == b.duration,
        a.total_amount == b.total_amount,
        a.claimed_amount == b.claimed_amount,
        a.paused == b.paused,
        a.initialized == b.initialized,
        a.revoked == b.revoked,
        a.bump == b.bump,
{
    lemma_auto_spec_u64_to_from_le_bytes();
    let s = vesting_account_bytes(a);
    let t = vesting_account_bytes(b);
    assert(a.beneficiary@ =~= s.subrange(0, 32));
    assert(b.beneficiary@ =~= t.subrange(0, 32));
    assert(a.mint@ =~= s.subrange(32, 64));
    assert(b.mint@ =~= t.subrange(32, 64));
    assert(signed_bytes(a.start_time) =~= s.subrange(64, 72));
    assert(signed_bytes(b.start_time) =~= t.subrange(64, 72));
    assert(signed_bytes(a.cliff_period) =~= s.subrange(72, 80));
    assert(signed_bytes(b.cliff_period) =~= t.subrange(72, 80));
    assert(signed_bytes(a.duration) =~= s.subrange(80, 88));
    assert(signed_bytes(b.duration) =~= t.subrange(80, 88));
    assert(spec_u64_to_le_bytes(a.total_amount) =~= s.subrange(88, 96));
    assert(spec_u64_to_le_bytes(b.total_amount) =~= t.subrange(88, 96));
    assert(spec_u64_to_le_bytes(a.claimed_amount) =~= s.subrange(96, 104));
    assert(spec_u64_to_le_bytes(b.claimed_amount) =~= t.subrange(96, 104));
    assert(s[104] == flag_byte(a.paused) && t[104] == flag_byte(b.paused));
    assert(s[105] == flag_byte(a.initialized) && t[105] == flag_byte(b.initialized));
    assert(s[106] == flag_byte(a.revoked) && t[106] == flag_byte(b.revoked));
    assert(s[107] == a.bump && t[107] == b.bump);
    assert(spec_u64_from_le_bytes(signed_bytes(a.start_time)) == twos_complement(a.start_time));
    assert(spec_u64_from_le_bytes(signed_bytes(b.start_time)) == twos_complement(b.start_time));
    assert(spec_u64_from_le_bytes(signed_bytes(a.cliff_period)) == twos_complement(a.cliff_period));
    assert(spec_u64_from_le_bytes(signed_bytes(b.cliff_period)) == twos_complement(b.cliff_period));
    assert(spec_u64_from_le_bytes(signed_bytes(a.duration)) == twos_complement(a.duration));
    assert(spec_u64_from_le_bytes(signed_bytes(b.duration)) == twos_complement(b.duration));
    assert(spec_u64_from_le_bytes(spec_u64_to_le_bytes(a.total_amount)) == a.total_amount);
    assert(spec_u64_from_le_bytes(spec_u64_to_le_bytes(b.total_amount)) == b.total_amount);
    assert(spec_u64_from_le_bytes(spec_u64_to_le_bytes(a.claimed_amount)) == a.claimed_amount);
    assert(spec_u64_from_le_bytes(spec_u64_to_le_bytes(b.claimed_amount)) == b.claimed_amount);
}

/// Two vaults with the same stored form are the same vault.
pub proof fn lemma_vault_stored_form_is_faithful(a: Vault, b: Vault)
    requires
        vault_bytes(a) == vault_bytes(b),
    ensures
        a.bump == b.bump,
        a.admin@ == b.admin@,
        a.paused == b.paused,
        a.initialized == b.initialized,
{
    let s = vault_bytes(a);
    let t = vault_bytes(b);
    assert(s[0] == a.bump && t[0] == b.bump);
    assert(a.admin@ =~= s.subrange(1, 33));
    assert(b.admin@ =~= t.subrange(1, 33));
    assert(s[33] == flag_byte(a.paused) && t[33] == flag_byte(b.paused));
    assert(s[34] == flag_byte(a.initialized) && t[34] == flag_byte(b.initialized));
}

} // verus!
