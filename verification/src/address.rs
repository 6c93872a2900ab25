use vstd::prelude::*;

verus! {

/// A 32-byte identity: an administrator, a beneficiary, an asset, a program
/// or the storage address of a record.
#[derive(Clone, Copy, Debug, PartialEq, Eq)]
pub struct Address {
    pub bytes: [u8; 32],
}

impl View for Address {
    type V = Seq<u8>;

    open spec fn view(&self) -> Seq<u8> {
        self.bytes@
    }
}

impl Address {
    pub fn new(bytes: [u8; 32]) -> (a: Address)
        ensures
            a.bytes == bytes,
    {
        Address { bytes }
    }

    /// Whether two identities are byte for byte the same.
    pub fn same_as(&self, other: &Address) -> (r: bool)
        ensures
            r == (self@ == other@),
    {
        let mut i: usize = 0;
        while i < 32
            invariant
                i <= 32,
                forall|j: int| 0 <= j < i ==> self.bytes@[j] == other.bytes@[j],
            decreases 32 - i,
        {
            if self.bytes[i] != other.bytes[i] {
                return false;
            }
            i += 1;
        }
        assert(self@ =~= other@);
        true
    }

    /// The 32 bytes as a growable buffer.
    pub fn to_vec(&self) -> (v: Vec<u8>)
        ensures
            v@ == self@,
    {
        let mut v: Vec<u8> = Vec::new();
        let mut i: usize = 0;
        while i < 32
            invariant
                i <= 32,
                v@.len() == i,
                forall|j: int| 0 <= j < i ==> v@[j] == self.bytes@[j],
            decreases 32 - i,
        {
            v.push(self.bytes[i]);
            i += 1;
        }
        assert(v@ =~= self@);
        v
    }
}

/// The seed tag under which vesting records are addressed: the ASCII bytes
/// of `vesting`.
pub open spec fn vesting_tag() -> Seq<u8> {
    seq![118u8, 101u8, 115u8, 116u8, 105u8, 110u8, 103u8]
}

/// The program-derived address for a list of seeds under a program, with
/// its bump byte, or `None` where the derivation finds none: no bump
/// yields an address off the curve, or the seeds are more or longer than
/// it accepts.
pub uninterp spec fn program_address(seeds: Seq<Seq<u8>>, program_id: Seq<u8>) -> Option<(Seq<u8>, u8)>;

/// Where the vesting record of `(vault, mint, beneficiary)` lives.
pub open spec fn expected_vesting_address(
    vault: Seq<u8>,
    mint: Seq<u8>,
    beneficiary: Seq<u8>,
    program_id: Seq<u8>,
) -> Option<(Seq<u8>, u8)> {
    program_address(seq![vesting_tag(), vault, mint, beneficiary], program_id)
}

/// Calls `Pubkey::try_find_program_address` with the four seeds in the
/// order given. Trusted: the result is the derivation's output for exactly
/// these seeds and this program id, which depends on nothing else.
#[verifier::external_body]
fn try_find_program_address(
    tag: &Vec<u8>,
    first: &Address,
    second: &Address,
    third: &Address,
    program_id: &Address,
) -> (r: Option<(Address, u8)>)
    ensures
        match program_address(seq![tag@, first@, second@, third@], program_id@) {
            Some(found) => r matches Some(got) && got.0@ == found.0 && got.1 == found.1,
            None => r is None,
        },
{
    let id = anchor_lang::prelude::Pubkey::new_from_array(program_id.bytes);
    let seeds: [&[u8]; 4] = [tag.as_slice(), &first.bytes, &second.bytes, &third.bytes];
    match anchor_lang::prelude::Pubkey::try_find_program_address(&seeds, &id) {
        Some((key, bump)) => Some((Address { bytes: key.to_bytes() }, bump)),
        None => None,
    }
}

/// Reads the system program's id, `anchor_lang::system_program::ID`.
/// Trusted: it is the all-zero key.
#[verifier::external_body]
fn system_program_key() -> (r: Address)
    ensures
        r@ == Seq::new(32, |i: int| 0u8),
{
    Address { bytes: anchor_lang::system_program::ID.to_bytes() }
}

/// The identity that owns storage nobody has allocated yet.
pub open spec fn spec_system_owner() -> Seq<u8> {
    Seq::new(32, |i: int| 0u8)
}

/// The identity that owns storage nobody has allocated yet.
pub fn system_owner() -> (r: Address)
    ensures
        r@ == spec_system_owner(),
{
    system_program_key()
}

/// Derives the storage address and bump of the vesting record of
/// `(vault, mint, beneficiary)` under `program_id`.
pub fn vesting_address(
    vault: &Address,
    mint: &Address,
    beneficiary: &Address,
    program_id: &Address,
) -> (r: Option<(Address, u8)>)
    ensures
        match expected_vesting_address(vault@, mint@, beneficiary@, program_id@) {
            Some(found) => r matches Some(got) && got.0@ == found.0 && got.1 == found.1,
            None => r is None,
        },
{
    let mut tag: Vec<u8> = Vec::new();
    tag.push(118u8);
    tag.push(101u8);
    tag.push(115u8);
    tag.push(116u8);
    tag.push(105u8);
    tag.push(110u8);
    tag.push(103u8);
    assert(tag@ =~= vesting_tag());
    try_find_program_address(&tag, vault, mint, beneficiary, program_id)
}

} // verus!
