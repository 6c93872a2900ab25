use anchor_lang::prelude::Pubkey;
use shorthusk_vesting::{system_owner, vesting_address, Address};

#[test]
fn vesting_address_is_the_program_derived_one() {
    let vault = Address::new([11; 32]);
    let mint = Address::new([22; 32]);
    let beneficiary = Address::new([33; 32]);
    let program = Address::new([44; 32]);
    let (expected, bump) = Pubkey::find_program_address(
        &[b"vesting", &[11u8; 32], &[22u8; 32], &[33u8; 32]],
        &Pubkey::new_from_array([44; 32]),
    );
    let (got, got_bump) = vesting_address(&vault, &mint, &beneficiary, &program).unwrap();
    assert_eq!(got.bytes, expected.to_bytes());
    assert_eq!(got_bump, bump);
    assert_ne!(got, vault);
    assert_ne!(got, mint);
    assert_ne!(got, beneficiary);
    assert_ne!(got, program);
}

#[test]
fn vesting_address_depends_on_every_part() {
    let a = Address::new([1; 32]);
    let b = Address::new([2; 32]);
    let c = Address::new([3; 32]);
    let p = Address::new([4; 32]);
    let base = vesting_address(&a, &b, &c, &p).unwrap();
    assert_eq!(vesting_address(&a, &b, &c, &p).unwrap(), base);
    assert_ne!(vesting_address(&b, &a, &c, &p).unwrap().0, base.0);
    assert_ne!(vesting_address(&a, &c, &b, &p).unwrap().0, base.0);
    assert_ne!(vesting_address(&a, &b, &p, &p).unwrap().0, base.0);
    assert_ne!(vesting_address(&a, &b, &c, &a).unwrap().0, base.0);
}

#[test]
fn unallocated_storage_belongs_to_the_system_program() {
    assert_eq!(system_owner().bytes, [0u8; 32]);
    assert_eq!(system_owner().bytes, anchor_lang::system_program::ID.to_bytes());
}

#[test]
fn identities_compare_byte_for_byte() {
    let a = Address::new([7; 32]);
    let mut other = [7u8; 32];
    assert!(a.same_as(&Address::new(other)));
    other[31] = 8;
    assert!(!a.same_as(&Address::new(other)));
    other[31] = 7;
    other[0] = 6;
    assert!(!a.same_as(&Address::new(other)));
    assert_eq!(a.to_vec(), vec![7u8; 32]);
}
