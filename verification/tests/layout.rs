use anchor_lang::prelude::Pubkey;
use anchor_lang::{AnchorDeserialize, AnchorSerialize};
use shorthusk_vesting::{
    decode_vault, decode_vesting_account, encode_vault, encode_vesting_account, Address, Vault,
    VestingAccount,
};

fn sample() -> VestingAccount {
    VestingAccount {
        beneficiary: Address::new([0xAA; 32]),
        mint: Address::new([0xBB; 32]),
        start_time: -2,
        cliff_period: 0x0102,
        duration: i64::MAX,
        total_amount: 0x0807_0605_0403_0201,
        claimed_amount: 1,
        paused: true,
        initialized: true,
        revoked: false,
        bump: 0xFE,
    }
}

#[test]
fn vesting_record_stored_form() {
    let bytes = encode_vesting_account(&sample());
    assert_eq!(bytes.len(), 108);
    assert_eq!(bytes.len(), VestingAccount::LEN);
    assert_eq!(&bytes[0..32], &[0xAA; 32]);
    assert_eq!(&bytes[32..64], &[0xBB; 32]);
    assert_eq!(&bytes[64..72], &[0xFE, 0xFF, 0xFF, 0xFF, 0xFF, 0xFF, 0xFF, 0xFF]);
    assert_eq!(&bytes[72..80], &[0x02, 0x01, 0, 0, 0, 0, 0, 0]);
    assert_eq!(&bytes[80..88], &[0xFF, 0xFF, 0xFF, 0xFF, 0xFF, 0xFF, 0xFF, 0x7F]);
    assert_eq!(&bytes[88..96], &[1, 2, 3, 4, 5, 6, 7, 8]);
    assert_eq!(&bytes[96..104], &[1, 0, 0, 0, 0, 0, 0, 0]);
    assert_eq!(&bytes[104..108], &[1, 1, 0, 0xFE]);
    assert_eq!(bytes[64..72], (-2i64).to_le_bytes());
}

#[test]
fn vesting_record_round_trip() {
    assert_eq!(decode_vesting_account(&encode_vesting_account(&sample())), Some(sample()));
    let mut other = sample();
    other.start_time = i64::MIN;
    other.cliff_period = -1;
    other.duration = 0;
    other.total_amount = u64::MAX;
    other.revoked = true;
    other.paused = false;
    let bytes = encode_vesting_account(&other);
    assert_eq!(bytes[64..72], i64::MIN.to_le_bytes());
    assert_eq!(decode_vesting_account(&bytes), Some(other));
}

#[test]
fn vesting_record_decoding_rejects_what_is_no_stored_form() {
    let good = encode_vesting_account(&sample());
    assert_eq!(decode_vesting_account(&Vec::new()), None);
    assert_eq!(decode_vesting_account(&good[..107].to_vec()), None);
    let mut long = good.clone();
    long.push(0);
    assert_eq!(decode_vesting_account(&long), None);
    for at in [104usize, 105, 106] {
        let mut bad = good.clone();
        bad[at] = 2;
        assert_eq!(decode_vesting_account(&bad), None);
    }
    let mut any_bump = good.clone();
    any_bump[107] = 2;
    assert_eq!(decode_vesting_account(&any_bump), Some(VestingAccount { bump: 2, ..sample() }));
}

#[test]
fn vault_stored_form_and_round_trip() {
    let vault = Vault { bump: 7, admin: Address::new([0xCC; 32]), paused: false, initialized: true };
    let bytes = encode_vault(&vault);
    assert_eq!(bytes.len(), 35);
    assert_eq!(bytes.len(), Vault::LEN);
    assert_eq!(bytes[0], 7);
    assert_eq!(&bytes[1..33], &[0xCC; 32]);
    assert_eq!(&bytes[33..35], &[0, 1]);
    assert_eq!(decode_vault(&bytes), Some(vault));
    let mut bad = bytes.clone();
    bad[33] = 9;
    assert_eq!(decode_vault(&bad), None);
    assert_eq!(decode_vault(&bytes[..34].to_vec()), None);
}

#[test]
fn vesting_record_stored_form_is_the_borsh_encoding_of_its_fields() {
    let v = sample();
    let fields = (
        Pubkey::new_from_array(v.beneficiary.bytes),
        Pubkey::new_from_array(v.mint.bytes),
        v.start_time,
        v.cliff_period,
        v.duration,
        v.total_amount,
        v.claimed_amount,
        v.paused,
        v.initialized,
        v.revoked,
        v.bump,
    );
    let expected = fields.try_to_vec().unwrap();
    assert_eq!(encode_vesting_account(&v), expected);
    let back = <(Pubkey, Pubkey, i64, i64, i64, u64, u64, bool, bool, bool, u8)>::try_from_slice(&expected).unwrap();
    assert_eq!(back, fields);
    let mut bad = expected.clone();
    bad[105] = 3;
    assert!(<(Pubkey, Pubkey, i64, i64, i64, u64, u64, bool, bool, bool, u8)>::try_from_slice(&bad).is_err());
    assert_eq!(decode_vesting_account(&bad), None);
}

#[test]
fn vault_stored_form_is_the_borsh_encoding_of_its_fields() {
    let vault = Vault { bump: 200, admin: Address::new([0x11; 32]), paused: true, initialized: true };
    let fields = (vault.bump, Pubkey::new_from_array(vault.admin.bytes), vault.paused, vault.initialized);
    assert_eq!(encode_vault(&vault), fields.try_to_vec().unwrap());
}
