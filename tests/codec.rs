use tether::account::{program_id, Pubkey};
use tether::{Admin, Participant, ProgramFault, TetherError};

fn key(seed: u8) -> Pubkey {
    let bytes: Vec<u8> = (0..32u8).map(|i| i.wrapping_mul(7).wrapping_add(seed)).collect();
    Pubkey::from_bytes(&bytes)
}

#[test]
fn pubkey_bytes_round_trip() {
    let bytes: Vec<u8> = (0..32u8).collect();
    let k = Pubkey::from_bytes(&bytes);
    assert_eq!(k.w0, u64::from_le_bytes([0, 1, 2, 3, 4, 5, 6, 7]));
    assert_eq!(k.to_bytes(), bytes);
}

#[test]
fn program_id_matches_declared_bytes() {
    let expected: [u8; 32] = [
        54, 169, 151, 168, 104, 33, 24, 251, 17, 118, 194, 168, 7, 243, 211, 255, 155, 250, 243,
        218, 10, 182, 127, 54, 204, 161, 44, 78, 220, 25, 103, 248,
    ];
    assert_eq!(program_id().to_bytes(), expected.to_vec());
}

#[test]
fn participant_layout_is_exact() {
    let p = Participant { stake: 0x0102030405060708, active_time: -2, participant: key(9), bump: 254 };
    let bytes = p.encode();
    assert_eq!(bytes.len(), Participant::LEN);
    assert_eq!(Participant::LEN, 49);
    assert_eq!(&bytes[0..8], &[8, 7, 6, 5, 4, 3, 2, 1]);
    assert_eq!(&bytes[8..16], &(-2i64).to_le_bytes());
    assert_eq!(&bytes[16..48], key(9).to_bytes().as_slice());
    assert_eq!(bytes[48], 254);
}

#[test]
fn participant_round_trip() {
    let p = Participant { stake: 1_000_000, active_time: 1_700_000_000, participant: key(3), bump: 7 };
    assert_eq!(Participant::load(&p.encode()), Ok(p));
}

#[test]
fn participant_load_rejects_wrong_length() {
    assert_eq!(Participant::load(&[0u8; 48]), Err(ProgramFault::InvalidAccountData));
    assert_eq!(Participant::load(&[0u8; 50]), Err(ProgramFault::InvalidAccountData));
    assert_eq!(Participant::load(&[]), Err(ProgramFault::InvalidAccountData));
    assert_eq!(Participant::load(&[0xff]), Err(ProgramFault::InvalidAccountData));
}

#[test]
fn participant_store_overwrites_only_exact_buffers() {
    let p = Participant { stake: 5, active_time: 6, participant: key(1), bump: 2 };
    let mut short = vec![1u8; 10];
    assert_eq!(p.store(&mut short), Err(ProgramFault::InvalidAccountData));
    assert_eq!(short, vec![1u8; 10]);
    let mut exact = vec![0u8; Participant::LEN];
    assert_eq!(p.store(&mut exact), Ok(()));
    assert_eq!(Participant::load(&exact), Ok(p));
}

#[test]
fn participant_set_inner_replaces_all_fields() {
    let mut p = Participant { stake: 1, active_time: 2, participant: key(1), bump: 3 };
    p.set_inner(10, 20, key(2), 30);
    assert_eq!(p, Participant { stake: 10, active_time: 20, participant: key(2), bump: 30 });
}

#[test]
fn admin_round_trip_and_length() {
    let mut a = Admin { admin: key(4), bump: 1 };
    a.set_inner(key(5), 9);
    let bytes = a.encode();
    assert_eq!(bytes.len(), Admin::LEN);
    assert_eq!(Admin::load(&bytes), Ok(a));
    assert_eq!(Admin::load(&bytes[..32]), Err(ProgramFault::InvalidAccountData));
    let mut buf = vec![0u8; 33];
    assert_eq!(a.store(&mut buf), Ok(()));
    assert_eq!(buf, bytes);
    let mut wrong = vec![0u8; 34];
    assert_eq!(a.store(&mut wrong), Err(ProgramFault::InvalidAccountData));
}

#[test]
fn error_codes_follow_declaration_order() {
    assert_eq!(TetherError::NotSigner.code(), 0);
    assert_eq!(TetherError::WriteOverflow.code(), 1);
    assert_eq!(TetherError::InvalidOwner.code(), 5);
    assert_eq!(TetherError::InvalidAddress.code(), 6);
    assert_eq!(TetherError::NotActive.code(), 7);
    assert_eq!(TetherError::InsufficientFunds.code(), 8);
    assert_eq!(ProgramFault::from_tether(TetherError::NotActive), ProgramFault::Custom(TetherError::NotActive));
}
