use tether::account::{
    program_id, system_program_id, token_program_id, AccountState, Pubkey,
};
use tether::claim::{reward_amount, Claim, ClaimAccounts, ClaimData, MintRequest};
use tether::helper::{
    AccountCheck, AssociatedTokenAccount, AtaStep, Authority, MintAccount, ParticipantAccount,
    ProgramAccount, SignerAccount, SystemAccount, TOKEN_ACCOUNT_LEN,
};
use tether::instructions::TetherInstructions;
use tether::participate::{Participate, ParticipateAccounts, ParticipateData};
use tether::{Participant, ProgramFault, TetherError};

const RENT_RATE: u64 = 6960;

fn key(seed: u8) -> Pubkey {
    let bytes: Vec<u8> = (0..32u8).map(|i| i.wrapping_mul(13).wrapping_add(seed)).collect();
    Pubkey::from_bytes(&bytes)
}

fn account(k: Pubkey, owner: Pubkey, is_signer: bool, lamports: u64, len: usize) -> AccountState {
    AccountState { key: k, owner, is_signer, lamports, data: vec![0u8; len] }
}

fn copy(a: &AccountState) -> AccountState {
    AccountState { key: a.key, owner: a.owner, is_signer: a.is_signer, lamports: a.lamports, data: a.data.clone() }
}

fn ata_holding(amount: u64) -> AccountState {
    let mut a = account(key(3), token_program_id(), false, 2_000_000, TOKEN_ACCOUNT_LEN);
    a.data[64..72].copy_from_slice(&amount.to_le_bytes());
    a
}

fn participate_payload(active_time: i64, seed: u64) -> Vec<u8> {
    let mut v = active_time.to_le_bytes().to_vec();
    v.extend_from_slice(&seed.to_le_bytes());
    v
}

fn participate_accounts() -> Vec<AccountState> {
    vec![
        account(key(1), system_program_id(), true, 5_000_000, 0),
        account(key(2), system_program_id(), false, 0, 0),
        account(key(3), token_program_id(), false, 2_000_000, TOKEN_ACCOUNT_LEN),
        account(key(4), token_program_id(), false, 1_000_000, 82),
        account(token_program_id(), key(9), false, 1, 0),
        account(system_program_id(), key(9), false, 1, 0),
    ]
}

fn claim_accounts(record: &Participant, signer: Pubkey, record_lamports: u64) -> Vec<AccountState> {
    let mut rec = account(key(2), program_id(), false, record_lamports, 0);
    rec.data = record.encode();
    vec![
        account(signer, system_program_id(), true, 5_000_000, 0),
        rec,
        account(key(3), token_program_id(), false, 2_000_000, TOKEN_ACCOUNT_LEN),
        account(key(4), token_program_id(), false, 1_000_000, 82),
        account(key(5), system_program_id(), false, 0, 0),
        account(token_program_id(), key(9), false, 1, 0),
        account(system_program_id(), key(9), false, 1, 0),
    ]
}

#[test]
fn outside_constants_agree() {
    assert_eq!(token_program_id().to_bytes(), pinocchio_token_2022::ID.to_bytes().to_vec());
    assert_eq!(system_program_id().to_bytes(), pinocchio_system::ID.to_bytes().to_vec());
    assert_eq!(
        tether::account::associated_token_program_id().to_bytes(),
        pinocchio_associated_token_account::ID.to_bytes().to_vec()
    );
    assert_eq!(TOKEN_ACCOUNT_LEN, pinocchio_token_2022::state::Account::BASE_LEN);
}

#[test]
fn signer_check() {
    assert_eq!(SignerAccount::check(&account(key(1), key(0), true, 0, 0)), Ok(()));
    assert_eq!(
        SignerAccount::check(&account(key(1), key(0), false, 0, 0)),
        Err(ProgramFault::Custom(TetherError::NotSigner))
    );
}

#[test]
fn owner_checks() {
    let sys = account(key(1), system_program_id(), false, 0, 0);
    let tok = account(key(1), token_program_id(), false, 0, 0);
    let prog = account(key(1), program_id(), false, 0, 0);
    assert_eq!(SystemAccount::check(&sys), Ok(()));
    assert_eq!(SystemAccount::check(&tok), Err(ProgramFault::Custom(TetherError::InvalidOwner)));
    assert_eq!(MintAccount::check(&tok), Ok(()));
    assert_eq!(MintAccount::check(&sys), Err(ProgramFault::Custom(TetherError::InvalidOwner)));
    assert_eq!(ProgramAccount::check(&prog), Ok(()));
    assert_eq!(ProgramAccount::check(&sys), Err(ProgramFault::Custom(TetherError::InvalidOwner)));
}

#[test]
fn participant_account_check() {
    assert_eq!(ParticipantAccount::check(&account(key(1), program_id(), false, 0, 49)), Ok(()));
    assert_eq!(
        ParticipantAccount::check(&account(key(1), system_program_id(), false, 0, 49)),
        Err(ProgramFault::Custom(TetherError::InvalidOwner))
    );
    assert_eq!(
        ParticipantAccount::check(&account(key(1), program_id(), false, 0, 48)),
        Err(ProgramFault::Custom(TetherError::InvalidAccountData))
    );
}

#[test]
fn associated_token_account_check() {
    let ata = account(key(3), token_program_id(), false, 0, TOKEN_ACCOUNT_LEN);
    assert_eq!(AssociatedTokenAccount::check(&ata, &key(3)), Ok(()));
    assert_eq!(
        AssociatedTokenAccount::check(&ata, &key(4)),
        Err(ProgramFault::Custom(TetherError::InvalidAddress))
    );
    let short = account(key(3), token_program_id(), false, 0, 100);
    assert_eq!(
        AssociatedTokenAccount::check(&short, &key(3)),
        Err(ProgramFault::Custom(TetherError::InvalidAccountData))
    );
    let foreign = account(key(3), program_id(), false, 0, TOKEN_ACCOUNT_LEN);
    assert_eq!(
        AssociatedTokenAccount::check(&foreign, &key(3)),
        Err(ProgramFault::Custom(TetherError::InvalidOwner))
    );
}

#[test]
fn associated_token_account_init_if_needed() {
    let accs = participate_accounts();
    let step = AssociatedTokenAccount::init_if_needed(
        &accs[2], &accs[3], &accs[0], &accs[0], &accs[5], &accs[4], &key(3),
    );
    assert_eq!(step, AtaStep::Ready);
    let step = AssociatedTokenAccount::init_if_needed(
        &accs[2], &accs[3], &accs[0], &accs[0], &accs[5], &accs[4], &key(8),
    );
    match step {
        AtaStep::Create(req) => {
            assert_eq!(req.account, key(3));
            assert_eq!(req.wallet, key(1));
            assert_eq!(req.funding_account, key(1));
            assert_eq!(req.mint, key(4));
            assert_eq!(req.token_program, token_program_id());
            assert_eq!(req.system_program, system_program_id());
        }
        AtaStep::Ready => panic!("expected a creation"),
    }
}

#[test]
fn program_account_init_funds_rent_exemption() {
    let accs = participate_accounts();
    let auth = Authority::Participant { signer: key(1), seed: 3, bump: 250 };
    let req = ProgramAccount::init(&accs[1], &accs[0], auth, Participant::LEN, RENT_RATE).unwrap();
    assert_eq!(req.lamports, (128 + 49) * 6960);
    assert_eq!(req.space, 49);
    assert_eq!(req.owner, program_id());
    assert_eq!(req.from, key(1));
    assert_eq!(req.to, key(2));
    assert_eq!(req.authority, auth);
}

#[test]
fn program_account_init_refuses_bad_rent_inputs() {
    let accs = participate_accounts();
    let auth = Authority::Mint { mint: key(4), bump: 1 };
    assert_eq!(
        ProgramAccount::init(&accs[1], &accs[0], auth, 10 * 1024 * 1024 + 1, RENT_RATE),
        Err(ProgramFault::InvalidArgument)
    );
    assert_eq!(
        ProgramAccount::init(&accs[1], &accs[0], auth, 49, 1_759_197_129_868),
        Err(ProgramFault::InvalidArgument)
    );
    let occupied = account(key(2), program_id(), false, 0, 49);
    assert_eq!(
        ProgramAccount::init(&occupied, &accs[0], auth, 49, RENT_RATE),
        Err(ProgramFault::AccountAlreadyInitialized)
    );
}

#[test]
fn authority_seeds() {
    let a = Authority::Participant { signer: key(1), seed: 258, bump: 9 };
    let seeds = a.seeds();
    assert_eq!(seeds.len(), 4);
    assert_eq!(seeds[0], b"participant".to_vec());
    assert_eq!(seeds[1], key(1).to_bytes());
    assert_eq!(seeds[2], 258u64.to_le_bytes().to_vec());
    assert_eq!(seeds[3], vec![9]);
    let m = Authority::Mint { mint: key(4), bump: 2 }.seeds();
    assert_eq!(m, vec![b"mint".to_vec(), key(4).to_bytes(), vec![2]]);
}

#[test]
fn unpack_instructions() {
    let mut p = vec![0u8];
    p.extend(participate_payload(-5, 77));
    assert_eq!(
        TetherInstructions::unpack(&p),
        Ok(TetherInstructions::Participate { active_time: -5, seed: 77 })
    );
    assert_eq!(
        TetherInstructions::unpack(&[1, 2, 200]),
        Ok(TetherInstructions::Claim { is_winner: true, mint_bump: 200 })
    );
    assert_eq!(
        TetherInstructions::unpack(&[1, 0, 3]),
        Ok(TetherInstructions::Claim { is_winner: false, mint_bump: 3 })
    );
    assert_eq!(TetherInstructions::unpack(&[]), Err(ProgramFault::InvalidInstructionData));
    assert_eq!(TetherInstructions::unpack(&[2, 0, 0]), Err(ProgramFault::InvalidInstructionData));
    assert_eq!(TetherInstructions::unpack(&[1, 0]), Err(ProgramFault::InvalidInstructionData));
    assert_eq!(TetherInstructions::unpack(&[1, 0, 0, 0]), Err(ProgramFault::InvalidInstructionData));
    assert_eq!(TetherInstructions::unpack(&p[..16]), Err(ProgramFault::InvalidInstructionData));
}

#[test]
fn payload_decoders() {
    assert_eq!(
        ParticipateData::try_from(&participate_payload(1_700_000_000, 42)),
        Ok(ParticipateData { active_time: 1_700_000_000, seed: 42 })
    );
    assert_eq!(ParticipateData::try_from(&[0u8; 15]), Err(ProgramFault::InvalidInstructionData));
    assert_eq!(ClaimData::try_from(&[0, 7]), Ok(ClaimData { is_winner: false, mint_bump: 7 }));
    assert_eq!(ClaimData::try_from(&[1]), Err(ProgramFault::InvalidInstructionData));
}

#[test]
fn reward_examples() {
    assert_eq!(reward_amount(1_000_000, true), Ok(250_000));
    assert_eq!(reward_amount(1_000_000, false), Ok(50_000));
    assert_eq!(reward_amount(u64::MAX, true), Err(TetherError::WriteOverflow));
    assert_eq!(reward_amount(u64::MAX, false), Err(TetherError::WriteOverflow));
    assert_eq!(reward_amount(199, false), Ok(9));
    assert_eq!(reward_amount(3, true), Ok(0));
    assert_eq!(reward_amount(0, true), Ok(0));
    assert_eq!(reward_amount(u64::MAX / 25, true), Ok(u64::MAX / 25 * 25 / 100));
}

#[test]
fn participate_account_resolution() {
    let accs = participate_accounts();
    let resolved = ParticipateAccounts::try_from(&accs, &key(3)).unwrap();
    assert_eq!(resolved.signer, key(1));
    assert_eq!(resolved.participant, key(2));
    assert_eq!(resolved.system_program, system_program_id());
    assert_eq!(
        ParticipateAccounts::try_from(&accs[..5].iter().map(copy).collect(), &key(3)),
        Err(ProgramFault::NotEnoughAccountKeys)
    );
    let mut unsigned = participate_accounts();
    unsigned[0].is_signer = false;
    assert_eq!(
        ParticipateAccounts::try_from(&unsigned, &key(3)),
        Err(ProgramFault::Custom(TetherError::NotSigner))
    );
    let mut bad_mint = participate_accounts();
    bad_mint[3].owner = system_program_id();
    assert_eq!(
        ParticipateAccounts::try_from(&bad_mint, &key(3)),
        Err(ProgramFault::Custom(TetherError::InvalidOwner))
    );
}

#[test]
fn participate_writes_observed_balance() {
    let accs = participate_accounts();
    let p = Participate::try_from(&participate_payload(1_800_000_000, 11), &accs, &key(3), 253, RENT_RATE)
        .unwrap();
    assert_eq!(p.allocation.to, key(2));
    assert_eq!(p.allocation.space, Participant::LEN as u64);
    assert_eq!(p.allocation.authority, Authority::Participant { signer: key(1), seed: 11, bump: 253 });
    assert_eq!(p.token_account, AtaStep::Ready);
    // The allocation capability creates the account.
    let mut record = account(key(2), program_id(), false, p.allocation.lamports, Participant::LEN);
    assert_eq!(p.process(&mut record, &ata_holding(777_000)), Ok(()));
    assert_eq!(record.data.len(), Participant::LEN);
    let loaded = Participant::load(&record.data).unwrap();
    assert_eq!(loaded.stake, 777_000);
    assert_eq!(loaded.participant, key(1));
    assert_eq!(loaded.active_time, 1_800_000_000);
    assert_eq!(loaded.bump, 253);
    assert_eq!(ParticipantAccount::check(&record), Ok(()));
}

#[test]
fn participate_zero_balance_is_refused() {
    let accs = participate_accounts();
    let p = Participate::try_from(&participate_payload(10, 1), &accs, &key(3), 200, RENT_RATE).unwrap();
    let mut record = account(key(2), program_id(), false, 1, Participant::LEN);
    assert_eq!(p.process(&mut record, &ata_holding(0)), Err(ProgramFault::Custom(TetherError::InsufficientFunds)));
    assert_eq!(record.data, vec![0u8; Participant::LEN]);
}

#[test]
fn participate_twice_is_refused() {
    let accs = participate_accounts();
    let payload = participate_payload(10, 1);
    let p = Participate::try_from(&payload, &accs, &key(3), 200, RENT_RATE).unwrap();
    let mut record = account(key(2), program_id(), false, 1, Participant::LEN);
    p.process(&mut record, &ata_holding(500)).unwrap();
    let mut again = participate_accounts();
    again[1] = copy(&record);
    assert_eq!(
        Participate::try_from(&payload, &again, &key(3), 200, RENT_RATE),
        Err(ProgramFault::AccountAlreadyInitialized)
    );
    assert_eq!(Participant::load(&record.data).unwrap().stake, 500);
}

#[test]
fn participate_other_seed_is_independent() {
    let accs = participate_accounts();
    let a = Participate::try_from(&participate_payload(10, 1), &accs, &key(3), 200, RENT_RATE).unwrap();
    let b = Participate::try_from(&participate_payload(10, 2), &accs, &key(3), 199, RENT_RATE).unwrap();
    assert_ne!(a.allocation.authority, b.allocation.authority);
}

#[test]
fn participate_bad_payload() {
    let accs = participate_accounts();
    assert_eq!(
        Participate::try_from(&[0u8; 3], &accs, &key(3), 200, RENT_RATE),
        Err(ProgramFault::InvalidInstructionData)
    );
}

#[test]
fn claim_before_active_time_is_refused() {
    let rec = Participant { stake: 1_000_000, active_time: 2_000, participant: key(1), bump: 1 };
    let accs = claim_accounts(&rec, key(1), 1_000);
    assert_eq!(
        Claim::try_from(&[1, 255], &accs, &key(3), 1_999).map(|c| c.record),
        Err(ProgramFault::Custom(TetherError::NotActive))
    );
    assert_eq!(Participant::load(&accs[1].data), Ok(rec));
    assert!(Claim::try_from(&[1, 255], &accs, &key(3), 2_000).is_ok());
}

#[test]
fn claim_by_other_signer_is_refused() {
    let rec = Participant { stake: 1_000_000, active_time: 0, participant: key(1), bump: 1 };
    let accs = claim_accounts(&rec, key(7), 1_000);
    assert_eq!(
        Claim::try_from(&[1, 255], &accs, &key(3), 10).map(|c| c.record),
        Err(ProgramFault::Custom(TetherError::InvalidAddress))
    );
    assert_eq!(Participant::load(&accs[1].data), Ok(rec));
}

#[test]
fn claim_account_resolution() {
    let rec = Participant { stake: 1, active_time: 0, participant: key(1), bump: 1 };
    let accs = claim_accounts(&rec, key(1), 1);
    let resolved = ClaimAccounts::try_from(&accs, &key(3)).unwrap();
    assert_eq!(resolved.mint_authority, key(5));
    assert_eq!(resolved.token_program, token_program_id());
    let six: Vec<AccountState> = accs[..6].iter().map(copy).collect();
    assert_eq!(ClaimAccounts::try_from(&six, &key(3)), Err(ProgramFault::NotEnoughAccountKeys));
    let mut bad = claim_accounts(&rec, key(1), 1);
    bad[1].data.push(0);
    assert_eq!(
        ClaimAccounts::try_from(&bad, &key(3)),
        Err(ProgramFault::Custom(TetherError::InvalidAccountData))
    );
}

#[test]
fn claim_settles_and_closes() {
    let rec = Participant { stake: 1_000_000, active_time: 100, participant: key(1), bump: 1 };
    let mut accs = claim_accounts(&rec, key(1), 1_231_920);
    let claim = Claim::try_from(&[1, 254], &accs, &key(3), 100).unwrap();
    let mint: MintRequest = claim.process().unwrap();
    assert_eq!(mint.amount, 250_000);
    assert_eq!(mint.decimals, 6);
    assert_eq!(mint.account, key(3));
    assert_eq!(mint.mint, key(4));
    assert_eq!(mint.mint_authority, key(5));
    assert_eq!(mint.authority, Authority::Mint { mint: key(4), bump: 254 });
    let before = accs[0].lamports;
    let (head, tail) = accs.split_at_mut(1);
    assert_eq!(claim.settle(Ok(()), &mut tail[0], &mut head[0]), Ok(()));
    assert_eq!(accs[0].lamports, before + 1_231_920);
    assert_eq!(accs[1].data, vec![0xff]);
    assert_eq!(accs[1].lamports, 0);
    assert_eq!(accs[1].owner, system_program_id());
}

#[test]
fn claim_non_winner_amount() {
    let rec = Participant { stake: 1_000_000, active_time: 0, participant: key(1), bump: 1 };
    let accs = claim_accounts(&rec, key(1), 1);
    let claim = Claim::try_from(&[0, 1], &accs, &key(3), 0).unwrap();
    assert_eq!(claim.process().unwrap().amount, 50_000);
}

#[test]
fn claim_overflow_is_refused() {
    let rec = Participant { stake: u64::MAX, active_time: 0, participant: key(1), bump: 1 };
    let accs = claim_accounts(&rec, key(1), 1);
    let claim = Claim::try_from(&[1, 1], &accs, &key(3), 0).unwrap();
    assert_eq!(claim.process(), Err(ProgramFault::Custom(TetherError::WriteOverflow)));
}

#[test]
fn closed_record_is_terminal() {
    let rec = Participant { stake: 10, active_time: 0, participant: key(1), bump: 1 };
    let mut accs = claim_accounts(&rec, key(1), 50);
    {
        let (head, tail) = accs.split_at_mut(1);
        ParticipantAccount::close(&mut tail[0], &mut head[0]).unwrap();
    }
    assert_eq!(
        Claim::try_from(&[1, 1], &accs, &key(3), 0).map(|c| c.record),
        Err(ProgramFault::Custom(TetherError::InvalidOwner))
    );
    assert_eq!(Participant::load(&accs[1].data), Err(ProgramFault::InvalidAccountData));
    let auth = Authority::Participant { signer: key(1), seed: 0, bump: 1 };
    assert_eq!(
        ProgramAccount::init(&accs[1], &accs[0], auth, Participant::LEN, RENT_RATE),
        Err(ProgramFault::AccountAlreadyInitialized)
    );
    let (head, tail) = accs.split_at_mut(1);
    assert_eq!(
        ParticipantAccount::close(&mut tail[0], &mut head[0]),
        Err(ProgramFault::Custom(TetherError::InvalidOwner))
    );
}


#[test]
fn failed_mint_leaves_record_claimable() {
    let rec = Participant { stake: 1_000_000, active_time: 0, participant: key(1), bump: 1 };
    let mut accs = claim_accounts(&rec, key(1), 900);
    let claim = Claim::try_from(&[1, 9], &accs, &key(3), 0).unwrap();
    let failure = ProgramFault::External(0x1_0000_0000 * 26);
    {
        let (head, tail) = accs.split_at_mut(1);
        assert_eq!(claim.settle(Err(failure), &mut tail[0], &mut head[0]), Err(failure));
    }
    assert_eq!(accs[0].lamports, 5_000_000);
    assert_eq!(accs[1].lamports, 900);
    assert_eq!(Participant::load(&accs[1].data), Ok(rec));
    assert!(Claim::try_from(&[1, 9], &accs, &key(3), 0).is_ok());
}

#[test]
fn participant_close_directly() {
    let rec = Participant { stake: 3, active_time: 0, participant: key(1), bump: 1 };
    let mut accs = claim_accounts(&rec, key(1), 40);
    let (head, tail) = accs.split_at_mut(1);
    assert_eq!(ParticipantAccount::close(&mut tail[0], &mut head[0]), Ok(()));
    assert_eq!(head[0].lamports, 5_000_040);
    assert_eq!(tail[0].data, vec![0xff]);
}

#[test]
fn token_account_amount() {
    assert_eq!(AssociatedTokenAccount::amount(&ata_holding(0x0102_0304_0506_0708)), Ok(0x0102_0304_0506_0708));
    let short = account(key(3), token_program_id(), false, 0, 72);
    assert_eq!(AssociatedTokenAccount::amount(&short), Err(ProgramFault::InvalidAccountData));
}

#[test]
fn participate_with_malformed_token_account() {
    let accs = participate_accounts();
    let p = Participate::try_from(&participate_payload(10, 1), &accs, &key(3), 200, RENT_RATE).unwrap();
    let mut record = account(key(2), program_id(), false, 1, Participant::LEN);
    let mut bad = ata_holding(5);
    bad.data.push(0);
    assert_eq!(p.process(&mut record, &bad), Err(ProgramFault::InvalidAccountData));
    assert_eq!(record.data, vec![0u8; Participant::LEN]);
}
