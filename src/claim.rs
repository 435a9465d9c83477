use crate::account::{AccountState, Pubkey};
use crate::error::{ProgramFault, TetherError};
use crate::helper::{
    AccountCheck, AssociatedTokenAccount, Authority, MintAccount, ParticipantAccount, ProgramAccount,
    SignerAccount, CLOSED_SENTINEL,
};
use crate::state::Participant;
use vstd::prelude::*;

verus! {

/// Payload of Claim: whether the participant won, and the proof byte of
/// the mint authority's derived address.
#[derive(Clone, Copy, Debug, PartialEq, Eq, Structural)]
pub struct ClaimData {
    pub is_winner: bool,
    pub mint_bump: u8,
}

/// Payload length of Claim.
pub const CLAIM_DATA_LEN: usize = 2;

impl ClaimData {
    pub open spec fn spec_try_from(data: Seq<u8>) -> Result<ClaimData, ProgramFault> {
        if data.len() != CLAIM_DATA_LEN {
            Err(ProgramFault::InvalidInstructionData)
        } else {
            Ok(ClaimData { is_winner: data[0] != 0, mint_bump: data[1] })
        }
    }

    /// Decodes the winner flag (any non-zero byte is true) and the mint
    /// bump; anything but two bytes is `InvalidInstructionData`.
    pub fn try_from(data: &[u8]) -> (r: Result<ClaimData, ProgramFault>)
        ensures
            r == Self::spec_try_from(data@),
    {
        if data.len() != CLAIM_DATA_LEN {
            return Err(ProgramFault::InvalidInstructionData);
        }
        Ok(ClaimData { is_winner: data[0] != 0, mint_bump: data[1] })
    }
}

/// Reward percentage of a winner.
pub const WINNER_PERCENT: u64 = 25;

/// Reward percentage of any other participant.
pub const PARTICIPANT_PERCENT: u64 = 5;

/// Decimal precision the mint is checked against.
pub const MINT_DECIMALS: u8 = 6;

pub open spec fn spec_reward_percent(is_winner: bool) -> u64 {
    if is_winner {
        WINNER_PERCENT
    } else {
        PARTICIPANT_PERCENT
    }
}

/// The reward for a stake: `floor(percent * stake / 100)`, or
/// `WriteOverflow` where `percent * stake` leaves `u64`.
pub open spec fn spec_reward_amount(stake: u64, is_winner: bool) -> Result<u64, TetherError> {
    let product = spec_reward_percent(is_winner) * stake;
    if product > u64::MAX {
        Err(TetherError::WriteOverflow)
    } else {
        Ok((product / 100) as u64)
    }
}

pub fn reward_amount(stake: u64, is_winner: bool) -> (r: Result<u64, TetherError>)
    ensures
        r == spec_reward_amount(stake, is_winner),
{
    let percent = if is_winner {
        WINNER_PERCENT
    } else {
        PARTICIPANT_PERCENT
    };
    match percent.checked_mul(stake) {
        Some(product) => Ok(product / 100),
        None => Err(TetherError::WriteOverflow),
    }
}

/// The accounts of Claim, by key, in their fixed order.
#[derive(Clone, Copy, Debug, PartialEq, Eq, Structural)]
pub struct ClaimAccounts {
    pub signer: Pubkey,
    pub participant: Pubkey,
    pub participant_ata: Pubkey,
    pub mint: Pubkey,
    pub mint_authority: Pubkey,
    pub token_program: Pubkey,
    pub system_program: Pubkey,
}

/// Number of accounts Claim takes.
pub const CLAIM_ACCOUNTS: usize = 7;

impl ClaimAccounts {
    pub open spec fn spec_try_from(accounts: Seq<AccountState>, ata_address: Pubkey) -> Result<
        ClaimAccounts,
        ProgramFault,
    > {
        if accounts.len() != CLAIM_ACCOUNTS {
            Err(ProgramFault::NotEnoughAccountKeys)
        } else if SignerAccount::spec_check(accounts[0]) is Err {
            Err(SignerAccount::spec_check(accounts[0])->Err_0)
        } else if ParticipantAccount::spec_check(accounts[1]) is Err {
            Err(ParticipantAccount::spec_check(accounts[1])->Err_0)
        } else if AssociatedTokenAccount::spec_check(accounts[2], ata_address) is Err {
            Err(AssociatedTokenAccount::spec_check(accounts[2], ata_address)->Err_0)
        } else if MintAccount::spec_check(accounts[3]) is Err {
            Err(MintAccount::spec_check(accounts[3])->Err_0)
        } else {
            Ok(
                ClaimAccounts {
                    signer: accounts[0].key,
                    participant: accounts[1].key,
                    participant_ata: accounts[2].key,
                    mint: accounts[3].key,
                    mint_authority: accounts[4].key,
                    token_program: accounts[5].key,
                    system_program: accounts[6].key,
                },
            )
        }
    }

    /// Resolves the seven accounts and checks the signer, the participant
    /// record, the signer's associated token account (at `ata_address`) and
    /// the mint, in that order.
    pub fn try_from(accounts: &Vec<AccountState>, ata_address: &Pubkey) -> (r: Result<
        ClaimAccounts,
        ProgramFault,
    >)
        ensures
            r == Self::spec_try_from(accounts@, *ata_address),
    {
        if accounts.len() != CLAIM_ACCOUNTS {
            return Err(ProgramFault::NotEnoughAccountKeys);
        }
        match SignerAccount::check(&accounts[0]) {
            Ok(()) => {},
            Err(e) => return Err(e),
        }
        match ParticipantAccount::check(&accounts[1]) {
            Ok(()) => {},
            Err(e) => return Err(e),
        }
        match AssociatedTokenAccount::check(&accounts[2], ata_address) {
            Ok(()) => {},
            Err(e) => return Err(e),
        }
        match MintAccount::check(&accounts[3]) {
            Ok(()) => {},
            Err(e) => return Err(e),
        }
        Ok(
            ClaimAccounts {
                signer: accounts[0].key,
                participant: accounts[1].key,
                participant_ata: accounts[2].key,
                mint: accounts[3].key,
                mint_authority: accounts[4].key,
                token_program: accounts[5].key,
                system_program: accounts[6].key,
            },
        )
    }
}

} // verus!

verus! {

/// A request to the token capability: mint `amount` (checked against
/// `decimals`) into `account`, signed for by the derived mint authority.
#[derive(Clone, Copy, Debug, PartialEq, Eq, Structural)]
pub struct MintRequest {
    pub account: Pubkey,
    pub mint: Pubkey,
    pub mint_authority: Pubkey,
    pub amount: u64,
    pub decimals: u8,
    pub token_program: Pubkey,
    pub authority: Authority,
}

/// An admitted Claim instruction and the record it settles.
#[derive(Clone, Copy, Debug, PartialEq, Eq, Structural)]
pub struct Claim {
    pub accounts: ClaimAccounts,
    pub instruction_data: ClaimData,
    pub record: Participant,
}

impl Claim {
    pub open spec fn spec_try_from(
        data: Seq<u8>,
        accounts: Seq<AccountState>,
        ata_address: Pubkey,
        now: i64,
    ) -> Result<Claim, ProgramFault> {
        match ClaimAccounts::spec_try_from(accounts, ata_address) {
            Err(e) => Err(e),
            Ok(accs) => match ClaimData::spec_try_from(data) {
                Err(e) => Err(e),
                Ok(d) => {
                    let record = Participant::spec_decode(accounts[1].data@);
                    if accs.signer != record.participant {
                        Err(ProgramFault::Custom(TetherError::InvalidAddress))
                    } else if now < record.active_time {
                        Err(ProgramFault::Custom(TetherError::NotActive))
                    } else {
                        Ok(Claim { accounts: accs, instruction_data: d, record })
                    }
                },
            },
        }
    }

    /// Admits a Claim instruction at time `now`: resolves and checks the
    /// accounts (`ata_address` is the signer's derived token account),
    /// decodes the payload and the record, then requires the signer to be
    /// the record's participant (`InvalidAddress`) and the record to be
    /// mature (`NotActive`).
    pub fn try_from(data: &[u8], accounts: &Vec<AccountState>, ata_address: &Pubkey, now: i64) -> (r:
        Result<Claim, ProgramFault>)
        ensures
            r == Self::spec_try_from(data@, accounts@, *ata_address, now),
    {
        let accs = match ClaimAccounts::try_from(accounts, ata_address) {
            Ok(a) => a,
            Err(e) => return Err(e),
        };
        let instruction_data = match ClaimData::try_from(data) {
            Ok(d) => d,
            Err(e) => return Err(e),
        };
        let record = match Participant::load(accounts[1].data.as_slice()) {
            Ok(p) => p,
            Err(e) => return Err(e),
        };
        if accs.signer != record.participant {
            return Err(ProgramFault::Custom(TetherError::InvalidAddress));
        }
        if now < record.active_time {
            return Err(ProgramFault::Custom(TetherError::NotActive));
        }
        Ok(Claim { accounts: accs, instruction_data, record })
    }

    pub open spec fn spec_process(self) -> Result<MintRequest, ProgramFault> {
        match spec_reward_amount(self.record.stake, self.instruction_data.is_winner) {
            Err(e) => Err(ProgramFault::Custom(e)),
            Ok(amount) => Ok(
                MintRequest {
                    account: self.accounts.participant_ata,
                    mint: self.accounts.mint,
                    mint_authority: self.accounts.mint_authority,
                    amount,
                    decimals: MINT_DECIMALS,
                    token_program: self.accounts.token_program,
                    authority: Authority::Mint {
                        mint: self.accounts.mint,
                        bump: self.instruction_data.mint_bump,
                    },
                },
            ),
        }
    }

    /// Settles the reward: the mint of `floor(percent * stake / 100)` into
    /// the participant's token account, or `WriteOverflow`. Once the mint
    /// has gone through, the record is closed with
    /// `ParticipantAccount::close`, crediting the signer.
    pub fn process(&self) -> (r: Result<MintRequest, ProgramFault>)
        ensures
            r == self.spec_process(),
    {
        let amount = match reward_amount(self.record.stake, self.instruction_data.is_winner) {
            Ok(a) => a,
            Err(e) => return Err(ProgramFault::Custom(e)),
        };
        Ok(
            MintRequest {
                account: self.accounts.participant_ata,
                mint: self.accounts.mint,
                mint_authority: self.accounts.mint_authority,
                amount,
                decimals: MINT_DECIMALS,
                token_program: self.accounts.token_program,
                authority: Authority::Mint {
                    mint: self.accounts.mint,
                    bump: self.instruction_data.mint_bump,
                },
            },
        )
    }
}

impl Claim {
    /// Settles the claim once the mint has run: a failed mint is returned
    /// as it is and nothing changes, so the record stays claimable; after a
    /// successful mint the record is closed with `ParticipantAccount::close`,
    /// its funds going to the signer.
    pub fn settle(
        &self,
        minted: Result<(), ProgramFault>,
        participant: &mut AccountState,
        signer: &mut AccountState,
    ) -> (r: Result<(), ProgramFault>)
        requires
            old(participant).key == self.accounts.participant,
            old(signer).key == self.accounts.signer,
            old(signer).lamports + old(participant).lamports <= u64::MAX,
        ensures
            minted is Err ==> r == minted,
            minted is Ok ==> r == ParticipantAccount::spec_check(*old(participant)),
            r is Err ==> *final(participant) == *old(participant) && *final(signer) == *old(
                signer,
            ),
            r is Ok ==> ParticipantAccount::spec_closed_into(
                *old(participant),
                *final(participant),
                *old(signer),
                *final(signer),
            ),
    {
        match minted {
            Ok(()) => ParticipantAccount::close(participant, signer),
            Err(e) => Err(e),
        }
    }
}

/// A successful settlement leaves the record as one sentinel byte with no
/// funds, and credits the signer with exactly the record's former balance.
pub proof fn lemma_settled_record_closed(
    before: AccountState,
    after: AccountState,
    signer_before: AccountState,
    signer_after: AccountState,
)
    requires
        ParticipantAccount::spec_closed_into(before, after, signer_before, signer_after),
    ensures
        after.data@.len() == 1,
        after.data@[0] == CLOSED_SENTINEL,
        after.lamports == 0,
        signer_after.lamports == signer_before.lamports + before.lamports,
{
}

/// Every settled claim mints `floor(stake * p / 100)`, `p` being 25 for a
/// winner and 5 otherwise.
pub proof fn lemma_claim_amount(c: Claim)
    requires
        c.spec_process() is Ok,
    ensures
        c.spec_process()->Ok_0.amount == (spec_reward_percent(c.instruction_data.is_winner)
            * c.record.stake) / 100,
        c.spec_process()->Ok_0.amount <= c.record.stake,
{
    let p = spec_reward_percent(c.instruction_data.is_winner) as int;
    let s = c.record.stake as int;
    assert(p <= 25);
    assert((p * s) / 100 <= s) by (nonlinear_arith)
        requires
            0 <= p <= 25,
            0 <= s,
    ;
}

/// A Claim that is admitted was made by the record's participant, after
/// its `active_time`, against a valid record.
pub proof fn lemma_claim_admission(
    data: Seq<u8>,
    accounts: Seq<AccountState>,
    ata_address: Pubkey,
    now: i64,
)
    requires
        Claim::spec_try_from(data, accounts, ata_address, now) is Ok,
    ensures
        ({
            let c = Claim::spec_try_from(data, accounts, ata_address, now)->Ok_0;
            &&& ParticipantAccount::spec_check(accounts[1]) is Ok
            &&& c.record == Participant::spec_decode(accounts[1].data@)
            &&& accounts[0].key == c.record.participant
            &&& c.record.active_time <= now
        }),
{
}

/// A closed record is terminal: it fails the participant account check, no
/// Claim over it is admitted, and its address cannot be allocated again.
pub proof fn lemma_closed_is_terminal(
    data: Seq<u8>,
    accounts: Seq<AccountState>,
    ata_address: Pubkey,
    now: i64,
    payer: AccountState,
    authority: Authority,
    space: usize,
    lamports_per_byte: u64,
)
    requires
        accounts.len() == CLAIM_ACCOUNTS,
        ParticipantAccount::spec_is_closed(accounts[1]),
    ensures
        ParticipantAccount::spec_check(accounts[1]) is Err,
        Claim::spec_try_from(data, accounts, ata_address, now) is Err,
        ProgramAccount::spec_init(accounts[1], payer, authority, space, lamports_per_byte) is Err,
{
}

/// A Claim refused as premature changes nothing and is admitted, on the same
/// accounts, once the record's `active_time` is reached.
pub proof fn lemma_premature_claim_admitted_later(
    data: Seq<u8>,
    accounts: Seq<AccountState>,
    ata_address: Pubkey,
    now: i64,
    later: i64,
)
    requires
        Claim::spec_try_from(data, accounts, ata_address, now) == Err::<Claim, ProgramFault>(
            ProgramFault::Custom(TetherError::NotActive),
        ),
        Participant::spec_decode(accounts[1].data@).active_time <= later,
    ensures
        Claim::spec_try_from(data, accounts, ata_address, later) is Ok,
{
}

} // verus!
