use crate::account::{AccountState, Pubkey};
use crate::error::{ProgramFault, TetherError};
use crate::helper::{
    AccountCheck, AssociatedTokenAccount, AtaStep, Authority, CreateAccountRequest, MintAccount,
    ParticipantAccount, ProgramAccount, SignerAccount,
};
use crate::state::Participant;
use vstd::bytes::{spec_u64_from_le_bytes, u64_from_le_bytes};
use vstd::prelude::*;
use vstd::slice::slice_subrange;

verus! {

/// Payload of Participate: the settlement time and a caller-chosen nonce.
#[derive(Clone, Copy, Debug, PartialEq, Eq, Structural)]
pub struct ParticipateData {
    pub active_time: i64,
    pub seed: u64,
}

/// Payload length of Participate.
pub const PARTICIPATE_DATA_LEN: usize = 16;

impl ParticipateData {
    pub open spec fn spec_try_from(data: Seq<u8>) -> Result<ParticipateData, ProgramFault> {
        if data.len() != PARTICIPATE_DATA_LEN {
            Err(ProgramFault::InvalidInstructionData)
        } else {
            Ok(
                ParticipateData {
                    active_time: spec_u64_from_le_bytes(data.subrange(0, 8)) as i64,
                    seed: spec_u64_from_le_bytes(data.subrange(8, 16)),
                },
            )
        }
    }

    /// Decodes a little-endian signed `active_time` then a little-endian
    /// `seed`; anything but 16 bytes is `InvalidInstructionData`.
    pub fn try_from(data: &[u8]) -> (r: Result<ParticipateData, ProgramFault>)
        ensures
            r == Self::spec_try_from(data@),
    {
        if data.len() != PARTICIPATE_DATA_LEN {
            return Err(ProgramFault::InvalidInstructionData);
        }
        let active_time = u64_from_le_bytes(slice_subrange(data, 0, 8)) as i64;
        let seed = u64_from_le_bytes(slice_subrange(data, 8, 16));
        Ok(ParticipateData { active_time, seed })
    }
}

/// The accounts of Participate, by key, in their fixed order.
#[derive(Clone, Copy, Debug, PartialEq, Eq, Structural)]
pub struct ParticipateAccounts {
    pub signer: Pubkey,
    pub participant: Pubkey,
    pub participant_ata: Pubkey,
    pub mint: Pubkey,
    pub token_program: Pubkey,
    pub system_program: Pubkey,
}

/// Number of accounts Participate takes.
pub const PARTICIPATE_ACCOUNTS: usize = 6;

impl ParticipateAccounts {
    pub open spec fn spec_try_from(accounts: Seq<AccountState>, ata_address: Pubkey) -> Result<
        ParticipateAccounts,
        ProgramFault,
    > {
        if accounts.len() != PARTICIPATE_ACCOUNTS {
            Err(ProgramFault::NotEnoughAccountKeys)
        } else if SignerAccount::spec_check(accounts[0]) is Err {
            Err(SignerAccount::spec_check(accounts[0])->Err_0)
        } else if AssociatedTokenAccount::spec_check(accounts[2], ata_address) is Err {
            Err(AssociatedTokenAccount::spec_check(accounts[2], ata_address)->Err_0)
        } else if MintAccount::spec_check(accounts[3]) is Err {
            Err(MintAccount::spec_check(accounts[3])->Err_0)
        } else {
            Ok(
                ParticipateAccounts {
                    signer: accounts[0].key,
                    participant: accounts[1].key,
                    participant_ata: accounts[2].key,
                    mint: accounts[3].key,
                    token_program: accounts[4].key,
                    system_program: accounts[5].key,
                },
            )
        }
    }

    /// Resolves the six accounts and checks the signer, its associated token
    /// account (at `ata_address`) and the mint, in that order.
    pub fn try_from(accounts: &Vec<AccountState>, ata_address: &Pubkey) -> (r: Result<
        ParticipateAccounts,
        ProgramFault,
    >)
        ensures
            r == Self::spec_try_from(accounts@, *ata_address),
    {
        if accounts.len() != PARTICIPATE_ACCOUNTS {
            return Err(ProgramFault::NotEnoughAccountKeys);
        }
        match SignerAccount::check(&accounts[0]) {
            Ok(()) => {},
            Err(e) => return Err(e),
        }
        match AssociatedTokenAccount::check(&accounts[2], ata_address) {
            Ok(()) => {},
            Err(e) => return Err(e),
        }
        match MintAccount::check(&accounts[3]) {
            Ok(()) => {},
            Err(e) => return Err(e),
        }
        Ok(
            ParticipateAccounts {
                signer: accounts[0].key,
                participant: accounts[1].key,
                participant_ata: accounts[2].key,
                mint: accounts[3].key,
                token_program: accounts[4].key,
                system_program: accounts[5].key,
            },
        )
    }
}

} // verus!

verus! {

/// An admitted Participate instruction, with what the allocation and token
/// account capabilities must do before the record is written.
#[derive(Clone, Copy, Debug, PartialEq, Eq, Structural)]
pub struct Participate {
    pub accounts: ParticipateAccounts,
    pub instruction_data: ParticipateData,
    /// Proof byte of the participant record's derived address.
    pub bump: u8,
    /// Creation of the participant record.
    pub allocation: CreateAccountRequest,
    /// What the signer's associated token account needs.
    pub token_account: AtaStep,
}

impl Participate {
    pub open spec fn spec_try_from(
        data: Seq<u8>,
        accounts: Seq<AccountState>,
        ata_address: Pubkey,
        bump: u8,
        lamports_per_byte: u64,
    ) -> Result<Participate, ProgramFault> {
        match ParticipateAccounts::spec_try_from(accounts, ata_address) {
            Err(e) => Err(e),
            Ok(accs) => match ParticipateData::spec_try_from(data) {
                Err(e) => Err(e),
                Ok(d) => match ProgramAccount::spec_init(
                    accounts[1],
                    accounts[0],
                    Authority::Participant { signer: accs.signer, seed: d.seed, bump },
                    Participant::LEN,
                    lamports_per_byte,
                ) {
                    Err(e) => Err(e),
                    // The account checks already admitted the token account,
                    // so it is kept as it is.
                    Ok(allocation) => Ok(
                        Participate {
                            accounts: accs,
                            instruction_data: d,
                            bump,
                            allocation,
                            token_account: AtaStep::Ready,
                        },
                    ),
                },
            },
        }
    }

    /// Admits a Participate instruction: resolves and checks the accounts,
    /// decodes the payload, and plans the creation of the participant record
    /// at the address derived from ("participant", signer, seed) with proof
    /// byte `bump`, and the signer's token account (`ata_address` is its
    /// derived address). `lamports_per_byte` is the ledger's rent rate.
    pub fn try_from(
        data: &[u8],
        accounts: &Vec<AccountState>,
        ata_address: &Pubkey,
        bump: u8,
        lamports_per_byte: u64,
    ) -> (r: Result<Participate, ProgramFault>)
        ensures
            r == Self::spec_try_from(data@, accounts@, *ata_address, bump, lamports_per_byte),
    {
        let accs = match ParticipateAccounts::try_from(accounts, ata_address) {
            Ok(a) => a,
            Err(e) => return Err(e),
        };
        let instruction_data = match ParticipateData::try_from(data) {
            Ok(d) => d,
            Err(e) => return Err(e),
        };
        let authority = Authority::Participant {
            signer: accs.signer,
            seed: instruction_data.seed,
            bump,
        };
        let allocation = match ProgramAccount::init(
            &accounts[1],
            &accounts[0],
            authority,
            Participant::LEN,
            lamports_per_byte,
        ) {
            Ok(req) => req,
            Err(e) => return Err(e),
        };
        let token_account = AssociatedTokenAccount::init_if_needed(
            &accounts[2],
            &accounts[3],
            &accounts[0],
            &accounts[0],
            &accounts[5],
            &accounts[4],
            ata_address,
        );
        Ok(Participate { accounts: accs, instruction_data, bump, allocation, token_account })
    }

    /// The record that Participate writes for an observed token balance.
    pub open spec fn spec_record(self, token_balance: u64) -> Participant {
        Participant {
            stake: token_balance,
            active_time: self.instruction_data.active_time,
            participant: self.accounts.signer,
            bump: self.bump,
        }
    }

    /// The participant account's data after `process`, or its error.
    pub open spec fn spec_process(self, data: Seq<u8>, token_balance: u64) -> Result<
        Seq<u8>,
        ProgramFault,
    > {
        if token_balance == 0 {
            Err(ProgramFault::Custom(TetherError::InsufficientFunds))
        } else if data.len() != Participant::LEN {
            Err(ProgramFault::InvalidAccountData)
        } else {
            Ok(self.spec_record(token_balance).spec_encode())
        }
    }

    /// The participant account's data after `process`, given the data of
    /// the signer's token account, or its error.
    pub open spec fn spec_process_with(self, data: Seq<u8>, ata_data: Seq<u8>) -> Result<
        Seq<u8>,
        ProgramFault,
    > {
        match AssociatedTokenAccount::spec_amount(ata_data) {
            Err(e) => Err(e),
            Ok(balance) => self.spec_process(data, balance),
        }
    }

    /// Writes the record into the newly allocated participant account, the
    /// stake being the balance held by the signer's token account. A zero
    /// balance is `InsufficientFunds`; on any error nothing changes.
    pub fn process(&self, participant: &mut AccountState, participant_ata: &AccountState) -> (r:
        Result<(), ProgramFault>)
        requires
            old(participant).key == self.accounts.participant,
            participant_ata.key == self.accounts.participant_ata,
        ensures
            r is Ok <==> self.spec_process_with(old(participant).data@, participant_ata.data@) is Ok,
            r is Err ==> r == Err::<(), ProgramFault>(
                self.spec_process_with(old(participant).data@, participant_ata.data@)->Err_0,
            ) && final(participant).data@ == old(participant).data@,
            r is Ok ==> final(participant).data@ == self.spec_process_with(
                old(participant).data@,
                participant_ata.data@,
            )->Ok_0,
            final(participant).key == old(participant).key,
            final(participant).owner == old(participant).owner,
            final(participant).lamports == old(participant).lamports,
            final(participant).is_signer == old(participant).is_signer,
    {
        let token_balance = match AssociatedTokenAccount::amount(participant_ata) {
            Ok(b) => b,
            Err(e) => return Err(e),
        };
        if token_balance == 0 {
            return Err(ProgramFault::Custom(TetherError::InsufficientFunds));
        }
        let mut record = Participant { stake: 0, active_time: 0, participant: self.accounts.signer, bump: 0 };
        record.set_inner(
            token_balance,
            self.instruction_data.active_time,
            self.accounts.signer,
            self.bump,
        );
        record.store(&mut participant.data)
    }
}

/// With a non-zero balance, the freshly allocated record reads back at
/// once, `LEN` bytes long, with the observed balance as its stake and the
/// signer as its participant.
pub proof fn lemma_participate_records_balance(p: Participate, data: Seq<u8>, token_balance: u64)
    requires
        token_balance != 0,
        data.len() == p.allocation.space,
        p.allocation.space == Participant::LEN,
    ensures
        p.spec_process(data, token_balance) is Ok,
        p.spec_process(data, token_balance)->Ok_0.len() == Participant::LEN,
        Participant::spec_decode(p.spec_process(data, token_balance)->Ok_0) == p.spec_record(
            token_balance,
        ),
        Participant::spec_decode(p.spec_process(data, token_balance)->Ok_0).stake == token_balance,
        Participant::spec_decode(p.spec_process(data, token_balance)->Ok_0).participant
            == p.accounts.signer,
{
    p.spec_record(token_balance).lemma_decode_encode();
}

/// Every admitted Participate allocates exactly one record's worth of space
/// for the signer's position.
pub proof fn lemma_participate_allocates_record(
    data: Seq<u8>,
    accounts: Seq<AccountState>,
    ata_address: Pubkey,
    bump: u8,
    lamports_per_byte: u64,
)
    requires
        Participate::spec_try_from(data, accounts, ata_address, bump, lamports_per_byte) is Ok,
    ensures
        ({
            let p = Participate::spec_try_from(
                data,
                accounts,
                ata_address,
                bump,
                lamports_per_byte,
            )->Ok_0;
            &&& p.allocation.space == Participant::LEN
            &&& p.allocation.to == accounts[1].key
            &&& p.accounts.signer == accounts[0].key
            &&& p.allocation.authority == Authority::Participant {
                signer: accounts[0].key,
                seed: p.instruction_data.seed,
                bump,
            }
        }),
{
}

/// A zero balance is always refused with `InsufficientFunds`.
pub proof fn lemma_zero_balance_refused(p: Participate, data: Seq<u8>)
    ensures
        p.spec_process(data, 0) == Err::<Seq<u8>, ProgramFault>(
            ProgramFault::Custom(TetherError::InsufficientFunds),
        ),
{
}

/// Once a record is written at the participant address, Participate for the
/// same address is refused before anything is planned or written.
pub proof fn lemma_participate_twice_refused(
    data: Seq<u8>,
    accounts: Seq<AccountState>,
    ata_address: Pubkey,
    bump: u8,
    lamports_per_byte: u64,
)
    requires
        accounts.len() == PARTICIPATE_ACCOUNTS,
        accounts[1].data@.len() == Participant::LEN,
    ensures
        Participate::spec_try_from(data, accounts, ata_address, bump, lamports_per_byte) is Err,
{
}

/// A record account that was closed cannot be set up again by Participate.
pub proof fn lemma_closed_not_reinitialized(
    data: Seq<u8>,
    accounts: Seq<AccountState>,
    ata_address: Pubkey,
    bump: u8,
    lamports_per_byte: u64,
)
    requires
        accounts.len() == PARTICIPATE_ACCOUNTS,
        ParticipantAccount::spec_is_closed(accounts[1]),
    ensures
        Participate::spec_try_from(data, accounts, ata_address, bump, lamports_per_byte) is Err,
{
}

/// A closed record account stays inactive whatever instruction meets it:
/// it fails the participant account check, cannot be allocated again, and
/// Participate's write refuses it for every token balance.
pub proof fn lemma_closed_stays_inactive(
    p: Participate,
    account: AccountState,
    token_balance: u64,
    payer: AccountState,
    authority: Authority,
    space: usize,
    lamports_per_byte: u64,
)
    requires
        ParticipantAccount::spec_is_closed(account),
    ensures
        ParticipantAccount::spec_check(account) is Err,
        ProgramAccount::spec_init(account, payer, authority, space, lamports_per_byte) is Err,
        p.spec_process(account.data@, token_balance) is Err,
{
}

} // verus!
