use crate::account::{
    associated_token_program_id, program_id, spec_associated_token_program_id,
    spec_program_id, spec_system_program_id, spec_token_program_id, system_program_id,
    token_program_id, AccountState, Pubkey,
};
use crate::error::{ProgramFault, TetherError};
use crate::state::Participant;
use vstd::bytes::{spec_u64_from_le_bytes, u64_from_le_bytes};
use vstd::prelude::*;
use vstd::slice::slice_subrange;

verus! {

/// Length of a token account without extensions.
pub const TOKEN_ACCOUNT_LEN: usize = 165;

/// Largest account size the ledger permits, in bytes.
pub const MAX_PERMITTED_DATA_LENGTH: u64 = 10485760;

/// Largest rent rate for which the rent-exempt minimum fits in `u64`.
pub const MAX_LAMPORTS_PER_BYTE: u64 = 1759197129867;

/// Storage overhead charged for every account, in bytes.
pub const ACCOUNT_STORAGE_OVERHEAD: u64 = 128;

/// Rent-exempt minimum balance for `space` bytes at `lamports_per_byte`, or
/// `None` where the size or the rate is out of range.
pub open spec fn spec_rent_exempt_minimum(lamports_per_byte: u64, space: usize) -> Option<u64> {
    if space as int > MAX_PERMITTED_DATA_LENGTH as int || lamports_per_byte
        > MAX_LAMPORTS_PER_BYTE {
        None
    } else {
        Some(((ACCOUNT_STORAGE_OVERHEAD + space) * lamports_per_byte) as u64)
    }
}

/// Relies on pinocchio's `Rent::from_bytes` (reads the rate from the first
/// eight bytes) and `Rent::try_minimum_balance`: `InvalidArgument` above the
/// permitted data length or the largest rate, else `(128 + len) * rate`.
#[verifier::external_body]
fn rent_exempt_minimum(lamports_per_byte: u64, space: usize) -> (r: Option<u64>)
    ensures
        r == spec_rent_exempt_minimum(lamports_per_byte, space),
{
    let bytes = lamports_per_byte.to_ne_bytes();
    match pinocchio::sysvars::rent::Rent::from_bytes(&bytes) {
        Ok(rent) => rent.try_minimum_balance(space).ok(),
        Err(_) => None,
    }
}

/// A structural predicate on one account, checked before any mutation.
pub trait AccountCheck {
    /// The outcome of `check` on `account`.
    spec fn spec_check(account: AccountState) -> Result<(), ProgramFault>;

    fn check(account: &AccountState) -> (r: Result<(), ProgramFault>)
        ensures
            r == Self::spec_check(*account),
    ;
}

/// Requires that the account signed the transaction.
pub struct SignerAccount;

impl AccountCheck for SignerAccount {
    open spec fn spec_check(account: AccountState) -> Result<(), ProgramFault> {
        if !account.is_signer {
            Err(ProgramFault::Custom(TetherError::NotSigner))
        } else {
            Ok(())
        }
    }

    fn check(account: &AccountState) -> (r: Result<(), ProgramFault>)
        ensures
            r == Self::spec_check(*account),
    {
        if !account.is_signer {
            return Err(ProgramFault::Custom(TetherError::NotSigner));
        }
        Ok(())
    }
}

/// Requires that the account belongs to the system program.
pub struct SystemAccount;

impl AccountCheck for SystemAccount {
    open spec fn spec_check(account: AccountState) -> Result<(), ProgramFault> {
        if account.owner != spec_system_program_id() {
            Err(ProgramFault::Custom(TetherError::InvalidOwner))
        } else {
            Ok(())
        }
    }

    fn check(account: &AccountState) -> (r: Result<(), ProgramFault>)
        ensures
            r == Self::spec_check(*account),
    {
        if account.owner != system_program_id() {
            return Err(ProgramFault::Custom(TetherError::InvalidOwner));
        }
        Ok(())
    }
}

/// A derived authority: the seeds and proof byte under which this program
/// signs a cross-program call in place of a private key.
#[derive(Clone, Copy, Debug, PartialEq, Eq, Structural)]
pub enum Authority {
    /// The participant record of `signer` for `seed`.
    Participant { signer: Pubkey, seed: u64, bump: u8 },
    /// The mint authority of `mint`.
    Mint { mint: Pubkey, bump: u8 },
}

/// The seed prefix of a participant record.
pub open spec fn spec_participant_prefix() -> Seq<u8> {
    seq![112u8, 97u8, 114u8, 116u8, 105u8, 99u8, 105u8, 112u8, 97u8, 110u8, 116u8]
}

/// The seed prefix of a mint authority.
pub open spec fn spec_mint_prefix() -> Seq<u8> {
    seq![109u8, 105u8, 110u8, 116u8]
}

impl Authority {
    /// The seed list, proof byte last.
    pub open spec fn spec_seeds(self) -> Seq<Seq<u8>> {
        match self {
            Authority::Participant { signer, seed, bump } => seq![
                spec_participant_prefix(),
                signer.spec_bytes(),
                vstd::bytes::spec_u64_to_le_bytes(seed),
                seq![bump],
            ],
            Authority::Mint { mint, bump } => seq![
                spec_mint_prefix(),
                mint.spec_bytes(),
                seq![bump],
            ],
        }
    }

    pub fn seeds(&self) -> (r: Vec<Vec<u8>>)
        ensures
            r@.len() == self.spec_seeds().len(),
            forall|i: int| 0 <= i < r@.len() ==> #[trigger] r@[i]@ == self.spec_seeds()[i],
    {
        let mut r: Vec<Vec<u8>> = Vec::new();
        match self {
            Authority::Participant { signer, seed, bump } => {
                let prefix = vec![112u8, 97u8, 114u8, 116u8, 105u8, 99u8, 105u8, 112u8, 97u8, 110u8, 116u8];
                let last = vec![*bump];
                assert(prefix@ =~= spec_participant_prefix());
                assert(last@ =~= seq![*bump]);
                r.push(prefix);
                r.push(signer.to_bytes());
                r.push(vstd::bytes::u64_to_le_bytes(*seed));
                r.push(last);
            },
            Authority::Mint { mint, bump } => {
                let prefix = vec![109u8, 105u8, 110u8, 116u8];
                let last = vec![*bump];
                assert(prefix@ =~= spec_mint_prefix());
                assert(last@ =~= seq![*bump]);
                r.push(prefix);
                r.push(mint.to_bytes());
                r.push(last);
            },
        }
        r
    }
}

/// A request to the allocation capability: create `to`, funded by `from`
/// with `lamports`, of `space` bytes, owned by `owner`, signed for by
/// `authority`.
#[derive(Clone, Copy, Debug, PartialEq, Eq, Structural)]
pub struct CreateAccountRequest {
    pub from: Pubkey,
    pub to: Pubkey,
    pub lamports: u64,
    pub space: u64,
    pub owner: Pubkey,
    pub authority: Authority,
}

/// Accounts owned by this program.
pub struct ProgramAccount;

impl AccountCheck for ProgramAccount {
    open spec fn spec_check(account: AccountState) -> Result<(), ProgramFault> {
        if account.owner != spec_program_id() {
            Err(ProgramFault::Custom(TetherError::InvalidOwner))
        } else {
            Ok(())
        }
    }

    fn check(account: &AccountState) -> (r: Result<(), ProgramFault>)
        ensures
            r == Self::spec_check(*account),
    {
        if account.owner != program_id() {
            return Err(ProgramFault::Custom(TetherError::InvalidOwner));
        }
        Ok(())
    }
}

impl ProgramAccount {
    /// Whether `account` is free for allocation: unassigned and empty.
    pub open spec fn spec_is_vacant(account: AccountState) -> bool {
        account.owner == spec_system_program_id() && account.data@.len() == 0
    }

    /// What `init` decides for the given accounts and rent rate.
    pub open spec fn spec_init(
        account: AccountState,
        payer: AccountState,
        authority: Authority,
        space: usize,
        lamports_per_byte: u64,
    ) -> Result<CreateAccountRequest, ProgramFault> {
        if !Self::spec_is_vacant(account) {
            Err(ProgramFault::AccountAlreadyInitialized)
        } else {
            match spec_rent_exempt_minimum(lamports_per_byte, space) {
                None => Err(ProgramFault::InvalidArgument),
                Some(lamports) => Ok(
                    CreateAccountRequest {
                        from: payer.key,
                        to: account.key,
                        lamports,
                        space: space as u64,
                        owner: spec_program_id(),
                        authority,
                    },
                ),
            }
        }
    }

    /// Plans the creation of a program-owned, rent-exempt account of
    /// `space` bytes at a derived address, funded by `payer`. An account
    /// that is already assigned or holds data is refused.
    pub fn init(
        account: &AccountState,
        payer: &AccountState,
        authority: Authority,
        space: usize,
        lamports_per_byte: u64,
    ) -> (r: Result<CreateAccountRequest, ProgramFault>)
        ensures
            r == Self::spec_init(*account, *payer, authority, space, lamports_per_byte),
    {
        if account.owner != system_program_id() || account.data.len() != 0 {
            return Err(ProgramFault::AccountAlreadyInitialized);
        }
        let lamports = match rent_exempt_minimum(lamports_per_byte, space) {
            Some(l) => l,
            None => return Err(ProgramFault::InvalidArgument),
        };
        Ok(
            CreateAccountRequest {
                from: payer.key,
                to: account.key,
                lamports,
                space: space as u64,
                owner: program_id(),
                authority,
            },
        )
    }
}

/// The account that holds a participant record.
pub struct ParticipantAccount;

/// The sentinel written over the first byte of a closed record.
pub const CLOSED_SENTINEL: u8 = 0xff;

impl AccountCheck for ParticipantAccount {
    open spec fn spec_check(account: AccountState) -> Result<(), ProgramFault> {
        if account.owner != spec_program_id() {
            Err(ProgramFault::Custom(TetherError::InvalidOwner))
        } else if account.data@.len() != Participant::LEN {
            Err(ProgramFault::Custom(TetherError::InvalidAccountData))
        } else {
            Ok(())
        }
    }

    fn check(account: &AccountState) -> (r: Result<(), ProgramFault>)
        ensures
            r == Self::spec_check(*account),
    {
        if account.owner != program_id() {
            return Err(ProgramFault::Custom(TetherError::InvalidOwner));
        }
        if account.data.len() != Participant::LEN {
            return Err(ProgramFault::Custom(TetherError::InvalidAccountData));
        }
        Ok(())
    }
}

impl ParticipantAccount {
    /// The state of a closed record account: one sentinel byte, no funds,
    /// released to the system program.
    pub open spec fn spec_is_closed(account: AccountState) -> bool {
        &&& account.data@ == seq![CLOSED_SENTINEL]
        &&& account.lamports == 0
        &&& account.owner == spec_system_program_id()
    }

    /// `after` is `before` closed, and `dest_after` is `dest_before` credited
    /// with all of `before`'s funds.
    pub open spec fn spec_closed_into(
        before: AccountState,
        after: AccountState,
        dest_before: AccountState,
        dest_after: AccountState,
    ) -> bool {
        &&& Self::spec_is_closed(after)
        &&& after.key == before.key
        &&& after.is_signer == before.is_signer
        &&& dest_after.lamports == dest_before.lamports + before.lamports
        &&& dest_after.key == dest_before.key
        &&& dest_after.owner == dest_before.owner
        &&& dest_after.is_signer == dest_before.is_signer
        &&& dest_after.data == dest_before.data
    }

    /// Closes a valid participant account: writes the sentinel, moves all
    /// of its funds to `destination`, shrinks it to one byte and releases
    /// it. An account that fails `check` is refused and nothing changes.
    pub fn close(account: &mut AccountState, destination: &mut AccountState) -> (r: Result<
        (),
        ProgramFault,
    >)
        requires
            old(destination).lamports + old(account).lamports <= u64::MAX,
        ensures
            r == Self::spec_check(*old(account)),
            r is Err ==> *final(account) == *old(account) && *final(destination)
                == *old(destination),
            r is Ok ==> Self::spec_closed_into(
                *old(account),
                *final(account),
                *old(destination),
                *final(destination),
            ),
    {
        match Self::check(account) {
            Ok(()) => {},
            Err(e) => return Err(e),
        }
        account.data.set(0, CLOSED_SENTINEL);
        destination.lamports = destination.lamports + account.lamports;
        account.lamports = 0;
        account.data.truncate(1);
        account.owner = system_program_id();
        proof {
            assert(account.data@ =~= seq![CLOSED_SENTINEL]);
        }
        Ok(())
    }
}

/// Mint accounts belong to the token program.
pub struct MintAccount;

impl AccountCheck for MintAccount {
    open spec fn spec_check(account: AccountState) -> Result<(), ProgramFault> {
        if account.owner != spec_token_program_id() {
            Err(ProgramFault::Custom(TetherError::InvalidOwner))
        } else {
            Ok(())
        }
    }

    fn check(account: &AccountState) -> (r: Result<(), ProgramFault>)
        ensures
            r == Self::spec_check(*account),
    {
        if account.owner != token_program_id() {
            return Err(ProgramFault::Custom(TetherError::InvalidOwner));
        }
        Ok(())
    }
}

/// A request to the associated-token-account capability.
#[derive(Clone, Copy, Debug, PartialEq, Eq, Structural)]
pub struct CreateAtaRequest {
    pub account: Pubkey,
    pub funding_account: Pubkey,
    pub mint: Pubkey,
    pub wallet: Pubkey,
    pub system_program: Pubkey,
    pub token_program: Pubkey,
}

/// What must happen to an owner's associated token account.
#[derive(Clone, Copy, Debug, PartialEq, Eq, Structural)]
pub enum AtaStep {
    /// It exists and is the right one.
    Ready,
    /// It must be created.
    Create(CreateAtaRequest),
}

/// The associated token account of an owner for a mint.
pub struct AssociatedTokenAccount;

/// Offset of the little-endian balance in a token account: after the mint
/// and the owner keys.
pub const TOKEN_AMOUNT_OFFSET: usize = 64;

impl AssociatedTokenAccount {
    /// The balance held by a token account's data, or `InvalidAccountData`
    /// where the data is not a token account's.
    pub open spec fn spec_amount(data: Seq<u8>) -> Result<u64, ProgramFault> {
        if data.len() != TOKEN_ACCOUNT_LEN {
            Err(ProgramFault::InvalidAccountData)
        } else {
            Ok(spec_u64_from_le_bytes(data.subrange(64, 72)))
        }
    }

    /// Reads the balance of a token account.
    pub fn amount(account: &AccountState) -> (r: Result<u64, ProgramFault>)
        ensures
            r == Self::spec_amount(account.data@),
    {
        if account.data.len() != TOKEN_ACCOUNT_LEN {
            return Err(ProgramFault::InvalidAccountData);
        }
        let bytes = slice_subrange(account.data.as_slice(), TOKEN_AMOUNT_OFFSET, TOKEN_AMOUNT_OFFSET + 8);
        Ok(u64_from_le_bytes(bytes))
    }

    /// `expected` is the address derived from (owner, token program, mint)
    /// under the associated-token-account program.
    pub open spec fn spec_check(account: AccountState, expected: Pubkey) -> Result<
        (),
        ProgramFault,
    > {
        if account.owner != spec_token_program_id() {
            Err(ProgramFault::Custom(TetherError::InvalidOwner))
        } else if account.data@.len() != TOKEN_ACCOUNT_LEN {
            Err(ProgramFault::Custom(TetherError::InvalidAccountData))
        } else if account.key != expected {
            Err(ProgramFault::Custom(TetherError::InvalidAddress))
        } else {
            Ok(())
        }
    }

    pub fn check(account: &AccountState, expected: &Pubkey) -> (r: Result<(), ProgramFault>)
        ensures
            r == Self::spec_check(*account, *expected),
    {
        if account.owner != token_program_id() {
            return Err(ProgramFault::Custom(TetherError::InvalidOwner));
        }
        if account.data.len() != TOKEN_ACCOUNT_LEN {
            return Err(ProgramFault::Custom(TetherError::InvalidAccountData));
        }
        if account.key != *expected {
            return Err(ProgramFault::Custom(TetherError::InvalidAddress));
        }
        Ok(())
    }

    pub open spec fn spec_init(
        account: AccountState,
        mint: AccountState,
        payer: AccountState,
        owner: AccountState,
        system_program: AccountState,
        token_program: AccountState,
    ) -> CreateAtaRequest {
        CreateAtaRequest {
            account: account.key,
            funding_account: payer.key,
            mint: mint.key,
            wallet: owner.key,
            system_program: system_program.key,
            token_program: token_program.key,
        }
    }

    /// Plans the creation of `owner`'s associated token account for `mint`.
    pub fn init(
        account: &AccountState,
        mint: &AccountState,
        payer: &AccountState,
        owner: &AccountState,
        system_program: &AccountState,
        token_program: &AccountState,
    ) -> (r: CreateAtaRequest)
        ensures
            r == Self::spec_init(
                *account,
                *mint,
                *payer,
                *owner,
                *system_program,
                *token_program,
            ),
    {
        CreateAtaRequest {
            account: account.key,
            funding_account: payer.key,
            mint: mint.key,
            wallet: owner.key,
            system_program: system_program.key,
            token_program: token_program.key,
        }
    }

    /// Keeps an account that passes `check`; plans its creation otherwise.
    pub fn init_if_needed(
        account: &AccountState,
        mint: &AccountState,
        payer: &AccountState,
        owner: &AccountState,
        system_program: &AccountState,
        token_program: &AccountState,
        expected: &Pubkey,
    ) -> (r: AtaStep)
        ensures
            Self::spec_check(*account, *expected) is Ok ==> r == AtaStep::Ready,
            Self::spec_check(*account, *expected) is Err ==> r == AtaStep::Create(
                Self::spec_init(*account, *mint, *payer, *owner, *system_program, *token_program),
            ),
    {
        match Self::check(account, expected) {
            Ok(()) => AtaStep::Ready,
            Err(_) => AtaStep::Create(
                Self::init(account, mint, payer, owner, system_program, token_program),
            ),
        }
    }
}

} // verus!
