use vstd::bytes::{
    lemma_auto_spec_u64_to_from_le_bytes, spec_u64_from_le_bytes, spec_u64_to_le_bytes,
    u64_from_le_bytes, u64_to_le_bytes,
};
use vstd::prelude::*;
use vstd::slice::slice_subrange;

verus! {

/// A 32-byte ledger public key, held as four little-endian 64-bit words.
#[derive(Clone, Copy, Debug, PartialEq, Eq, Structural)]
pub struct Pubkey {
    pub w0: u64,
    pub w1: u64,
    pub w2: u64,
    pub w3: u64,
}

/// This program's own identity.
pub open spec fn spec_program_id() -> Pubkey {
    Pubkey { w0: 0xfb182168a897a936, w1: 0xffd3f307a8c27611, w2: 0x367fb60adaf3fa9b, w3: 0xf86719dc4e2ca1cc }
}

pub fn program_id() -> (r: Pubkey)
    ensures
        r == spec_program_id(),
{
    Pubkey { w0: 0xfb182168a897a936, w1: 0xffd3f307a8c27611, w2: 0x367fb60adaf3fa9b, w3: 0xf86719dc4e2ca1cc }
}

/// The system (account allocation) program: the all-zero key.
pub open spec fn spec_system_program_id() -> Pubkey {
    Pubkey { w0: 0, w1: 0, w2: 0, w3: 0 }
}

pub fn system_program_id() -> (r: Pubkey)
    ensures
        r == spec_system_program_id(),
{
    Pubkey { w0: 0, w1: 0, w2: 0, w3: 0 }
}

/// The token program that owns mints and token accounts.
pub open spec fn spec_token_program_id() -> Pubkey {
    Pubkey { w0: 0xde8f75eee1f6dd06, w1: 0xdacd6ce4bc5d4218, w2: 0x270db9834dfc1ab6, w3: 0xfc8ba1d828f9bdfe }
}

pub fn token_program_id() -> (r: Pubkey)
    ensures
        r == spec_token_program_id(),
{
    Pubkey { w0: 0xde8f75eee1f6dd06, w1: 0xdacd6ce4bc5d4218, w2: 0x270db9834dfc1ab6, w3: 0xfc8ba1d828f9bdfe }
}

/// The associated-token-account program.
pub open spec fn spec_associated_token_program_id() -> Pubkey {
    Pubkey { w0: 0xf189244e8f25978c, w1: 0x830d8e1429103dbb, w2: 0x8410ffda99135a0b, w3: 0x59f8e9dbd87b8e04 }
}

pub fn associated_token_program_id() -> (r: Pubkey)
    ensures
        r == spec_associated_token_program_id(),
{
    Pubkey { w0: 0xf189244e8f25978c, w1: 0x830d8e1429103dbb, w2: 0x8410ffda99135a0b, w3: 0x59f8e9dbd87b8e04 }
}

/// Length in bytes of an encoded key.
pub const PUBKEY_LEN: usize = 32;

impl Pubkey {
    /// The key's 32 bytes.
    pub open spec fn spec_bytes(self) -> Seq<u8> {
        spec_u64_to_le_bytes(self.w0) + spec_u64_to_le_bytes(self.w1) + spec_u64_to_le_bytes(
            self.w2,
        ) + spec_u64_to_le_bytes(self.w3)
    }

    /// The key whose bytes are `s` (of length 32).
    pub open spec fn spec_from_bytes(s: Seq<u8>) -> Pubkey {
        Pubkey {
            w0: spec_u64_from_le_bytes(s.subrange(0, 8)),
            w1: spec_u64_from_le_bytes(s.subrange(8, 16)),
            w2: spec_u64_from_le_bytes(s.subrange(16, 24)),
            w3: spec_u64_from_le_bytes(s.subrange(24, 32)),
        }
    }

    pub proof fn lemma_bytes_round_trip(self)
        ensures
            self.spec_bytes().len() == 32,
            Pubkey::spec_from_bytes(self.spec_bytes()) == self,
    {
        lemma_auto_spec_u64_to_from_le_bytes();
        let s = self.spec_bytes();
        assert(s.subrange(0, 8) =~= spec_u64_to_le_bytes(self.w0));
        assert(s.subrange(8, 16) =~= spec_u64_to_le_bytes(self.w1));
        assert(s.subrange(16, 24) =~= spec_u64_to_le_bytes(self.w2));
        assert(s.subrange(24, 32) =~= spec_u64_to_le_bytes(self.w3));
    }

    pub proof fn lemma_from_bytes_round_trip(s: Seq<u8>)
        requires
            s.len() == 32,
        ensures
            Pubkey::spec_from_bytes(s).spec_bytes() == s,
    {
        lemma_auto_spec_u64_to_from_le_bytes();
        assert(s =~= s.subrange(0, 8) + s.subrange(8, 16) + s.subrange(16, 24) + s.subrange(
            24,
            32,
        ));
    }

    /// Reads a key from its 32 bytes.
    pub fn from_bytes(s: &[u8]) -> (r: Pubkey)
        requires
            s@.len() == 32,
        ensures
            r == Pubkey::spec_from_bytes(s@),
            r.spec_bytes() == s@,
    {
        proof {
            Pubkey::lemma_from_bytes_round_trip(s@);
        }
        Pubkey {
            w0: u64_from_le_bytes(slice_subrange(s, 0, 8)),
            w1: u64_from_le_bytes(slice_subrange(s, 8, 16)),
            w2: u64_from_le_bytes(slice_subrange(s, 16, 24)),
            w3: u64_from_le_bytes(slice_subrange(s, 24, 32)),
        }
    }

    /// The key's 32 bytes.
    pub fn to_bytes(&self) -> (r: Vec<u8>)
        ensures
            r@ == self.spec_bytes(),
    {
        let mut out = u64_to_le_bytes(self.w0);
        let mut b1 = u64_to_le_bytes(self.w1);
        let mut b2 = u64_to_le_bytes(self.w2);
        let mut b3 = u64_to_le_bytes(self.w3);
        out.append(&mut b1);
        out.append(&mut b2);
        out.append(&mut b3);
        out
    }
}

/// A plain-value view of one ledger account as an instruction sees it.
#[derive(Debug)]
pub struct AccountState {
    pub key: Pubkey,
    pub owner: Pubkey,
    pub is_signer: bool,
    pub lamports: u64,
    pub data: Vec<u8>,
}

} // verus!
