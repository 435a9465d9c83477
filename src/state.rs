use crate::account::{Pubkey, PUBKEY_LEN};
use crate::error::ProgramFault;
use vstd::bytes::{
    lemma_auto_spec_u64_to_from_le_bytes, spec_u64_from_le_bytes, spec_u64_to_le_bytes,
    u64_from_le_bytes, u64_to_le_bytes,
};
use vstd::prelude::*;
use vstd::slice::slice_subrange;

verus! {

/// Administrative record: a key and its derivation proof byte.
#[derive(Clone, Copy, Debug, PartialEq, Eq, Structural)]
pub struct Admin {
    pub admin: Pubkey,
    pub bump: u8,
}

/// A stake position: what was locked, when it matures, who may claim it, and
/// the proof byte of the record's derived address.
#[derive(Clone, Copy, Debug, PartialEq, Eq, Structural)]
pub struct Participant {
    pub stake: u64,
    pub active_time: i64,
    pub participant: Pubkey,
    pub bump: u8,
}

pub proof fn lemma_i64_bits_round_trip(x: i64)
    ensures
        (x as u64) as i64 == x,
{
    assert((x as u64) as i64 == x) by (bit_vector);
}

impl Admin {
    /// Encoded length: key, then bump.
    pub const LEN: usize = 33;

    /// The record's byte layout.
    pub open spec fn spec_encode(self) -> Seq<u8> {
        self.admin.spec_bytes() + seq![self.bump]
    }

    /// The record held by `s` (of length `LEN`).
    pub open spec fn spec_decode(s: Seq<u8>) -> Admin {
        Admin { admin: Pubkey::spec_from_bytes(s.subrange(0, 32)), bump: s[32] }
    }

    /// Decoding an encoded record gives it back.
    pub proof fn lemma_decode_encode(self)
        ensures
            self.spec_encode().len() == Admin::LEN,
            Admin::spec_decode(self.spec_encode()) == self,
    {
        self.admin.lemma_bytes_round_trip();
        assert(self.spec_encode().subrange(0, 32) =~= self.admin.spec_bytes());
    }

    /// Reads the record; fails exactly when the buffer is not `LEN` bytes.
    pub fn load(bytes: &[u8]) -> (r: Result<Admin, ProgramFault>)
        ensures
            bytes@.len() != Admin::LEN ==> r == Err::<Admin, ProgramFault>(
                ProgramFault::InvalidAccountData,
            ),
            bytes@.len() == Admin::LEN ==> r == Ok::<Admin, ProgramFault>(
                Admin::spec_decode(bytes@),
            ),
    {
        if bytes.len() != Self::LEN {
            return Err(ProgramFault::InvalidAccountData);
        }
        let admin = Pubkey::from_bytes(slice_subrange(bytes, 0, PUBKEY_LEN));
        Ok(Admin { admin, bump: bytes[32] })
    }

    /// The record's bytes.
    pub fn encode(&self) -> (r: Vec<u8>)
        ensures
            r@ == self.spec_encode(),
    {
        let mut out = self.admin.to_bytes();
        out.push(self.bump);
        proof {
            assert(out@ =~= self.spec_encode());
        }
        out
    }

    /// Overwrites a `LEN`-byte buffer with the record; any other buffer is
    /// refused and left as it was.
    pub fn store(&self, bytes: &mut Vec<u8>) -> (r: Result<(), ProgramFault>)
        ensures
            old(bytes)@.len() != Admin::LEN ==> r == Err::<(), ProgramFault>(
                ProgramFault::InvalidAccountData,
            ) && final(bytes)@ == old(bytes)@,
            old(bytes)@.len() == Admin::LEN ==> r is Ok && final(bytes)@ == self.spec_encode(),
    {
        if bytes.len() != Self::LEN {
            return Err(ProgramFault::InvalidAccountData);
        }
        *bytes = self.encode();
        Ok(())
    }

    pub fn set_inner(&mut self, admin: Pubkey, bump: u8)
        ensures
            *final(self) == (Admin { admin, bump }),
    {
        self.admin = admin;
        self.bump = bump;
    }
}

impl Participant {
    /// Encoded length: stake, active time, key, bump.
    pub const LEN: usize = 49;

    /// The record's byte layout: little-endian stake, little-endian
    /// two's-complement active time, the participant's key, the bump.
    pub open spec fn spec_encode(self) -> Seq<u8> {
        spec_u64_to_le_bytes(self.stake) + spec_u64_to_le_bytes(self.active_time as u64)
            + self.participant.spec_bytes() + seq![self.bump]
    }

    /// The record held by `s` (of length `LEN`).
    pub open spec fn spec_decode(s: Seq<u8>) -> Participant {
        Participant {
            stake: spec_u64_from_le_bytes(s.subrange(0, 8)),
            active_time: spec_u64_from_le_bytes(s.subrange(8, 16)) as i64,
            participant: Pubkey::spec_from_bytes(s.subrange(16, 48)),
            bump: s[48],
        }
    }

    /// Decoding an encoded record gives it back.
    pub proof fn lemma_decode_encode(self)
        ensures
            self.spec_encode().len() == Participant::LEN,
            Participant::spec_decode(self.spec_encode()) == self,
    {
        lemma_auto_spec_u64_to_from_le_bytes();
        self.participant.lemma_bytes_round_trip();
        lemma_i64_bits_round_trip(self.active_time);
        let s = self.spec_encode();
        assert(s.subrange(0, 8) =~= spec_u64_to_le_bytes(self.stake));
        assert(s.subrange(8, 16) =~= spec_u64_to_le_bytes(self.active_time as u64));
        assert(s.subrange(16, 48) =~= self.participant.spec_bytes());
    }

    /// Reads the record; fails exactly when the buffer is not `LEN` bytes.
    pub fn load(bytes: &[u8]) -> (r: Result<Participant, ProgramFault>)
        ensures
            bytes@.len() != Participant::LEN ==> r == Err::<Participant, ProgramFault>(
                ProgramFault::InvalidAccountData,
            ),
            bytes@.len() == Participant::LEN ==> r == Ok::<Participant, ProgramFault>(
                Participant::spec_decode(bytes@),
            ),
    {
        if bytes.len() != Self::LEN {
            return Err(ProgramFault::InvalidAccountData);
        }
        let stake = u64_from_le_bytes(slice_subrange(bytes, 0, 8));
        let active_time = u64_from_le_bytes(slice_subrange(bytes, 8, 16)) as i64;
        let participant = Pubkey::from_bytes(slice_subrange(bytes, 16, 48));
        Ok(Participant { stake, active_time, participant, bump: bytes[48] })
    }

    /// The record's bytes.
    pub fn encode(&self) -> (r: Vec<u8>)
        ensures
            r@ == self.spec_encode(),
    {
        let mut out = u64_to_le_bytes(self.stake);
        let mut t = u64_to_le_bytes(self.active_time as u64);
        let mut k = self.participant.to_bytes();
        out.append(&mut t);
        out.append(&mut k);
        out.push(self.bump);
        proof {
            assert(out@ =~= self.spec_encode());
        }
        out
    }

    /// Overwrites a `LEN`-byte buffer with the record; any other buffer is
    /// refused and left as it was.
    pub fn store(&self, bytes: &mut Vec<u8>) -> (r: Result<(), ProgramFault>)
        ensures
            old(bytes)@.len() != Participant::LEN ==> r == Err::<(), ProgramFault>(
                ProgramFault::InvalidAccountData,
            ) && final(bytes)@ == old(bytes)@,
            old(bytes)@.len() == Participant::LEN ==> r is Ok && final(bytes)@
                == self.spec_encode(),
    {
        if bytes.len() != Self::LEN {
            return Err(ProgramFault::InvalidAccountData);
        }
        *bytes = self.encode();
        Ok(())
    }

    pub fn set_inner(&mut self, stake: u64, active_time: i64, participant: Pubkey, bump: u8)
        ensures
            *final(self) == (Participant { stake, active_time, participant, bump }),
    {
        self.stake = stake;
        self.active_time = active_time;
        self.participant = participant;
        self.bump = bump;
    }
}

} // verus!
