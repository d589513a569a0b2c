//! The persisted records: the allocation registry and the contributor ledger,
//! with their fixed-width little-endian layouts.
use crate::error::PresaleError;
use vstd::bytes::{spec_u64_from_le_bytes, spec_u64_to_le_bytes, u64_from_le_bytes, u64_to_le_bytes};
use vstd::prelude::*;
use vstd::slice::slice_subrange;

verus! {

/// The allocation registry: the reward supply and how much of it is sold.
#[derive(Clone, Copy, Debug, PartialEq, Eq, Structural)]
pub struct ConfigData {
    /// Reward tokens earmarked for the presale.
    pub nest_total: u64,
    /// Reward tokens sold so far.
    pub presale_total: u64,
}

/// One contributor's ledger.
#[derive(Clone, Copy, Debug, PartialEq, Eq, Structural)]
pub struct PresaleData {
    /// Reward tokens bought over all purchases.
    pub nest_total: u64,
    /// Reward tokens already paid out.
    pub nest_claim: u64,
    /// Cliff tranche not yet paid out.
    pub nest_cliff: u64,
    /// Bump seed of the ledger's derived address.
    pub bump: u8,
}

/// The little-endian bytes of a `u64` starting at `at`.
pub open spec fn u64_at(data: Seq<u8>, at: int) -> u64 {
    spec_u64_from_le_bytes(data.subrange(at, at + 8))
}

impl ConfigData {
    /// Length of the stored registry.
    pub const ACCOUNT_SPACE: usize = 16;
    /// Namespace of the registry's program address.
    pub const SEED_CONFIG: &'static str = "CONFIG";

    /// Never more sold than there is.
    pub open spec fn wf(&self) -> bool {
        self.presale_total <= self.nest_total
    }

    pub open spec fn encoding(&self) -> Seq<u8> {
        spec_u64_to_le_bytes(self.nest_total) + spec_u64_to_le_bytes(self.presale_total)
    }

    /// The registry that a 16-byte record holds.
    pub open spec fn decoded(data: Seq<u8>) -> ConfigData {
        ConfigData { nest_total: u64_at(data, 0), presale_total: u64_at(data, 8) }
    }

    pub open spec fn parse(data: Seq<u8>) -> Result<ConfigData, PresaleError> {
        if data.len() == 16 && Self::decoded(data).wf() {
            Ok(Self::decoded(data))
        } else {
            Err(PresaleError::InvalidRecord)
        }
    }

    /// The stored form of the registry.
    pub fn to_bytes(&self) -> (r: Vec<u8>)
        ensures
            r@ == self.encoding(),
            r@.len() == Self::ACCOUNT_SPACE,
    {
        proof {
            vstd::bytes::lemma_auto_spec_u64_to_from_le_bytes();
        }
        let mut r = u64_to_le_bytes(self.nest_total);
        let mut tail = u64_to_le_bytes(self.presale_total);
        r.append(&mut tail);
        r
    }

    /// Reads a stored registry; refuses a record of the wrong length or one
    /// that claims more sold than exists.
    pub fn from_bytes(data: &[u8]) -> (r: Result<ConfigData, PresaleError>)
        ensures
            r == Self::parse(data@),
    {
        if data.len() != 16 {
            return Err(PresaleError::InvalidRecord);
        }
        let total = u64_from_le_bytes(slice_subrange(data, 0, 8));
        let sold = u64_from_le_bytes(slice_subrange(data, 8, 16));
        if sold > total {
            return Err(PresaleError::InvalidRecord);
        }
        Ok(ConfigData { nest_total: total, presale_total: sold })
    }

    /// Takes `amount` out of what is left of the allocation.
    pub fn reserve(&mut self, amount: u64) -> (r: Result<(), PresaleError>)
        requires
            old(self).wf(),
        ensures
            final(self).wf(),
            final(self).nest_total == old(self).nest_total,
            r == Self::reserve_outcome(*old(self), amount),
            r is Ok ==> final(self).presale_total == old(self).presale_total + amount,
            r is Err ==> *final(self) == *old(self),
    {
        let remaining = self.nest_total - self.presale_total;
        if remaining == 0 {
            return Err(PresaleError::SoldOut);
        }
        if amount > remaining {
            return Err(PresaleError::InsufficientAllocation);
        }
        self.presale_total = self.presale_total + amount;
        Ok(())
    }

    /// Whether a reservation of `amount` succeeds, and else why not.
    pub open spec fn reserve_outcome(c: ConfigData, amount: u64) -> Result<(), PresaleError> {
        if c.presale_total == c.nest_total {
            Err(PresaleError::SoldOut)
        } else if amount > c.nest_total - c.presale_total {
            Err(PresaleError::InsufficientAllocation)
        } else {
            Ok(())
        }
    }
}

impl PresaleData {
    /// Length of the stored ledger.
    pub const ACCOUNT_SPACE: usize = 25;
    /// Namespace of the contributor ledgers' program addresses.
    pub const SEED_PRESALE: &'static str = "PRESALE";
    /// Namespace of the custody vault's program address.
    pub const SEED_BANK: &'static str = "BANK";

    /// Nothing paid or pending beyond what was bought.
    pub open spec fn wf(&self) -> bool {
        &&& self.nest_claim <= self.nest_total
        &&& self.nest_cliff <= self.nest_total
    }

    pub open spec fn encoding(&self) -> Seq<u8> {
        spec_u64_to_le_bytes(self.nest_total) + spec_u64_to_le_bytes(self.nest_claim)
            + spec_u64_to_le_bytes(self.nest_cliff) + seq![self.bump]
    }

    /// The ledger that a 25-byte record holds.
    pub open spec fn decoded(data: Seq<u8>) -> PresaleData {
        PresaleData {
            nest_total: u64_at(data, 0),
            nest_claim: u64_at(data, 8),
            nest_cliff: u64_at(data, 16),
            bump: data[24],
        }
    }

    pub open spec fn parse(data: Seq<u8>) -> Result<PresaleData, PresaleError> {
        if data.len() == 25 && Self::decoded(data).wf() {
            Ok(Self::decoded(data))
        } else {
            Err(PresaleError::InvalidRecord)
        }
    }

    /// The stored form of the ledger.
    pub fn to_bytes(&self) -> (r: Vec<u8>)
        ensures
            r@ == self.encoding(),
            r@.len() == Self::ACCOUNT_SPACE,
    {
        proof {
            vstd::bytes::lemma_auto_spec_u64_to_from_le_bytes();
        }
        let mut r = u64_to_le_bytes(self.nest_total);
        let mut claim = u64_to_le_bytes(self.nest_claim);
        let mut cliff = u64_to_le_bytes(self.nest_cliff);
        r.append(&mut claim);
        r.append(&mut cliff);
        r.push(self.bump);
        r
    }

    /// Reads a stored ledger; refuses a record of the wrong length or one whose
    /// paid or pending amounts exceed what was bought.
    pub fn from_bytes(data: &[u8]) -> (r: Result<PresaleData, PresaleError>)
        ensures
            r == Self::parse(data@),
    {
        if data.len() != 25 {
            return Err(PresaleError::InvalidRecord);
        }
        let total = u64_from_le_bytes(slice_subrange(data, 0, 8));
        let claimed = u64_from_le_bytes(slice_subrange(data, 8, 16));
        let cliff = u64_from_le_bytes(slice_subrange(data, 16, 24));
        if claimed > total || cliff > total {
            return Err(PresaleError::InvalidRecord);
        }
        Ok(PresaleData { nest_total: total, nest_claim: claimed, nest_cliff: cliff, bump: data[24] })
    }
}

} // verus!
