use vstd::prelude::*;

verus! {

/// A 32-byte public key: the identity of a signer, a pool or a stake record.
#[derive(Clone, Copy, Debug)]
pub struct Identity {
    pub bytes: [u8; 32],
}

impl Identity {
    /// The all-zero key, which an unset identity field holds.
    pub fn zero() -> (r: Identity)
        ensures
            r.bytes@ == Seq::new(32, |i: int| 0u8),
    {
        let r = Identity { bytes: [0u8; 32] };
        assert(r.bytes@ =~= Seq::new(32, |i: int| 0u8));
        r
    }

    /// Whether two identities hold the same key.
    pub fn same_as(&self, other: &Identity) -> (r: bool)
        ensures
            r == (self.bytes@ == other.bytes@),
    {
        let mut i: usize = 0;
        while i < 32
            invariant
                0 <= i <= 32,
                self.bytes@.len() == 32,
                other.bytes@.len() == 32,
                forall|j: int| 0 <= j < i ==> self.bytes@[j] == other.bytes@[j],
            decreases 32 - i,
        {
            if self.bytes[i] != other.bytes[i] {
                return false;
            }
            i = i + 1;
        }
        assert(self.bytes@ =~= other.bytes@);
        true
    }
}

/// The pool record: reward policy, aggregate stake and the pool's creator.
#[derive(Clone, Copy, Debug)]
pub struct PoolAccount {
    /// Reward units per staked unit and second.
    pub reward_rate: u64,
    /// Sum of the stakes of all of this pool's stake records.
    pub total_staked: u64,
    /// The identity that created the pool, the only one that may change its rate.
    pub initializer: Identity,
}

/// One depositor's stake in one pool.
#[derive(Clone, Copy, Debug)]
pub struct UserStake {
    /// Principal currently held for the depositor.
    pub amount_staked: u64,
    /// When the balance last went from zero to nonzero.
    pub start_time: i64,
    /// When rewards were last claimed (zero before the first claim).
    pub last_claim_time: i64,
    /// The pool this record belongs to.
    pub pool_account: Identity,
    /// The depositor, the only identity that may unstake from this record.
    pub staker: Identity,
}

/// What a successful stake reports to outside observers.
#[derive(Clone, Copy, Debug)]
pub struct StakeEvent {
    pub user: Identity,
    pub amount: u64,
    pub time: i64,
}

} // verus!
