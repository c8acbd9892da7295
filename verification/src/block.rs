//! The blocks of a simulated chain and their linked history.

use std::sync::Arc;
use vstd::prelude::*;
use crate::account::{Balance, BlockHeight, Duration, EpochHeight, Gas};
use crate::genesis::GenesisConfig;
use crate::hash::{zero_hash, CryptoHash};

verus! {

/// One block of the simulated chain. A block owns the block it was produced
/// from, together with whoever else holds that block: the history is a linked
/// list that ends in the genesis block.
#[derive(Debug, Default)]
pub struct Block {
    /// The block that this one was produced from; none for the genesis block.
    pub prev_block: Option<Arc<Block>>,
    /// The root of the state after this block.
    pub state_root: CryptoHash,
    pub gas_burnt: Gas,
    pub epoch_height: EpochHeight,
    pub block_height: BlockHeight,
    /// Time of the block, in nanoseconds since the epoch.
    pub block_timestamp: u64,
    pub gas_price: Balance,
    pub gas_limit: Gas,
}

/// Calls `Arc::clone`: the result points to the same block.
#[verifier::external_body]
fn share(link: &Arc<Block>) -> (r: Arc<Block>)
    ensures
        r == *link,
{
    Arc::clone(link)
}

/// Calls `Arc::try_unwrap`: the block itself where this was the last
/// pointer to it, else the pointer again. Either way the block is the one
/// that the pointer led to.
#[verifier::external_body]
fn unshare(link: Arc<Block>) -> (r: Result<Block, Arc<Block>>)
    ensures
        match r {
            Ok(block) => block == *link,
            Err(shared) => shared == link,
        },
    opens_invariants none
    no_unwind
{
    Arc::try_unwrap(link)
}

/// The epoch that a block of the given height lies in.
pub open spec fn epoch_of(block_height: int, epoch_length: int) -> int {
    block_height / epoch_length
}

impl Block {
    /// The number of blocks before this one in its history.
    pub open spec fn depth(&self) -> nat
        decreases self,
    {
        match self.prev_block {
            Some(prev) => 1 + prev.depth(),
            None => 0,
        }
    }

    /// The genesis block of this block's history.
    pub open spec fn first(&self) -> Block
        decreases self,
    {
        match self.prev_block {
            Some(prev) => prev.first(),
            None => *self,
        }
    }

    /// Whether `self` is what `prev` produces with the given state root, on a
    /// chain with the given epoch length and block interval.
    pub open spec fn follows(
        &self,
        prev: &Block,
        state_root: Seq<u8>,
        epoch_length: u64,
        block_prod_time: Duration,
    ) -> bool {
        &&& self.prev_block matches Some(link)
        &&& *link == *prev
        &&& self.state_root@ == state_root
        &&& self.gas_burnt == 0
        &&& self.block_height == prev.block_height + 1
        &&& self.epoch_height == epoch_of(prev.block_height + 1, epoch_length as int)
        &&& self.block_timestamp == prev.block_timestamp + block_prod_time
        &&& self.gas_price == prev.gas_price
        &&& self.gas_limit == prev.gas_limit
    }

    /// The invariant of a history: every block lies in the epoch that its
    /// height gives, and every block but the genesis block is one higher and
    /// one block interval later than the block before it.
    pub open spec fn linked(&self, epoch_length: u64, block_prod_time: Duration) -> bool
        decreases self,
    {
        &&& self.epoch_height == epoch_of(self.block_height as int, epoch_length as int)
        &&& match self.prev_block {
            Some(prev) => {
                &&& self.block_height == prev.block_height + 1
                &&& self.block_timestamp == prev.block_timestamp + block_prod_time
                &&& prev.linked(epoch_length, block_prod_time)
            },
            None => true,
        }
    }

    /// After `n` blocks have been produced from a genesis block at height
    /// `h`, the current block has height `h + n`, lies in epoch
    /// `(h + n) / epoch_length`, and is `n` block intervals later than the
    /// genesis block.
    pub proof fn lemma_height_after_blocks(&self, epoch_length: u64, block_prod_time: Duration)
        requires
            self.linked(epoch_length, block_prod_time),
        ensures
            self.block_height == self.first().block_height + self.depth(),
            self.epoch_height == epoch_of(
                self.first().block_height + self.depth(),
                epoch_length as int,
            ),
            self.block_timestamp == self.first().block_timestamp + self.depth() * block_prod_time,
            self.first().prev_block is None,
        decreases self,
    {
        match self.prev_block {
            Some(prev) => {
                prev.lemma_height_after_blocks(epoch_length, block_prod_time);
                assert((1 + prev.depth()) * block_prod_time == block_prod_time + prev.depth()
                    * block_prod_time) by (nonlinear_arith);
            },
            None => {},
        }
    }

    /// The first block of a chain: at the height and time that the genesis
    /// names, with the all-zero state root and no block before it.
    pub fn genesis(genesis_config: &GenesisConfig) -> (r: Self)
        requires
            genesis_config.epoch_length > 0,
        ensures
            r.prev_block is None,
            r.state_root@ == zero_hash(),
            r.gas_burnt == 0,
            r.block_height == genesis_config.genesis_height,
            r.epoch_height == epoch_of(
                genesis_config.genesis_height as int,
                genesis_config.epoch_length as int,
            ),
            r.block_timestamp == genesis_config.genesis_time,
            r.gas_price == genesis_config.gas_price,
            r.gas_limit == genesis_config.gas_limit,
            r.linked(genesis_config.epoch_length, genesis_config.block_prod_time),
    {
        Block {
            prev_block: None,
            state_root: CryptoHash::default(),
            block_height: genesis_config.genesis_height,
            epoch_height: genesis_config.genesis_height / genesis_config.epoch_length,
            block_timestamp: genesis_config.genesis_time,
            gas_price: genesis_config.gas_price,
            gas_limit: genesis_config.gas_limit,
            gas_burnt: 0,
        }
    }

    /// The block after this one: one higher, one block interval later, with
    /// the new state root and no gas burnt. It keeps this block as its
    /// predecessor.
    pub fn produce(&self, new_state_root: CryptoHash, epoch_length: u64, block_prod_time: Duration) -> (r:
        Block)
        requires
            epoch_length > 0,
            self.block_height < u64::MAX,
            self.block_timestamp + block_prod_time <= u64::MAX,
        ensures
            r.follows(self, new_state_root@, epoch_length, block_prod_time),
            r.depth() == self.depth() + 1,
            r.first() == self.first(),
            self.linked(epoch_length, block_prod_time) ==> r.linked(epoch_length, block_prod_time),
    {
        Block {
            gas_price: self.gas_price,
            gas_limit: self.gas_limit,
            block_timestamp: self.block_timestamp + block_prod_time,
            prev_block: Some(Arc::new(self.clone())),
            state_root: new_state_root,
            block_height: self.block_height + 1,
            epoch_height: (self.block_height + 1) / epoch_length,
            gas_burnt: 0,
        }
    }
}

impl Clone for Block {
    /// A second handle to the same block: the history is shared, not copied.
    fn clone(&self) -> (r: Self)
        ensures
            r == *self,
    {
        let prev_block = match &self.prev_block {
            Some(link) => Some(share(link)),
            None => None,
        };
        Block {
            prev_block,
            state_root: self.state_root,
            gas_burnt: self.gas_burnt,
            epoch_height: self.epoch_height,
            block_height: self.block_height,
            block_timestamp: self.block_timestamp,
            gas_price: self.gas_price,
            gas_limit: self.gas_limit,
        }
    }
}

impl Drop for Block {
    /// Lets go of the history block by block. A block that nobody else holds
    /// is taken apart here, in a loop, so that dropping it never descends
    /// into the blocks before it; the walk ends at the genesis block or at
    /// the first block that someone else still holds.
    fn drop(&mut self)
        ensures
            *final(self) == (Block { prev_block: None, ..*old(self) }),
        opens_invariants none
        no_unwind
    {
        let mut curr: Option<Arc<Block>> = None;
        core::mem::swap(&mut curr, &mut self.prev_block);
        loop
            decreases curr,
        {
            let link = match curr {
                Some(link) => link,
                None => {
                    break ;
                },
            };
            let mut next = match unshare(link) {
                Ok(next) => next,
                Err(_) => {
                    break ;
                },
            };
            curr = None;
            core::mem::swap(&mut curr, &mut next.prev_block);
        }
    }
}

} // verus!
